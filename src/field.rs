//! Fields of a struct.
use vstd::prelude::*;

use crate::attribute::{
    all_attributes, append_attribute_lines, attribute_models, attribute_texts, classify,
    classify_all, extend_attributes, push_attribute, Attribute, AttributeModel,
};
use crate::decorations::{AttributeExt, DocExt};
use crate::text::{append_lines, extend_strings, lines, texts};
use crate::traits::SrcCode;

verus! {

/// A field as a value.
pub ghost struct FieldModel {
    pub name: Seq<char>,
    pub is_pub: bool,
    pub ty: Seq<char>,
    pub attributes: Seq<AttributeModel>,
    pub docs: Seq<Seq<char>>,
}

/// A named, typed field of a struct, with its documentation lines and
/// attributes.
#[derive(Clone, Debug)]
pub struct Field {
    name: String,
    is_pub: bool,
    ty: String,
    attributes: Vec<Attribute>,
    docs: Vec<String>,
}

impl View for Field {
    type V = FieldModel;

    closed spec fn view(&self) -> FieldModel {
        FieldModel {
            name: self.name@,
            is_pub: self.is_pub,
            ty: self.ty@,
            attributes: attribute_models(self.attributes@),
            docs: texts(self.docs@),
        }
    }
}

/// `pub ` when `is_pub` holds, else nothing.
pub open spec fn visibility(is_pub: bool) -> Seq<char> {
    if is_pub {
        "pub "@
    } else {
        Seq::empty()
    }
}

/// Appends `pub ` when `is_pub` holds.
pub fn append_visibility(buf: &mut String, is_pub: bool)
    ensures
        final(buf)@ == old(buf)@ + visibility(is_pub),
{
    if is_pub {
        buf.append("pub ");
    } else {
        assert(old(buf)@ + visibility(is_pub) =~= old(buf)@);
    }
}

/// Documentation lines, attribute lines, then `name: type,`.
pub open spec fn field_text(f: FieldModel) -> Seq<char> {
    lines(f.docs) + lines(attribute_texts(f.attributes)) + visibility(f.is_pub) + f.name + ": "@
        + f.ty + ",\n"@
}

/// The models of a list of fields.
pub open spec fn field_models(v: Seq<Field>) -> Seq<FieldModel> {
    v.map_values(|f: Field| f@)
}

impl Field {
    /// A private field `name: ty` without documentation or attributes.
    pub fn new(name: &str, ty: &str) -> (r: Field)
        ensures
            r@ == (FieldModel {
                name: name@,
                is_pub: false,
                ty: ty@,
                attributes: seq![],
                docs: seq![],
            }),
    {
        let r = Field {
            name: name.to_string(),
            is_pub: false,
            ty: ty.to_string(),
            attributes: Vec::new(),
            docs: Vec::new(),
        };
        assert(r@.attributes =~= seq![]);
        assert(r@.docs =~= seq![]);
        r
    }

    /// Sets whether the field is public.
    pub fn set_is_pub(&mut self, is_pub: bool) -> (r: &mut Self)
        ensures
            r@ == (FieldModel { is_pub, ..old(self)@ }),
            *final(self) == *final(r),
    {
        self.is_pub = is_pub;
        self
    }

    /// Adds an annotation such as `#[serde(rename = "x")]`; the same as
    /// `add_attribute`.
    pub fn add_annotation(&mut self, annotation: &str) -> (r: &mut Self)
        requires
            classify(annotation@) is Some,
        ensures
            r@ == (FieldModel {
                attributes: old(self)@.attributes.push(classify(annotation@)->0),
                ..old(self)@
            }),
            *final(self) == *final(r),
    {
        self.add_attribute(annotation)
    }

    /// Adds annotations in order; the same as `add_attributes`.
    pub fn add_annotations(&mut self, annotations: Vec<&str>) -> (r: &mut Self)
        requires
            all_attributes(annotations@),
        ensures
            r@ == (FieldModel {
                attributes: old(self)@.attributes + classify_all(annotations@),
                ..old(self)@
            }),
            *final(self) == *final(r),
    {
        self.add_attributes(annotations)
    }
}

impl AttributeExt for Field {
    open spec fn attributes_of(m: FieldModel) -> Seq<AttributeModel> {
        m.attributes
    }

    open spec fn with_attributes(m: FieldModel, a: Seq<AttributeModel>) -> FieldModel {
        FieldModel { attributes: a, ..m }
    }

    fn add_attribute(&mut self, attribute: &str) -> (r: &mut Self) {
        push_attribute(&mut self.attributes, attribute);
        self
    }

    fn add_attributes(&mut self, attributes: Vec<&str>) -> (r: &mut Self) {
        extend_attributes(&mut self.attributes, attributes);
        self
    }
}

impl DocExt for Field {
    open spec fn docs_of(m: FieldModel) -> Seq<Seq<char>> {
        m.docs
    }

    open spec fn with_docs(m: FieldModel, d: Seq<Seq<char>>) -> FieldModel {
        FieldModel { docs: d, ..m }
    }

    fn add_doc(&mut self, doc: &str) -> (r: &mut Self) {
        let ghost prev = self.docs@;
        self.docs.push(doc.to_string());
        assert(texts(self.docs@) =~= texts(prev).push(doc@));
        self
    }

    fn add_docs(&mut self, docs: Vec<&str>) -> (r: &mut Self) {
        extend_strings(&mut self.docs, docs);
        self
    }
}

impl SrcCode for Field {
    open spec fn src(&self) -> Seq<char> {
        field_text(self@)
    }

    fn generate(&self) -> (r: String) {
        let mut r = String::new();
        append_lines(&mut r, &self.docs);
        append_attribute_lines(&mut r, &self.attributes);
        append_visibility(&mut r, self.is_pub);
        r.append(self.name.as_str());
        r.append(": ");
        r.append(self.ty.as_str());
        r.append(",\n");
        r
    }
}

} // verus!
