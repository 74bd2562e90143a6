//! Structs.
use vstd::prelude::*;

use crate::attribute::{
    append_attribute_lines, attribute_models, attribute_texts, extend_attributes, push_attribute,
    Attribute, AttributeModel,
};
use crate::decorations::{AttributeExt, DocExt, FieldExt, GenericExt};
use crate::field::{append_visibility, field_models, field_text, visibility, Field, FieldModel};
use crate::generics::{type_params, where_clause, Generic, GenericModel, Generics};
use crate::text::{append_lines, concat, extend_strings, lines, texts};
use crate::traits::{append_all, SrcCode, SrcCodeVec};

verus! {

/// A struct as a value.
pub ghost struct StructModel {
    pub name: Seq<char>,
    pub is_pub: bool,
    pub fields: Seq<FieldModel>,
    pub generics: Seq<GenericModel>,
    pub docs: Seq<Seq<char>>,
    pub attributes: Seq<AttributeModel>,
}

/// A struct with named fields.
#[derive(Clone, Debug)]
pub struct Struct {
    is_pub: bool,
    name: String,
    fields: Vec<Field>,
    generics: Generics,
    docs: Vec<String>,
    attributes: Vec<Attribute>,
}

impl View for Struct {
    type V = StructModel;

    closed spec fn view(&self) -> StructModel {
        StructModel {
            name: self.name@,
            is_pub: self.is_pub,
            fields: field_models(self.fields@),
            generics: self.generics@,
            docs: texts(self.docs@),
            attributes: attribute_models(self.attributes@),
        }
    }
}

/// Documentation lines, attribute lines, the header with the generic
/// parameters and where clause, then the fields in a block.
pub open spec fn struct_text(s: StructModel) -> Seq<char> {
    lines(s.docs) + lines(attribute_texts(s.attributes)) + visibility(s.is_pub) + "struct "@
        + s.name + type_params(s.generics) + seq!['\n'] + where_clause(s.generics) + "{\n"@
        + concat(s.fields.map_values(|f: FieldModel| field_text(f))) + "}\n"@
}

impl Struct {
    /// A private struct `name` without fields, generics, documentation or
    /// attributes.
    pub fn new(name: &str) -> (r: Struct)
        ensures
            r@ == (StructModel {
                name: name@,
                is_pub: false,
                fields: seq![],
                generics: seq![],
                docs: seq![],
                attributes: seq![],
            }),
    {
        let r = Struct {
            is_pub: false,
            name: name.to_string(),
            fields: Vec::new(),
            generics: Generics::empty(),
            docs: Vec::new(),
            attributes: Vec::new(),
        };
        assert(r@.fields =~= seq![]);
        assert(r@.docs =~= seq![]);
        assert(r@.attributes =~= seq![]);
        r
    }

    /// Sets whether the struct is public.
    pub fn set_is_pub(&mut self, is_pub: bool) -> (r: &mut Self)
        ensures
            r@ == (StructModel { is_pub, ..old(self)@ }),
            *final(self) == *final(r),
    {
        self.is_pub = is_pub;
        self
    }
}

impl AttributeExt for Struct {
    open spec fn attributes_of(m: StructModel) -> Seq<AttributeModel> {
        m.attributes
    }

    open spec fn with_attributes(m: StructModel, a: Seq<AttributeModel>) -> StructModel {
        StructModel { attributes: a, ..m }
    }

    fn add_attribute(&mut self, attribute: &str) -> (r: &mut Self) {
        push_attribute(&mut self.attributes, attribute);
        self
    }

    fn add_attributes(&mut self, attributes: Vec<&str>) -> (r: &mut Self) {
        extend_attributes(&mut self.attributes, attributes);
        self
    }
}

impl DocExt for Struct {
    open spec fn docs_of(m: StructModel) -> Seq<Seq<char>> {
        m.docs
    }

    open spec fn with_docs(m: StructModel, d: Seq<Seq<char>>) -> StructModel {
        StructModel { docs: d, ..m }
    }

    fn add_doc(&mut self, doc: &str) -> (r: &mut Self) {
        let ghost prev = self.docs@;
        self.docs.push(doc.to_string());
        assert(texts(self.docs@) =~= texts(prev).push(doc@));
        self
    }

    fn add_docs(&mut self, docs: Vec<&str>) -> (r: &mut Self) {
        extend_strings(&mut self.docs, docs);
        self
    }
}

impl GenericExt for Struct {
    open spec fn generics_of(m: StructModel) -> Seq<GenericModel> {
        m.generics
    }

    open spec fn with_generics(m: StructModel, g: Seq<GenericModel>) -> StructModel {
        StructModel { generics: g, ..m }
    }

    fn add_generic(&mut self, generic: Generic) -> (r: &mut Self) {
        self.generics.add_generic(generic);
        self
    }

    fn add_generics(&mut self, generics: Vec<Generic>) -> (r: &mut Self) {
        self.generics.add_generics(generics);
        self
    }
}

impl FieldExt for Struct {
    open spec fn fields_of(m: StructModel) -> Seq<FieldModel> {
        m.fields
    }

    open spec fn with_fields(m: StructModel, f: Seq<FieldModel>) -> StructModel {
        StructModel { fields: f, ..m }
    }

    fn add_field(&mut self, field: Field) -> (r: &mut Self) {
        self.fields.push(field);
        assert(field_models(self.fields@) =~= old(self)@.fields.push(field@));
        self
    }

    fn add_fields(&mut self, fields: Vec<Field>) -> (r: &mut Self) {
        let ghost added = fields@;
        let mut fields = fields;
        self.fields.append(&mut fields);
        assert(field_models(self.fields@) =~= old(self)@.fields + field_models(added));
        self
    }
}

impl SrcCode for Struct {
    open spec fn src(&self) -> Seq<char> {
        struct_text(self@)
    }

    fn generate(&self) -> (r: String) {
        let mut r = String::new();
        append_lines(&mut r, &self.docs);
        append_attribute_lines(&mut r, &self.attributes);
        append_visibility(&mut r, self.is_pub);
        r.append("struct ");
        r.append(self.name.as_str());
        self.generics.append_type_params(&mut r);
        proof {
            reveal_strlit("\n");
        }
        r.append("\n");
        self.generics.append_where_clause(&mut r);
        r.append("{\n");
        append_all(&mut r, &self.fields);
        assert(self.fields.srcs() =~= self@.fields.map_values(|f: FieldModel| field_text(f)));
        r.append("}\n");
        r
    }
}

} // verus!
