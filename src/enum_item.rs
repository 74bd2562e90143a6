//! Enums and their variants.
use vstd::prelude::*;

use crate::decorations::GenericExt;
use crate::field::{append_visibility, visibility};
use crate::generics::{type_params, where_clause, Generic, GenericModel, Generics};
use crate::text::{concat, lemma_concat_push};
use crate::traits::SrcCode;

verus! {

/// A variant as a value.
pub ghost struct VariantModel {
    pub name: Seq<char>,
    pub inner: Option<Seq<char>>,
}

/// One variant of an enum: a name and, optionally, the text of its payload
/// such as `(T)` or `{ x: u8 }`.
#[derive(Clone, Debug)]
pub struct Variant {
    name: String,
    inner: Option<String>,
}

impl View for Variant {
    type V = VariantModel;

    closed spec fn view(&self) -> VariantModel {
        VariantModel {
            name: self.name@,
            inner: match self.inner {
                Some(s) => Some(s@),
                None => None,
            },
        }
    }
}

/// The name, then the payload if there is one.
pub open spec fn variant_text(v: VariantModel) -> Seq<char> {
    match v.inner {
        Some(s) => v.name + s,
        None => v.name,
    }
}

impl Variant {
    /// A variant `name` without payload.
    pub fn new(name: &str) -> (r: Variant)
        ensures
            r@ == (VariantModel { name: name@, inner: None }),
    {
        Variant { name: name.to_string(), inner: None }
    }

    /// Sets the payload text, or removes it with `None`.
    pub fn set_inner(&mut self, inner: Option<&str>) -> (r: &mut Self)
        ensures
            r@ == (VariantModel {
                inner: match inner {
                    Some(s) => Some(s@),
                    None => None,
                },
                ..old(self)@
            }),
            *final(self) == *final(r),
    {
        self.inner = match inner {
            Some(s) => Some(s.to_string()),
            None => None,
        };
        self
    }
}

impl SrcCode for Variant {
    open spec fn src(&self) -> Seq<char> {
        variant_text(self@)
    }

    fn generate(&self) -> (r: String) {
        let mut r = self.name.clone();
        match &self.inner {
            Some(s) => r.append(s.as_str()),
            None => {},
        }
        r
    }
}

/// An enum as a value.
pub ghost struct EnumModel {
    pub name: Seq<char>,
    pub is_pub: bool,
    pub variants: Seq<VariantModel>,
    pub generics: Seq<GenericModel>,
}

/// An enum with its variants.
#[derive(Clone, Debug)]
pub struct Enum {
    name: String,
    generics: Generics,
    is_pub: bool,
    variants: Vec<Variant>,
}

/// The models of a list of variants.
pub open spec fn variant_models(v: Seq<Variant>) -> Seq<VariantModel> {
    v.map_values(|x: Variant| x@)
}

impl View for Enum {
    type V = EnumModel;

    closed spec fn view(&self) -> EnumModel {
        EnumModel {
            name: self.name@,
            is_pub: self.is_pub,
            variants: variant_models(self.variants@),
            generics: self.generics@,
        }
    }
}

/// One variant per line, each followed by a comma.
pub open spec fn variant_lines(vs: Seq<VariantModel>) -> Seq<char> {
    concat(vs.map_values(|v: VariantModel| variant_text(v) + ",\n"@))
}

/// The header with the generic parameters and where clause, then the
/// variants in a block.
pub open spec fn enum_text(e: EnumModel) -> Seq<char> {
    visibility(e.is_pub) + "enum "@ + e.name + type_params(e.generics) + seq!['\n'] + where_clause(
        e.generics,
    ) + "{\n"@ + variant_lines(e.variants) + "}\n"@
}

impl Enum {
    /// A private enum `name` without variants or generics.
    pub fn new(name: &str) -> (r: Enum)
        ensures
            r@ == (EnumModel { name: name@, is_pub: false, variants: seq![], generics: seq![] }),
    {
        let r = Enum {
            name: name.to_string(),
            generics: Generics::empty(),
            is_pub: false,
            variants: Vec::new(),
        };
        assert(r@.variants =~= seq![]);
        r
    }

    /// Sets whether the enum is public.
    pub fn set_is_pub(&mut self, is_pub: bool) -> (r: &mut Self)
        ensures
            r@ == (EnumModel { is_pub, ..old(self)@ }),
            *final(self) == *final(r),
    {
        self.is_pub = is_pub;
        self
    }

    /// Adds a variant after those already there.
    pub fn add_variant(&mut self, variant: Variant) -> (r: &mut Self)
        ensures
            r@ == (EnumModel { variants: old(self)@.variants.push(variant@), ..old(self)@ }),
            *final(self) == *final(r),
    {
        self.variants.push(variant);
        assert(variant_models(self.variants@) =~= old(self)@.variants.push(variant@));
        self
    }
}

impl GenericExt for Enum {
    open spec fn generics_of(m: EnumModel) -> Seq<GenericModel> {
        m.generics
    }

    open spec fn with_generics(m: EnumModel, g: Seq<GenericModel>) -> EnumModel {
        EnumModel { generics: g, ..m }
    }

    fn add_generic(&mut self, generic: Generic) -> (r: &mut Self) {
        self.generics.add_generic(generic);
        self
    }

    fn add_generics(&mut self, generics: Vec<Generic>) -> (r: &mut Self) {
        self.generics.add_generics(generics);
        self
    }
}

impl SrcCode for Enum {
    open spec fn src(&self) -> Seq<char> {
        enum_text(self@)
    }

    fn generate(&self) -> (r: String) {
        let mut r = String::new();
        append_visibility(&mut r, self.is_pub);
        r.append("enum ");
        r.append(self.name.as_str());
        self.generics.append_type_params(&mut r);
        proof {
            reveal_strlit("\n");
        }
        r.append("\n");
        self.generics.append_where_clause(&mut r);
        r.append("{\n");
        let ghost start = r@;
        let ghost parts = self@.variants.map_values(|v: VariantModel| variant_text(v) + ",\n"@);
        let mut i: usize = 0;
        while i < self.variants.len()
            invariant
                i <= self.variants.len(),
                parts == self@.variants.map_values(|v: VariantModel| variant_text(v) + ",\n"@),
                self@.variants == variant_models(self.variants@),
                r@ == start + concat(parts.take(i as int)),
            decreases self.variants.len() - i,
        {
            let v = self.variants[i].generate();
            r.append(v.as_str());
            r.append(",\n");
            proof {
                lemma_concat_push(parts.take(i as int), parts[i as int]);
                assert(parts.take(i as int).push(parts[i as int]) =~= parts.take(i + 1));
            }
            i += 1;
        }
        assert(parts.take(i as int) =~= parts);
        r.append("}\n");
        r
    }
}

} // verus!
