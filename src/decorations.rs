//! Capabilities shared by several nodes: attributes, documentation lines,
//! generic parameters, trait bounds and fields, each an ordered list that
//! grows at its end.
use vstd::prelude::*;

use crate::attribute::{all_attributes, classify, classify_all, AttributeModel};
use crate::field::{field_models, Field, FieldModel};
use crate::generics::{generic_models, Generic, GenericModel};
use crate::text::strs;

verus! {

/// A node that carries attributes.
pub trait AttributeExt: Sized + View {
    /// The attributes of a node, in order.
    spec fn attributes_of(m: Self::V) -> Seq<AttributeModel>;

    /// The node with its attributes replaced by `a` and nothing else changed.
    spec fn with_attributes(m: Self::V, a: Seq<AttributeModel>) -> Self::V;

    /// Adds the attribute that `attribute` stands for after those already
    /// there.
    fn add_attribute(&mut self, attribute: &str) -> (r: &mut Self)
        requires
            classify(attribute@) is Some,
        ensures
            r@ == Self::with_attributes(
                old(self)@,
                Self::attributes_of(old(self)@).push(classify(attribute@)->0),
            ),
            *final(self) == *final(r),
    ;

    /// Adds the attributes that `attributes` stand for, in order.
    fn add_attributes(&mut self, attributes: Vec<&str>) -> (r: &mut Self)
        requires
            all_attributes(attributes@),
        ensures
            r@ == Self::with_attributes(
                old(self)@,
                Self::attributes_of(old(self)@) + classify_all(attributes@),
            ),
            *final(self) == *final(r),
    ;
}

} // verus!

verus! {

/// A node that carries documentation lines.
pub trait DocExt: Sized + View {
    /// The documentation lines of a node, in order.
    spec fn docs_of(m: Self::V) -> Seq<Seq<char>>;

    /// The node with its documentation lines replaced by `d` and nothing
    /// else changed.
    spec fn with_docs(m: Self::V, d: Seq<Seq<char>>) -> Self::V;

    /// Adds a documentation line after those already there.
    fn add_doc(&mut self, doc: &str) -> (r: &mut Self)
        ensures
            r@ == Self::with_docs(old(self)@, Self::docs_of(old(self)@).push(doc@)),
            *final(self) == *final(r),
    ;

    /// Adds documentation lines after those already there, in order.
    fn add_docs(&mut self, docs: Vec<&str>) -> (r: &mut Self)
        ensures
            r@ == Self::with_docs(old(self)@, Self::docs_of(old(self)@) + strs(docs@)),
            *final(self) == *final(r),
    ;
}

/// A node that carries generic type parameters.
pub trait GenericExt: Sized + View {
    /// The generic parameters of a node, in order.
    spec fn generics_of(m: Self::V) -> Seq<GenericModel>;

    /// The node with its generic parameters replaced by `g` and nothing else
    /// changed.
    spec fn with_generics(m: Self::V, g: Seq<GenericModel>) -> Self::V;

    /// Adds a generic parameter after those already there.
    fn add_generic(&mut self, generic: Generic) -> (r: &mut Self)
        ensures
            r@ == Self::with_generics(old(self)@, Self::generics_of(old(self)@).push(generic@)),
            *final(self) == *final(r),
    ;

    /// Adds generic parameters after those already there, in order.
    fn add_generics(&mut self, generics: Vec<Generic>) -> (r: &mut Self)
        ensures
            r@ == Self::with_generics(
                old(self)@,
                Self::generics_of(old(self)@) + generic_models(generics@),
            ),
            *final(self) == *final(r),
    ;
}

/// A node that carries trait bounds.
pub trait TraitBoundExt: Sized + View {
    /// The trait bounds of a node, in order.
    spec fn bounds_of(m: Self::V) -> Seq<Seq<char>>;

    /// The node with its trait bounds replaced by `b` and nothing else
    /// changed.
    spec fn with_bounds(m: Self::V, b: Seq<Seq<char>>) -> Self::V;

    /// Adds a trait bound after those already there.
    fn add_trait_bound(&mut self, trait_bound: &str) -> (r: &mut Self)
        ensures
            r@ == Self::with_bounds(old(self)@, Self::bounds_of(old(self)@).push(trait_bound@)),
            *final(self) == *final(r),
    ;

    /// Adds trait bounds after those already there, in order.
    fn add_trait_bounds(&mut self, trait_bounds: Vec<&str>) -> (r: &mut Self)
        ensures
            r@ == Self::with_bounds(old(self)@, Self::bounds_of(old(self)@) + strs(trait_bounds@)),
            *final(self) == *final(r),
    ;
}

/// A node that carries fields.
pub trait FieldExt: Sized + View {
    /// The fields of a node, in order.
    spec fn fields_of(m: Self::V) -> Seq<FieldModel>;

    /// The node with its fields replaced by `f` and nothing else changed.
    spec fn with_fields(m: Self::V, f: Seq<FieldModel>) -> Self::V;

    /// Adds a field after those already there.
    fn add_field(&mut self, field: Field) -> (r: &mut Self)
        ensures
            r@ == Self::with_fields(old(self)@, Self::fields_of(old(self)@).push(field@)),
            *final(self) == *final(r),
    ;

    /// Adds fields after those already there, in order.
    fn add_fields(&mut self, fields: Vec<Field>) -> (r: &mut Self)
        ensures
            r@ == Self::with_fields(old(self)@, Self::fields_of(old(self)@) + field_models(fields@)),
            *final(self) == *final(r),
    ;
}

} // verus!
