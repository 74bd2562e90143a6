//! Associated types: declared in a trait, defined in an impl block.
use vstd::prelude::*;

use crate::attribute::{
    append_attribute_lines, attribute_models, attribute_texts, classify, extend_attributes,
    push_attribute, Attribute, AttributeModel,
};
use crate::decorations::{AttributeExt, TraitBoundExt};
use crate::text::{append_joined, extend_strings, join, lines, texts};
use crate::traits::SrcCode;

verus! {

/// A declaration as a value.
pub ghost struct DeclarationModel {
    pub name: Seq<char>,
    pub bounds: Seq<Seq<char>>,
    pub attributes: Seq<AttributeModel>,
}

/// `type NAME: Bound;` inside a trait.
#[derive(Clone, Debug)]
pub struct AssociatedTypeDeclaration {
    name: String,
    traits: Vec<String>,
    attributes: Vec<Attribute>,
}

impl View for AssociatedTypeDeclaration {
    type V = DeclarationModel;

    closed spec fn view(&self) -> DeclarationModel {
        DeclarationModel {
            name: self.name@,
            bounds: texts(self.traits@),
            attributes: attribute_models(self.attributes@),
        }
    }
}

/// `: A + B` for the bounds `A` and `B`; nothing when there is no bound.
pub open spec fn bounds_suffix(bounds: Seq<Seq<char>>) -> Seq<char> {
    if bounds.len() == 0 {
        Seq::empty()
    } else {
        ": "@ + join(bounds, " + "@)
    }
}

/// Attribute lines, then `type NAME: A + B;`.
pub open spec fn declaration_text(d: DeclarationModel) -> Seq<char> {
    lines(attribute_texts(d.attributes)) + "type "@ + d.name + bounds_suffix(d.bounds) + ";\n"@
}

/// The models of a list of declarations.
pub open spec fn declaration_models(v: Seq<AssociatedTypeDeclaration>) -> Seq<DeclarationModel> {
    v.map_values(|d: AssociatedTypeDeclaration| d@)
}

impl AssociatedTypeDeclaration {
    /// The declaration of `name`, without bounds or attributes.
    pub fn new(name: &str) -> (r: AssociatedTypeDeclaration)
        ensures
            r@ == (DeclarationModel { name: name@, bounds: seq![], attributes: seq![] }),
    {
        let r = AssociatedTypeDeclaration {
            name: name.to_string(),
            traits: Vec::new(),
            attributes: Vec::new(),
        };
        assert(r@.bounds =~= seq![]);
        assert(r@.attributes =~= seq![]);
        r
    }

    /// Adds an annotation such as `#[doc(hidden)]`; the same as
    /// `add_attribute`.
    pub fn add_annotation(&mut self, annotation: &str) -> (r: &mut Self)
        requires
            classify(annotation@) is Some,
        ensures
            r@ == (DeclarationModel {
                attributes: old(self)@.attributes.push(classify(annotation@)->0),
                ..old(self)@
            }),
            *final(self) == *final(r),
    {
        self.add_attribute(annotation)
    }
}

impl AttributeExt for AssociatedTypeDeclaration {
    open spec fn attributes_of(m: DeclarationModel) -> Seq<AttributeModel> {
        m.attributes
    }

    open spec fn with_attributes(m: DeclarationModel, a: Seq<AttributeModel>) -> DeclarationModel {
        DeclarationModel { attributes: a, ..m }
    }

    fn add_attribute(&mut self, attribute: &str) -> (r: &mut Self) {
        push_attribute(&mut self.attributes, attribute);
        self
    }

    fn add_attributes(&mut self, attributes: Vec<&str>) -> (r: &mut Self) {
        extend_attributes(&mut self.attributes, attributes);
        self
    }
}

impl TraitBoundExt for AssociatedTypeDeclaration {
    open spec fn bounds_of(m: DeclarationModel) -> Seq<Seq<char>> {
        m.bounds
    }

    open spec fn with_bounds(m: DeclarationModel, b: Seq<Seq<char>>) -> DeclarationModel {
        DeclarationModel { bounds: b, ..m }
    }

    fn add_trait_bound(&mut self, trait_bound: &str) -> (r: &mut Self) {
        let ghost prev = self.traits@;
        self.traits.push(trait_bound.to_string());
        assert(texts(self.traits@) =~= texts(prev).push(trait_bound@));
        self
    }

    fn add_trait_bounds(&mut self, trait_bounds: Vec<&str>) -> (r: &mut Self) {
        extend_strings(&mut self.traits, trait_bounds);
        self
    }
}

impl SrcCode for AssociatedTypeDeclaration {
    open spec fn src(&self) -> Seq<char> {
        declaration_text(self@)
    }

    fn generate(&self) -> (r: String) {
        let mut r = String::new();
        append_attribute_lines(&mut r, &self.attributes);
        r.append("type ");
        r.append(self.name.as_str());
        if self.traits.len() > 0 {
            r.append(": ");
            append_joined(&mut r, &self.traits, " + ");
        }
        r.append(";\n");
        r
    }
}

/// A definition as a value.
pub ghost struct DefinitionModel {
    pub name: Seq<char>,
    pub implementer: Seq<char>,
    pub attributes: Seq<AttributeModel>,
}

/// `type NAME = Type;` inside an impl block.
#[derive(Clone, Debug)]
pub struct AssociatedTypeDefinition {
    name: String,
    implementer: String,
    attributes: Vec<Attribute>,
}

impl View for AssociatedTypeDefinition {
    type V = DefinitionModel;

    closed spec fn view(&self) -> DefinitionModel {
        DefinitionModel {
            name: self.name@,
            implementer: self.implementer@,
            attributes: attribute_models(self.attributes@),
        }
    }
}

/// Attribute lines, then `type NAME = Type;`.
pub open spec fn definition_text(d: DefinitionModel) -> Seq<char> {
    lines(attribute_texts(d.attributes)) + "type "@ + d.name + " = "@ + d.implementer + ";\n"@
}

/// The models of a list of definitions.
pub open spec fn definition_models(v: Seq<AssociatedTypeDefinition>) -> Seq<DefinitionModel> {
    v.map_values(|d: AssociatedTypeDefinition| d@)
}

impl AssociatedTypeDefinition {
    /// The definition `type name = implementer;`, without attributes.
    pub fn new(name: &str, implementer: &str) -> (r: AssociatedTypeDefinition)
        ensures
            r@ == (DefinitionModel { name: name@, implementer: implementer@, attributes: seq![] }),
    {
        let r = AssociatedTypeDefinition {
            name: name.to_string(),
            implementer: implementer.to_string(),
            attributes: Vec::new(),
        };
        assert(r@.attributes =~= seq![]);
        r
    }

    /// Adds an annotation such as `#[doc(hidden)]`; the same as
    /// `add_attribute`.
    pub fn add_annotation(&mut self, annotation: &str) -> (r: &mut Self)
        requires
            classify(annotation@) is Some,
        ensures
            r@ == (DefinitionModel {
                attributes: old(self)@.attributes.push(classify(annotation@)->0),
                ..old(self)@
            }),
            *final(self) == *final(r),
    {
        self.add_attribute(annotation)
    }
}

impl AttributeExt for AssociatedTypeDefinition {
    open spec fn attributes_of(m: DefinitionModel) -> Seq<AttributeModel> {
        m.attributes
    }

    open spec fn with_attributes(m: DefinitionModel, a: Seq<AttributeModel>) -> DefinitionModel {
        DefinitionModel { attributes: a, ..m }
    }

    fn add_attribute(&mut self, attribute: &str) -> (r: &mut Self) {
        push_attribute(&mut self.attributes, attribute);
        self
    }

    fn add_attributes(&mut self, attributes: Vec<&str>) -> (r: &mut Self) {
        extend_attributes(&mut self.attributes, attributes);
        self
    }
}

impl SrcCode for AssociatedTypeDefinition {
    open spec fn src(&self) -> Seq<char> {
        definition_text(self@)
    }

    fn generate(&self) -> (r: String) {
        let mut r = String::new();
        append_attribute_lines(&mut r, &self.attributes);
        r.append("type ");
        r.append(self.name.as_str());
        r.append(" = ");
        r.append(self.implementer.as_str());
        r.append(";\n");
        r
    }
}

} // verus!
