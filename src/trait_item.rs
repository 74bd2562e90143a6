//! Trait definitions.
use vstd::prelude::*;

use crate::associated_types::{
    declaration_models, declaration_text, AssociatedTypeDeclaration, DeclarationModel,
};
use crate::decorations::GenericExt;
use crate::field::{append_visibility, visibility};
use crate::function::{signature_models, signature_text, FunctionSignature, SignatureModel};
use crate::generics::{type_params, where_clause, Generic, GenericModel, Generics};
use crate::text::{concat, lemma_concat_push};
use crate::traits::{append_all, SrcCode, SrcCodeVec};

verus! {

/// A trait as a value.
pub ghost struct TraitModel {
    pub name: Seq<char>,
    pub is_pub: bool,
    pub generics: Seq<GenericModel>,
    pub signatures: Seq<SignatureModel>,
    pub associated_types: Seq<DeclarationModel>,
}

/// A trait: associated type declarations and method signatures.
#[derive(Clone, Debug)]
pub struct Trait {
    name: String,
    is_pub: bool,
    generics: Generics,
    signatures: Vec<FunctionSignature>,
    associated_types: Vec<AssociatedTypeDeclaration>,
}

impl View for Trait {
    type V = TraitModel;

    closed spec fn view(&self) -> TraitModel {
        TraitModel {
            name: self.name@,
            is_pub: self.is_pub,
            generics: self.generics@,
            signatures: signature_models(self.signatures@),
            associated_types: declaration_models(self.associated_types@),
        }
    }
}

/// Each signature followed by `;` and a line break.
pub open spec fn required_methods(ss: Seq<SignatureModel>) -> Seq<char> {
    concat(ss.map_values(|s: SignatureModel| signature_text(s) + ";\n"@))
}

/// The header with the generic parameters and where clause, then a block
/// with the associated types first and the method signatures after them.
pub open spec fn trait_text(t: TraitModel) -> Seq<char> {
    visibility(t.is_pub) + "trait "@ + t.name + type_params(t.generics) + seq!['\n']
        + where_clause(t.generics) + "{\n"@ + concat(
        t.associated_types.map_values(|d: DeclarationModel| declaration_text(d)),
    ) + required_methods(t.signatures) + "}\n"@
}

impl Trait {
    /// A private trait `name` without generics, associated types or methods.
    pub fn new(name: &str) -> (r: Trait)
        ensures
            r@ == (TraitModel {
                name: name@,
                is_pub: false,
                generics: seq![],
                signatures: seq![],
                associated_types: seq![],
            }),
    {
        let r = Trait {
            name: name.to_string(),
            is_pub: false,
            generics: Generics::empty(),
            signatures: Vec::new(),
            associated_types: Vec::new(),
        };
        assert(r@.signatures =~= seq![]);
        assert(r@.associated_types =~= seq![]);
        r
    }

    /// The name of the trait.
    pub fn name(&self) -> (r: &String)
        ensures
            r@ == self@.name,
    {
        &self.name
    }

    /// Adds a required method after those already there.
    pub fn add_signature(&mut self, signature: FunctionSignature) -> (r: &mut Self)
        ensures
            r@ == (TraitModel {
                signatures: old(self)@.signatures.push(signature@),
                ..old(self)@
            }),
            *final(self) == *final(r),
    {
        self.signatures.push(signature);
        assert(signature_models(self.signatures@) =~= old(self)@.signatures.push(signature@));
        self
    }

    /// Sets whether the trait is public.
    pub fn set_is_pub(&mut self, is_pub: bool) -> (r: &mut Self)
        ensures
            r@ == (TraitModel { is_pub, ..old(self)@ }),
            *final(self) == *final(r),
    {
        self.is_pub = is_pub;
        self
    }

    /// Adds an associated type after those already there.
    pub fn add_associated_type(&mut self, associated_type: AssociatedTypeDeclaration) -> (r:
        &mut Self)
        ensures
            r@ == (TraitModel {
                associated_types: old(self)@.associated_types.push(associated_type@),
                ..old(self)@
            }),
            *final(self) == *final(r),
    {
        self.associated_types.push(associated_type);
        assert(declaration_models(self.associated_types@) =~= old(self)@.associated_types.push(
            associated_type@,
        ));
        self
    }
}

impl GenericExt for Trait {
    open spec fn generics_of(m: TraitModel) -> Seq<GenericModel> {
        m.generics
    }

    open spec fn with_generics(m: TraitModel, g: Seq<GenericModel>) -> TraitModel {
        TraitModel { generics: g, ..m }
    }

    fn add_generic(&mut self, generic: Generic) -> (r: &mut Self) {
        self.generics.add_generic(generic);
        self
    }

    fn add_generics(&mut self, generics: Vec<Generic>) -> (r: &mut Self) {
        self.generics.add_generics(generics);
        self
    }
}

impl SrcCode for Trait {
    open spec fn src(&self) -> Seq<char> {
        trait_text(self@)
    }

    fn generate(&self) -> (r: String) {
        let mut r = String::new();
        append_visibility(&mut r, self.is_pub);
        r.append("trait ");
        r.append(self.name.as_str());
        self.generics.append_type_params(&mut r);
        proof {
            reveal_strlit("\n");
        }
        r.append("\n");
        self.generics.append_where_clause(&mut r);
        r.append("{\n");
        append_all(&mut r, &self.associated_types);
        assert(self.associated_types.srcs() =~= self@.associated_types.map_values(
            |d: DeclarationModel| declaration_text(d),
        ));
        let ghost start = r@;
        let ghost parts = self@.signatures.map_values(
            |s: SignatureModel| signature_text(s) + ";\n"@,
        );
        let mut i: usize = 0;
        while i < self.signatures.len()
            invariant
                i <= self.signatures.len(),
                parts == self@.signatures.map_values(
                    |s: SignatureModel| signature_text(s) + ";\n"@,
                ),
                self@.signatures == signature_models(self.signatures@),
                r@ == start + concat(parts.take(i as int)),
            decreases self.signatures.len() - i,
        {
            let s = self.signatures[i].generate();
            r.append(s.as_str());
            r.append(";\n");
            proof {
                lemma_concat_push(parts.take(i as int), parts[i as int]);
                assert(parts.take(i as int).push(parts[i as int]) =~= parts.take(i + 1));
            }
            i += 1;
        }
        assert(parts.take(i as int) =~= parts);
        r.append("}\n");
        r
    }
}

} // verus!
