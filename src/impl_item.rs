//! Impl blocks, inherent or of a trait.
use vstd::prelude::*;

use crate::associated_types::{
    definition_models, definition_text, AssociatedTypeDefinition, DefinitionModel,
};
use crate::decorations::GenericExt;
use crate::function::{function_models, function_text, Function, FunctionModel};
use crate::generics::{type_params, where_clause, Generic, GenericModel, Generics};
use crate::text::concat;
use crate::trait_item::Trait;
use crate::traits::{append_all, SrcCode, SrcCodeVec};

verus! {

/// An impl block as a value.
pub ghost struct ImplModel {
    pub target: Seq<char>,
    pub trait_name: Option<Seq<char>>,
    pub functions: Seq<FunctionModel>,
    pub associated_types: Seq<DefinitionModel>,
    pub generics: Seq<GenericModel>,
}

/// An impl block for a type, of a trait named by its name or of no trait.
#[derive(Clone, Debug)]
pub struct Impl {
    generics: Generics,
    impl_trait: Option<String>,
    functions: Vec<Function>,
    obj_name: String,
    associated_types: Vec<AssociatedTypeDefinition>,
}

impl View for Impl {
    type V = ImplModel;

    closed spec fn view(&self) -> ImplModel {
        ImplModel {
            target: self.obj_name@,
            trait_name: match self.impl_trait {
                Some(s) => Some(s@),
                None => None,
            },
            functions: function_models(self.functions@),
            associated_types: definition_models(self.associated_types@),
            generics: self.generics@,
        }
    }
}

/// `Name for ` when a trait is named, else nothing.
pub open spec fn trait_prefix(trait_name: Option<Seq<char>>) -> Seq<char> {
    match trait_name {
        Some(n) => n + " for "@,
        None => Seq::empty(),
    }
}

/// `impl<T> Trait for Type<T>`, the where clause, then a block with the
/// associated types first and the functions after them. The parameter list
/// stands both after `impl` and after the type.
pub open spec fn impl_text(i: ImplModel) -> Seq<char> {
    "impl"@ + type_params(i.generics) + " "@ + trait_prefix(i.trait_name) + i.target + type_params(
        i.generics,
    ) + seq!['\n'] + where_clause(i.generics) + "{\n"@ + concat(
        i.associated_types.map_values(|d: DefinitionModel| definition_text(d)),
    ) + concat(i.functions.map_values(|f: FunctionModel| function_text(f))) + "}\n"@
}

impl Impl {
    /// An inherent impl block for `obj_name`, without generics, associated
    /// types or functions.
    pub fn new(obj_name: &str) -> (r: Impl)
        ensures
            r@ == (ImplModel {
                target: obj_name@,
                trait_name: None,
                functions: seq![],
                associated_types: seq![],
                generics: seq![],
            }),
    {
        let r = Impl {
            generics: Generics::empty(),
            impl_trait: None,
            functions: Vec::new(),
            obj_name: obj_name.to_string(),
            associated_types: Vec::new(),
        };
        assert(r@.functions =~= seq![]);
        assert(r@.associated_types =~= seq![]);
        r
    }

    /// Makes the block implement `impl_trait`, known by its name only, or no
    /// trait with `None`.
    pub fn set_impl_trait(&mut self, impl_trait: Option<Trait>) -> (r: &mut Self)
        ensures
            r@ == (ImplModel {
                trait_name: match impl_trait {
                    Some(t) => Some(t@.name),
                    None => None,
                },
                ..old(self)@
            }),
            *final(self) == *final(r),
    {
        self.impl_trait = match &impl_trait {
            Some(t) => Some(t.name().clone()),
            None => None,
        };
        self
    }

    /// Adds a function after those already there.
    pub fn add_function(&mut self, func: Function) -> (r: &mut Self)
        ensures
            r@ == (ImplModel { functions: old(self)@.functions.push(func@), ..old(self)@ }),
            *final(self) == *final(r),
    {
        self.functions.push(func);
        assert(function_models(self.functions@) =~= old(self)@.functions.push(func@));
        self
    }

    /// Adds an associated type after those already there.
    pub fn add_associated_type(&mut self, associated_type: AssociatedTypeDefinition) -> (r:
        &mut Self)
        ensures
            r@ == (ImplModel {
                associated_types: old(self)@.associated_types.push(associated_type@),
                ..old(self)@
            }),
            *final(self) == *final(r),
    {
        self.associated_types.push(associated_type);
        assert(definition_models(self.associated_types@) =~= old(self)@.associated_types.push(
            associated_type@,
        ));
        self
    }
}

impl GenericExt for Impl {
    open spec fn generics_of(m: ImplModel) -> Seq<GenericModel> {
        m.generics
    }

    open spec fn with_generics(m: ImplModel, g: Seq<GenericModel>) -> ImplModel {
        ImplModel { generics: g, ..m }
    }

    fn add_generic(&mut self, generic: Generic) -> (r: &mut Self) {
        self.generics.add_generic(generic);
        self
    }

    fn add_generics(&mut self, generics: Vec<Generic>) -> (r: &mut Self) {
        self.generics.add_generics(generics);
        self
    }
}

impl SrcCode for Impl {
    open spec fn src(&self) -> Seq<char> {
        impl_text(self@)
    }

    fn generate(&self) -> (r: String) {
        let mut r = String::new();
        r.append("impl");
        self.generics.append_type_params(&mut r);
        r.append(" ");
        match &self.impl_trait {
            Some(n) => {
                r.append(n.as_str());
                r.append(" for ");
            },
            None => {},
        }
        r.append(self.obj_name.as_str());
        self.generics.append_type_params(&mut r);
        proof {
            reveal_strlit("\n");
        }
        r.append("\n");
        self.generics.append_where_clause(&mut r);
        r.append("{\n");
        append_all(&mut r, &self.associated_types);
        assert(self.associated_types.srcs() =~= self@.associated_types.map_values(
            |d: DefinitionModel| definition_text(d),
        ));
        append_all(&mut r, &self.functions);
        assert(self.functions.srcs() =~= self@.functions.map_values(
            |f: FunctionModel| function_text(f),
        ));
        r.append("}\n");
        r
    }
}

} // verus!
