//! Builders for the items of Rust source code (modules, structs, enums,
//! traits, impl blocks, functions and their parts) and the rendering of
//! each into source text.
pub mod associated_types;
pub mod attribute;
pub mod decorations;
pub mod enum_item;
pub mod field;
pub mod function;
pub mod generics;
pub mod impl_item;
pub mod laws;
pub mod module;
pub mod normalize;
pub mod struct_item;
pub mod text;
pub mod trait_item;
pub mod traits;

pub use associated_types::{AssociatedTypeDeclaration, AssociatedTypeDefinition};
pub use attribute::{Attribute, AttributeError};
pub use decorations::{AttributeExt, DocExt, FieldExt, GenericExt, TraitBoundExt};
pub use enum_item::{Enum, Variant};
pub use field::Field;
pub use function::{Function, FunctionBody, FunctionSignature, Parameter};
pub use impl_item::Impl;
pub use module::Module;
pub use normalize::norm_whitespace;
pub use struct_item::Struct;
pub use generics::{Generic, Generics};
pub use trait_item::Trait;
pub use traits::{SrcCode, SrcCodeVec};
