//! Unchecked conversions between types, and the generation of their
//! implementations for single-field wrappers and data-less enums.
//!
//! `FromUnchecked<T>` builds a value from a `T` that the caller vouches for;
//! `IntoUnchecked<T>` is its mirror and comes for free with it. The generator
//! reads the static description of a type declaration (`TypeDecl`) and emits
//! the source text of its `FromUnchecked` implementations, or a diagnostic.
pub mod convert;
pub mod generate;
pub mod laws;
pub mod render;
pub mod shape;

pub use convert::{FromUnchecked, IntoUnchecked};
pub use generate::{generate, Conversion, Generated, Implementation};
pub use render::{from_unchecked, render};
pub use shape::{
    classify, Attribute, Body, Field, FieldBinding, GenError, Generics, IntKind, Leaf, Meta,
    TypeDecl, TypeShape, Variant,
};
