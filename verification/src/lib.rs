//! A verified model of a compile-time dependency-injection code generator.
//!
//! The generator consumes type declarations and emits, as source text,
//! accessor methods for every field of a container struct together with a
//! default-construction routine that populates each field through the
//! [`Injectable`] capability. A companion binder attaches an `Injectable`
//! implementation to any type from an optional factory specification of the
//! shape `factory => <expression>`.
//!
//! The declarations and expressions the generator reads are modelled as
//! plain data ([`decl`], [`expr`]); the generation rules themselves are
//! verified functions whose contracts pin down exactly which text is emitted
//! for every input.

pub mod binder;
pub mod container;
pub mod decl;
pub mod expanded;
pub mod expr;
pub mod factory;
pub mod names;

use vstd::prelude::*;

verus! {

/// The ways generation can fail. Every failure is reported at generation
/// time; the emitted code itself has no error path of this system's making.
#[derive(Clone, Copy, Debug, PartialEq, Eq)]
pub enum GenError {
    /// A factory expression outside the accepted set of shapes.
    UnsupportedExpression,
    /// The container input is not a struct declaration.
    NotAStruct,
    /// A tuple-style field without a name.
    UnnamedField,
}

/// The capability a type implements to declare "I can be constructed with
/// no arguments". The container generator's default-construction routine
/// resolves every field through this entry point.
pub trait Injectable: Sized {
    fn get_service() -> Self;
}

} // verus!
