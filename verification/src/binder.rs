//! The factory binder: attaches a capability-marker implementation to a
//! type declaration from an optional factory specification.

use vstd::prelude::*;
use crate::decl::{GenericsText, TypeDecl};
use crate::factory::{FactoryPair, resolve_factory, spec_resolve};
use crate::GenError;

verus! {

/// A generated capability-marker implementation: it binds the named type,
/// under its own generic parameters, to a construction body.
#[derive(Debug, PartialEq, Eq)]
pub struct MarkerImpl {
    pub target_name: String,
    pub generics: GenericsText,
    /// The body of the implementation's single operation.
    pub body: String,
}

/// Whether two rendered generics carry the same text.
pub open spec fn generics_match(g: GenericsText, d: GenericsText) -> bool {
    &&& g.impl_params@ == d.impl_params@
    &&& g.ty_args@ == d.ty_args@
    &&& g.where_clause@ == d.where_clause@
}

/// Emits the capability-marker implementation for a type: its body is the
/// resolved factory expression, and it respects the type's own generic
/// parameters and constraints. The declaration itself is only read; the
/// caller emits it back unmodified ahead of the implementation.
pub fn bind_injectable(decl: &TypeDecl, pairs: &Vec<FactoryPair>) -> (r: Result<
    MarkerImpl,
    GenError,
>)
    ensures
        match r {
            Ok(m) => {
                &&& spec_resolve(pairs@) == Some(m.body@)
                &&& m.target_name@ == decl.name@
                &&& generics_match(m.generics, decl.generics)
            },
            Err(e) => spec_resolve(pairs@) is None && e == GenError::UnsupportedExpression,
        },
{
    let body = match resolve_factory(pairs) {
        Ok(t) => t,
        Err(e) => {
            return Err(e);
        },
    };
    Ok(
        MarkerImpl {
            target_name: decl.name.clone(),
            generics: GenericsText {
                impl_params: decl.generics.impl_params.clone(),
                ty_args: decl.generics.ty_args.clone(),
                where_clause: decl.generics.where_clause.clone(),
            },
            body,
        },
    )
}

} // verus!
