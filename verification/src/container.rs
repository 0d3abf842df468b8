//! The container generator: per-field accessors and the default-construction
//! routine.
//!
//! For a struct with named fields the generator plans, per field, the four
//! accessor names and the field's initializer in the default-construction
//! routine. A field's initializer resolves the field type's own capability
//! entry point, unless a usable adapter annotation names an origin type, in
//! which case the origin's capability-construction result is adapted through
//! the field type's from-conversion.

use vstd::prelude::*;
use vstd::string::StringExecFns;
use crate::binder::generics_match;
use crate::decl::{AdapterAnnotation, DataShape, FieldDecl, GenericsText, TypeDecl};
use crate::names::{
    AccessorNames, accessor_names, getter_mut_name_spec, getter_name_spec, into_name_spec,
    setter_name_spec,
};
use crate::GenError;

verus! {

/// The construction expression emitted for a field with no usable adapter
/// annotation: resolve the field's own capability entry point.
pub open spec fn direct_ctor_text() -> Seq<char> {
    "Injectable::get_service()"@
}

/// Whether a field's adapter annotation applies: the annotation's argument
/// parsed as a single type-path segment and the field's declared type is a
/// simple type path.
pub open spec fn adapter_applies(f: FieldDecl) -> bool {
    &&& f.annotation matches Some(AdapterAnnotation::Origin { .. })
    &&& f.ty_segment is Some
}

/// The construction expression emitted for a field: adapt the origin type's
/// capability-construction result through the field type's from-conversion
/// when the annotation applies, else resolve the field's own capability
/// entry point directly.
pub open spec fn ctor_expr_spec(f: FieldDecl) -> Seq<char> {
    match (f.annotation, f.ty_segment) {
        (Some(AdapterAnnotation::Origin { name }), Some(seg)) => seg@ + "::from("@ + name@
            + "::get_service())"@,
        _ => direct_ctor_text(),
    }
}

/// The initializer emitted for a field into the default-construction
/// routine.
pub open spec fn field_init_spec(f: FieldDecl) -> Seq<char>
    recommends
        f.name is Some,
{
    match f.name {
        Some(n) => n@ + ": "@ + ctor_expr_spec(f),
        None => ctor_expr_spec(f),
    }
}

/// Emits the construction expression for one field.
pub fn ctor_expr(f: &FieldDecl) -> (r: String)
    ensures
        r@ == ctor_expr_spec(*f),
{
    match (&f.annotation, &f.ty_segment) {
        (Some(AdapterAnnotation::Origin { name }), Some(seg)) => {
            let mut s = seg.clone();
            s.append("::from(");
            s.append(name.as_str());
            s.append("::get_service())");
            s
        },
        _ => String::from_str("Injectable::get_service()"),
    }
}

/// The generation plan for one field: the field's name and declared type
/// for the accessor signatures, the four accessor names, and the field's
/// initializer in the default-construction routine.
#[derive(Debug, PartialEq, Eq)]
pub struct FieldPlan {
    pub field_name: String,
    pub ty_text: String,
    pub names: AccessorNames,
    pub ctor_init: String,
}

/// Whether a field plan is exactly what generation emits for a field.
pub open spec fn field_plan_matches(p: FieldPlan, f: FieldDecl) -> bool {
    &&& f.name matches Some(n)
    &&& p.field_name@ == n@
    &&& p.ty_text@ == f.ty_text@
    &&& p.names.getter@ == getter_name_spec(n@)
    &&& p.names.getter_mut@ == getter_mut_name_spec(n@)
    &&& p.names.setter@ == setter_name_spec(n@)
    &&& p.names.into_method@ == into_name_spec(n@)
    &&& p.ctor_init@ == field_init_spec(f)
}

/// The generation plan for a container: one accessor set and one
/// initializer per field, in declaration order.
#[derive(Debug, PartialEq, Eq)]
pub struct ContainerPlan {
    pub target_name: String,
    pub generics: GenericsText,
    pub fields: Vec<FieldPlan>,
}

/// Plans the generated code for a container: the four accessors and the
/// default-construction initializer of every field, each field decided
/// independently and in declaration order. Rejects a declaration that is
/// not a struct, and a struct with a tuple-style field.
pub fn derive_container(decl: &TypeDecl) -> (r: Result<ContainerPlan, GenError>)
    ensures
        match r {
            Ok(plan) => {
                &&& decl.data matches DataShape::StructData { fields }
                &&& plan.target_name@ == decl.name@
                &&& generics_match(plan.generics, decl.generics)
                &&& plan.fields@.len() == fields@.len()
                &&& forall|i: int|
                    0 <= i < fields@.len() ==> field_plan_matches(
                        #[trigger] plan.fields@[i],
                        fields@[i],
                    )
            },
            Err(GenError::NotAStruct) => !(decl.data is StructData),
            Err(GenError::UnnamedField) => {
                &&& decl.data matches DataShape::StructData { fields }
                &&& exists|i: int|
                    0 <= i < fields@.len() && (#[trigger] fields@[i]).name is None
            },
            Err(GenError::UnsupportedExpression) => false,
        },
{
    let fields = match &decl.data {
        DataShape::StructData { fields } => fields,
        _ => {
            return Err(GenError::NotAStruct);
        },
    };
    let mut plans: Vec<FieldPlan> = Vec::new();
    let mut i: usize = 0;
    while i < fields.len()
        invariant
            i <= fields@.len(),
            decl.data matches DataShape::StructData { fields: ds } && ds@ == fields@,
            plans@.len() == i as int,
            forall|j: int|
                0 <= j < i as int ==> field_plan_matches(#[trigger] plans@[j], fields@[j]),
        decreases fields@.len() - i,
    {
        let f = &fields[i];
        let name = match &f.name {
            Some(n) => n,
            None => {
                proof {
                    assert(fields@[i as int].name is None);
                }
                return Err(GenError::UnnamedField);
            },
        };
        let names = accessor_names(name.as_str());
        let ctor = ctor_expr(f);
        let mut init = name.clone();
        init.append(": ");
        init.append(ctor.as_str());
        plans.push(
            FieldPlan { field_name: name.clone(), ty_text: f.ty_text.clone(), names, ctor_init: init },
        );
        i = i + 1;
    }
    Ok(
        ContainerPlan {
            target_name: decl.name.clone(),
            generics: GenericsText {
                impl_params: decl.generics.impl_params.clone(),
                ty_args: decl.generics.ty_args.clone(),
                where_clause: decl.generics.where_clause.clone(),
            },
            fields: plans,
        },
    )
}

/// Law: a field with no adapter annotation constructs directly through its
/// own capability entry point; so in a container none of whose fields carry
/// an annotation, every field's initializer resolves that field's own
/// capability, each independently of the others.
pub proof fn lemma_plain_fields_construct_directly(fields: Seq<FieldDecl>)
    requires
        forall|i: int| 0 <= i < fields.len() ==> (#[trigger] fields[i]).annotation is None,
    ensures
        forall|i: int|
            0 <= i < fields.len() ==> ctor_expr_spec(#[trigger] fields[i]) == direct_ctor_text(),
{
}

/// Law: a field whose adapter annotation names origin `O`, and whose
/// declared type is a simple path headed `T`, constructs as
/// `T::from(O::get_service())`.
pub proof fn lemma_adapter_field_converts(f: FieldDecl)
    requires
        adapter_applies(f),
    ensures
        f.annotation matches Some(AdapterAnnotation::Origin { name })
            && f.ty_segment matches Some(seg) && ctor_expr_spec(f) == seg@ + "::from("@ + name@
            + "::get_service())"@,
{
}

/// Law: a malformed adapter annotation, and an annotation on a field whose
/// declared type is not a simple type path, are silently ignored:
/// construction falls back to the direct form.
pub proof fn lemma_unusable_annotation_degrades(f: FieldDecl)
    requires
        !adapter_applies(f),
    ensures
        ctor_expr_spec(f) == direct_ctor_text(),
{
}

} // verus!
