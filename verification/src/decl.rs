//! Model of the declarations the generators read.
//!
//! A declaration is kept as plain data: names and rendered type text, an
//! optional adapter annotation per field, and the shape of the body. The
//! generators read a declaration and emit implementations beside it; they
//! never change it.

use vstd::prelude::*;

verus! {

/// The generic parameters of a declaration, rendered in the three forms an
/// emitted implementation block needs. The generators copy them through
/// unchanged.
#[derive(Debug, PartialEq, Eq)]
pub struct GenericsText {
    /// The parameter list with its bounds, for the `impl` header.
    pub impl_params: String,
    /// The bare arguments, for the type's own mention.
    pub ty_args: String,
    /// The `where` clause; empty when the declaration has none.
    pub where_clause: String,
}

/// A field's adapter annotation, as the generator reads it.
#[derive(Debug, PartialEq, Eq)]
pub enum AdapterAnnotation {
    /// The annotation's argument parsed as a single type-path segment: the
    /// origin type whose capability-construction result the field adapts.
    Origin { name: String },
    /// The argument did not parse as a single type-path segment; the
    /// annotation is treated as absent.
    Malformed,
}

/// A field declaration: a name (absent for tuple-style fields), a declared
/// type, and zero or one adapter annotation.
#[derive(Debug, PartialEq, Eq)]
pub struct FieldDecl {
    /// The field's name; `None` for an unnamed, tuple-style field.
    pub name: Option<String>,
    /// The declared type, rendered.
    pub ty_text: String,
    /// The leading segment of the declared type when that type is a simple
    /// type path (`Widget`, `Box<dyn Getter>`); `None` otherwise.
    pub ty_segment: Option<String>,
    /// The field's adapter annotation, when one is written.
    pub annotation: Option<AdapterAnnotation>,
}

/// The body of a type declaration.
#[derive(Debug, PartialEq, Eq)]
pub enum DataShape {
    /// A struct, with its fields in declaration order.
    StructData { fields: Vec<FieldDecl> },
    /// An enum; the container generator rejects it.
    EnumData,
    /// A union; the container generator rejects it.
    UnionData,
}

/// A type declaration: a name, its generic parameters, and its body.
#[derive(Debug, PartialEq, Eq)]
pub struct TypeDecl {
    pub name: String,
    pub generics: GenericsText,
    pub data: DataShape,
}

/// The identifier of a lone type-path segment, when the text parses as
/// exactly one (`Widget`, `Box<dyn Getter>`); nothing when it does not
/// (`std::string::String`, `(u8, u8)`, `1 + 2`).
pub uninterp spec fn segment_ident_of(s: Seq<char>) -> Option<Seq<char>>;

/// Relies on syn::parse_str::<syn::PathSegment>: whether the text parses
/// as a single type-path segment, and the segment's identifier, depend on
/// the text alone.
#[verifier::external_body]
fn parse_path_segment(s: &str) -> (r: Option<String>)
    ensures
        r matches Some(t) ==> segment_ident_of(s@) == Some(t@),
        r is None ==> segment_ident_of(s@) is None,
{
    syn::parse_str::<syn::PathSegment>(s).ok().map(|seg| seg.ident.to_string())
}

/// Builds the model of one field from its source parts: the field's name
/// when it has one, its declared type as rendered text, and the argument
/// text of its adapter annotation when one is written. The type's head
/// segment and the annotation's origin are read by parsing each text as a
/// lone type-path segment; an annotation argument that does not parse as
/// one is kept as malformed, to be ignored.
pub fn field_from_source(name: Option<&str>, ty_text: &str, annotation_arg: Option<&str>) -> (r:
    FieldDecl)
    ensures
        r.name is Some <==> name is Some,
        r.name matches Some(n) ==> name matches Some(m) && n@ == m@,
        r.ty_text@ == ty_text@,
        r.ty_segment matches Some(t) ==> segment_ident_of(ty_text@) == Some(t@),
        r.ty_segment is None ==> segment_ident_of(ty_text@) is None,
        r.annotation is Some <==> annotation_arg is Some,
        annotation_arg matches Some(a) ==> match r.annotation {
            Some(AdapterAnnotation::Origin { name: o }) => segment_ident_of(a@) == Some(o@),
            Some(AdapterAnnotation::Malformed) => segment_ident_of(a@) is None,
            None => false,
        },
{
    let model_name = match name {
        Some(n) => Some(n.to_owned()),
        None => None,
    };
    let annotation = match annotation_arg {
        Some(a) => match parse_path_segment(a) {
            Some(origin) => Some(AdapterAnnotation::Origin { name: origin }),
            None => Some(AdapterAnnotation::Malformed),
        },
        None => None,
    };
    FieldDecl {
        name: model_name,
        ty_text: ty_text.to_owned(),
        ty_segment: parse_path_segment(ty_text),
        annotation,
    }
}

} // verus!
