//! Accessor naming.
//!
//! The container generator names a field's four accessors by prefixing the
//! field name, lower-cased, with `get_`, `get_mut_`, `set_` and `into_`.
//! Two fields whose names lower-case to the same identifier are not
//! detected here; the surrounding compilation surfaces the duplicate
//! definitions.

use vstd::prelude::*;
use vstd::string::StringExecFns;

verus! {

/// The lower-case form of a piece of text.
pub uninterp spec fn lower_of(s: Seq<char>) -> Seq<char>;

/// Relies on str::to_lowercase: the lower-case form depends on the
/// characters alone.
#[verifier::external_body]
fn to_lowercase(s: &str) -> (r: String)
    ensures
        r@ == lower_of(s@),
{
    s.to_lowercase()
}

/// The name of the immutable-borrow accessor for a field.
pub open spec fn getter_name_spec(field: Seq<char>) -> Seq<char> {
    "get_"@ + lower_of(field)
}

/// The name of the mutable-borrow accessor for a field.
pub open spec fn getter_mut_name_spec(field: Seq<char>) -> Seq<char> {
    "get_mut_"@ + lower_of(field)
}

/// The name of the replace operation for a field.
pub open spec fn setter_name_spec(field: Seq<char>) -> Seq<char> {
    "set_"@ + lower_of(field)
}

/// The name of the consume-and-return operation for a field.
pub open spec fn into_name_spec(field: Seq<char>) -> Seq<char> {
    "into_"@ + lower_of(field)
}

/// The names of the four accessors generated for one field.
#[derive(Debug, PartialEq, Eq)]
pub struct AccessorNames {
    pub getter: String,
    pub getter_mut: String,
    pub setter: String,
    pub into_method: String,
}

/// Derives the four accessor names from a field name.
pub fn accessor_names(field: &str) -> (r: AccessorNames)
    ensures
        r.getter@ == getter_name_spec(field@),
        r.getter_mut@ == getter_mut_name_spec(field@),
        r.setter@ == setter_name_spec(field@),
        r.into_method@ == into_name_spec(field@),
{
    let lc = to_lowercase(field);
    AccessorNames {
        getter: String::from_str("get_").concat(lc.as_str()),
        getter_mut: String::from_str("get_mut_").concat(lc.as_str()),
        setter: String::from_str("set_").concat(lc.as_str()),
        into_method: String::from_str("into_").concat(lc.as_str()),
    }
}

} // verus!
