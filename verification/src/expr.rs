//! Model of the expressions a factory specification may carry.
//!
//! An expression is kept as its syntactic shape plus its rendered source
//! text. The generator only ever needs the shape — to accept or reject the
//! expression and to normalize closures — and the text, which it splices
//! into the code it emits.

use vstd::prelude::*;
use vstd::string::StringExecFns;

verus! {

/// The syntactic shape of an expression handed to the factory
/// specification. Every shape but [`ExprKind::Other`] is accepted as a
/// factory expression; a closure is additionally normalized into an
/// immediately-invoked call when rendered.
#[derive(Clone, Copy, Debug, PartialEq, Eq)]
pub enum ExprKind {
    /// A call expression, `factory_struct()`.
    Call,
    /// A literal, `7` or `"x"`.
    Lit,
    /// A method call, `builder.build()`.
    MethodCall,
    /// A path reference, `SOME_CONST` or `Widget`.
    Path,
    /// A boxing expression.
    Boxed,
    /// A return expression.
    Ret,
    /// A parenthesized expression.
    Paren,
    /// A struct literal, `Widget { inner: 0 }`.
    StructLit,
    /// An indexing expression, `table[0]`.
    Index,
    /// A field access, `pair.0`.
    FieldAccess,
    /// A binary expression, `a + b`.
    Binary,
    /// A block expression.
    Block,
    /// A cast, `x as u64`.
    Cast,
    /// A zero-argument closure, `|| Widget`.
    Closure,
    /// Any other shape; rejected as a factory expression.
    Other,
}

/// An expression: its shape and its rendered source text.
#[derive(Debug, PartialEq, Eq)]
pub struct Expr {
    pub kind: ExprKind,
    pub text: String,
}

/// What rendering an expression emits: the expression's own text for every
/// accepted shape, the text wrapped into an immediately-invoked call for a
/// closure, and nothing for a rejected shape.
pub open spec fn spec_render(e: Expr) -> Option<Seq<char>> {
    match e.kind {
        ExprKind::Other => None,
        ExprKind::Closure => Some("("@ + e.text@ + ")()"@),
        _ => Some(e.text@),
    }
}

/// Renders an expression for splicing into emitted code, or reports that
/// its shape is not an accepted factory expression.
pub fn expr_to_tokens(e: &Expr) -> (r: Option<String>)
    ensures
        r is Some <==> spec_render(*e) is Some,
        r matches Some(t) ==> spec_render(*e) == Some(t@),
{
    match e.kind {
        ExprKind::Other => None,
        ExprKind::Closure => {
            let mut s = String::from_str("(");
            s.append(e.text.as_str());
            s.append(")()");
            Some(s)
        },
        _ => Some(e.text.clone()),
    }
}

} // verus!
