//! The factory specification and its resolution.
//!
//! A specification is a sequence of `key => value` pairs. Resolution finds
//! the first pair whose key renders to the literal text `factory` and takes
//! its rendered value as the body of the capability implementation; when no
//! pair matches, the body is zero-value construction.

use vstd::prelude::*;
use vstd::string::StringExecFns;
use crate::expr::{Expr, spec_render, expr_to_tokens};
use crate::GenError;

verus! {

/// One `key => value` pair of a factory specification.
#[derive(Debug, PartialEq, Eq)]
pub struct FactoryPair {
    pub key: Expr,
    pub value: Expr,
}

/// Whether a pair selects the factory expression: its key renders to the
/// literal text `factory`. Any other key is ignored by resolution.
pub open spec fn is_factory_key(p: FactoryPair) -> bool {
    spec_render(p.key) == Some("factory"@)
}

/// The default factory body: zero-value construction through the ambient
/// default protocol.
pub open spec fn default_factory_text() -> Seq<char> {
    "Default::default()"@
}

/// The factory body a specification resolves to: the rendered value of the
/// first pair keyed `factory`, or the default body when no pair is keyed
/// so; `None` when the selected value's shape is rejected.
pub open spec fn spec_resolve(pairs: Seq<FactoryPair>) -> Option<Seq<char>>
    decreases pairs.len(),
{
    if pairs.len() == 0 {
        Some(default_factory_text())
    } else if is_factory_key(pairs[0]) {
        spec_render(pairs[0].value)
    } else {
        spec_resolve(pairs.skip(1))
    }
}

/// Resolves a factory specification to the text of the capability
/// implementation's body, or rejects the selected factory expression's
/// shape.
pub fn resolve_factory(pairs: &Vec<FactoryPair>) -> (r: Result<String, GenError>)
    ensures
        match r {
            Ok(t) => spec_resolve(pairs@) == Some(t@),
            Err(e) => spec_resolve(pairs@) is None && e == GenError::UnsupportedExpression,
        },
{
    let factory_key = String::from_str("factory");
    let mut i: usize = 0;
    proof {
        assert(pairs@.skip(0) =~= pairs@);
    }
    while i < pairs.len()
        invariant
            i <= pairs@.len(),
            factory_key@ == "factory"@,
            spec_resolve(pairs@) == spec_resolve(pairs@.skip(i as int)),
        decreases pairs@.len() - i,
    {
        proof {
            assert(pairs@.skip(i as int)[0] == pairs@[i as int]);
        }
        let key_text = expr_to_tokens(&pairs[i].key);
        let selected = match key_text {
            Some(t) => t == factory_key,
            None => false,
        };
        if selected {
            let value_text = expr_to_tokens(&pairs[i].value);
            match value_text {
                Some(t) => {
                    return Ok(t);
                },
                None => {
                    return Err(GenError::UnsupportedExpression);
                },
            }
        }
        proof {
            assert(pairs@.skip(i as int).skip(1) =~= pairs@.skip(i as int + 1));
        }
        i = i + 1;
    }
    Ok(String::from_str("Default::default()"))
}

/// Law: when no pair of the specification is keyed `factory`, resolution
/// yields zero-value construction.
pub proof fn lemma_missing_factory_defaults(pairs: Seq<FactoryPair>)
    requires
        forall|j: int| 0 <= j < pairs.len() ==> !is_factory_key(#[trigger] pairs[j]),
    ensures
        spec_resolve(pairs) == Some(default_factory_text()),
    decreases pairs.len(),
{
    if pairs.len() > 0 {
        assert forall|j: int| 0 <= j < pairs.skip(1).len() implies !is_factory_key(
            #[trigger] pairs.skip(1)[j],
        ) by {
            assert(pairs.skip(1)[j] == pairs[j + 1]);
        }
        lemma_missing_factory_defaults(pairs.skip(1));
    }
}

/// Law: the first pair keyed `factory` decides the factory body; earlier
/// pairs with other keys, and every pair after it, are ignored.
pub proof fn lemma_first_factory_pair_selected(pairs: Seq<FactoryPair>, i: int)
    requires
        0 <= i < pairs.len(),
        is_factory_key(pairs[i]),
        forall|j: int| 0 <= j < i ==> !is_factory_key(#[trigger] pairs[j]),
    ensures
        spec_resolve(pairs) == spec_render(pairs[i].value),
    decreases i,
{
    if i > 0 {
        assert forall|j: int| 0 <= j < i - 1 implies !is_factory_key(
            #[trigger] pairs.skip(1)[j],
        ) by {
            assert(pairs.skip(1)[j] == pairs[j + 1]);
        }
        assert(pairs.skip(1)[i - 1] == pairs[i]);
        lemma_first_factory_pair_selected(pairs.skip(1), i - 1);
    }
}

/// Law: a specification whose selected factory value is a zero-argument
/// closure resolves to that closure invoked exactly once, never to the
/// closure itself.
pub proof fn lemma_closure_factory_invoked_once(pairs: Seq<FactoryPair>, i: int)
    requires
        0 <= i < pairs.len(),
        is_factory_key(pairs[i]),
        forall|j: int| 0 <= j < i ==> !is_factory_key(#[trigger] pairs[j]),
        pairs[i].value.kind is Closure,
    ensures
        spec_resolve(pairs) == Some("("@ + pairs[i].value.text@ + ")()"@),
{
    lemma_first_factory_pair_selected(pairs, i);
}

} // verus!
