use derive_di::expr::{expr_to_tokens, Expr, ExprKind};
use derive_di::factory::{resolve_factory, FactoryPair};
use derive_di::GenError;

fn expr(kind: ExprKind, text: &str) -> Expr {
    Expr { kind, text: text.to_string() }
}

fn pair(kkind: ExprKind, ktext: &str, vkind: ExprKind, vtext: &str) -> FactoryPair {
    FactoryPair { key: expr(kkind, ktext), value: expr(vkind, vtext) }
}

#[test]
fn empty_specification_defaults() {
    let pairs: Vec<FactoryPair> = vec![];
    assert_eq!(resolve_factory(&pairs), Ok("Default::default()".to_string()));
}

#[test]
fn missing_factory_key_defaults() {
    let pairs = vec![
        pair(ExprKind::Path, "timeout", ExprKind::Lit, "5"),
        pair(ExprKind::Path, "retries", ExprKind::Lit, "2"),
    ];
    assert_eq!(resolve_factory(&pairs), Ok("Default::default()".to_string()));
}

#[test]
fn factory_pair_selected() {
    let pairs = vec![pair(
        ExprKind::Path,
        "factory",
        ExprKind::StructLit,
        "Widget { inner: \"x\".to_owned() }",
    )];
    assert_eq!(
        resolve_factory(&pairs),
        Ok("Widget { inner: \"x\".to_owned() }".to_string())
    );
}

#[test]
fn factory_pair_found_after_other_keys() {
    let pairs = vec![
        pair(ExprKind::Path, "timeout", ExprKind::Lit, "5"),
        pair(ExprKind::Path, "factory", ExprKind::Call, "factory_struct()"),
    ];
    assert_eq!(resolve_factory(&pairs), Ok("factory_struct()".to_string()));
}

#[test]
fn first_factory_pair_wins() {
    let pairs = vec![
        pair(ExprKind::Path, "factory", ExprKind::Lit, "1"),
        pair(ExprKind::Path, "factory", ExprKind::Lit, "2"),
    ];
    assert_eq!(resolve_factory(&pairs), Ok("1".to_string()));
}

#[test]
fn closure_factory_invoked_once() {
    let pairs = vec![pair(ExprKind::Path, "factory", ExprKind::Closure, "|| Widget")];
    assert_eq!(resolve_factory(&pairs), Ok("(|| Widget)()".to_string()));
}

#[test]
fn unsupported_factory_shape_rejected() {
    let pairs = vec![pair(ExprKind::Path, "factory", ExprKind::Other, "async {}")];
    assert_eq!(resolve_factory(&pairs), Err(GenError::UnsupportedExpression));
}

#[test]
fn unrenderable_key_is_ignored() {
    let pairs = vec![pair(ExprKind::Other, "factory", ExprKind::Lit, "1")];
    assert_eq!(resolve_factory(&pairs), Ok("Default::default()".to_string()));
}

#[test]
fn rendering_keeps_accepted_shapes() {
    let accepted = [
        ExprKind::Call,
        ExprKind::Lit,
        ExprKind::MethodCall,
        ExprKind::Path,
        ExprKind::Boxed,
        ExprKind::Ret,
        ExprKind::Paren,
        ExprKind::StructLit,
        ExprKind::Index,
        ExprKind::FieldAccess,
        ExprKind::Binary,
        ExprKind::Block,
        ExprKind::Cast,
    ];
    for kind in accepted {
        let e = expr(kind, "sample_text");
        assert_eq!(expr_to_tokens(&e), Some("sample_text".to_string()));
    }
    assert_eq!(
        expr_to_tokens(&expr(ExprKind::Closure, "|| 7")),
        Some("(|| 7)()".to_string())
    );
    assert_eq!(expr_to_tokens(&expr(ExprKind::Other, "async {}")), None);
}
