use component_name_casing::ast::{
    Argument, AstKind, CallExpression, Expression, IdentifierName, ObjectProperty, PropertyKey,
    StaticMemberExpression, StringLiteral,
};
use component_name_casing::rule::{
    check_identifier, ComponentDefinitionNameCasing, NameCasing, Report,
};
use component_name_casing::span::Span;

fn lit(value: &str, start: u32) -> StringLiteral {
    StringLiteral { span: Span::new(start, start + value.len() as u32 + 2), value: value.to_string() }
}

#[test]
fn check_identifier_pascal_mode() {
    match check_identifier(NameCasing::PascalCase, &lit("foo-bar", 5)) {
        Some(Report::DiagnosticWithFix { span, fix }) => {
            assert_eq!(span, Span::new(5, 14));
            assert_eq!(fix.span, Span::new(6, 13));
            assert_eq!(fix.content, "FooBar");
        }
        other => panic!("unexpected {other:?}"),
    }
    assert!(matches!(
        check_identifier(NameCasing::PascalCase, &lit("foo!bar", 0)),
        Some(Report::Diagnostic { span }) if span == Span::new(0, 9)
    ));
    assert!(matches!(
        check_identifier(NameCasing::PascalCase, &lit("foo_bar", 0)),
        Some(Report::Diagnostic { .. })
    ));
    assert!(check_identifier(NameCasing::PascalCase, &lit("FooBar", 0)).is_none());
    assert!(check_identifier(NameCasing::PascalCase, &lit("fooBar", 0)).is_none());
    assert!(check_identifier(NameCasing::PascalCase, &lit("-foo", 0)).is_none());
}

#[test]
fn check_identifier_kebab_mode() {
    assert!(check_identifier(NameCasing::KebabCase, &lit("foo-bar", 0)).is_none());
    assert!(check_identifier(NameCasing::KebabCase, &lit("FooBar", 0)).is_none());
    assert!(check_identifier(NameCasing::KebabCase, &lit("foo--bar", 0)).is_none());
    assert!(check_identifier(NameCasing::KebabCase, &lit("-foo", 0)).is_none());
    assert!(matches!(
        check_identifier(NameCasing::KebabCase, &lit("foo_bar", 0)),
        Some(Report::Diagnostic { span }) if span == Span::new(0, 9)
    ));
    assert!(matches!(
        check_identifier(NameCasing::KebabCase, &lit("foo!bar", 0)),
        Some(Report::Diagnostic { .. })
    ));
}

#[test]
fn empty_name_is_offered_an_empty_fix() {
    match check_identifier(NameCasing::PascalCase, &lit("", 3)) {
        Some(Report::DiagnosticWithFix { fix, .. }) => {
            assert_eq!(fix.span, Span::new(4, 4));
            assert_eq!(fix.content, "");
        }
        other => panic!("unexpected {other:?}"),
    }
}

fn name_property(value: Expression) -> AstKind {
    AstKind::ObjectProperty(ObjectProperty {
        key: PropertyKey { static_name: Some("name".to_string()) },
        value,
    })
}

fn member_call(property: &str, arguments: Vec<Argument>) -> AstKind {
    AstKind::CallExpression(CallExpression {
        callee: Expression::StaticMemberExpression(StaticMemberExpression {
            property: IdentifierName { span: Span::new(4, 4 + property.len() as u32), name: property.to_string() },
        }),
        arguments,
    })
}

#[test]
fn run_on_object_properties() {
    let rule = ComponentDefinitionNameCasing::default();
    assert!(rule.run(&name_property(Expression::StringLiteral(lit("foo-bar", 10)))).is_some());
    assert!(rule.run(&name_property(Expression::StringLiteral(lit("FooBar", 10)))).is_none());
    assert!(rule.run(&name_property(Expression::Other)).is_none());
    let other_key = AstKind::ObjectProperty(ObjectProperty {
        key: PropertyKey { static_name: Some("title".to_string()) },
        value: Expression::StringLiteral(lit("foo-bar", 10)),
    });
    assert!(rule.run(&other_key).is_none());
    let computed = AstKind::ObjectProperty(ObjectProperty {
        key: PropertyKey { static_name: None },
        value: Expression::StringLiteral(lit("foo-bar", 10)),
    });
    assert!(rule.run(&computed).is_none());
    assert!(rule.run(&AstKind::Other).is_none());
}

#[test]
fn run_on_calls() {
    let rule = ComponentDefinitionNameCasing::default();
    let first = |name: &str| Argument::Expression(Expression::StringLiteral(lit(name, 14)));
    assert!(rule.run(&member_call("component", vec![first("foo-bar"), Argument::Expression(Expression::Other)])).is_some());
    assert!(rule.run(&member_call("component", vec![first("FooBar")])).is_none());
    assert!(rule.run(&member_call("mixin", vec![first("foo-bar")])).is_none());
    assert!(rule.run(&member_call("component", vec![])).is_none());
    assert!(rule.run(&member_call("component", vec![Argument::SpreadElement, first("foo-bar")])).is_none());
    assert!(rule.run(&member_call("component", vec![Argument::Expression(Expression::Other)])).is_none());
    let plain_call = AstKind::CallExpression(CallExpression {
        callee: Expression::Other,
        arguments: vec![first("foo-bar")],
    });
    assert!(rule.run(&plain_call).is_none());
    let kebab = ComponentDefinitionNameCasing { casing: NameCasing::KebabCase };
    assert!(kebab.run(&member_call("component", vec![first("foo-bar")])).is_none());
    assert!(kebab.run(&member_call("component", vec![first("FooBar")])).is_none());
    assert!(kebab.run(&member_call("component", vec![first("foo bar")])).is_some());
}

#[test]
fn span_shrink() {
    assert_eq!(Span::new(5, 10).shrink(2), Span::new(7, 8));
    assert_eq!(Span::new(0, 2).shrink(1), Span::new(1, 1));
    assert_eq!(Span::new(u32::MAX - 1, u32::MAX).shrink(0), Span::new(u32::MAX - 1, u32::MAX));
}
