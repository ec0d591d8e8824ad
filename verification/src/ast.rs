//! The parts of a JavaScript syntax tree that the rule reads, as plain values.

use vstd::prelude::*;
use crate::chars::str_eq;
use crate::span::Span;

verus! {

/// A string literal: its value, escapes resolved, and its span in the
/// source, quotes included.
#[derive(Debug)]
pub struct StringLiteral {
    pub span: Span,
    pub value: String,
}

/// A name after a dot, as `component` in `Vue.component`.
#[derive(Debug)]
pub struct IdentifierName {
    pub span: Span,
    pub name: String,
}

/// A member access with a name after the dot, as `Vue.component`; only the
/// property that follows the dot is kept.
#[derive(Debug)]
pub struct StaticMemberExpression {
    pub property: IdentifierName,
}

/// An expression: a string literal, a static member access, or any other.
#[derive(Debug)]
pub enum Expression {
    StringLiteral(StringLiteral),
    StaticMemberExpression(StaticMemberExpression),
    Other,
}

/// An argument of a call: a spread element (`...xs`) or an expression.
#[derive(Debug)]
pub enum Argument {
    SpreadElement,
    Expression(Expression),
}

impl Argument {
    /// The argument as an expression, unless it is a spread element.
    pub fn as_expression(&self) -> (r: Option<&Expression>)
        ensures
            r == (match self {
                Argument::SpreadElement => None,
                Argument::Expression(e) => Some(e),
            }),
    {
        match self {
            Argument::SpreadElement => None,
            Argument::Expression(e) => Some(e),
        }
    }
}

/// The key of an object property, by its static name: the identifier or
/// literal that names it, where it has one (`a` in `{ a: 1 }` and in
/// `{ 'a': 1 }`; none for a computed key such as `[a]`).
#[derive(Debug)]
pub struct PropertyKey {
    pub static_name: Option<String>,
}

impl PropertyKey {
    /// Whether the key's static name is exactly `name`.
    pub fn is_specific_static_name(&self, name: &str) -> (r: bool)
        ensures
            r == (match self.static_name {
                Some(n) => n@ == name@,
                None => false,
            }),
    {
        match &self.static_name {
            Some(n) => str_eq(n.as_str(), name),
            None => false,
        }
    }
}

/// A property `key: value` of an object literal.
#[derive(Debug)]
pub struct ObjectProperty {
    pub key: PropertyKey,
    pub value: Expression,
}

/// A call `callee(arguments..)`.
#[derive(Debug)]
pub struct CallExpression {
    pub callee: Expression,
    pub arguments: Vec<Argument>,
}

/// A node of the syntax tree, as far as the rule tells kinds apart.
#[derive(Debug)]
pub enum AstKind {
    ObjectProperty(ObjectProperty),
    CallExpression(CallExpression),
    Other,
}

} // verus!
