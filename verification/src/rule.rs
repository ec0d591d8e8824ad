//! The rule: which component names it reports, and the fix it offers.

use vstd::prelude::*;
use crate::ast::{Argument, AstKind, Expression, StringLiteral};
use crate::casing::{
    has_symbols, is_kebab_case, kebab_to_pascal, lemma_has_symbols_characterization,
    lemma_kebab_case_characterization, lemma_pascal_of_kebab_is_clean,
    spec_has_symbols, spec_is_kebab_case, spec_kebab_to_pascal,
};
use crate::chars::str_eq;
use crate::span::Span;

verus! {

/// The casing option of the rule: PascalCase (the default) or kebab-case.
#[derive(Clone, Copy, Debug, PartialEq, Eq, Structural)]
pub enum NameCasing {
    PascalCase,
    KebabCase,
}

/// Checks the names of Vue component definitions.
///
/// Bad (in the default PascalCase mode): `export default { name: 'my-component' }`.
/// Good: `export default { name: 'MyComponent' }`.
#[derive(Clone, Copy, Debug)]
pub struct ComponentDefinitionNameCasing {
    pub casing: NameCasing,
}

/// A replacement of the source text within `span` by `content`.
#[derive(Debug)]
pub struct Fix {
    pub span: Span,
    pub content: String,
}

/// What the rule reports on a component name: a diagnostic at the name's
/// span, and with it a fix where one is offered.
#[derive(Debug)]
pub enum Report {
    Diagnostic { span: Span },
    DiagnosticWithFix { span: Span, fix: Fix },
}

/// Whether a component name is reported: a name with symbols in every
/// casing; in PascalCase mode also a kebab-case name. In kebab-case mode a
/// name without symbols is accepted whatever its form.
pub open spec fn spec_name_violation(casing: NameCasing, name: Seq<char>) -> bool {
    match casing {
        NameCasing::PascalCase => spec_has_symbols(name) || spec_is_kebab_case(name),
        NameCasing::KebabCase => spec_has_symbols(name),
    }
}

/// Whether the report on a name comes with a fix: in PascalCase mode, for a
/// kebab-case name without symbols.
pub open spec fn spec_fix_offered(casing: NameCasing, name: Seq<char>) -> bool {
    casing == NameCasing::PascalCase && !spec_has_symbols(name) && spec_is_kebab_case(name)
}

/// What a check of the string literal `lit` answers: nothing for an
/// acceptable name; a diagnostic at the literal's span for a name that breaks
/// the casing; and, where a fix is offered, the fix that rewrites the text
/// between the quotes to the name's PascalCase form.
pub open spec fn spec_report_on(r: Option<Report>, casing: NameCasing, lit: StringLiteral) -> bool {
    match r {
        None => !spec_name_violation(casing, lit.value@),
        Some(Report::Diagnostic { span }) => {
            &&& spec_name_violation(casing, lit.value@)
            &&& !spec_fix_offered(casing, lit.value@)
            &&& span == lit.span
        },
        Some(Report::DiagnosticWithFix { span, fix }) => {
            &&& spec_fix_offered(casing, lit.value@)
            &&& span == lit.span
            &&& fix.span == lit.span.spec_shrink(1)
            &&& fix.content@ == spec_kebab_to_pascal(lit.value@)
        },
    }
}

/// The string literal that names a component at this node, if any: the
/// value of an object property whose key is `name`, or the first argument of
/// a call of a member `.component`.
pub open spec fn spec_component_name(node: AstKind) -> Option<StringLiteral> {
    match node {
        AstKind::ObjectProperty(prop) => {
            if prop.key.static_name matches Some(k) && k@ == "name"@ {
                match prop.value {
                    Expression::StringLiteral(lit) => Some(lit),
                    _ => None,
                }
            } else {
                None
            }
        },
        AstKind::CallExpression(call) => {
            match call.callee {
                Expression::StaticMemberExpression(member) => {
                    if member.property.name@ == "component"@ && call.arguments@.len() > 0 {
                        match call.arguments@[0] {
                            Argument::Expression(Expression::StringLiteral(lit)) => Some(lit),
                            _ => None,
                        }
                    } else {
                        None
                    }
                },
                _ => None,
            }
        },
        AstKind::Other => None,
    }
}

/// A literal whose name gets a fix spans its quotes, so that the text
/// between them can be replaced.
pub open spec fn spec_fixable_span(casing: NameCasing, lit: StringLiteral) -> bool {
    spec_fix_offered(casing, lit.value@) ==> lit.span.can_shrink(1)
}

impl Default for ComponentDefinitionNameCasing {
    fn default() -> (r: Self)
        ensures
            r.casing == NameCasing::PascalCase,
    {
        ComponentDefinitionNameCasing { casing: NameCasing::PascalCase }
    }
}

impl ComponentDefinitionNameCasing {
    /// The rule configured by the first option, `"PascalCase"` or
    /// `"kebab-case"`; PascalCase unless `"kebab-case"` is given.
    pub fn from_configuration(option: Option<&str>) -> (r: Self)
        ensures
            r.casing == (if option matches Some(s) && s@ == "kebab-case"@ {
                NameCasing::KebabCase
            } else {
                NameCasing::PascalCase
            }),
    {
        match option {
            Some(s) => {
                if str_eq(s, "kebab-case") {
                    ComponentDefinitionNameCasing { casing: NameCasing::KebabCase }
                } else {
                    ComponentDefinitionNameCasing { casing: NameCasing::PascalCase }
                }
            },
            None => ComponentDefinitionNameCasing { casing: NameCasing::PascalCase },
        }
    }

    /// Checks the component name that this node defines, if it defines one.
    pub fn run(&self, node: &AstKind) -> (r: Option<Report>)
        requires
            spec_component_name(*node) matches Some(lit) ==> spec_fixable_span(self.casing, lit),
        ensures
            match spec_component_name(*node) {
                None => r is None,
                Some(lit) => spec_report_on(r, self.casing, lit),
            },
    {
        match node {
            AstKind::ObjectProperty(object_property) => {
                if !object_property.key.is_specific_static_name("name") {
                    return None;
                }
                match &object_property.value {
                    Expression::StringLiteral(string_literal) => {
                        check_identifier(self.casing, string_literal)
                    },
                    _ => None,
                }
            },
            AstKind::CallExpression(call_expression) => {
                let callee = &call_expression.callee;
                let static_member_expression = match callee {
                    Expression::StaticMemberExpression(e) => e,
                    _ => {
                        return None;
                    },
                };
                let name = &static_member_expression.property.name;
                if !str_eq(name.as_str(), "component") {
                    return None;
                }
                if call_expression.arguments.len() == 0 {
                    return None;
                }
                let first_arg = &call_expression.arguments[0];
                match first_arg.as_expression() {
                    Some(Expression::StringLiteral(identifier_name)) => {
                        check_identifier(self.casing, identifier_name)
                    },
                    _ => None,
                }
            },
            AstKind::Other => None,
        }
    }
}

/// Checks one component name against the casing.
pub fn check_identifier(casing: NameCasing, identifier_name: &StringLiteral) -> (r: Option<Report>)
    requires
        spec_fixable_span(casing, *identifier_name),
    ensures
        spec_report_on(r, casing, *identifier_name),
{
    let span = identifier_name.span;
    if has_symbols(identifier_name.value.as_str()) {
        return Some(Report::Diagnostic { span });
    }
    let is_kebab_case = is_kebab_case(identifier_name.value.as_str());
    match casing {
        NameCasing::PascalCase => {
            if is_kebab_case {
                let fix = Fix {
                    span: span.shrink(1),
                    content: kebab_to_pascal(identifier_name.value.as_str()),
                };
                Some(Report::DiagnosticWithFix { span, fix })
            } else {
                None
            }
        },
        NameCasing::KebabCase => None,
    }
}

/// The fix is accepted: in PascalCase mode, where a non-empty name is offered
/// a fix, the name that the fix writes is not reported. (An empty name `''`
/// is kebab-case, is offered a fix, and the fix writes `''` again.)
pub proof fn lemma_fixed_name_is_accepted(name: Seq<char>)
    requires
        name.len() > 0,
        spec_fix_offered(NameCasing::PascalCase, name),
    ensures
        !spec_name_violation(NameCasing::PascalCase, spec_kebab_to_pascal(name)),
{
    lemma_pascal_of_kebab_is_clean(name);
}

/// Every fix comes with a report: a name that is offered a fix breaks the
/// casing.
pub proof fn lemma_fix_implies_violation(casing: NameCasing, name: Seq<char>)
    ensures
        spec_fix_offered(casing, name) ==> spec_name_violation(casing, name),
{
}

/// Which names are reported and which get a fix, in terms of their
/// characters. In PascalCase mode a fix is offered exactly for a name made of
/// lowercase ASCII letters and hyphens that does not begin with a hyphen and
/// has no two hyphens in a row (`'button'`, `'my-ui-button'`), and a name is
/// reported exactly when it gets a fix or holds a character other than an
/// ASCII letter or a hyphen. In kebab-case mode a name is reported exactly
/// when it holds such a character, and no fix is offered.
pub proof fn lemma_verdict_by_characters(n: Seq<char>)
    ensures
        spec_fix_offered(NameCasing::PascalCase, n) <==> {
            &&& forall|i: int| 0 <= i < n.len() ==> ('a' <= #[trigger] n[i] && n[i] <= 'z') || n[i] == '-'
            &&& !(n.len() > 0 && n[0] == '-')
            &&& forall|i: int| 0 <= i < n.len() - 1 ==> !(#[trigger] n[i] == '-' && n[i + 1] == '-')
        },
        spec_name_violation(NameCasing::PascalCase, n) <==> {
            ||| spec_fix_offered(NameCasing::PascalCase, n)
            ||| exists|i: int|
                0 <= i < n.len() && !(('A' <= #[trigger] n[i] && n[i] <= 'Z') || ('a' <= n[i] && n[i] <= 'z')
                    || n[i] == '-')
        },
        spec_name_violation(NameCasing::KebabCase, n) <==> exists|i: int|
            0 <= i < n.len() && !(('A' <= #[trigger] n[i] && n[i] <= 'Z') || ('a' <= n[i] && n[i] <= 'z')
                || n[i] == '-'),
        !spec_fix_offered(NameCasing::KebabCase, n),
{
    lemma_kebab_case_characterization(n);
    lemma_has_symbols_characterization(n);
    if spec_is_kebab_case(n) {
        assert forall|i: int| 0 <= i < n.len() implies !(!(('A' <= #[trigger] n[i] && n[i] <= 'Z')
            || ('a' <= n[i] && n[i] <= 'z') || n[i] == '-')) by {
            assert(('a' <= n[i] && n[i] <= 'z') || n[i] == '-');
        }
    }
}

/// Where a component name comes from. An object property names a component
/// exactly when the static name of its key is `name` (so not `username`,
/// nor a computed key) and its value is a string literal; a call does exactly
/// when its callee is a member access `.component` and its first argument is
/// a string literal (not a spread). No other node names a component.
pub proof fn lemma_component_name_sources(node: AstKind)
    ensures
        node matches AstKind::ObjectProperty(p) ==> spec_component_name(node) == match p.value {
            Expression::StringLiteral(l) => if p.key.static_name matches Some(k) && k@ == "name"@ {
                Some(l)
            } else {
                None
            },
            _ => None,
        },
        node matches AstKind::CallExpression(c) ==> spec_component_name(node) == match c.callee {
            Expression::StaticMemberExpression(m) => if m.property.name@ == "component"@
                && c.arguments@.len() > 0 {
                match c.arguments@[0] {
                    Argument::Expression(Expression::StringLiteral(l)) => Some(l),
                    _ => None,
                }
            } else {
                None
            },
            _ => None,
        },
        node is Other ==> spec_component_name(node) is None,
{
}

} // verus!
