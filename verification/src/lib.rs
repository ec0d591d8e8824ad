//! Checks the casing of Vue component definition names.
//!
//! A component is named either by a `name` property of an object
//! (`export default { name: 'FooBar' }`) or by the first argument of a
//! `.component(..)` call (`Vue.component('FooBar', {..})`). The rule reports
//! names that hold characters other than ASCII letters and hyphens. In the
//! default PascalCase mode it also reports a kebab-case name, together with a
//! fix that rewrites it to PascalCase; in kebab-case mode every name without
//! such characters is accepted.

pub mod chars;
pub mod casing;
pub mod span;
pub mod ast;
pub mod rule;
