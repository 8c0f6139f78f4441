//! Well-formedness rules for sentences: a rule set and a verified evaluator
//! that decides whether a text satisfies it.

pub mod checker;
pub mod laws;
pub mod pattern;
pub mod rules;
pub mod text;

pub use checker::{CompiledRuleSet, ConfigError, check};
pub use rules::RuleSet;
