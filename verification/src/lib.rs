//! The rule tools of a policy server: what is answered when a policy rule is
//! validated, explained or evaluated, and the catalogue of comparison
//! operators that the policy language offers.
//!
//! Parsing and evaluating the rule language belong to the policy engine; this
//! library receives what the engine produced, held in the plain model of
//! [`model`], and builds the answers that the server sends.

mod evaluate;
mod explain;
mod json;
mod laws;
mod model;
mod operators;
mod text;
mod tools;
mod validate;

pub use evaluate::{
    all_hold, all_outcomes_hold, do_evaluate_rules, evaluation_answer, EvaluateRulesInput,
    EvaluateRulesOutput, RuleEvaluation,
};
pub use explain::{
    do_explain_rule, explain_condition_group, explain_rule, explains_all, explains_condition,
    explains_rule, explanation_answer, lemma_explains_all_pointwise, spec_logical_op,
    ConditionExplain, ExplainOutput, ExplainRuleInput, RuleExplain,
};
pub use laws::{
    condition_count, conditions_count, explanation_count, explanations_count,
    lemma_breakdown_counts_every_condition, lemma_breakdown_of_condition,
    lemma_breakdowns_count_every_condition, lemma_evaluation_keeps_engine_trace,
    lemma_overall_result_is_every_outcome, lemma_parse_failure_reported_alike,
    lemma_parsed_text_is_explained, lemma_parsed_text_is_valid,
    lemma_rule_breakdown_lists_every_condition, lemma_unparsed_text_is_invalid,
    lemma_validation_agrees_with_explanation,
};
pub use model::{Comparison, Condition, ConditionGroup, Rule, RuleReference, RuleSet};
pub use operators::{
    all_operators, do_list_operators, lemma_catalogue_lists_each_operator_once,
    lemma_catalogue_lists_every_operator, operator_order, operator_position, ComparisonOperator,
    OperatorInfo,
};
pub use text::lowercase;
pub use tools::{error_reply, PolicyTools, ServerProfile, SERVER_INSTRUCTIONS};
pub use validate::{do_validate_rule, validation_answer, ValidateRuleInput, ValidateRuleOutput};
