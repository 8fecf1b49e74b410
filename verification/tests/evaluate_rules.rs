use policy_mcp::{all_outcomes_hold, do_evaluate_rules, RuleEvaluation};
use serde_json::Value;

fn evaluated(outcomes: Vec<(&str, bool)>) -> RuleEvaluation {
    RuleEvaluation {
        trace: Some(Value::Bool(true)),
        result: Ok(outcomes.into_iter().map(|(k, v)| (k.to_string(), v)).collect()),
    }
}

fn outcome(out: &[(String, bool)], name: &str) -> Option<bool> {
    out.iter().find(|(k, _)| k == name).map(|(_, v)| *v)
}

#[test]
fn evaluate_rules_matching_condition() {
    let out = do_evaluate_rules(Ok(evaluated(vec![("senior_discount", true)])));
    assert!(out.error.is_none(), "unexpected error: {:?}", out.error);
    assert!(out.result, "expected result=true for age 70");
    assert_eq!(outcome(&out.outcomes, "senior_discount").unwrap(), true);
}

#[test]
fn evaluate_rules_non_matching_condition() {
    let out = do_evaluate_rules(Ok(evaluated(vec![("senior_discount", false)])));
    assert!(out.error.is_none(), "unexpected error: {:?}", out.error);
    assert!(!out.result, "expected result=false for age 30");
    assert_eq!(outcome(&out.outcomes, "senior_discount").unwrap(), false);
}

#[test]
fn evaluate_rules_parse_error_returned() {
    let out = do_evaluate_rules(Err("unexpected token '!'".to_string()));
    assert!(!out.result);
    assert!(out.error.is_some(), "expected error message");
    assert!(out.outcomes.is_empty());
}

#[test]
fn evaluate_rules_trace_present_on_success() {
    let out = do_evaluate_rules(Ok(evaluated(vec![("senior_discount", true)])));
    assert!(out.error.is_none());
    assert!(out.trace.is_some(), "expected trace to be present");
}

#[test]
fn evaluate_rules_multiple_outcomes() {
    let out = do_evaluate_rules(Ok(evaluated(vec![("senior_discount", true)])));
    assert!(out.error.is_none(), "unexpected error: {:?}", out.error);
    assert!(!out.outcomes.is_empty());
}

#[test]
fn evaluate_overall_needs_every_outcome() {
    let out = do_evaluate_rules(Ok(evaluated(vec![("a", true), ("b", false), ("c", true)])));
    assert!(!out.result);
    assert_eq!(out.outcomes.len(), 3);
    let out = do_evaluate_rules(Ok(evaluated(vec![("a", true), ("c", true)])));
    assert!(out.result);
}

#[test]
fn evaluate_no_outcomes_holds() {
    let out = do_evaluate_rules(Ok(evaluated(vec![])));
    assert!(out.result);
    assert!(out.error.is_none());
    assert!(all_outcomes_hold(&Vec::new()));
}

#[test]
fn evaluate_failure_keeps_trace_and_message() {
    let out = do_evaluate_rules(Ok(RuleEvaluation {
        trace: Some(Value::String("steps".to_string())),
        result: Err("no global rule".to_string()),
    }));
    assert!(!out.result);
    assert!(out.outcomes.is_empty());
    assert_eq!(out.error.as_deref(), Some("no global rule"));
    assert_eq!(out.trace, Some(Value::String("steps".to_string())));
}

#[test]
fn evaluate_parse_error_has_no_trace() {
    let out = do_evaluate_rules(Err("bad".to_string()));
    assert!(out.trace.is_none());
    assert_eq!(out.error.as_deref(), Some("bad"));
}
