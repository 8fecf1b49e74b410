use policy_mcp::{do_evaluate_rules, do_explain_rule, do_validate_rule, RuleSet};

#[test]
fn tools_report_a_parse_failure_alike() {
    let message = "line 1: unexpected '!'".to_string();
    let v = do_validate_rule(Err(message.clone()));
    let x = do_explain_rule(Err(message.clone()));
    let o = do_evaluate_rules(Err(message.clone()));
    assert!(!v.valid);
    assert_eq!(v.error.as_deref(), Some(message.as_str()));
    assert_eq!(x.error, v.error);
    assert_eq!(o.error, v.error);
    assert!(!o.result);
    assert!(o.outcomes.is_empty());
    assert_eq!(x.rule_count, 0);
}

#[test]
fn validation_agrees_with_explanation_on_success() {
    let v = do_validate_rule(Ok(RuleSet { rules: Vec::new() }));
    let x = do_explain_rule(Ok(RuleSet { rules: Vec::new() }));
    assert!(v.valid);
    assert!(x.error.is_none());
    assert_eq!(x.rule_count, 0);
}
