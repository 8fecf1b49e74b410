use policy_mcp::{do_validate_rule, RuleSet};

#[test]
fn validate_rule_valid_dsl() {
    let out = do_validate_rule(Ok(RuleSet { rules: Vec::new() }));
    assert!(out.valid, "expected valid=true for valid DSL");
    assert!(out.error.is_none());
}

#[test]
fn validate_rule_invalid_dsl() {
    let out = do_validate_rule(Err("unexpected token 'not'".to_string()));
    assert!(!out.valid, "expected valid=false");
    assert!(out.error.is_some(), "expected error message");
}

#[test]
fn validate_rule_empty_string() {
    for parsed in [Ok(RuleSet { rules: Vec::new() }), Err("empty input".to_string())] {
        let out = do_validate_rule(parsed);
        if out.valid {
            assert!(out.error.is_none());
        } else {
            assert!(out.error.is_some());
        }
    }
}

#[test]
fn validate_reports_the_parsers_message() {
    let out = do_validate_rule(Err("line 2: expected 'if'".to_string()));
    assert_eq!(out.error.as_deref(), Some("line 2: expected 'if'"));
}
