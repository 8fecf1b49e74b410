use policy_mcp::{
    do_explain_rule, explain_condition_group, Comparison, Condition, ConditionGroup, Rule,
    RuleReference, RuleSet,
};

// The parsed form of
//   A **Person** gets senior_discount
//     if the __age__ of the **Person** is greater than or equal to 65.
fn simple_rule() -> RuleSet {
    RuleSet {
        rules: vec![Rule {
            label: None,
            selector: "Person".to_string(),
            outcome: "senior_discount".to_string(),
            conditions: vec![comparison(None, "Person", "age", "is greater than or equal to", "65")],
        }],
    }
}

// The parsed form of the two rules `express_eligible` and `free_shipping`,
// the second referring to the first.
fn multi_rule() -> RuleSet {
    RuleSet {
        rules: vec![
            Rule {
                label: None,
                selector: "Order".to_string(),
                outcome: "express_eligible".to_string(),
                conditions: vec![comparison(None, "Order", "weight", "is less than", "5")],
            },
            Rule {
                label: None,
                selector: "Order".to_string(),
                outcome: "free_shipping".to_string(),
                conditions: vec![
                    ConditionGroup {
                        operator: None,
                        condition: Condition::RuleReference(RuleReference {
                            selector: "Order".to_string(),
                            rule_name: "express_eligible".to_string(),
                        }),
                        optional: false,
                        negated: false,
                    },
                    comparison(Some("And"), "Order", "total", "is greater than", "50"),
                ],
            },
        ],
    }
}

fn comparison(op: Option<&str>, selector: &str, property: &str, operator: &str, value: &str) -> ConditionGroup {
    ConditionGroup {
        operator: op.map(|s| s.to_string()),
        condition: Condition::Comparison(Comparison {
            selector: selector.to_string(),
            property: property.to_string(),
            operator: operator.to_string(),
            value: value.to_string(),
        }),
        optional: false,
        negated: false,
    }
}

#[test]
fn explain_rule_returns_correct_count() {
    let out = do_explain_rule(Ok(simple_rule()));
    assert!(out.error.is_none(), "unexpected error: {:?}", out.error);
    assert_eq!(out.rule_count, 1);
    assert_eq!(out.rules.len(), 1);
}

#[test]
fn explain_rule_correct_selector_and_outcome() {
    let out = do_explain_rule(Ok(simple_rule()));
    let rule = &out.rules[0];
    assert_eq!(rule.selector, "Person");
    assert_eq!(rule.outcome, "senior_discount");
}

#[test]
fn explain_rule_label_none_when_absent() {
    let out = do_explain_rule(Ok(simple_rule()));
    assert!(out.rules[0].label.is_none());
}

#[test]
fn explain_rule_conditions_present() {
    let out = do_explain_rule(Ok(simple_rule()));
    let rule = &out.rules[0];
    assert!(!rule.conditions.is_empty(), "expected at least one condition");
    let cond = &rule.conditions[0];
    assert_eq!(cond.kind, "comparison");
    assert_eq!(cond.operator.as_deref(), Some("is greater than or equal to"));
}

#[test]
fn explain_rule_invalid_dsl_returns_error() {
    let out = do_explain_rule(Err("unexpected token '!'".to_string()));
    assert!(out.error.is_some(), "expected error for invalid DSL");
    assert_eq!(out.rule_count, 0);
    assert!(out.rules.is_empty());
}

#[test]
fn explain_rule_multiple_rules() {
    let out = do_explain_rule(Ok(multi_rule()));
    assert!(out.error.is_none(), "unexpected error: {:?}", out.error);
    assert_eq!(out.rule_count, 2);
}

#[test]
fn explain_rule_with_label() {
    let mut parsed = simple_rule();
    parsed.rules[0].label = Some("age.check".to_string());
    parsed.rules[0].outcome = "adult".to_string();
    let out = do_explain_rule(Ok(parsed));
    assert!(out.error.is_none(), "unexpected error: {:?}", out.error);
    let rule = &out.rules[0];
    assert_eq!(rule.label.as_deref(), Some("age.check"));
}

#[test]
fn explain_error_message_is_the_parsers() {
    let out = do_explain_rule(Err("line 1: expected 'gets'".to_string()));
    assert_eq!(out.error.as_deref(), Some("line 1: expected 'gets'"));
}

#[test]
fn explain_comparison_fields() {
    let out = do_explain_rule(Ok(simple_rule()));
    let cond = &out.rules[0].conditions[0];
    assert_eq!(cond.selector.as_deref(), Some("Person"));
    assert_eq!(cond.property.as_deref(), Some("age"));
    assert_eq!(cond.value.as_deref(), Some("65"));
    assert!(cond.rule_name.is_none());
    assert!(cond.logical_op.is_none());
    assert!(cond.group.is_empty());
    assert!(!cond.optional);
    assert!(!cond.negated);
}

#[test]
fn explain_rule_reference_and_connective() {
    let out = do_explain_rule(Ok(multi_rule()));
    let second = &out.rules[1];
    assert_eq!(second.conditions.len(), 2);
    let reference = &second.conditions[0];
    assert_eq!(reference.kind, "rule_reference");
    assert_eq!(reference.selector.as_deref(), Some("Order"));
    assert_eq!(reference.rule_name.as_deref(), Some("express_eligible"));
    assert!(reference.property.is_none());
    assert!(reference.operator.is_none());
    assert!(reference.value.is_none());
    // the connective's name is shown in lowercase
    assert_eq!(second.conditions[1].logical_op.as_deref(), Some("and"));
}

#[test]
fn explain_nested_group_keeps_every_condition() {
    let inner = vec![
        comparison(None, "Person", "age", "is less than", "18"),
        ConditionGroup {
            operator: Some("Or".to_string()),
            condition: Condition::Group(vec![comparison(None, "Person", "name", "exists", "")]),
            optional: true,
            negated: true,
        },
    ];
    let cg = ConditionGroup {
        operator: Some("AND".to_string()),
        condition: Condition::Group(inner),
        optional: false,
        negated: true,
    };
    let ce = explain_condition_group(&cg);
    assert_eq!(ce.kind, "group");
    assert_eq!(ce.logical_op.as_deref(), Some("and"));
    assert!(ce.negated);
    assert!(ce.selector.is_none());
    assert_eq!(ce.group.len(), 2);
    assert_eq!(ce.group[0].kind, "comparison");
    assert_eq!(ce.group[1].kind, "group");
    assert_eq!(ce.group[1].logical_op.as_deref(), Some("or"));
    assert!(ce.group[1].optional);
    assert_eq!(ce.group[1].group.len(), 1);
    assert_eq!(ce.group[1].group[0].property.as_deref(), Some("name"));
}
