use vstd::prelude::*;
use crate::model::{Condition, ConditionGroup, Rule, RuleSet};
use crate::text::{lowercase, to_lowercase};

verus! {

/// The request of the explanation tool: a rule text to break down.
pub struct ExplainRuleInput {
    pub rule: String,
}

/// The breakdown of one condition.
///
/// `kind` is `comparison`, `rule_reference` or `group`; the fields that do not
/// belong to that kind are `None`, and `group` holds the breakdown of a
/// group's inner conditions.
pub struct ConditionExplain {
    pub kind: String,
    pub selector: Option<String>,
    pub property: Option<String>,
    pub operator: Option<String>,
    pub value: Option<String>,
    pub rule_name: Option<String>,
    pub logical_op: Option<String>,
    pub optional: bool,
    pub negated: bool,
    pub group: Vec<ConditionExplain>,
}

/// The breakdown of one rule.
pub struct RuleExplain {
    pub label: Option<String>,
    pub selector: String,
    pub outcome: String,
    pub conditions: Vec<ConditionExplain>,
}

/// The answer of the explanation tool.
pub struct ExplainOutput {
    pub rule_count: usize,
    pub rules: Vec<RuleExplain>,
    pub error: Option<String>,
}

/// The connective of a condition as the breakdown shows it: the engine's
/// name for it, in lowercase.
pub open spec fn spec_logical_op(operator: Option<String>) -> Option<Seq<char>> {
    match operator {
        Some(op) => Some(lowercase(op@)),
        None => None,
    }
}

/// `ce` is the breakdown of the condition `cg`.
pub open spec fn explains_condition(cg: ConditionGroup, ce: ConditionExplain) -> bool
    decreases cg, 1nat,
{
    &&& ce.logical_op.deep_view() == spec_logical_op(cg.operator)
    &&& ce.optional == cg.optional
    &&& ce.negated == cg.negated
    &&& match cg.condition {
        Condition::Comparison(c) => {
            &&& ce.kind@ == "comparison"@
            &&& ce.selector.deep_view() == Some(c.selector@)
            &&& ce.property.deep_view() == Some(c.property@)
            &&& ce.operator.deep_view() == Some(c.operator@)
            &&& ce.value.deep_view() == Some(c.value@)
            &&& ce.rule_name is None
            &&& ce.group@.len() == 0
        },
        Condition::RuleReference(r) => {
            &&& ce.kind@ == "rule_reference"@
            &&& ce.selector.deep_view() == Some(r.selector@)
            &&& ce.property is None
            &&& ce.operator is None
            &&& ce.value is None
            &&& ce.rule_name.deep_view() == Some(r.rule_name@)
            &&& ce.group@.len() == 0
        },
        Condition::Group(inner) => {
            &&& ce.kind@ == "group"@
            &&& ce.selector is None
            &&& ce.property is None
            &&& ce.operator is None
            &&& ce.value is None
            &&& ce.rule_name is None
            &&& explains_all(inner@, ce.group@)
        },
    }
}

/// `es` is the breakdown of the conditions `cs`, one by one and in order.
pub open spec fn explains_all(cs: Seq<ConditionGroup>, es: Seq<ConditionExplain>) -> bool
    decreases cs, 0nat,
{
    &&& cs.len() == es.len()
    &&& cs.len() > 0 ==> {
        &&& explains_all(cs.drop_last(), es.drop_last())
        &&& explains_condition(cs.last(), es.last())
    }
}

/// `explains_all` pairs up the two sequences position by position.
pub proof fn lemma_explains_all_pointwise(cs: Seq<ConditionGroup>, es: Seq<ConditionExplain>)
    ensures
        explains_all(cs, es) <==> {
            &&& cs.len() == es.len()
            &&& forall|i: int| 0 <= i < cs.len() ==> #[trigger] explains_condition(cs[i], es[i])
        },
    decreases cs.len(),
{
    if cs.len() > 0 && cs.len() == es.len() {
        lemma_explains_all_pointwise(cs.drop_last(), es.drop_last());
        if forall|i: int| 0 <= i < cs.len() ==> #[trigger] explains_condition(cs[i], es[i]) {
            assert forall|i: int| 0 <= i < cs.drop_last().len() implies #[trigger] explains_condition(
                cs.drop_last()[i],
                es.drop_last()[i],
            ) by {
                assert(explains_condition(cs[i], es[i]));
            }
            assert(explains_condition(cs[cs.len() - 1], es[es.len() - 1]));
        }
        if explains_all(cs, es) {
            assert forall|i: int| 0 <= i < cs.len() implies #[trigger] explains_condition(
                cs[i],
                es[i],
            ) by {
                if i < cs.len() - 1 {
                    assert(explains_condition(cs.drop_last()[i], es.drop_last()[i]));
                }
            }
        }
    }
}

/// Appending one explained condition keeps the pairing.
proof fn lemma_explains_all_push(
    cs: Seq<ConditionGroup>,
    i: int,
    es: Seq<ConditionExplain>,
    e: ConditionExplain,
)
    requires
        0 <= i < cs.len(),
        explains_all(cs.take(i), es),
        explains_condition(cs[i], e),
    ensures
        explains_all(cs.take(i + 1), es.push(e)),
{
    assert(cs.take(i + 1).drop_last() =~= cs.take(i));
    assert(es.push(e).drop_last() =~= es);
}

/// `re` is the breakdown of the rule `r`.
pub open spec fn explains_rule(r: Rule, re: RuleExplain) -> bool {
    &&& re.label.deep_view() == r.label.deep_view()
    &&& re.selector@ == r.selector@
    &&& re.outcome@ == r.outcome@
    &&& explains_all(r.conditions@, re.conditions@)
}

fn copy_string(s: &String) -> (res: String)
    ensures
        res == *s,
{
    s.clone()
}

fn copy_opt_string(s: &Option<String>) -> (res: Option<String>)
    ensures
        res == *s,
{
    match s {
        Some(v) => Some(v.clone()),
        None => None,
    }
}

/// Breaks one condition down, inner conditions of a group included.
pub fn explain_condition_group(cg: &ConditionGroup) -> (ce: ConditionExplain)
    ensures
        explains_condition(*cg, ce),
        ce.logical_op.deep_view() == match cg.operator {
            Some(op) => Some(lowercase(op@)),
            None => None,
        },
        ce.optional == cg.optional,
        ce.negated == cg.negated,
        ce.group@.len() == match cg.condition {
            Condition::Group(inner) => inner@.len(),
            _ => 0,
        },
        ce.selector.deep_view() == match cg.condition {
            Condition::Comparison(c) => Some(c.selector@),
            Condition::RuleReference(r) => Some(r.selector@),
            Condition::Group(_) => None,
        },
        ce.rule_name.deep_view() == match cg.condition {
            Condition::RuleReference(r) => Some(r.rule_name@),
            _ => None,
        },
        cg.condition matches Condition::Comparison(c) ==> {
            &&& ce.kind@ == "comparison"@
            &&& ce.property.deep_view() == Some(c.property@)
            &&& ce.operator.deep_view() == Some(c.operator@)
            &&& ce.value.deep_view() == Some(c.value@)
        },
        !(cg.condition is Comparison) ==> {
            &&& ce.property is None
            &&& ce.operator is None
            &&& ce.value is None
        },
    decreases cg,
{
    let logical_op = match &cg.operator {
        Some(op) => Some(to_lowercase(op.as_str())),
        None => None,
    };
    match &cg.condition {
        Condition::Comparison(c) => ConditionExplain {
            kind: String::from_str("comparison"),
            selector: Some(copy_string(&c.selector)),
            property: Some(copy_string(&c.property)),
            operator: Some(copy_string(&c.operator)),
            value: Some(copy_string(&c.value)),
            rule_name: None,
            logical_op,
            optional: cg.optional,
            negated: cg.negated,
            group: Vec::new(),
        },
        Condition::RuleReference(r) => ConditionExplain {
            kind: String::from_str("rule_reference"),
            selector: Some(copy_string(&r.selector)),
            property: None,
            operator: None,
            value: None,
            rule_name: Some(copy_string(&r.rule_name)),
            logical_op,
            optional: cg.optional,
            negated: cg.negated,
            group: Vec::new(),
        },
        Condition::Group(inner) => {
            let mut group: Vec<ConditionExplain> = Vec::new();
            let mut i: usize = 0;
            while i < inner.len()
                invariant
                    cg.condition == Condition::Group(*inner),
                    i <= inner@.len(),
                    explains_all(inner@.take(i as int), group@),
                decreases inner@.len() - i,
            {
                proof {
                    // the inner condition is strictly smaller than `cg`
                    assert(decreases_to!(cg => cg.condition));
                    assert(decreases_to!(cg.condition => cg.condition->Group_0));
                    assert(decreases_to!(cg.condition->Group_0 => cg.condition->Group_0@));
                    assert(decreases_to!(inner@ => inner@[i as int]));
                }
                let e = explain_condition_group(&inner[i]);
                proof {
                    lemma_explains_all_push(inner@, i as int, group@, e);
                }
                group.push(e);
                i = i + 1;
            }
            let ce = ConditionExplain {
                kind: String::from_str("group"),
                selector: None,
                property: None,
                operator: None,
                value: None,
                rule_name: None,
                logical_op,
                optional: cg.optional,
                negated: cg.negated,
                group,
            };
            assert(inner@.take(inner@.len() as int) =~= inner@);
            ce
        },
    }
}

/// Breaks one rule down.
pub fn explain_rule(r: &Rule) -> (re: RuleExplain)
    ensures
        explains_rule(*r, re),
        re.label.deep_view() == r.label.deep_view(),
        re.selector@ == r.selector@,
        re.outcome@ == r.outcome@,
        re.conditions@.len() == r.conditions@.len(),
        forall|i: int|
            0 <= i < r.conditions@.len() ==> #[trigger] explains_condition(
                r.conditions@[i],
                re.conditions@[i],
            ),
{
    let mut conditions: Vec<ConditionExplain> = Vec::new();
    let mut i: usize = 0;
    while i < r.conditions.len()
        invariant
            i <= r.conditions@.len(),
            explains_all(r.conditions@.take(i as int), conditions@),
        decreases r.conditions@.len() - i,
    {
        let e = explain_condition_group(&r.conditions[i]);
        proof {
            lemma_explains_all_push(r.conditions@, i as int, conditions@, e);
        }
        conditions.push(e);
        i = i + 1;
    }
    assert(r.conditions@.take(r.conditions@.len() as int) =~= r.conditions@);
    proof {
        lemma_explains_all_pointwise(r.conditions@, conditions@);
    }
    RuleExplain {
        label: copy_opt_string(&r.label),
        selector: copy_string(&r.selector),
        outcome: copy_string(&r.outcome),
        conditions,
    }
}

/// `out` answers the explanation of a rule text whose parsing gave `parsed`:
/// the breakdown of every parsed rule, in order, or no rules and the parser's
/// message. The count always equals the number of rules listed.
pub open spec fn explanation_answer(parsed: Result<RuleSet, String>, out: ExplainOutput) -> bool {
    &&& out.rule_count == out.rules@.len()
    &&& match parsed {
        Ok(rs) => {
            &&& out.error is None
            &&& out.rules@.len() == rs.rules@.len()
            &&& forall|i: int|
                0 <= i < rs.rules@.len() ==> #[trigger] explains_rule(rs.rules@[i], out.rules@[i])
        },
        Err(e) => {
            &&& out.error == Some(e)
            &&& out.rules@.len() == 0
        },
    }
}

/// The answer of the explanation tool, given what parsing the rule text gave:
/// the parsed rules or the parser's error message.
pub fn do_explain_rule(parsed: Result<RuleSet, String>) -> (out: ExplainOutput)
    ensures
        explanation_answer(parsed, out),
        out.rule_count == out.rules@.len(),
        parsed matches Err(e) ==> out.error == Some(e) && out.rules@.len() == 0,
        match parsed {
            Ok(rs) => {
                &&& out.error is None
                &&& out.rules@.len() == rs.rules@.len()
                &&& forall|i: int|
                    0 <= i < rs.rules@.len() ==> {
                        &&& (#[trigger] out.rules@[i]).conditions@.len()
                            == rs.rules@[i].conditions@.len()
                        &&& out.rules@[i].selector@ == rs.rules@[i].selector@
                        &&& out.rules@[i].outcome@ == rs.rules@[i].outcome@
                        &&& out.rules@[i].label.deep_view() == rs.rules@[i].label.deep_view()
                    }
            },
            Err(_) => true,
        },
{
    match parsed {
        Err(e) => ExplainOutput { rule_count: 0, rules: Vec::new(), error: Some(e) },
        Ok(rs) => {
            let mut rules: Vec<RuleExplain> = Vec::new();
            let mut i: usize = 0;
            while i < rs.rules.len()
                invariant
                    i <= rs.rules@.len(),
                    rules@.len() == i,
                    forall|j: int| 0 <= j < i ==> #[trigger] explains_rule(rs.rules@[j], rules@[j]),
                    forall|j: int|
                        0 <= j < i ==> {
                            &&& (#[trigger] rules@[j]).conditions@.len()
                                == rs.rules@[j].conditions@.len()
                            &&& rules@[j].selector@ == rs.rules@[j].selector@
                            &&& rules@[j].outcome@ == rs.rules@[j].outcome@
                            &&& rules@[j].label.deep_view() == rs.rules@[j].label.deep_view()
                        },
                decreases rs.rules@.len() - i,
            {
                let e = explain_rule(&rs.rules[i]);
                rules.push(e);
                i = i + 1;
            }
            ExplainOutput { rule_count: rules.len(), rules, error: None }
        },
    }
}

} // verus!
