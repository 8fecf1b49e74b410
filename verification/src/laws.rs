use vstd::prelude::*;
use crate::evaluate::{evaluation_answer, EvaluateRulesOutput, RuleEvaluation};
use crate::explain::{
    explains_all, explains_condition, explains_rule, explanation_answer,
    lemma_explains_all_pointwise, ConditionExplain, ExplainOutput, RuleExplain,
};
use crate::model::{Condition, ConditionGroup, Rule, RuleSet};
use crate::text::lowercase;
use crate::validate::{validation_answer, ValidateRuleOutput};

verus! {

/// The validation tool and the explanation tool agree on a rule text: it is
/// valid exactly when its explanation reports no error, and both report the
/// same parser message.
pub proof fn lemma_validation_agrees_with_explanation(
    parsed: Result<RuleSet, String>,
    v: ValidateRuleOutput,
    x: ExplainOutput,
)
    requires
        validation_answer(parsed, v),
        explanation_answer(parsed, x),
    ensures
        v.valid <==> x.error is None,
        v.error == x.error,
{
}

/// A rule text that does not parse is reported alike by the three tools:
/// each gives the parser's message, the evaluation is false with no outcomes,
/// and the explanation lists no rules.
pub proof fn lemma_parse_failure_reported_alike(
    message: String,
    v: ValidateRuleOutput,
    x: ExplainOutput,
    o: EvaluateRulesOutput,
)
    requires
        validation_answer(Err(message), v),
        explanation_answer(Err(message), x),
        evaluation_answer(Err(message), o),
    ensures
        !v.valid,
        v.error == Some(message),
        x.error == Some(message),
        o.error == Some(message),
        !o.result,
        o.outcomes@.len() == 0,
        x.rule_count == 0,
        x.rules@.len() == 0,
        o.trace is None,
{
}

/// A rule text that parses is valid, and no error is reported for it.
pub proof fn lemma_parsed_text_is_valid(rs: RuleSet, v: ValidateRuleOutput)
    requires
        validation_answer(Ok(rs), v),
    ensures
        v.valid,
        v.error is None,
{
}

/// A rule text that does not parse is invalid, with the parser's message.
pub proof fn lemma_unparsed_text_is_invalid(message: String, v: ValidateRuleOutput)
    requires
        validation_answer(Err(message), v),
    ensures
        !v.valid,
        v.error == Some(message),
{
}

/// The overall result of an evaluation holds exactly when there is no error
/// and every reported outcome holds: one failing outcome makes it false. When
/// the evaluation succeeded, the reported outcomes are the engine's, all of
/// them, in its order.
pub proof fn lemma_overall_result_is_every_outcome(
    evaluated: Result<RuleEvaluation, String>,
    out: EvaluateRulesOutput,
)
    requires
        evaluation_answer(evaluated, out),
    ensures
        out.result <==> (out.error is None && forall|i: int|
            0 <= i < out.outcomes@.len() ==> #[trigger] out.outcomes@[i].1),
        forall|i: int| 0 <= i < out.outcomes@.len() && !(#[trigger] out.outcomes@[i]).1 ==> !out.result,
        match evaluated {
            Ok(ev) => match ev.result {
                Ok(outcomes) => {
                    &&& out.outcomes@ == outcomes@
                    &&& out.error is None
                    &&& (out.result <==> forall|i: int|
                        0 <= i < outcomes@.len() ==> #[trigger] outcomes@[i].1)
                },
                Err(e) => !out.result && out.error == Some(e),
            },
            Err(e) => !out.result && out.error == Some(e),
        },
{
}

/// When the rule text parses, the answer carries the engine's trace as it
/// is, whatever the outcomes and whether or not the evaluation failed.
pub proof fn lemma_evaluation_keeps_engine_trace(ev: RuleEvaluation, out: EvaluateRulesOutput)
    requires
        evaluation_answer(Ok(ev), out),
    ensures
        out.trace == ev.trace,
{
}

/// The breakdown of a condition, whatever its kind, shows its connective in
/// lowercase (none when it has none), keeps its optional and negated marks,
/// names its kind, and breaks down exactly the inner conditions of a group.
pub proof fn lemma_breakdown_of_condition(cg: ConditionGroup, ce: ConditionExplain)
    requires
        explains_condition(cg, ce),
    ensures
        ce.logical_op.deep_view() == match cg.operator {
            Some(op) => Some(lowercase(op@)),
            None => None,
        },
        ce.optional == cg.optional,
        ce.negated == cg.negated,
        ce.kind@ == match cg.condition {
            Condition::Comparison(_) => "comparison"@,
            Condition::RuleReference(_) => "rule_reference"@,
            Condition::Group(_) => "group"@,
        },
        ce.group@.len() == match cg.condition {
            Condition::Group(inner) => inner@.len(),
            _ => 0,
        },
        cg.condition is Group ==> forall|i: int|
            0 <= i < ce.group@.len() ==> #[trigger] explains_condition(
                cg.condition->Group_0@[i],
                ce.group@[i],
            ),
        ce.selector.deep_view() == match cg.condition {
            Condition::Comparison(c) => Some(c.selector@),
            Condition::RuleReference(r) => Some(r.selector@),
            Condition::Group(_) => None,
        },
        ce.property.deep_view() == match cg.condition {
            Condition::Comparison(c) => Some(c.property@),
            _ => None,
        },
        ce.operator.deep_view() == match cg.condition {
            Condition::Comparison(c) => Some(c.operator@),
            _ => None,
        },
        ce.value.deep_view() == match cg.condition {
            Condition::Comparison(c) => Some(c.value@),
            _ => None,
        },
        ce.rule_name.deep_view() == match cg.condition {
            Condition::RuleReference(r) => Some(r.rule_name@),
            _ => None,
        },
{
    if let Condition::Group(inner) = cg.condition {
        lemma_explains_all_pointwise(inner@, ce.group@);
    }
}

/// The breakdown of a rule keeps its label, selector and outcome, and has
/// exactly one condition breakdown per condition of the rule, in order, so
/// that no condition, nested ones included, is dropped or added.
pub proof fn lemma_rule_breakdown_lists_every_condition(r: Rule, re: RuleExplain)
    requires
        explains_rule(r, re),
    ensures
        re.label.deep_view() == r.label.deep_view(),
        re.selector@ == r.selector@,
        re.outcome@ == r.outcome@,
        re.conditions@.len() == r.conditions@.len(),
        forall|i: int|
            0 <= i < r.conditions@.len() ==> #[trigger] explains_condition(
                r.conditions@[i],
                re.conditions@[i],
            ),
        conditions_count(r.conditions@) == explanations_count(re.conditions@),
{
    lemma_explains_all_pointwise(r.conditions@, re.conditions@);
    lemma_breakdowns_count_every_condition(r.conditions@, re.conditions@);
}

/// A rule text that parses is explained without error, one breakdown per
/// rule in order, each with one condition breakdown per condition.
pub proof fn lemma_parsed_text_is_explained(rs: RuleSet, x: ExplainOutput)
    requires
        explanation_answer(Ok(rs), x),
    ensures
        x.error is None,
        x.rule_count == rs.rules@.len(),
        x.rules@.len() == rs.rules@.len(),
        forall|i: int|
            0 <= i < rs.rules@.len() ==> {
                &&& (#[trigger] x.rules@[i]).selector@ == rs.rules@[i].selector@
                &&& x.rules@[i].outcome@ == rs.rules@[i].outcome@
                &&& x.rules@[i].label.deep_view() == rs.rules@[i].label.deep_view()
                &&& x.rules@[i].conditions@.len() == rs.rules@[i].conditions@.len()
            },
{
    assert forall|i: int| 0 <= i < rs.rules@.len() implies {
        &&& (#[trigger] x.rules@[i]).selector@ == rs.rules@[i].selector@
        &&& x.rules@[i].outcome@ == rs.rules@[i].outcome@
        &&& x.rules@[i].label.deep_view() == rs.rules@[i].label.deep_view()
        &&& x.rules@[i].conditions@.len() == rs.rules@[i].conditions@.len()
    } by {
        lemma_rule_breakdown_lists_every_condition(rs.rules@[i], x.rules@[i]);
    }
}

/// The number of conditions in a condition, nested ones included.
pub open spec fn condition_count(cg: ConditionGroup) -> nat
    decreases cg, 1nat,
{
    1 + match cg.condition {
        Condition::Group(inner) => conditions_count(inner@),
        _ => 0,
    }
}

/// The number of conditions in a list of conditions, nested ones included.
pub open spec fn conditions_count(cs: Seq<ConditionGroup>) -> nat
    decreases cs, 0nat,
{
    if cs.len() == 0 {
        0
    } else {
        conditions_count(cs.drop_last()) + condition_count(cs.last())
    }
}

/// The number of condition breakdowns in a breakdown, nested ones included.
pub open spec fn explanation_count(ce: ConditionExplain) -> nat
    decreases ce, 1nat,
{
    1 + explanations_count(ce.group@)
}

/// The number of condition breakdowns in a list of them, nested ones included.
pub open spec fn explanations_count(es: Seq<ConditionExplain>) -> nat
    decreases es, 0nat,
{
    if es.len() == 0 {
        0
    } else {
        explanations_count(es.drop_last()) + explanation_count(es.last())
    }
}

/// The breakdown of a condition lists every condition in it, nested ones
/// included: no condition is dropped and none is added.
pub proof fn lemma_breakdown_counts_every_condition(cg: ConditionGroup, ce: ConditionExplain)
    requires
        explains_condition(cg, ce),
    ensures
        condition_count(cg) == explanation_count(ce),
    decreases cg, 1nat,
{
    match cg.condition {
        Condition::Group(inner) => {
            lemma_breakdowns_count_every_condition(inner@, ce.group@);
        },
        _ => {
            assert(ce.group@ =~= Seq::<ConditionExplain>::empty());
        },
    }
}

/// The breakdowns of a list of conditions list every condition in it,
/// nested ones included.
pub proof fn lemma_breakdowns_count_every_condition(
    cs: Seq<ConditionGroup>,
    es: Seq<ConditionExplain>,
)
    requires
        explains_all(cs, es),
    ensures
        conditions_count(cs) == explanations_count(es),
    decreases cs, 0nat,
{
    if cs.len() > 0 {
        lemma_breakdowns_count_every_condition(cs.drop_last(), es.drop_last());
        lemma_breakdown_counts_every_condition(cs.last(), es.last());
    }
}

} // verus!
