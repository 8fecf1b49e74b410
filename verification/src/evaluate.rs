use vstd::prelude::*;

verus! {

/// The request of the evaluation tool: a rule text and the JSON data to
/// evaluate it against.
pub struct EvaluateRulesInput {
    pub rule: String,
    pub data: serde_json::Value,
}

/// What the engine gave for a parsed rule text evaluated against data: the
/// execution trace when it kept one (already as JSON), and either the truth
/// value of each outcome, by outcome name, or its error message.
pub struct RuleEvaluation {
    pub trace: Option<serde_json::Value>,
    pub result: Result<Vec<(String, bool)>, String>,
}

/// The answer of the evaluation tool.
///
/// `outcomes` pairs each outcome's name with its truth value.
pub struct EvaluateRulesOutput {
    pub result: bool,
    pub outcomes: Vec<(String, bool)>,
    pub trace: Option<serde_json::Value>,
    pub error: Option<String>,
}

/// Every outcome holds.
pub open spec fn all_hold(outcomes: Seq<(String, bool)>) -> bool {
    forall|i: int| 0 <= i < outcomes.len() ==> #[trigger] outcomes[i].1
}

/// Whether every outcome holds, computed.
pub fn all_outcomes_hold(outcomes: &Vec<(String, bool)>) -> (res: bool)
    ensures
        res == all_hold(outcomes@),
        res <==> forall|i: int| 0 <= i < outcomes@.len() ==> #[trigger] outcomes@[i].1,
        forall|i: int| 0 <= i < outcomes@.len() && !(#[trigger] outcomes@[i]).1 ==> !res,
{
    let mut i: usize = 0;
    while i < outcomes.len()
        invariant
            i <= outcomes@.len(),
            forall|j: int| 0 <= j < i ==> #[trigger] outcomes@[j].1,
        decreases outcomes@.len() - i,
    {
        if !outcomes[i].1 {
            return false;
        }
        i = i + 1;
    }
    true
}

/// `out` answers the evaluation of a rule text for which the engine gave
/// `evaluated`: the parser's message when the text did not parse; else the
/// trace, and either every outcome with the overall result that all of them
/// hold, or the evaluation's message with no outcomes and a false result.
pub open spec fn evaluation_answer(
    evaluated: Result<RuleEvaluation, String>,
    out: EvaluateRulesOutput,
) -> bool {
    match evaluated {
        Err(e) => {
            &&& !out.result
            &&& out.outcomes@.len() == 0
            &&& out.trace is None
            &&& out.error == Some(e)
        },
        Ok(ev) => {
            &&& out.trace == ev.trace
            &&& match ev.result {
                Ok(outcomes) => {
                    &&& out.result == all_hold(outcomes@)
                    &&& out.outcomes@ == outcomes@
                    &&& out.error is None
                },
                Err(e) => {
                    &&& !out.result
                    &&& out.outcomes@.len() == 0
                    &&& out.error == Some(e)
                },
            }
        },
    }
}

/// The answer of the evaluation tool, given what the engine gave: the
/// parser's error message when the rule text did not parse, else the
/// evaluation of the parsed rules.
///
/// The overall result holds exactly when the evaluation succeeded and every
/// outcome holds; a failure leaves the outcomes empty and reports its message.
pub fn do_evaluate_rules(evaluated: Result<RuleEvaluation, String>) -> (out: EvaluateRulesOutput)
    ensures
        evaluation_answer(evaluated, out),
        out.result <==> (out.error is None && all_hold(out.outcomes@)),
        out.result <==> (out.error is None && forall|i: int|
            0 <= i < out.outcomes@.len() ==> #[trigger] out.outcomes@[i].1),
        out.error is Some ==> out.outcomes@.len() == 0 && !out.result,
        evaluated matches Err(e) ==> out.error == Some(e) && out.trace is None,
        evaluated matches Ok(ev) ==> out.trace == ev.trace,
        evaluated matches Ok(ev) ==> (ev.result matches Ok(outcomes) ==> out.outcomes@ == outcomes@
            && out.error is None),
        evaluated matches Ok(ev) ==> (ev.result matches Err(e) ==> out.error == Some(e)),
{
    match evaluated {
        Err(e) => EvaluateRulesOutput {
            result: false,
            outcomes: Vec::new(),
            trace: None,
            error: Some(e),
        },
        Ok(ev) => match ev.result {
            Ok(outcomes) => {
                let overall = all_outcomes_hold(&outcomes);
                EvaluateRulesOutput { result: overall, outcomes, trace: ev.trace, error: None }
            },
            Err(e) => EvaluateRulesOutput {
                result: false,
                outcomes: Vec::new(),
                trace: ev.trace,
                error: Some(e),
            },
        },
    }
}

} // verus!
