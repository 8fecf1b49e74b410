use vstd::prelude::*;
use crate::model::RuleSet;

verus! {

/// The request of the validation tool: a rule text to check.
pub struct ValidateRuleInput {
    pub rule: String,
}

/// The answer of the validation tool.
pub struct ValidateRuleOutput {
    pub valid: bool,
    pub error: Option<String>,
}

/// `out` answers the validation of a rule text whose parsing gave `parsed`:
/// valid when it parsed, else invalid with the parser's message.
pub open spec fn validation_answer(parsed: Result<RuleSet, String>, out: ValidateRuleOutput) -> bool {
    match parsed {
        Ok(_) => out.valid && out.error is None,
        Err(e) => !out.valid && out.error == Some(e),
    }
}

/// Answers whether a rule text is valid, given what parsing it gave: the
/// parsed rules or the parser's error message.
pub fn do_validate_rule(parsed: Result<RuleSet, String>) -> (out: ValidateRuleOutput)
    ensures
        validation_answer(parsed, out),
        out.valid <==> out.error is None,
        parsed is Ok ==> out.valid && out.error is None,
        parsed matches Err(e) ==> !out.valid && out.error == Some(e),
{
    match parsed {
        Ok(_) => ValidateRuleOutput { valid: true, error: None },
        Err(e) => ValidateRuleOutput { valid: false, error: Some(e) },
    }
}

} // verus!
