use vstd::prelude::*;

verus! {

/// A comparison inside a condition: `the <property> of the <selector> <operator> <value>`.
///
/// `operator` and `value` hold the texts under which the engine shows the
/// comparison operator and the compared value.
pub struct Comparison {
    pub selector: String,
    pub property: String,
    pub operator: String,
    pub value: String,
}

/// A condition that holds when another rule's outcome holds for a selector.
pub struct RuleReference {
    pub selector: String,
    pub rule_name: String,
}

/// The three shapes a condition can take.
pub enum Condition {
    Comparison(Comparison),
    RuleReference(RuleReference),
    Group(Vec<ConditionGroup>),
}

/// A condition together with how it is joined to the conditions before it.
///
/// `operator` is the engine's name of the logical connective (`And`, `Or`,
/// ...) when there is one.
pub struct ConditionGroup {
    pub operator: Option<String>,
    pub condition: Condition,
    pub optional: bool,
    pub negated: bool,
}

/// One parsed rule: `A <selector> gets <outcome> if <conditions>`, with an
/// optional label in front.
pub struct Rule {
    pub label: Option<String>,
    pub selector: String,
    pub outcome: String,
    pub conditions: Vec<ConditionGroup>,
}

/// A parsed rule text: its rules in the order in which they were written.
pub struct RuleSet {
    pub rules: Vec<Rule>,
}

} // verus!
