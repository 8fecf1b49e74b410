use vstd::prelude::*;

verus! {

/// The comparison operators of the policy language.
#[derive(Clone, Copy, Debug, PartialEq, Eq, Structural)]
pub enum ComparisonOperator {
    GreaterThanOrEqual,
    LessThanOrEqual,
    EqualTo,
    ExactlyEqualTo,
    NotEqualTo,
    LaterThan,
    EarlierThan,
    GreaterThan,
    LessThan,
    In,
    NotIn,
    Contains,
    IsEmpty,
    IsNotEmpty,
    Within,
    OlderThan,
    YoungerThan,
    HasFormat,
    MatchesPattern,
    IsValidEmail,
    IsValidUrl,
    IsValidUuid,
    IsValidPhone,
    IsValidDate,
    IsValidTime,
    IsValidDatetime,
    IsValidIso8601,
    IsNotValidEmail,
    IsNotValidUrl,
    IsNotValidUuid,
    IsNotValidPhone,
    IsNotValidDate,
    IsNotValidTime,
    IsNotValidDatetime,
    IsNotValidIso8601,
    StartsWith,
    EndsWith,
    Exists,
    DoesNotExist,
    IsNull,
    IsNotNull,
    IsInThePast,
    IsInTheFuture,
    IsBetween,
}

/// One entry of the operator catalogue: the operator's primary text and
/// every text under which the language accepts it.
pub struct OperatorInfo {
    pub operator: String,
    pub forms: Vec<String>,
}

/// The order in which the catalogue lists the operators.
pub open spec fn operator_order() -> Seq<ComparisonOperator> {
    seq![
        ComparisonOperator::GreaterThanOrEqual,
        ComparisonOperator::LessThanOrEqual,
        ComparisonOperator::EqualTo,
        ComparisonOperator::ExactlyEqualTo,
        ComparisonOperator::NotEqualTo,
        ComparisonOperator::LaterThan,
        ComparisonOperator::EarlierThan,
        ComparisonOperator::GreaterThan,
        ComparisonOperator::LessThan,
        ComparisonOperator::In,
        ComparisonOperator::NotIn,
        ComparisonOperator::Contains,
        ComparisonOperator::IsEmpty,
        ComparisonOperator::IsNotEmpty,
        ComparisonOperator::Within,
        ComparisonOperator::OlderThan,
        ComparisonOperator::YoungerThan,
        ComparisonOperator::HasFormat,
        ComparisonOperator::MatchesPattern,
        ComparisonOperator::IsValidEmail,
        ComparisonOperator::IsValidUrl,
        ComparisonOperator::IsValidUuid,
        ComparisonOperator::IsValidPhone,
        ComparisonOperator::IsValidDate,
        ComparisonOperator::IsValidTime,
        ComparisonOperator::IsValidDatetime,
        ComparisonOperator::IsValidIso8601,
        ComparisonOperator::IsNotValidEmail,
        ComparisonOperator::IsNotValidUrl,
        ComparisonOperator::IsNotValidUuid,
        ComparisonOperator::IsNotValidPhone,
        ComparisonOperator::IsNotValidDate,
        ComparisonOperator::IsNotValidTime,
        ComparisonOperator::IsNotValidDatetime,
        ComparisonOperator::IsNotValidIso8601,
        ComparisonOperator::StartsWith,
        ComparisonOperator::EndsWith,
        ComparisonOperator::Exists,
        ComparisonOperator::DoesNotExist,
        ComparisonOperator::IsNull,
        ComparisonOperator::IsNotNull,
        ComparisonOperator::IsInThePast,
        ComparisonOperator::IsInTheFuture,
        ComparisonOperator::IsBetween,
    ]
}

/// The place of an operator in the catalogue.
pub open spec fn operator_position(op: ComparisonOperator) -> int {
    match op {
        ComparisonOperator::GreaterThanOrEqual => 0,
        ComparisonOperator::LessThanOrEqual => 1,
        ComparisonOperator::EqualTo => 2,
        ComparisonOperator::ExactlyEqualTo => 3,
        ComparisonOperator::NotEqualTo => 4,
        ComparisonOperator::LaterThan => 5,
        ComparisonOperator::EarlierThan => 6,
        ComparisonOperator::GreaterThan => 7,
        ComparisonOperator::LessThan => 8,
        ComparisonOperator::In => 9,
        ComparisonOperator::NotIn => 10,
        ComparisonOperator::Contains => 11,
        ComparisonOperator::IsEmpty => 12,
        ComparisonOperator::IsNotEmpty => 13,
        ComparisonOperator::Within => 14,
        ComparisonOperator::OlderThan => 15,
        ComparisonOperator::YoungerThan => 16,
        ComparisonOperator::HasFormat => 17,
        ComparisonOperator::MatchesPattern => 18,
        ComparisonOperator::IsValidEmail => 19,
        ComparisonOperator::IsValidUrl => 20,
        ComparisonOperator::IsValidUuid => 21,
        ComparisonOperator::IsValidPhone => 22,
        ComparisonOperator::IsValidDate => 23,
        ComparisonOperator::IsValidTime => 24,
        ComparisonOperator::IsValidDatetime => 25,
        ComparisonOperator::IsValidIso8601 => 26,
        ComparisonOperator::IsNotValidEmail => 27,
        ComparisonOperator::IsNotValidUrl => 28,
        ComparisonOperator::IsNotValidUuid => 29,
        ComparisonOperator::IsNotValidPhone => 30,
        ComparisonOperator::IsNotValidDate => 31,
        ComparisonOperator::IsNotValidTime => 32,
        ComparisonOperator::IsNotValidDatetime => 33,
        ComparisonOperator::IsNotValidIso8601 => 34,
        ComparisonOperator::StartsWith => 35,
        ComparisonOperator::EndsWith => 36,
        ComparisonOperator::Exists => 37,
        ComparisonOperator::DoesNotExist => 38,
        ComparisonOperator::IsNull => 39,
        ComparisonOperator::IsNotNull => 40,
        ComparisonOperator::IsInThePast => 41,
        ComparisonOperator::IsInTheFuture => 42,
        ComparisonOperator::IsBetween => 43,
    }
}

/// Every operator of the language has a place in the catalogue, and is
/// listed there.
pub proof fn lemma_catalogue_lists_every_operator(op: ComparisonOperator)
    ensures
        0 <= operator_position(op) < operator_order().len(),
        operator_order()[operator_position(op)] == op,
{
}

/// No operator is listed twice in the catalogue.
pub proof fn lemma_catalogue_lists_each_operator_once(i: int, j: int)
    requires
        0 <= i < operator_order().len(),
        0 <= j < operator_order().len(),
        i != j,
    ensures
        operator_order()[i] != operator_order()[j],
{
    assert(forall|k: int|
        0 <= k < operator_order().len() ==> operator_position(#[trigger] operator_order()[k]) == k);
}

/// Every operator, in catalogue order.
pub fn all_operators() -> (ops: Vec<ComparisonOperator>)
    ensures
        ops@ == operator_order(),
{
    vec![
        ComparisonOperator::GreaterThanOrEqual,
        ComparisonOperator::LessThanOrEqual,
        ComparisonOperator::EqualTo,
        ComparisonOperator::ExactlyEqualTo,
        ComparisonOperator::NotEqualTo,
        ComparisonOperator::LaterThan,
        ComparisonOperator::EarlierThan,
        ComparisonOperator::GreaterThan,
        ComparisonOperator::LessThan,
        ComparisonOperator::In,
        ComparisonOperator::NotIn,
        ComparisonOperator::Contains,
        ComparisonOperator::IsEmpty,
        ComparisonOperator::IsNotEmpty,
        ComparisonOperator::Within,
        ComparisonOperator::OlderThan,
        ComparisonOperator::YoungerThan,
        ComparisonOperator::HasFormat,
        ComparisonOperator::MatchesPattern,
        ComparisonOperator::IsValidEmail,
        ComparisonOperator::IsValidUrl,
        ComparisonOperator::IsValidUuid,
        ComparisonOperator::IsValidPhone,
        ComparisonOperator::IsValidDate,
        ComparisonOperator::IsValidTime,
        ComparisonOperator::IsValidDatetime,
        ComparisonOperator::IsValidIso8601,
        ComparisonOperator::IsNotValidEmail,
        ComparisonOperator::IsNotValidUrl,
        ComparisonOperator::IsNotValidUuid,
        ComparisonOperator::IsNotValidPhone,
        ComparisonOperator::IsNotValidDate,
        ComparisonOperator::IsNotValidTime,
        ComparisonOperator::IsNotValidDatetime,
        ComparisonOperator::IsNotValidIso8601,
        ComparisonOperator::StartsWith,
        ComparisonOperator::EndsWith,
        ComparisonOperator::Exists,
        ComparisonOperator::DoesNotExist,
        ComparisonOperator::IsNull,
        ComparisonOperator::IsNotNull,
        ComparisonOperator::IsInThePast,
        ComparisonOperator::IsInTheFuture,
        ComparisonOperator::IsBetween,
    ]
}

/// The catalogue of comparison operators: one entry per operator, in
/// catalogue order, each made by `describe` from that operator.
pub fn do_list_operators<F: Fn(ComparisonOperator) -> OperatorInfo>(describe: F) -> (infos: Vec<
    OperatorInfo,
>)
    requires
        forall|op: ComparisonOperator| #[trigger] describe.requires((op,)),
    ensures
        infos@.len() == operator_order().len(),
        forall|i: int|
            0 <= i < operator_order().len() ==> describe.ensures(
                (#[trigger] operator_order()[i],),
                infos@[i],
            ),
{
    let ops = all_operators();
    let mut infos: Vec<OperatorInfo> = Vec::new();
    let mut i: usize = 0;
    while i < ops.len()
        invariant
            ops@ == operator_order(),
            i <= ops@.len(),
            infos@.len() == i,
            forall|op: ComparisonOperator| #[trigger] describe.requires((op,)),
            forall|j: int| 0 <= j < i ==> describe.ensures((#[trigger] operator_order()[j],), infos@[j]),
        decreases ops@.len() - i,
    {
        let info = describe(ops[i]);
        infos.push(info);
        i = i + 1;
    }
    infos
}

} // verus!
