use policy_mcp::{all_operators, do_list_operators, ComparisonOperator, OperatorInfo};

fn describe(op: ComparisonOperator) -> OperatorInfo {
    let name = format!("{:?}", op);
    OperatorInfo { operator: name.clone(), forms: vec![name.clone(), name.to_lowercase()] }
}

#[test]
fn list_operators_non_empty() {
    let ops = do_list_operators(describe);
    assert!(!ops.is_empty(), "expected non-empty operator list");
}

#[test]
fn catalogue_has_one_entry_per_operator_in_order() {
    let infos = do_list_operators(describe);
    let ops = all_operators();
    assert_eq!(infos.len(), 44);
    assert_eq!(ops.len(), 44);
    for (info, op) in infos.iter().zip(ops.iter()) {
        assert_eq!(info.operator, format!("{:?}", op));
    }
    assert_eq!(infos[0].operator, "GreaterThanOrEqual");
    assert_eq!(infos[43].operator, "IsBetween");
    assert_eq!(infos[0].forms, vec!["GreaterThanOrEqual".to_string(), "greaterthanorequal".to_string()]);
}

#[test]
fn catalogue_covers_all_variants_once() {
    let ops = all_operators();
    for expected in [
        ComparisonOperator::GreaterThanOrEqual,
        ComparisonOperator::LessThanOrEqual,
        ComparisonOperator::EqualTo,
        ComparisonOperator::In,
        ComparisonOperator::Contains,
        ComparisonOperator::IsEmpty,
        ComparisonOperator::IsValidEmail,
        ComparisonOperator::StartsWith,
        ComparisonOperator::Exists,
        ComparisonOperator::IsInThePast,
        ComparisonOperator::IsBetween,
    ] {
        assert_eq!(ops.iter().filter(|o| **o == expected).count(), 1, "missing operator '{:?}'", expected);
    }
    for (i, a) in ops.iter().enumerate() {
        for b in ops.iter().skip(i + 1) {
            assert_ne!(a, b);
        }
    }
}
