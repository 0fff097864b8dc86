use operator_node::admission::{check_admission, AdmissionError, RangeAssignment};

#[test]
fn check_admission_hands_on_the_bounds() {
    let address = [9u8; 20];
    let admission = check_admission(address, Ok((10, 20))).expect("a range");
    assert_eq!(admission, RangeAssignment { node_address: address, range_bounds: (10, 20) });
}

#[test]
fn check_admission_surfaces_oracle_failure() {
    match check_admission([9u8; 20], Err("connection refused".to_string())) {
        Err(AdmissionError::RangeOracleUnavailable { detail }) => {
            assert_eq!(detail, "connection refused")
        }
        other => panic!("{:?}", other),
    }
}

#[test]
fn admission_error_detail_is_the_oracle_text() {
    let fault = AdmissionError::RangeOracleUnavailable { detail: "revert".to_string() };
    assert_eq!(fault.detail(), "revert");
}

#[test]
fn range_contains_its_bounds() {
    let range = RangeAssignment { node_address: [0u8; 20], range_bounds: (10, 20) };
    assert!(!range.contains(9));
    assert!(range.contains(10));
    assert!(range.contains(15));
    assert!(range.contains(20));
    assert!(!range.contains(21));
}

#[test]
fn range_of_one_value_and_of_none() {
    let one = RangeAssignment { node_address: [0u8; 20], range_bounds: (7, 7) };
    assert!(one.contains(7));
    assert!(!one.contains(6));
    assert!(!one.contains(8));
    let none = RangeAssignment { node_address: [0u8; 20], range_bounds: (8, 7) };
    assert!(!none.contains(7));
    assert!(!none.contains(8));
    let all = RangeAssignment { node_address: [0u8; 20], range_bounds: (0, u64::MAX) };
    assert!(all.contains(0));
    assert!(all.contains(u64::MAX));
}
