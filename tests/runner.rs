use forge_core::install::install_message;
use forge_core::runner::{call_result, is_fuzz, is_test_name, CallOutcome, ConfigError, FuzzCampaign, FuzzCase, TestFilter};

fn names(v: &[&str]) -> Vec<String> {
    v.iter().map(|s| s.to_string()).collect()
}

#[test]
fn test_name_convention() {
    assert!(is_test_name("testAdd"));
    assert!(is_test_name("test"));
    assert!(!is_test_name("tes"));
    assert!(!is_test_name("setUp"));
    assert!(!is_test_name("Testing"));
}

#[test]
fn invalid_pattern_is_a_configuration_error() {
    match TestFilter::new("(") {
        Err(ConfigError::InvalidPattern { pattern }) => assert_eq!(pattern, "("),
        Ok(_) => panic!("pattern should be refused"),
    }
}

#[test]
fn filter_selects_matching_tests_in_order() {
    let f = TestFilter::new("Add|Mul").ok().unwrap();
    let fns = names(&["setUp", "testAdd", "testSub", "testMul", "helperAdd"]);
    assert_eq!(f.select(&fns), vec![1, 3]);
    assert!(f.matches("helperAdd"));
}

#[test]
fn match_all_pattern_selects_every_test() {
    let f = TestFilter::new(".*").ok().unwrap();
    let fns = names(&["testA", "setUp", "testB"]);
    assert_eq!(f.select(&fns), vec![0, 2]);
}

#[test]
fn fuzz_classification() {
    assert!(!is_fuzz(0));
    assert!(is_fuzz(2));
}

#[test]
fn reverted_call_fails_with_reason_and_gas() {
    let r = call_result(CallOutcome {
        reverted: true,
        reason: Some("underflow".to_string()),
        gas_used: 23000,
        logs: vec!["l".to_string()],
    });
    assert!(!r.success);
    assert_eq!(r.reason.as_deref(), Some("underflow"));
    assert_eq!(r.gas_used, Some(23000));
    assert_eq!(r.logs, vec!["l".to_string()]);
    assert!(r.counterexample.is_none());
}

#[test]
fn successful_call_drops_reason() {
    let r = call_result(CallOutcome { reverted: false, reason: Some("x".to_string()), gas_used: 21000, logs: vec![] });
    assert!(r.success);
    assert_eq!(r.reason, None);
    assert_eq!(r.gas_used, Some(21000));
}

fn case(falsified: bool, input: &str) -> FuzzCase {
    FuzzCase { falsified, input: input.to_string(), reason: None, logs: vec![] }
}

#[test]
fn unfalsified_fuzz_passes_without_gas() {
    let mut c = FuzzCampaign::new(3);
    let mut k = 0;
    while !c.is_done() {
        c.record(case(false, &format!("x = {}", k)));
        k += 1;
    }
    assert_eq!(c.runs, 3);
    let r = c.finish();
    assert!(r.success);
    assert_eq!(r.gas_used, None);
    assert!(r.counterexample.is_none());
}

#[test]
fn falsified_fuzz_stops_with_counterexample() {
    let mut c = FuzzCampaign::new(100);
    c.record(case(false, "x = 0"));
    c.record(FuzzCase { falsified: true, input: "x = 7".to_string(), reason: Some("assert".to_string()), logs: vec![] });
    assert!(c.is_done());
    assert_eq!(c.runs, 2);
    let r = c.finish();
    assert!(!r.success);
    assert_eq!(r.counterexample.as_deref(), Some("x = 7"));
    assert_eq!(r.reason.as_deref(), Some("assert"));
    assert_eq!(r.gas_used, None);
}

#[test]
fn install_messages() {
    assert_eq!(install_message("ds-test", &None), "forge install: ds-test");
    assert_eq!(install_message("solmate", &Some("v6".to_string())), "forge install: solmate\n\nv6");
}
