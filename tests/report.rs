use forge_core::outcome::{ContractResults, ResultSet, TestEntry, TestResult, EXIT_FAILURE, EXIT_SUCCESS};
use forge_core::render::{fail_marker_string, human_report, status_marker_string, summary_line_string};
use forge_core::text::decimal_string;

fn pass(gas: Option<u64>) -> TestResult {
    TestResult { success: true, reason: None, counterexample: None, gas_used: gas, logs: vec![] }
}

fn fail(reason: Option<&str>, ce: Option<&str>, gas: Option<u64>) -> TestResult {
    TestResult {
        success: false,
        reason: reason.map(|s| s.to_string()),
        counterexample: ce.map(|s| s.to_string()),
        gas_used: gas,
        logs: vec![],
    }
}

fn entry(name: &str, result: TestResult) -> TestEntry {
    TestEntry { name: name.to_string(), result }
}

fn contract(name: &str, tests: Vec<TestEntry>) -> ContractResults {
    ContractResults { name: name.to_string(), tests }
}

#[test]
fn all_passing_exit_success_either_way() {
    let rs = ResultSet {
        contracts: vec![
            contract("A", vec![entry("testOne", pass(Some(1))), entry("testTwo", pass(None))]),
            contract("B", vec![entry("testThree", pass(Some(3)))]),
        ],
    };
    assert!(!rs.has_failure());
    assert_eq!(rs.exit_status(false), EXIT_SUCCESS);
    assert_eq!(rs.exit_status(true), EXIT_SUCCESS);
}

#[test]
fn empty_result_set_exits_success() {
    let rs = ResultSet::new();
    assert_eq!(rs.exit_status(false), EXIT_SUCCESS);
}

#[test]
fn one_failure_among_many_latches_failure() {
    let mut tests = Vec::new();
    for i in 0..20 {
        tests.push(entry(&format!("testPass{}", i), pass(Some(i))));
    }
    tests.push(entry("testBroken", fail(None, None, Some(7))));
    let rs = ResultSet {
        contracts: vec![contract("A", vec![entry("testOk", pass(Some(1)))]), contract("B", tests)],
    };
    assert!(rs.has_failure());
    assert_eq!(rs.exit_status(false), EXIT_FAILURE);
    assert_ne!(EXIT_FAILURE, EXIT_SUCCESS);
}

#[test]
fn several_failures_give_the_same_status() {
    let rs = ResultSet {
        contracts: vec![contract(
            "A",
            vec![
                entry("testA", fail(Some("a"), None, Some(1))),
                entry("testB", fail(Some("b"), None, Some(1))),
                entry("testC", fail(None, Some("x = 1"), None)),
            ],
        )],
    };
    assert_eq!(rs.exit_status(false), EXIT_FAILURE);
}

#[test]
fn allow_failure_forces_success() {
    let rs = ResultSet {
        contracts: vec![contract("A", vec![entry("testA", fail(Some("boom"), None, Some(1)))])],
    };
    assert_eq!(rs.exit_status(true), EXIT_SUCCESS);
}

#[test]
fn fail_marker_combinations() {
    let r = Some("bad".to_string());
    let c = Some("x = 3".to_string());
    assert_eq!(fail_marker_string(&r, &c), "[FAIL. Reason: bad. Counterexample: x = 3]");
    assert_eq!(fail_marker_string(&None, &c), "[FAIL. Counterexample: x = 3]");
    assert_eq!(fail_marker_string(&r, &None), "[FAIL. Reason: bad]");
    assert_eq!(fail_marker_string(&None, &None), "[FAIL]");
}

#[test]
fn bare_failure_marker_is_red_and_has_no_separator() {
    let m = status_marker_string(&fail(None, None, Some(1)));
    assert_eq!(m, "\x1b[31m[FAIL]\x1b[0m");
    assert!(!m.contains(". "));
}

#[test]
fn pass_marker_is_green() {
    assert_eq!(status_marker_string(&pass(Some(1))), "\x1b[32m[PASS]\x1b[0m");
}

#[test]
fn fuzz_line_shows_placeholder_gas() {
    let line = summary_line_string(&entry("testFuzz", pass(None)));
    assert_eq!(line, "\x1b[32m[PASS]\x1b[0m testFuzz (gas: [fuzztest])\n");
}

#[test]
fn decimal_rendering() {
    assert_eq!(decimal_string(0), "0");
    assert_eq!(decimal_string(7), "7");
    assert_eq!(decimal_string(21000), "21000");
    assert_eq!(decimal_string(u64::MAX), "18446744073709551615");
}

#[test]
fn scenario_foo_add_and_sub() {
    let rs = ResultSet {
        contracts: vec![contract(
            "Foo",
            vec![
                entry("testAdd", pass(Some(21000))),
                entry("testSub", fail(Some("underflow"), None, Some(23000))),
            ],
        )],
    };
    let text = human_report(&rs, 0);
    assert_eq!(
        text,
        "Running 2 tests for Foo\n\
         \x1b[32m[PASS]\x1b[0m testAdd (gas: 21000)\n\
         \x1b[31m[FAIL. Reason: underflow]\x1b[0m testSub (gas: 23000)\n"
    );
    assert_eq!(rs.exit_status(false), EXIT_FAILURE);
}

#[test]
fn single_test_header_is_singular() {
    let rs = ResultSet { contracts: vec![contract("Bar", vec![entry("testOnly", pass(Some(5)))])] };
    assert!(human_report(&rs, 1).starts_with("Running 1 test for Bar\n"));
}

#[test]
fn contract_without_tests_has_no_header() {
    let rs = ResultSet {
        contracts: vec![contract("Empty", vec![]), contract("Bar", vec![entry("testX", pass(Some(5)))])],
    };
    assert_eq!(
        human_report(&rs, 0),
        "\nRunning 1 test for Bar\n\x1b[32m[PASS]\x1b[0m testX (gas: 5)\n"
    );
}

#[test]
fn contracts_are_separated_by_a_blank_line_in_order() {
    let rs = ResultSet {
        contracts: vec![
            contract("Zed", vec![entry("testZ", pass(Some(1)))]),
            contract("Alpha", vec![entry("testA", pass(Some(2)))]),
        ],
    };
    assert_eq!(
        human_report(&rs, 0),
        "Running 1 test for Zed\n\x1b[32m[PASS]\x1b[0m testZ (gas: 1)\n\
         \nRunning 1 test for Alpha\n\x1b[32m[PASS]\x1b[0m testA (gas: 2)\n"
    );
}

#[test]
fn verbose_report_lists_logs() {
    let mut ok = pass(Some(10));
    ok.logs = vec!["hello".to_string(), "world".to_string()];
    let bad = fail(None, Some("x = 0"), None);
    let rs = ResultSet { contracts: vec![contract("C", vec![entry("testOk", ok), entry("testBad", bad)])] };
    assert_eq!(
        human_report(&rs, 2),
        "Running 2 tests for C\n\
         \x1b[32m[PASS]\x1b[0m testOk (gas: 10)\n\
         \x1b[31m[FAIL. Counterexample: x = 0]\x1b[0m testBad (gas: [fuzztest])\n\
         \n\
         Success: testOk\n\n  hello\n  world\n\n\
         Failure: testBad\n\n\n"
    );
    assert!(!human_report(&rs, 1).contains("Success: "));
}

#[test]
fn record_replaces_in_place_and_appends_new() {
    let mut c = ContractResults::new("Foo".to_string());
    c.record("testA".to_string(), pass(Some(1)));
    c.record("testB".to_string(), pass(Some(2)));
    c.record("testA".to_string(), fail(Some("r"), None, Some(3)));
    assert_eq!(c.tests.len(), 2);
    assert_eq!(c.tests[0].name, "testA");
    assert!(!c.tests[0].result.success);
    assert_eq!(c.tests[1].name, "testB");
    assert_eq!(c.position(&"testB".to_string()), Some(1));
    assert_eq!(c.position(&"testC".to_string()), None);
}

#[test]
fn add_contract_keeps_discovery_order() {
    let mut rs = ResultSet::new();
    rs.add_contract(ContractResults::new("Zed".to_string()));
    rs.add_contract(ContractResults::new("Alpha".to_string()));
    let mut again = ContractResults::new("Zed".to_string());
    again.record("testZ".to_string(), pass(Some(1)));
    rs.add_contract(again);
    assert_eq!(rs.contracts.len(), 2);
    assert_eq!(rs.contracts[0].name, "Zed");
    assert_eq!(rs.contracts[0].tests.len(), 1);
    assert_eq!(rs.contracts[1].name, "Alpha");
}
