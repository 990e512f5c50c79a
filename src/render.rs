//! The human-readable report of a result set.

use vstd::prelude::*;
use crate::outcome::{ContractResults, ResultSet, TestEntry, TestResult};
use crate::text::{decimal, green, paint_green, paint_red, push_decimal, red};

verus! {

/// The marker of a failed test: the reason and the counterexample when known,
/// each introduced by its label, and no separator for a missing one.
pub open spec fn fail_marker(reason: Option<String>, counterexample: Option<String>) -> Seq<char> {
    match (reason, counterexample) {
        (Some(r), Some(c)) => "[FAIL. Reason: "@ + r@ + ". Counterexample: "@ + c@ + "]"@,
        (None, Some(c)) => "[FAIL. Counterexample: "@ + c@ + "]"@,
        (Some(r), None) => "[FAIL. Reason: "@ + r@ + "]"@,
        (None, None) => "[FAIL]"@,
    }
}

/// The coloured marker of a test: a green pass or a red failure marker.
pub open spec fn status_marker(result: TestResult) -> Seq<char> {
    if result.success {
        green("[PASS]"@)
    } else {
        red(fail_marker(result.reason, result.counterexample))
    }
}

/// The gas column: the gas used, or a placeholder for fuzz tests.
pub open spec fn gas_text(gas: Option<u64>) -> Seq<char> {
    match gas {
        Some(g) => decimal(g as nat),
        None => "[fuzztest]"@,
    }
}

/// The summary line of one test.
pub open spec fn summary_line(e: TestEntry) -> Seq<char> {
    status_marker(e.result) + " "@ + e.name@ + " (gas: "@ + gas_text(e.result.gas_used) + ")\n"@
}

/// The summary lines of several tests, in order.
pub open spec fn summary_lines(tests: Seq<TestEntry>) -> Seq<char>
    decreases tests.len(),
{
    if tests.len() == 0 {
        seq![]
    } else {
        summary_lines(tests.drop_last()) + summary_line(tests.last())
    }
}

/// The header of a contract's section: its test count, with the noun in the
/// singular for exactly one test, and nothing when it has no tests.
pub open spec fn header_line(c: ContractResults) -> Seq<char> {
    let n = c.tests@.len();
    if n == 0 {
        seq![]
    } else {
        "Running "@ + decimal(n) + (if n > 1 {
            " tests for "@
        } else {
            " test for "@
        }) + c.name@ + "\n"@
    }
}

/// Every log line of a test, indented.
pub open spec fn log_lines(logs: Seq<String>) -> Seq<char>
    decreases logs.len(),
{
    if logs.len() == 0 {
        seq![]
    } else {
        log_lines(logs.drop_last()) + "  "@ + logs.last()@ + "\n"@
    }
}

/// The detailed block of one test: its outcome and name, then its logs.
pub open spec fn detail_block(e: TestEntry) -> Seq<char> {
    (if e.result.success {
        "Success: "@
    } else {
        "Failure: "@
    }) + e.name@ + "\n\n"@ + log_lines(e.result.logs@) + "\n"@
}

/// The detailed blocks of several tests, in order.
pub open spec fn detail_blocks(tests: Seq<TestEntry>) -> Seq<char>
    decreases tests.len(),
{
    if tests.len() == 0 {
        seq![]
    } else {
        detail_blocks(tests.drop_last()) + detail_block(tests.last())
    }
}

/// The details shown above verbosity level one.
pub open spec fn verbose_section(tests: Seq<TestEntry>, verbosity: u8) -> Seq<char> {
    if verbosity > 1 {
        "\n"@ + detail_blocks(tests)
    } else {
        seq![]
    }
}

/// The section of the contract at position `i`: a blank line before every
/// section but the first, the header, the summary lines, then the details.
pub open spec fn contract_section(i: int, c: ContractResults, verbosity: u8) -> Seq<char> {
    (if i > 0 {
        "\n"@
    } else {
        seq![]
    }) + header_line(c) + summary_lines(c.tests@) + verbose_section(c.tests@, verbosity)
}

/// The whole report of several contracts, in order.
pub open spec fn report_text(contracts: Seq<ContractResults>, verbosity: u8) -> Seq<char>
    decreases contracts.len(),
{
    if contracts.len() == 0 {
        seq![]
    } else {
        report_text(contracts.drop_last(), verbosity) + contract_section(
            contracts.len() - 1,
            contracts.last(),
            verbosity,
        )
    }
}

/// The marker of a failed test.
pub fn fail_marker_string(reason: &Option<String>, counterexample: &Option<String>) -> (r: String)
    ensures
        r@ == fail_marker(*reason, *counterexample),
{
    match (reason, counterexample) {
        (Some(r), Some(c)) => {
            let mut s = String::from_str("[FAIL. Reason: ");
            s.append(r.as_str());
            s.append(". Counterexample: ");
            s.append(c.as_str());
            s.append("]");
            s
        },
        (None, Some(c)) => {
            let mut s = String::from_str("[FAIL. Counterexample: ");
            s.append(c.as_str());
            s.append("]");
            s
        },
        (Some(r), None) => {
            let mut s = String::from_str("[FAIL. Reason: ");
            s.append(r.as_str());
            s.append("]");
            s
        },
        (None, None) => String::from_str("[FAIL]"),
    }
}

/// The coloured marker of a test.
pub fn status_marker_string(result: &TestResult) -> (r: String)
    ensures
        r@ == status_marker(*result),
{
    if result.success {
        paint_green("[PASS]")
    } else {
        let m = fail_marker_string(&result.reason, &result.counterexample);
        paint_red(m.as_str())
    }
}

/// Appends the gas column of a test.
fn push_gas(out: &mut String, gas: Option<u64>)
    ensures
        final(out)@ == old(out)@ + gas_text(gas),
{
    match gas {
        Some(g) => push_decimal(out, g),
        None => out.append("[fuzztest]"),
    }
}

/// The summary line of one test, ending with a line break.
pub fn summary_line_string(e: &TestEntry) -> (r: String)
    ensures
        r@ == summary_line(*e),
{
    let mut s = status_marker_string(&e.result);
    s.append(" ");
    s.append(e.name.as_str());
    s.append(" (gas: ");
    push_gas(&mut s, e.result.gas_used);
    s.append(")\n");
    s
}

fn push_header(out: &mut String, c: &ContractResults)
    ensures
        final(out)@ == old(out)@ + header_line(*c),
{
    let n = c.tests.len();
    if n > 0 {
        out.append("Running ");
        push_decimal(out, n as u64);
        if n > 1 {
            out.append(" tests for ");
        } else {
            out.append(" test for ");
        }
        out.append(c.name.as_str());
        out.append("\n");
    }
    assert(final(out)@ =~= old(out)@ + header_line(*c));
}

fn push_summaries(out: &mut String, tests: &Vec<TestEntry>)
    ensures
        final(out)@ == old(out)@ + summary_lines(tests@),
{
    let ghost start = out@;
    let n = tests.len();
    let mut i: usize = 0;
    while i < n
        invariant
            n == tests@.len(),
            0 <= i <= n,
            out@ == start + summary_lines(tests@.take(i as int)),
        decreases n - i,
    {
        let line = summary_line_string(&tests[i]);
        out.append(line.as_str());
        assert(tests@.take(i + 1).drop_last() =~= tests@.take(i as int));
        assert(out@ =~= start + summary_lines(tests@.take(i + 1)));
        i += 1;
    }
    assert(tests@.take(n as int) =~= tests@);
}

fn push_logs(out: &mut String, logs: &Vec<String>)
    ensures
        final(out)@ == old(out)@ + log_lines(logs@),
{
    let ghost start = out@;
    let n = logs.len();
    let mut i: usize = 0;
    while i < n
        invariant
            n == logs@.len(),
            0 <= i <= n,
            out@ == start + log_lines(logs@.take(i as int)),
        decreases n - i,
    {
        out.append("  ");
        out.append(logs[i].as_str());
        out.append("\n");
        assert(logs@.take(i + 1).drop_last() =~= logs@.take(i as int));
        assert(out@ =~= start + log_lines(logs@.take(i + 1)));
        i += 1;
    }
    assert(logs@.take(n as int) =~= logs@);
}

fn push_details(out: &mut String, tests: &Vec<TestEntry>)
    ensures
        final(out)@ == old(out)@ + detail_blocks(tests@),
{
    let ghost start = out@;
    let n = tests.len();
    let mut i: usize = 0;
    while i < n
        invariant
            n == tests@.len(),
            0 <= i <= n,
            out@ == start + detail_blocks(tests@.take(i as int)),
        decreases n - i,
    {
        let ghost before = out@;
        let e = &tests[i];
        if e.result.success {
            out.append("Success: ");
        } else {
            out.append("Failure: ");
        }
        out.append(e.name.as_str());
        out.append("\n\n");
        push_logs(out, &e.result.logs);
        out.append("\n");
        assert(out@ =~= before + detail_block(*e));
        assert(tests@.take(i + 1).drop_last() =~= tests@.take(i as int));
        assert(out@ =~= start + detail_blocks(tests@.take(i + 1)));
        i += 1;
    }
    assert(tests@.take(n as int) =~= tests@);
}

/// Appends the section of the contract at position `i` of the report.
pub fn push_contract_section(out: &mut String, i: usize, c: &ContractResults, verbosity: u8)
    ensures
        final(out)@ == old(out)@ + contract_section(i as int, *c, verbosity),
{
    let ghost start = out@;
    if i > 0 {
        out.append("\n");
    }
    push_header(out, c);
    push_summaries(out, &c.tests);
    if verbosity > 1 {
        out.append("\n");
        push_details(out, &c.tests);
    }
    assert(out@ =~= start + contract_section(i as int, *c, verbosity));
}

/// The human-readable report: for each contract in discovery order a header,
/// one line per test with its marker, name and gas, and above verbosity one
/// the logs of every test.
pub fn human_report(rs: &ResultSet, verbosity: u8) -> (r: String)
    ensures
        r@ == report_text(rs.contracts@, verbosity),
{
    let mut out = String::new();
    let n = rs.contracts.len();
    let mut i: usize = 0;
    while i < n
        invariant
            n == rs.contracts@.len(),
            0 <= i <= n,
            out@ == report_text(rs.contracts@.take(i as int), verbosity),
        decreases n - i,
    {
        push_contract_section(&mut out, i, &rs.contracts[i], verbosity);
        assert(rs.contracts@.take(i + 1).drop_last() =~= rs.contracts@.take(i as int));
        i += 1;
    }
    assert(rs.contracts@.take(n as int) =~= rs.contracts@);
    out
}

/// A failed test with neither a reason nor a counterexample shows the bare
/// failure marker, with no separator.
pub proof fn lemma_bare_fail_marker(result: TestResult)
    requires
        !result.success,
        result.reason.is_none(),
        result.counterexample.is_none(),
    ensures
        status_marker(result) == red("[FAIL]"@),
{
}

} // verus!
