//! Decisions of the test orchestrator: which functions run, and how the
//! outcome of a call or of a fuzz campaign becomes a test result.

use vstd::prelude::*;
use crate::outcome::TestResult;

verus! {

#[verifier::external_type_specification]
#[verifier::external_body]
pub struct ExRegex(regex::Regex);

#[verifier::external_type_specification]
#[verifier::external_body]
pub struct ExRegexError(regex::Error);

/// Whether `pattern` is a regular expression that the regex crate accepts.
pub uninterp spec fn pattern_compiles(pattern: Seq<char>) -> bool;

/// Whether the regular expression `pattern` matches somewhere in `text`.
pub uninterp spec fn pattern_matches(pattern: Seq<char>, text: Seq<char>) -> bool;

/// Relies on `regex::Regex::new`: whether it succeeds depends on the pattern alone.
#[verifier::external_body]
fn compile_regex(pattern: &str) -> (r: Result<regex::Regex, regex::Error>)
    ensures
        r.is_ok() == pattern_compiles(pattern@),
{
    regex::Regex::new(pattern)
}

/// A configuration error, detected before any test runs.
pub enum ConfigError {
    /// The test name pattern is not a valid regular expression.
    InvalidPattern { pattern: String },
}

/// The compiled name pattern that selects which tests run.
pub struct TestFilter {
    source: String,
    re: regex::Regex,
}

/// Relies on `regex::Regex::is_match`, on the regex that `TestFilter::new`
/// compiled from the filter's source: whether it matches anywhere in `text`.
#[verifier::external_body]
fn filter_is_match(f: &TestFilter, text: &str) -> (r: bool)
    ensures
        r == pattern_matches(f.pattern(), text@),
{
    f.re.is_match(text)
}

impl TestFilter {
    /// The source text of the pattern.
    pub closed spec fn pattern(&self) -> Seq<char> {
        self.source@
    }

    /// Compiles `pattern`; fails exactly when it is not a valid regular expression.
    pub fn new(pattern: &str) -> (r: Result<TestFilter, ConfigError>)
        ensures
            r.is_ok() == pattern_compiles(pattern@),
            r matches Ok(f) ==> f.pattern() == pattern@,
            r matches Err(ConfigError::InvalidPattern { pattern: p }) ==> p@ == pattern@,
    {
        match compile_regex(pattern) {
            Ok(re) => Ok(TestFilter { source: String::from_str(pattern), re }),
            Err(_) => Err(ConfigError::InvalidPattern { pattern: String::from_str(pattern) }),
        }
    }

    /// Whether the pattern matches somewhere in `name`.
    pub fn matches(&self, name: &str) -> (r: bool)
        ensures
            r == pattern_matches(self.pattern(), name@),
    {
        filter_is_match(self, name)
    }

    /// The positions of the functions in `names` that run: those named as
    /// tests whose name the pattern matches, in their order.
    pub fn select(&self, names: &Vec<String>) -> (r: Vec<usize>)
        ensures
            r@ == selected(names@, self.pattern(), names@.len() as nat),
    {
        let mut r: Vec<usize> = Vec::new();
        let n = names.len();
        let mut i: usize = 0;
        while i < n
            invariant
                n == names@.len(),
                0 <= i <= n,
                r@ == selected(names@, self.pattern(), i as nat),
            decreases n - i,
        {
            if is_test_name(names[i].as_str()) && self.matches(names[i].as_str()) {
                r.push(i);
            }
            i += 1;
        }
        r
    }
}

/// The naming convention of test functions: the name starts with `test`.
pub open spec fn spec_is_test_name(name: Seq<char>) -> bool {
    name.len() >= 4 && name.take(4) == "test"@
}

/// Whether the function named `names[k]` runs under `pattern`.
pub open spec fn runs(names: Seq<String>, pattern: Seq<char>, k: int) -> bool {
    spec_is_test_name(names[k]@) && pattern_matches(pattern, names[k]@)
}

/// The positions among the first `n` of `names` of the functions that run.
pub open spec fn selected(names: Seq<String>, pattern: Seq<char>, n: nat) -> Seq<usize>
    decreases n,
{
    if n == 0 {
        seq![]
    } else {
        let rest = selected(names, pattern, (n - 1) as nat);
        if runs(names, pattern, n - 1) {
            rest.push((n - 1) as usize)
        } else {
            rest
        }
    }
}

/// Whether `name` follows the naming convention of test functions.
pub fn is_test_name(name: &str) -> (r: bool)
    ensures
        r == spec_is_test_name(name@),
{
    proof {
        reveal_strlit("test");
    }
    if name.unicode_len() < 4 {
        return false;
    }
    let r = name.get_char(0) == 't' && name.get_char(1) == 'e' && name.get_char(2) == 's'
        && name.get_char(3) == 't';
    let ghost head = name@.take(4);
    assert(head[0] == name@[0] && head[1] == name@[1] && head[2] == name@[2] && head[3]
        == name@[3]);
    assert(r ==> head =~= "test"@);
    r
}

/// A function whose signature has fuzzable arguments runs as a fuzz test;
/// one without arguments runs once.
pub open spec fn spec_is_fuzz(n_inputs: nat) -> bool {
    n_inputs > 0
}

/// Whether a function with `n_inputs` arguments runs as a fuzz test.
pub fn is_fuzz(n_inputs: usize) -> (r: bool)
    ensures
        r == spec_is_fuzz(n_inputs as nat),
{
    n_inputs > 0
}

/// What one call of a deterministic test reported.
pub struct CallOutcome {
    pub reverted: bool,
    pub reason: Option<String>,
    pub gas_used: u64,
    pub logs: Vec<String>,
}

/// The result of a deterministic test: it passes unless the call reverted,
/// carries the gas used and the logs, and keeps the reason of a revert.
pub fn call_result(call: CallOutcome) -> (r: TestResult)
    ensures
        r.wf(),
        r.success == !call.reverted,
        r.reason == (if call.reverted {
            call.reason
        } else {
            None
        }),
        r.counterexample.is_none(),
        r.gas_used == Some(call.gas_used),
        r.logs == call.logs,
{
    let reason = if call.reverted {
        call.reason
    } else {
        None
    };
    TestResult {
        success: !call.reverted,
        reason,
        counterexample: None,
        gas_used: Some(call.gas_used),
        logs: call.logs,
    }
}

/// One generated run of a fuzz test.
pub struct FuzzCase {
    /// The property failed on this input.
    pub falsified: bool,
    /// Rendering of the generated arguments.
    pub input: String,
    pub reason: Option<String>,
    pub logs: Vec<String>,
}

/// A fuzz campaign in progress: its run budget, the runs so far, and the
/// first falsifying case, after which no run is made.
pub struct FuzzCampaign {
    pub budget: usize,
    pub runs: usize,
    pub failure: Option<FuzzCase>,
}

impl FuzzCampaign {
    pub open spec fn wf(&self) -> bool {
        &&& self.runs <= self.budget
        &&& self.failure matches Some(c) ==> c.falsified
    }

    /// The campaign stops at the first falsifying input or when the budget is spent.
    pub open spec fn spec_done(&self) -> bool {
        self.failure.is_some() || self.runs >= self.budget
    }

    /// A campaign of at most `budget` runs, none made yet.
    pub fn new(budget: usize) -> (r: FuzzCampaign)
        ensures
            r.wf(),
            r.budget == budget,
            r.runs == 0,
            r.failure.is_none(),
    {
        FuzzCampaign { budget, runs: 0, failure: None }
    }

    /// Whether no more runs are to be made.
    pub fn is_done(&self) -> (r: bool)
        ensures
            r == self.spec_done(),
    {
        self.failure.is_some() || self.runs >= self.budget
    }

    /// Records one run; a falsifying one ends the campaign.
    pub fn record(&mut self, case: FuzzCase)
        requires
            old(self).wf(),
            !old(self).spec_done(),
        ensures
            final(self).wf(),
            final(self).budget == old(self).budget,
            final(self).runs == old(self).runs + 1,
            final(self).failure == (if case.falsified {
                Some(case)
            } else {
                None::<FuzzCase>
            }),
    {
        self.runs = self.runs + 1;
        if case.falsified {
            self.failure = Some(case);
        }
    }

    /// The result of the campaign: a failure carrying the falsifying input as
    /// counterexample, or a pass; never a gas figure.
    pub fn finish(self) -> (r: TestResult)
        ensures
            fuzz_verdict(self, r),
            r.wf(),
    {
        match self.failure {
            Some(c) => TestResult {
                success: false,
                reason: c.reason,
                counterexample: Some(c.input),
                gas_used: None,
                logs: c.logs,
            },
            None => TestResult {
                success: true,
                reason: None,
                counterexample: None,
                gas_used: None,
                logs: Vec::new(),
            },
        }
    }
}

/// `r` is the result of campaign `c`.
pub open spec fn fuzz_verdict(c: FuzzCampaign, r: TestResult) -> bool {
    &&& r.gas_used.is_none()
    &&& match c.failure {
        Some(f) => {
            &&& !r.success
            &&& r.reason == f.reason
            &&& r.counterexample == Some(f.input)
            &&& r.logs == f.logs
        },
        None => {
            &&& r.success
            &&& r.reason.is_none()
            &&& r.counterexample.is_none()
            &&& r.logs@.len() == 0
        },
    }
}

/// A fuzz test that spends its budget without a falsifying input passes, and
/// reports no gas.
pub proof fn lemma_unfalsified_fuzz_passes(c: FuzzCampaign, r: TestResult)
    requires
        c.wf(),
        c.runs == c.budget,
        c.failure.is_none(),
        fuzz_verdict(c, r),
    ensures
        r.success,
        r.gas_used.is_none(),
{
}

} // verus!
