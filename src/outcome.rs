//! Results of a test run and the process exit status they lead to.

use vstd::prelude::*;

verus! {

/// Exit status of a run in which no test failed (or failures were allowed).
pub const EXIT_SUCCESS: i32 = 0;

/// Exit status of a run in which at least one test failed.
pub const EXIT_FAILURE: i32 = 1;

/// The outcome of one test function.
pub struct TestResult {
    pub success: bool,
    /// Revert or assertion message, known only for some failures.
    pub reason: Option<String>,
    /// Rendering of the input that falsified a fuzz test.
    pub counterexample: Option<String>,
    /// Gas of a deterministic test; absent for fuzz tests.
    pub gas_used: Option<u64>,
    /// Log lines emitted during the test, in order.
    pub logs: Vec<String>,
}

/// One named test and its outcome.
pub struct TestEntry {
    pub name: String,
    pub result: TestResult,
}

/// The tests of one contract, in discovery order.
pub struct ContractResults {
    pub name: String,
    pub tests: Vec<TestEntry>,
}

/// Every contract's results, in discovery order.
pub struct ResultSet {
    pub contracts: Vec<ContractResults>,
}

impl TestResult {
    /// A reason or a counterexample is only ever attached to a failure.
    pub open spec fn wf(&self) -> bool {
        self.success ==> (self.reason.is_none() && self.counterexample.is_none())
    }
}

impl ContractResults {
    /// Test names are keys: no name occurs twice.
    pub open spec fn wf(&self) -> bool {
        &&& forall|i: int, j: int|
            0 <= i < j < self.tests@.len() ==> self.tests@[i].name@ != self.tests@[j].name@
        &&& forall|i: int| 0 <= i < self.tests@.len() ==> #[trigger] self.tests@[i].result.wf()
    }
}

impl ContractResults {
    /// A contract with no test results yet.
    pub fn new(name: String) -> (r: ContractResults)
        ensures
            r.name == name,
            r.tests@.len() == 0,
            r.wf(),
    {
        ContractResults { name, tests: Vec::new() }
    }

    /// The position of the test named `name`, if it has a result.
    pub fn position(&self, name: &String) -> (r: Option<usize>)
        ensures
            r matches Some(i) ==> i < self.tests@.len() && self.tests@[i as int].name@ == name@,
            r.is_none() ==> forall|i: int|
                0 <= i < self.tests@.len() ==> (#[trigger] self.tests@[i]).name@ != name@,
    {
        let n = self.tests.len();
        let mut i: usize = 0;
        while i < n
            invariant
                n == self.tests@.len(),
                0 <= i <= n,
                forall|k: int| 0 <= k < i ==> (#[trigger] self.tests@[k]).name@ != name@,
            decreases n - i,
        {
            if self.tests[i].name == *name {
                return Some(i);
            }
            i += 1;
        }
        None
    }

    /// Records the result of test `name`: an earlier result under that name
    /// is replaced in its place, otherwise the test is added last.
    pub fn record(&mut self, name: String, result: TestResult)
        requires
            old(self).wf(),
            result.wf(),
        ensures
            final(self).wf(),
            final(self).name == old(self).name,
            (exists|i: int| 0 <= i < old(self).tests@.len() && (#[trigger] old(self).tests@[i]).name@ == name@)
                ==> exists|i: int|
                0 <= i < old(self).tests@.len() && (#[trigger] old(self).tests@[i]).name@ == name@
                    && final(self).tests@ == old(self).tests@.update(i, (TestEntry { name, result })),
            (forall|i: int| 0 <= i < old(self).tests@.len() ==> (#[trigger] old(self).tests@[i]).name@ != name@)
                ==> final(self).tests@ == old(self).tests@.push((TestEntry { name, result })),
    {
        let ghost before = self.tests@;
        match self.position(&name) {
            Some(i) => {
                let _ = self.tests.remove(i);
                self.tests.insert(i, TestEntry { name, result });
                assert(self.tests@ =~= before.update(i as int, self.tests@[i as int]));
            },
            None => {
                self.tests.push(TestEntry { name, result });
            },
        }
    }
}

impl ResultSet {
    /// Contract names are keys, and each contract's results are well formed.
    pub open spec fn wf(&self) -> bool {
        &&& forall|i: int, j: int|
            0 <= i < j < self.contracts@.len() ==> self.contracts@[i].name@
                != self.contracts@[j].name@
        &&& forall|i: int| 0 <= i < self.contracts@.len() ==> #[trigger] self.contracts@[i].wf()
    }

    /// Some test of some contract failed.
    pub open spec fn spec_has_failure(&self) -> bool {
        exists|i: int, j: int|
            0 <= i < self.contracts@.len() && 0 <= j < self.contracts@[i].tests@.len()
                && !(#[trigger] self.contracts@[i].tests@[j]).result.success
    }

    /// Every test of every contract passed.
    pub open spec fn spec_all_passed(&self) -> bool {
        forall|i: int, j: int|
            0 <= i < self.contracts@.len() && 0 <= j < self.contracts@[i].tests@.len()
                ==> (#[trigger] self.contracts@[i].tests@[j]).result.success
    }

    /// The exit status of a run with these results.
    pub open spec fn spec_exit_status(&self, allow_failure: bool) -> i32 {
        if self.spec_has_failure() && !allow_failure {
            EXIT_FAILURE
        } else {
            EXIT_SUCCESS
        }
    }

    /// An empty result set.
    pub fn new() -> (r: ResultSet)
        ensures
            r.contracts@.len() == 0,
            r.wf(),
    {
        ResultSet { contracts: Vec::new() }
    }

    /// Adds the results of contract `c`: earlier results under its name are
    /// replaced in their place, otherwise it is added last.
    pub fn add_contract(&mut self, c: ContractResults)
        requires
            old(self).wf(),
            c.wf(),
        ensures
            final(self).wf(),
            (exists|i: int| 0 <= i < old(self).contracts@.len() && (#[trigger] old(self).contracts@[i]).name@ == c.name@)
                ==> exists|i: int|
                0 <= i < old(self).contracts@.len() && (#[trigger] old(self).contracts@[i]).name@ == c.name@
                    && final(self).contracts@ == old(self).contracts@.update(i, c),
            (forall|i: int| 0 <= i < old(self).contracts@.len() ==> (#[trigger] old(self).contracts@[i]).name@ != c.name@)
                ==> final(self).contracts@ == old(self).contracts@.push(c),
    {
        let ghost before = self.contracts@;
        let n = self.contracts.len();
        let mut i: usize = 0;
        while i < n
            invariant
                n == self.contracts@.len(),
                self.contracts@ == before,
                before == old(self).contracts@,
                old(self).wf(),
                c.wf(),
                0 <= i <= n,
                forall|k: int| 0 <= k < i ==> (#[trigger] self.contracts@[k]).name@ != c.name@,
            decreases n - i,
        {
            if self.contracts[i].name == c.name {
                let ghost cv = c;
                assert(before[i as int].name@ == cv.name@);
                let _ = self.contracts.remove(i);
                self.contracts.insert(i, c);
                assert(self.contracts@ =~= before.update(i as int, cv));
                assert forall|a: int| 0 <= a < self.contracts@.len() implies #[trigger] self.contracts@[a].name@
                    == before[a].name@ && self.contracts@[a].wf() by {
                    if a != i {
                        assert(self.contracts@[a] == before[a]);
                    }
                }
                return;
            }
            i += 1;
        }
        self.contracts.push(c);
    }

    /// Whether any test of any contract failed: one boolean folded over all results.
    pub fn has_failure(&self) -> (r: bool)
        ensures
            r == self.spec_has_failure(),
    {
        let n = self.contracts.len();
        let mut i: usize = 0;
        while i < n
            invariant
                n == self.contracts@.len(),
                0 <= i <= n,
                forall|a: int, b: int|
                    0 <= a < i && 0 <= b < self.contracts@[a].tests@.len()
                        ==> (#[trigger] self.contracts@[a].tests@[b]).result.success,
            decreases n - i,
        {
            let tests = &self.contracts[i].tests;
            let m = tests.len();
            let mut j: usize = 0;
            while j < m
                invariant
                    n == self.contracts@.len(),
                    0 <= i < n,
                    tests == &self.contracts@[i as int].tests,
                    m == tests@.len(),
                    0 <= j <= m,
                    forall|b: int| 0 <= b < j ==> (#[trigger] tests@[b]).result.success,
                decreases m - j,
            {
                if !tests[j].result.success {
                    assert(!self.contracts@[i as int].tests@[j as int].result.success);
                    return true;
                }
                j += 1;
            }
            i += 1;
        }
        false
    }

    /// The status the process ends with: failure as soon as one test failed,
    /// unless failures are allowed.
    pub fn exit_status(&self, allow_failure: bool) -> (r: i32)
        ensures
            r == self.spec_exit_status(allow_failure),
            r == EXIT_SUCCESS || r == EXIT_FAILURE,
    {
        if !allow_failure && self.has_failure() {
            EXIT_FAILURE
        } else {
            EXIT_SUCCESS
        }
    }
}

/// A run in which every test passed ends with the success status, whether
/// failures are allowed or not.
pub proof fn lemma_all_passed_exit_success(rs: &ResultSet, allow_failure: bool)
    requires
        rs.spec_all_passed(),
    ensures
        rs.spec_exit_status(allow_failure) == EXIT_SUCCESS,
{
}

/// A run with at least one failing test ends with the failure status, however
/// many tests passed, unless failures are allowed, in which case it ends with
/// the success status.
pub proof fn lemma_failure_latches(rs: &ResultSet, allow_failure: bool, i: int, j: int)
    requires
        0 <= i < rs.contracts@.len(),
        0 <= j < rs.contracts@[i].tests@.len(),
        !rs.contracts@[i].tests@[j].result.success,
    ensures
        rs.spec_exit_status(allow_failure) == (if allow_failure {
            EXIT_SUCCESS
        } else {
            EXIT_FAILURE
        }),
{
    assert(rs.spec_has_failure());
}

} // verus!
