//! The decisions of one `test` invocation, from configuration to exit status.
//! The caller performs each action (the network fetch, the test run, the
//! printing) and hands back what came of it as the next event.

use vstd::prelude::*;
use crate::ledger::{
    bootstrap_forked, bootstrap_local, forked_backend, local_backend, Address, Backend, EvmConfig,
    ForkSpec, Ledger, Vicinity,
};
use crate::outcome::{ResultSet, EXIT_FAILURE};
use crate::render::{human_report, report_text};

verus! {

/// Where an invocation stands.
pub enum Phase {
    /// Nothing done yet: the genesis state for a local run, and the chain to
    /// fork, if any.
    Configured { genesis: Ledger, fork: Option<ForkSpec> },
    /// Waiting for the context of the forked chain.
    AwaitingVicinity { target: ForkSpec },
    /// The environment is ready and the tests run.
    Running,
    /// The invocation has ended; nothing more happens.
    Finished,
}

/// What the caller reports back.
pub enum Event {
    Start,
    VicinityFetched(Vicinity),
    VicinityUnavailable,
    TestsFinished(ResultSet),
}

/// What the caller is to do next.
pub enum Action {
    /// Fetch the chain context from `endpoint` at `block`, or at the head.
    FetchVicinity { endpoint: String, block: Option<u64> },
    /// Deploy and run the tests on this environment.
    RunTests(Backend),
    /// Print the report, the human text or else the serialized `results`,
    /// then end the process with `status`.
    Report { results: ResultSet, text: Option<String>, status: i32 },
    /// End the process with `status`, printing no report.
    Abort(i32),
    /// Nothing to do.
    Idle,
}

/// The settings and progress of one invocation.
pub struct Invocation {
    pub cfg: EvmConfig,
    pub faucet: Address,
    pub json: bool,
    pub verbosity: u8,
    pub allow_failure: bool,
    pub phase: Phase,
}

/// `t` has the settings of `s`.
pub open spec fn same_settings(s: Invocation, t: Invocation) -> bool {
    &&& t.cfg == s.cfg
    &&& t.faucet == s.faucet
    &&& t.json == s.json
    &&& t.verbosity == s.verbosity
    &&& t.allow_failure == s.allow_failure
}

/// Event `ev` takes invocation `s` to `t`, and the caller is to do `act`.
pub open spec fn step_ok(s: Invocation, ev: Event, t: Invocation, act: Action) -> bool {
    &&& same_settings(s, t)
    &&& match (s.phase, ev) {
        (Phase::Configured { genesis, fork: Some(f) }, Event::Start) => {
            &&& t.phase == Phase::AwaitingVicinity { target: f }
            &&& act matches Action::FetchVicinity { endpoint, block } && endpoint@ == f.endpoint@
                && block == f.block
        },
        (Phase::Configured { genesis, fork: None }, Event::Start) => {
            &&& t.phase is Running
            &&& act matches Action::RunTests(b) && local_backend(s.cfg, genesis, s.faucet, b)
        },
        (Phase::AwaitingVicinity { target }, Event::VicinityFetched(v)) => {
            &&& t.phase is Running
            &&& act matches Action::RunTests(b) && forked_backend(s.cfg, target, v, s.faucet, b)
        },
        (Phase::AwaitingVicinity { target }, Event::VicinityUnavailable) => {
            &&& t.phase is Finished
            &&& act == Action::Abort(EXIT_FAILURE)
        },
        (Phase::Running, Event::TestsFinished(rs)) => {
            &&& t.phase is Finished
            &&& act matches Action::Report { results, text, status } && results == rs && status
                == rs.spec_exit_status(s.allow_failure) && (if s.json {
                text.is_none()
            } else {
                text matches Some(h) && h@ == report_text(rs.contracts@, s.verbosity)
            })
        },
        _ => {
            &&& t.phase == s.phase
            &&& act is Idle
        },
    }
}

impl Invocation {
    /// A new invocation; `genesis` is the synthetic state used when not forking.
    pub fn new(
        cfg: EvmConfig,
        faucet: Address,
        genesis: Ledger,
        fork: Option<ForkSpec>,
        json: bool,
        verbosity: u8,
        allow_failure: bool,
    ) -> (r: Invocation)
        ensures
            r.cfg == cfg,
            r.faucet == faucet,
            r.json == json,
            r.verbosity == verbosity,
            r.allow_failure == allow_failure,
            r.phase == (Phase::Configured { genesis, fork }),
    {
        Invocation { cfg, faucet, json, verbosity, allow_failure, phase: Phase::Configured { genesis, fork } }
    }

    /// Whether the invocation is well formed for its next steps: a genesis
    /// state has distinct addresses.
    pub open spec fn wf(&self) -> bool {
        self.phase matches Phase::Configured { genesis, fork } ==> genesis.wf()
    }

    /// The next state and the action that event `ev` leads to.
    pub fn step(self, ev: Event) -> (r: (Invocation, Action))
        requires
            self.wf(),
        ensures
            step_ok(self, ev, r.0, r.1),
            r.0.wf(),
    {
        let Invocation { cfg, faucet, json, verbosity, allow_failure, phase } = self;
        let (phase, act) = match (phase, ev) {
            (Phase::Configured { genesis, fork: Some(f) }, Event::Start) => {
                let endpoint = f.endpoint.clone();
                let block = f.block;
                (Phase::AwaitingVicinity { target: f }, Action::FetchVicinity { endpoint, block })
            },
            (Phase::Configured { genesis, fork: None }, Event::Start) => {
                (Phase::Running, Action::RunTests(bootstrap_local(cfg, genesis, &faucet)))
            },
            (Phase::AwaitingVicinity { target }, Event::VicinityFetched(v)) => {
                (Phase::Running, Action::RunTests(bootstrap_forked(cfg, target, v, &faucet)))
            },
            (Phase::AwaitingVicinity { target }, Event::VicinityUnavailable) => {
                (Phase::Finished, Action::Abort(EXIT_FAILURE))
            },
            (Phase::Running, Event::TestsFinished(rs)) => {
                let status = rs.exit_status(allow_failure);
                let text = if json {
                    None
                } else {
                    Some(human_report(&rs, verbosity))
                };
                (Phase::Finished, Action::Report { results: rs, text, status })
            },
            (phase, _) => (phase, Action::Idle),
        };
        (Invocation { cfg, faucet, json, verbosity, allow_failure, phase }, act)
    }
}

/// When the forked chain's context cannot be fetched, the invocation ends with
/// the failure status before any test contract is deployed, and no report is
/// ever printed: every later event leads to no action.
pub proof fn lemma_fork_failure_aborts(
    s: Invocation,
    t: Invocation,
    act: Action,
    ev: Event,
    u: Invocation,
    later: Action,
)
    requires
        s.phase is AwaitingVicinity,
        step_ok(s, Event::VicinityUnavailable, t, act),
        step_ok(t, ev, u, later),
    ensures
        act == Action::Abort(EXIT_FAILURE),
        t.phase is Finished,
        later is Idle,
        u.phase is Finished,
{
}

} // verus!
