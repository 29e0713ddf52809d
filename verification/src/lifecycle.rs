//! The agent lifecycle controller: drives one agent process from
//! construction to termination, guaranteeing the control plane always
//! learns the outcome. The run is a single pass — start notification,
//! execution, result notification, termination — with best-effort error
//! reporting on every failing exit path and at most one reported outcome.

use vstd::prelude::*;
use crate::errors::AgentError;
use crate::history::{lemma_prefix_points, lemma_prefix_trans, lemma_push_keeps_prefix};
use crate::results::{TestResults, TestResultsView};

verus! {

/// Information gathered from the container environment before any channel
/// to the control plane exists.
#[derive(Clone, Debug)]
pub struct BootstrapData {
    /// The name of the run this agent was scheduled for.
    pub test_name: String,
}

/// The run configuration delivered once per run; its content is opaque to
/// the controller and interpreted by the injected executor.
#[derive(Clone, Debug)]
pub struct TestInfo {
    pub configuration: String,
}

/// Origin of a reported failure.
#[derive(Clone, Copy, Debug, PartialEq, Eq, Structural)]
pub enum ErrorSource {
    Bootstrap,
    Client,
    Runner,
}

/// One notification delivered to the control plane.
pub enum Notice {
    /// The run has started.
    Starting,
    /// The run's single reported outcome.
    Outcome(TestResultsView),
    /// A failure report, tagged with the failure's origin.
    Error(ErrorSource),
}

/// The outcome payload a notification carries, if it is an outcome.
pub open spec fn outcome_payload(notice: Notice) -> Option<TestResultsView> {
    match notice {
        Notice::Outcome(results) => Some(results),
        _ => None,
    }
}

/// The origin tag under which an agent error is reported.
pub open spec fn reported_source<CE, RE>(error: AgentError<CE, RE>) -> ErrorSource {
    match error {
        AgentError::Bootstrap(_) => ErrorSource::Bootstrap,
        AgentError::Client(_) => ErrorSource::Client,
        AgentError::Runner(_) => ErrorSource::Runner,
    }
}

/// The channel to the control plane. A failed send delivers nothing; an
/// accepted send appends exactly one notification to what the control
/// plane has seen.
pub trait Client: Sized {
    /// Errors of the channel itself.
    type Error;

    /// Every notification the control plane has accepted, in order.
    spec fn sent(&self) -> Seq<Notice>;

    /// Builds the channel from the container environment. A fresh channel
    /// has delivered nothing.
    fn new(bootstrap: BootstrapData) -> (r: Result<Self, Self::Error>)
        ensures
            r is Ok ==> r->Ok_0.sent() == Seq::<Notice>::empty(),
    ;

    /// Retrieves the run configuration. Reading delivers nothing.
    fn get_test_info(&mut self) -> (r: Result<TestInfo, Self::Error>)
        ensures
            final(self).sent() == old(self).sent(),
    ;

    /// Reports that the run has started.
    fn send_test_starting(&mut self) -> (r: Result<(), Self::Error>)
        ensures
            r is Ok ==> final(self).sent() == old(self).sent().push(Notice::Starting),
            r is Err ==> final(self).sent() == old(self).sent(),
    ;

    /// Reports the run's outcome.
    fn send_test_done(&mut self, results: TestResults) -> (r: Result<(), Self::Error>)
        ensures
            r is Ok ==> final(self).sent() == old(self).sent().push(
                Notice::Outcome(results@),
            ),
            r is Err ==> final(self).sent() == old(self).sent(),
    ;

    /// Reports a failure.
    fn send_error<RE>(&mut self, error: &AgentError<Self::Error, RE>) -> (r: Result<
        (),
        Self::Error,
    >)
        ensures
            r is Ok ==> final(self).sent() == old(self).sent().push(
                Notice::Error(reported_source(*error)),
            ),
            r is Err ==> final(self).sent() == old(self).sent(),
    ;
}

/// The injected operation executor: a workload run or an equivalent
/// long-running operation, with graceful release at the end. Its ghost
/// state counts executions and termination attempts and keeps every
/// result a completed execution produced, so a driver's contract can tie
/// what it reports to what the executor actually returned.
pub trait Runner: Sized {
    /// Errors of the operation itself.
    type Error;

    /// Every result a completed execution has produced, in order.
    spec fn produced(&self) -> Seq<TestResultsView>;

    /// How many times the operation was executed.
    spec fn runs(&self) -> nat;

    /// How many times termination was attempted.
    spec fn terminations(&self) -> nat;

    /// Builds the executor from the run configuration. A fresh executor
    /// has executed nothing.
    fn new(info: TestInfo) -> (r: Result<Self, Self::Error>)
        ensures
            r is Ok ==> r->Ok_0.produced() == Seq::<TestResultsView>::empty()
                && r->Ok_0.runs() == 0 && r->Ok_0.terminations() == 0,
    ;

    /// Executes the operation to completion. A completed execution's
    /// result is recorded; a failed one produces nothing.
    fn run(&mut self) -> (r: Result<TestResults, Self::Error>)
        ensures
            final(self).runs() == old(self).runs() + 1,
            final(self).terminations() == old(self).terminations(),
            r matches Ok(results) ==> final(self).produced() == old(self).produced().push(
                results@,
            ),
            r is Err ==> final(self).produced() == old(self).produced(),
    ;

    /// Releases whatever the run held. Termination executes nothing.
    fn terminate(&mut self) -> (r: Result<(), Self::Error>)
        ensures
            final(self).runs() == old(self).runs(),
            final(self).terminations() == old(self).terminations() + 1,
            final(self).produced() == old(self).produced(),
    ;
}

/// The top-level driver of one agent process: a channel to the control
/// plane and the injected executor.
pub struct TestAgent<C: Client, R: Runner> {
    client: C,
    runner: R,
}

impl<C: Client, R: Runner> TestAgent<C, R> {
    /// The notifications this agent's channel has delivered so far.
    pub closed spec fn sent(&self) -> Seq<Notice> {
        self.client.sent()
    }

    /// Every result this agent's executor has produced, in order.
    pub closed spec fn produced(&self) -> Seq<TestResultsView> {
        self.runner.produced()
    }

    /// How many times this agent's executor was executed.
    pub closed spec fn runs(&self) -> nat {
        self.runner.runs()
    }

    /// How many times termination of this agent's executor was attempted.
    pub closed spec fn terminations(&self) -> nat {
        self.runner.terminations()
    }

    /// Builds the channel first, retrieves the run configuration through
    /// it, then builds the executor from that configuration. Any failure
    /// here is fatal and unreported: there is no connected channel yet to
    /// report through, so the error simply propagates.
    pub fn new(bootstrap: BootstrapData) -> (r: Result<Self, AgentError<C::Error, R::Error>>)
        ensures
            r is Ok ==> r->Ok_0.sent() == Seq::<Notice>::empty() && r->Ok_0.produced()
                == Seq::<TestResultsView>::empty() && r->Ok_0.runs() == 0
                && r->Ok_0.terminations() == 0,
            r is Err ==> !(r->Err_0 matches AgentError::Bootstrap(_)),
    {
        let mut client = match C::new(bootstrap) {
            Ok(client) => client,
            Err(e) => {
                return Err(AgentError::Client(e));
            },
        };
        let test_info = match client.get_test_info() {
            Ok(test_info) => test_info,
            Err(e) => {
                return Err(AgentError::Client(e));
            },
        };
        let runner = match R::new(test_info) {
            Ok(runner) => runner,
            Err(e) => {
                return Err(AgentError::Runner(e));
            },
        };
        Ok(TestAgent { runner, client })
    }

    /// Takes the agent apart, handing back its channel and executor.
    pub fn into_parts(self) -> (r: (C, R))
        ensures
            r.0.sent() == self.sent(),
            r.1.produced() == self.produced(),
            r.1.runs() == self.runs(),
            r.1.terminations() == self.terminations(),
    {
        let TestAgent { client, runner } = self;
        (client, runner)
    }

    /// Builds an agent around an already constructed channel and executor.
    pub fn from_parts(client: C, runner: R) -> (r: TestAgent<C, R>)
        ensures
            r.sent() == client.sent(),
            r.produced() == runner.produced(),
            r.runs() == runner.runs(),
            r.terminations() == runner.terminations(),
    {
        TestAgent { client, runner }
    }

    /// Runs the agent: start notification, execution, outcome
    /// notification, termination. The executor is executed exactly once
    /// — and termination attempted exactly once — precisely when the
    /// start notification was delivered; any `Outcome` this run delivers
    /// carries exactly the result the execution produced; at most one
    /// best-effort error report is added beyond the failed operation
    /// itself; the run never reports two outcomes and never masks the
    /// first failure.
    pub fn run(&mut self) -> (r: Result<(), AgentError<C::Error, R::Error>>)
        ensures
            old(self).sent().len() <= final(self).sent().len() <= old(self).sent().len() + 3,
            final(self).sent().subrange(0, old(self).sent().len() as int) == old(self).sent(),
            forall|i: int|
                old(self).sent().len() <= i < final(self).sent().len() ==> ((#[trigger] final(
                    self).sent()[i] == Notice::Starting) <==> i == old(self).sent().len()),
            forall|i: int|
                old(self).sent().len() <= i < final(self).sent().len() && (#[trigger] final(
                    self).sent()[i] matches Notice::Outcome(_)) ==> i == old(self).sent().len()
                    + 1,
            forall|i: int, j: int|
                old(self).sent().len() <= i < j < final(self).sent().len() ==> !((#[trigger] final(
                    self).sent()[i] matches Notice::Error(_)) && (#[trigger] final(
                    self).sent()[j] matches Notice::Error(_))),
            final(self).runs() == old(self).runs() + (if final(self).sent().len() > old(
                self,
            ).sent().len() {
                1nat
            } else {
                0nat
            }),
            final(self).terminations() == old(self).terminations() + (if final(self).sent().len()
                > old(self).sent().len() {
                1nat
            } else {
                0nat
            }),
            forall|i: int|
                old(self).sent().len() <= i < final(self).sent().len() ==> match outcome_payload(
                    #[trigger] final(self).sent()[i],
                ) {
                    Some(results) => final(self).produced() == old(self).produced().push(results),
                    None => true,
                },
            r is Ok ==> final(self).sent().len() == old(self).sent().len() + 2
                && (final(self).sent().last() matches Notice::Outcome(_))
                && final(self).produced().len() == old(self).produced().len() + 1
                && final(self).sent().last() == Notice::Outcome(final(self).produced().last()),
            final(self).sent().len() == old(self).sent().len() ==> (r matches Err(
                AgentError::Client(_),
            )),
            r is Err ==> !(r->Err_0 matches AgentError::Bootstrap(_)),
    {
        let ghost s0 = self.client.sent();
        proof {
            assert(self.client.sent().subrange(0, s0.len() as int) =~= s0);
        }
        if let Err(e) = self.client.send_test_starting() {
            return Err(AgentError::Client(e));
        }
        let ghost s1 = self.client.sent();
        proof {
            lemma_push_keeps_prefix(s0, s0, Notice::Starting);
        }

        let results = match self.runner.run() {
            Ok(results) => results,
            Err(e) => {
                let error = AgentError::Runner(e);
                self.send_error_best_effort(&error);
                let ghost s2 = self.client.sent();
                self.terminate_best_effort();
                proof {
                    assert(self.client.sent().subrange(0, s2.len() as int) =~= s2);
                    lemma_prefix_trans(s1, s2, self.client.sent());
                    lemma_prefix_trans(s0, s1, s2);
                    lemma_prefix_trans(s0, s2, self.client.sent());
                    lemma_prefix_points(s1, self.client.sent());
                    lemma_prefix_points(s2, self.client.sent());
                }
                return Err(error);
            },
        };

        if let Err(e) = self.client.send_test_done(results) {
            let error = AgentError::Client(e);
            self.send_error_best_effort(&error);
            let ghost s2 = self.client.sent();
            self.terminate_best_effort();
            proof {
                assert(self.client.sent().subrange(0, s2.len() as int) =~= s2);
                lemma_prefix_trans(s1, s2, self.client.sent());
                lemma_prefix_trans(s0, s1, s2);
                lemma_prefix_trans(s0, s2, self.client.sent());
                lemma_prefix_points(s1, self.client.sent());
                lemma_prefix_points(s2, self.client.sent());
            }
            return Err(error);
        }
        let ghost s2 = self.client.sent();
        proof {
            lemma_push_keeps_prefix(s1, s0, Notice::Outcome(results@));
            assert(s1.subrange(0, s1.len() as int) =~= s1);
            lemma_push_keeps_prefix(s1, s1, Notice::Outcome(results@));
            lemma_prefix_points(s1, s2);
        }

        if let Err(e) = self.runner.terminate() {
            let error = AgentError::Runner(e);
            self.send_error_best_effort(&error);
            proof {
                lemma_prefix_trans(s0, s2, self.client.sent());
                lemma_prefix_points(s2, self.client.sent());
            }
            return Err(error);
        }

        Ok(())
    }

    /// Best-effort failure report: attempted once, and its own failure is
    /// never allowed to change the caller's control flow.
    fn send_error_best_effort(&mut self, error: &AgentError<C::Error, R::Error>)
        ensures
            old(self).sent().len() <= final(self).sent().len() <= old(self).sent().len() + 1,
            final(self).sent().subrange(0, old(self).sent().len() as int) == old(self).sent(),
            forall|i: int|
                old(self).sent().len() <= i < final(self).sent().len() ==> (#[trigger] final(
                    self).sent()[i] matches Notice::Error(_)),
            final(self).produced() == old(self).produced(),
            final(self).runs() == old(self).runs(),
            final(self).terminations() == old(self).terminations(),
    {
        let ghost s0 = self.client.sent();
        proof {
            assert(self.client.sent().subrange(0, s0.len() as int) =~= s0);
        }
        let outcome = self.client.send_error(error);
        proof {
            if outcome is Ok {
                lemma_push_keeps_prefix(s0, s0, Notice::Error(reported_source(*error)));
            }
        }
    }

    /// Best-effort termination: tells the executor to release what it
    /// holds. Its failure is deliberately not reported: the failing run
    /// already attempts at most one failure notice of its own, and a
    /// second would exceed the notification discipline.
    fn terminate_best_effort(&mut self)
        ensures
            final(self).sent() == old(self).sent(),
            final(self).produced() == old(self).produced(),
            final(self).runs() == old(self).runs(),
            final(self).terminations() == old(self).terminations() + 1,
    {
        let _ = self.runner.terminate();
    }
}

/// An in-memory channel whose sends succeed or fail as configured, with
/// counters a caller can read back. Built from the environment, it accepts
/// everything; a bootstrap without a test name is refused.
pub struct ScriptedClient {
    accept_starting: bool,
    accept_done: bool,
    accept_error: bool,
    /// How many start notifications were accepted.
    pub starting_accepted: u64,
    /// How many outcome notifications were accepted.
    pub outcomes_accepted: u64,
    /// How many failure reports were accepted.
    pub errors_accepted: u64,
    log: Ghost<Seq<Notice>>,
}

impl ScriptedClient {
    /// A fresh channel that accepts each kind of notification as told.
    pub fn with_script(accept_starting: bool, accept_done: bool, accept_error: bool) -> (r:
        ScriptedClient)
        ensures
            r.sent() == Seq::<Notice>::empty(),
    {
        ScriptedClient {
            accept_starting,
            accept_done,
            accept_error,
            starting_accepted: 0,
            outcomes_accepted: 0,
            errors_accepted: 0,
            log: Ghost(Seq::empty()),
        }
    }
}

impl Client for ScriptedClient {
    type Error = String;

    closed spec fn sent(&self) -> Seq<Notice> {
        self.log@
    }

    fn new(bootstrap: BootstrapData) -> (r: Result<Self, String>) {
        if bootstrap.test_name.as_str().is_empty() {
            Err("bootstrap data named no test".to_owned())
        } else {
            Ok(ScriptedClient::with_script(true, true, true))
        }
    }

    fn get_test_info(&mut self) -> (r: Result<TestInfo, String>) {
        Ok(TestInfo { configuration: String::new() })
    }

    fn send_test_starting(&mut self) -> (r: Result<(), String>) {
        if self.accept_starting {
            proof {
                self.log@ = self.log@.push(Notice::Starting);
            }
            if self.starting_accepted < u64::MAX {
                self.starting_accepted = self.starting_accepted + 1;
            }
            Ok(())
        } else {
            Err("start notification refused".to_owned())
        }
    }

    fn send_test_done(&mut self, results: TestResults) -> (r: Result<(), String>) {
        if self.accept_done {
            proof {
                self.log@ = self.log@.push(Notice::Outcome(results@));
            }
            if self.outcomes_accepted < u64::MAX {
                self.outcomes_accepted = self.outcomes_accepted + 1;
            }
            Ok(())
        } else {
            Err("outcome notification refused".to_owned())
        }
    }

    fn send_error<RE>(&mut self, error: &AgentError<String, RE>) -> (r: Result<(), String>) {
        if self.accept_error {
            proof {
                self.log@ = self.log@.push(Notice::Error(reported_source(*error)));
            }
            if self.errors_accepted < u64::MAX {
                self.errors_accepted = self.errors_accepted + 1;
            }
            Ok(())
        } else {
            Err("failure report refused".to_owned())
        }
    }
}

/// An executor whose run and termination succeed or fail as configured,
/// with counters a caller can read back.
pub struct ScriptedRunner {
    run_succeeds: bool,
    terminate_succeeds: bool,
    results: TestResults,
    /// How many times the operation was executed.
    pub times_run: u64,
    /// How many times termination was attempted.
    pub times_terminated: u64,
    executed: Ghost<nat>,
    released: Ghost<nat>,
    produced_log: Ghost<Seq<TestResultsView>>,
}

impl ScriptedRunner {
    /// An executor that behaves as told and reports `results` on success.
    pub fn with_script(run_succeeds: bool, terminate_succeeds: bool, results: TestResults) -> (r:
        ScriptedRunner)
        ensures
            r.produced() == Seq::<TestResultsView>::empty(),
            r.runs() == 0,
            r.terminations() == 0,
    {
        ScriptedRunner {
            run_succeeds,
            terminate_succeeds,
            results,
            times_run: 0,
            times_terminated: 0,
            executed: Ghost(0),
            released: Ghost(0),
            produced_log: Ghost(Seq::empty()),
        }
    }
}

impl Runner for ScriptedRunner {
    type Error = String;

    closed spec fn produced(&self) -> Seq<TestResultsView> {
        self.produced_log@
    }

    closed spec fn runs(&self) -> nat {
        self.executed@
    }

    closed spec fn terminations(&self) -> nat {
        self.released@
    }

    fn new(info: TestInfo) -> (r: Result<Self, String>) {
        let results = TestResults {
            outcome: crate::results::TestOutcome::Pass,
            num_passed: 0,
            num_failed: 0,
            num_skipped: 0,
            other_info: Some(info.configuration),
        };
        Ok(ScriptedRunner::with_script(true, true, results))
    }

    fn run(&mut self) -> (r: Result<TestResults, String>) {
        if self.times_run < u64::MAX {
            self.times_run = self.times_run + 1;
        }
        proof {
            self.executed@ = self.executed@ + 1;
        }
        if self.run_succeeds {
            let results = self.results.clone();
            proof {
                self.produced_log@ = self.produced_log@.push(results@);
            }
            Ok(results)
        } else {
            Err("scripted execution failure".to_owned())
        }
    }

    fn terminate(&mut self) -> (r: Result<(), String>) {
        if self.times_terminated < u64::MAX {
            self.times_terminated = self.times_terminated + 1;
        }
        proof {
            self.released@ = self.released@ + 1;
        }
        if self.terminate_succeeds {
            Ok(())
        } else {
            Err("scripted termination failure".to_owned())
        }
    }
}

} // verus!
