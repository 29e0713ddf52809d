//! The wait/poll primitive: a bounded cooperative loop that issues a
//! fallible readiness predicate on a fixed interval. Only the absence of a
//! ready state is retried; a predicate failure is propagated immediately.
//! Callers wanting a hard deadline layer their own timeout around it.

use vstd::prelude::*;
use crate::history::lemma_push_keeps_prefix;

verus! {

/// One observation of the readiness predicate.
#[derive(Clone, Copy, Debug, PartialEq, Eq, Structural)]
pub enum PollOutcome {
    /// The awaited state was observed.
    Ready,
    /// The awaited state was not there yet.
    NotReady,
    /// The predicate itself failed (a transport error, not an unready state).
    Failed,
}

/// Why a wait ended without the awaited state.
#[derive(Debug)]
pub enum WaitError {
    /// The bound elapsed with the state never observed.
    Timeout,
    /// The predicate failed; its message is carried through.
    Failed(String),
}

/// A readiness predicate over some externally observed state, together
/// with the interval to wait between observations.
pub trait Poller: Sized {
    /// Every outcome the predicate has produced, in order.
    spec fn checks(&self) -> Seq<PollOutcome>;

    /// Issues the predicate once and records the outcome.
    fn poll(&mut self) -> (r: Result<bool, String>)
        ensures
            r == Ok::<bool, String>(true) ==> final(self).checks() == old(self).checks().push(
                PollOutcome::Ready,
            ),
            r == Ok::<bool, String>(false) ==> final(self).checks() == old(self).checks().push(
                PollOutcome::NotReady,
            ),
            r is Err ==> final(self).checks() == old(self).checks().push(PollOutcome::Failed),
    ;

    /// Waits one interval. Waiting observes nothing.
    fn pause(&mut self)
        ensures
            final(self).checks() == old(self).checks(),
    ;
}

/// Polls until the predicate holds, it fails, or `max_checks` observations
/// have all come back unready. Returns success exactly when the last
/// observation made was `Ready`; every observation before the last one in
/// this call came back `NotReady`.
pub fn wait_for<P: Poller>(poller: &mut P, max_checks: u64) -> (r: Result<(), WaitError>)
    requires
        max_checks >= 1,
    ensures
        old(poller).checks().len() < final(poller).checks().len(),
        final(poller).checks().len() <= old(poller).checks().len() + max_checks,
        final(poller).checks().subrange(0, old(poller).checks().len() as int)
            == old(poller).checks(),
        forall|i: int| old(poller).checks().len() <= i < final(poller).checks().len() - 1
            ==> final(poller).checks()[i] == PollOutcome::NotReady,
        r is Ok <==> final(poller).checks().last() == PollOutcome::Ready,
        r matches Err(WaitError::Failed(_))
            <==> final(poller).checks().last() == PollOutcome::Failed,
        r matches Err(WaitError::Timeout)
            ==> final(poller).checks().len() == old(poller).checks().len() + max_checks
                && final(poller).checks().last() == PollOutcome::NotReady,
{
    let ghost base = poller.checks();
    proof {
        assert(poller.checks().subrange(0, base.len() as int) =~= base);
    }
    let mut attempts: u64 = 0;
    loop
        invariant
            base == old(poller).checks(),
            attempts < max_checks,
            poller.checks().len() == base.len() + attempts,
            poller.checks().subrange(0, base.len() as int) == base,
            forall|i: int|
                base.len() <= i < poller.checks().len() ==> poller.checks()[i]
                    == PollOutcome::NotReady,
        decreases max_checks - attempts,
    {
        let ghost pre = poller.checks();
        let checked = poller.poll();
        match checked {
            Ok(true) => {
                proof {
                    lemma_push_keeps_prefix(pre, base, PollOutcome::Ready);
                }
                return Ok(());
            },
            Ok(false) => {
                proof {
                    lemma_push_keeps_prefix(pre, base, PollOutcome::NotReady);
                }
                attempts = attempts + 1;
                if attempts == max_checks {
                    return Err(WaitError::Timeout);
                }
                poller.pause();
            },
            Err(message) => {
                proof {
                    lemma_push_keeps_prefix(pre, base, PollOutcome::Failed);
                }
                return Err(WaitError::Failed(message));
            },
        }
    }
}

/// A predicate whose observations are scripted in advance: outcome `k` of
/// the script answers the `k`th poll, and polls past the end of the script
/// observe an unready state forever. For exercising waiting agents without
/// an external collaborator.
pub struct ScriptedPoller {
    script: Vec<PollOutcome>,
    position: usize,
    /// How many polls were made.
    pub polls: u64,
    history: Ghost<Seq<PollOutcome>>,
}

impl ScriptedPoller {
    /// A poller that will answer its polls from `script`, in order.
    pub fn new(script: Vec<PollOutcome>) -> (r: ScriptedPoller)
        ensures
            r.checks() == Seq::<PollOutcome>::empty(),
    {
        ScriptedPoller { script, position: 0, polls: 0, history: Ghost(Seq::empty()) }
    }
}

impl Poller for ScriptedPoller {
    closed spec fn checks(&self) -> Seq<PollOutcome> {
        self.history@
    }

    fn poll(&mut self) -> (r: Result<bool, String>) {
        let outcome = if self.position < self.script.len() {
            self.script[self.position]
        } else {
            PollOutcome::NotReady
        };
        if self.position < usize::MAX {
            self.position = self.position + 1;
        }
        if self.polls < u64::MAX {
            self.polls = self.polls + 1;
        }
        proof {
            self.history@ = self.history@.push(outcome);
        }
        match outcome {
            PollOutcome::Ready => Ok(true),
            PollOutcome::NotReady => Ok(false),
            PollOutcome::Failed => Err("scripted predicate failure".to_owned()),
        }
    }

    fn pause(&mut self) {
    }
}

} // verus!
