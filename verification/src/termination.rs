//! The graceful-then-forced termination protocol.
//!
//! After the graceful termination request has been sent, the worker is
//! polled for exit at a fixed short interval until a bounded grace window
//! has elapsed; only then is it force-killed. The protocol is a state
//! machine over the poll observations: the surrounding program sends the
//! signals, sleeps and polls, and feeds what it saw back into
//! [`TerminationProtocol::observe`], doing whatever the returned
//! [`StopDirective`] asks next. Time is modelled by `waited_ms`, the sum of
//! the sleeps the directives have requested so far.

use vstd::prelude::*;

verus! {

/// How a stopped worker went: on its own within the grace window, or only
/// after the forced kill. Both are non-error outcomes; the protocol only
/// promises that the worker is no longer running afterwards.
#[derive(Clone, Copy, Debug, PartialEq, Eq, Structural)]
pub enum TerminationOutcome {
    Exited,
    TimedOutThenKilled,
}

/// One poll of the worker: it has exited (or is already gone — signalling
/// an already-dead worker is not an error), or it is still running.
#[derive(Clone, Copy, Debug, PartialEq, Eq, Structural)]
pub enum PollStatus {
    Exited,
    Running,
}

/// What the protocol asks the surrounding program to do next.
#[derive(Clone, Copy, Debug, PartialEq, Eq, Structural)]
pub enum StopDirective {
    /// Sleep `sleep_ms`, poll the worker again, and report the result
    /// through `observe`.
    PollAgain { sleep_ms: u64 },
    /// The grace window has elapsed: sleep `sleep_ms` (the rest of the
    /// final poll interval), force-kill the worker, wait for it to be
    /// reaped, and report through `confirm_kill`.
    ForceKill { sleep_ms: u64 },
    /// The protocol is over with this outcome.
    Finished { outcome: TerminationOutcome },
}

/// Where the protocol stands.
#[derive(Clone, Copy, Debug, PartialEq, Eq, Structural)]
pub enum TerminationPhase {
    /// Waiting out the grace window, polling.
    Waiting,
    /// The window elapsed; the forced kill was directed.
    Killing,
    /// Over, with the recorded outcome.
    Done(TerminationOutcome),
}

/// The grace window on a user-initiated stop.
pub const STOP_GRACE_MS: u64 = 2000;

/// The poll interval on a user-initiated stop.
pub const STOP_POLL_MS: u64 = 100;

/// The shorter grace window on application shutdown, where responsiveness
/// matters more than gracefulness.
pub const SHUTDOWN_GRACE_MS: u64 = 1000;

/// The poll interval on application shutdown.
pub const SHUTDOWN_POLL_MS: u64 = 50;

/// The longest interval at which the protocol may poll.
pub const MAX_POLL_INTERVAL_MS: u64 = 150;

/// The termination protocol's state: its two budgets, the time waited so
/// far, and its phase.
#[derive(Clone, Copy, Debug, PartialEq, Eq, Structural)]
pub struct TerminationProtocol {
    pub grace_ms: u64,
    pub poll_ms: u64,
    pub waited_ms: u64,
    pub phase: TerminationPhase,
}

/// The protocol's transition on one poll observation. Outside the waiting
/// phase it changes nothing and repeats what remains to be done.
pub open spec fn observe_model(t: TerminationProtocol, poll: PollStatus) -> (
    TerminationProtocol,
    StopDirective,
) {
    match t.phase {
        TerminationPhase::Waiting => match poll {
            PollStatus::Exited => (
                TerminationProtocol {
                    phase: TerminationPhase::Done(TerminationOutcome::Exited),
                    ..t
                },
                StopDirective::Finished { outcome: TerminationOutcome::Exited },
            ),
            PollStatus::Running => {
                let waited = (t.waited_ms + t.poll_ms) as u64;
                if waited < t.grace_ms {
                    (
                        TerminationProtocol { waited_ms: waited, ..t },
                        StopDirective::PollAgain { sleep_ms: t.poll_ms },
                    )
                } else {
                    (
                        TerminationProtocol {
                            waited_ms: waited,
                            phase: TerminationPhase::Killing,
                            ..t
                        },
                        StopDirective::ForceKill { sleep_ms: t.poll_ms },
                    )
                }
            },
        },
        TerminationPhase::Killing => (t, StopDirective::ForceKill { sleep_ms: 0 }),
        TerminationPhase::Done(o) => (t, StopDirective::Finished { outcome: o }),
    }
}

impl TerminationProtocol {
    /// The protocol's invariant: positive budgets, a poll interval within
    /// the fixed short bound, no arithmetic wrap, and the waited time
    /// pinned to the phase — strictly inside the window while waiting,
    /// past the window but within one poll interval of it once a kill was
    /// directed or reported, and inside the window when the worker left
    /// on its own.
    pub open spec fn wf(self) -> bool {
        &&& 1 <= self.poll_ms <= MAX_POLL_INTERVAL_MS
        &&& 1 <= self.grace_ms
        &&& self.grace_ms + self.poll_ms <= u64::MAX
        &&& (self.phase is Waiting ==> self.waited_ms < self.grace_ms)
        &&& (self.phase is Killing ==> self.grace_ms <= self.waited_ms < self.grace_ms
            + self.poll_ms)
        &&& (self.phase == TerminationPhase::Done(TerminationOutcome::TimedOutThenKilled)
            ==> self.grace_ms <= self.waited_ms < self.grace_ms + self.poll_ms)
        &&& (self.phase == TerminationPhase::Done(TerminationOutcome::Exited)
            ==> self.waited_ms < self.grace_ms)
    }

    /// Start the protocol with the given budgets. The graceful
    /// termination request is to be sent now; the first poll follows
    /// immediately.
    pub fn new(grace_ms: u64, poll_ms: u64) -> (t: TerminationProtocol)
        requires
            1 <= grace_ms,
            1 <= poll_ms <= MAX_POLL_INTERVAL_MS,
            grace_ms + poll_ms <= u64::MAX,
        ensures
            t.wf(),
            t.grace_ms == grace_ms,
            t.poll_ms == poll_ms,
            t.waited_ms == 0,
            t.phase is Waiting,
    {
        TerminationProtocol { grace_ms, poll_ms, waited_ms: 0, phase: TerminationPhase::Waiting }
    }

    /// The protocol with the user-initiated stop budgets.
    pub fn for_stop() -> (t: TerminationProtocol)
        ensures
            t.wf(),
            t.grace_ms == STOP_GRACE_MS,
            t.poll_ms == STOP_POLL_MS,
            t.waited_ms == 0,
            t.phase is Waiting,
    {
        TerminationProtocol::new(STOP_GRACE_MS, STOP_POLL_MS)
    }

    /// The protocol with the application-shutdown budgets.
    pub fn for_shutdown() -> (t: TerminationProtocol)
        ensures
            t.wf(),
            t.grace_ms == SHUTDOWN_GRACE_MS,
            t.poll_ms == SHUTDOWN_POLL_MS,
            t.waited_ms == 0,
            t.phase is Waiting,
    {
        TerminationProtocol::new(SHUTDOWN_GRACE_MS, SHUTDOWN_POLL_MS)
    }

    /// Feed one poll observation in. An observed exit ends the protocol
    /// with `Exited` and never directs a kill; a still-running worker
    /// extends the wait by one poll interval, and the forced kill is
    /// directed exactly when the waited time first reaches the grace
    /// window.
    pub fn observe(&mut self, poll: PollStatus) -> (d: StopDirective)
        requires
            old(self).wf(),
            old(self).phase is Waiting,
        ensures
            final(self).wf(),
            (*final(self), d) == observe_model(*old(self), poll),
            final(self).grace_ms == old(self).grace_ms,
            final(self).poll_ms == old(self).poll_ms,
            poll is Exited ==> {
                &&& final(self).phase == TerminationPhase::Done(TerminationOutcome::Exited)
                &&& d == (StopDirective::Finished { outcome: TerminationOutcome::Exited })
                &&& final(self).waited_ms == old(self).waited_ms < old(self).grace_ms
            },
            poll is Running ==> final(self).waited_ms == old(self).waited_ms + old(self).poll_ms,
            poll is Running && old(self).waited_ms + old(self).poll_ms < old(self).grace_ms ==> {
                &&& final(self).phase is Waiting
                &&& d == (StopDirective::PollAgain { sleep_ms: old(self).poll_ms })
            },
            poll is Running && old(self).waited_ms + old(self).poll_ms >= old(self).grace_ms ==> {
                &&& final(self).phase is Killing
                &&& d == (StopDirective::ForceKill { sleep_ms: old(self).poll_ms })
            },
            d matches StopDirective::ForceKill { .. } ==> old(self).grace_ms
                <= final(self).waited_ms < old(self).grace_ms + old(self).poll_ms,
    {
        match poll {
            PollStatus::Exited => {
                self.phase = TerminationPhase::Done(TerminationOutcome::Exited);
                StopDirective::Finished { outcome: TerminationOutcome::Exited }
            },
            PollStatus::Running => {
                let waited: u64 = self.waited_ms + self.poll_ms;
                self.waited_ms = waited;
                if waited < self.grace_ms {
                    StopDirective::PollAgain { sleep_ms: self.poll_ms }
                } else {
                    self.phase = TerminationPhase::Killing;
                    StopDirective::ForceKill { sleep_ms: self.poll_ms }
                }
            },
        }
    }

    /// Record that the directed forced kill was performed and the worker
    /// reaped. The outcome is `TimedOutThenKilled`, reached only once the
    /// waited time covers the grace window (within one poll interval).
    pub fn confirm_kill(&mut self) -> (outcome: TerminationOutcome)
        requires
            old(self).wf(),
            old(self).phase is Killing,
        ensures
            final(self).wf(),
            *final(self) == (TerminationProtocol {
                phase: TerminationPhase::Done(TerminationOutcome::TimedOutThenKilled),
                ..*old(self)
            }),
            outcome == TerminationOutcome::TimedOutThenKilled,
            old(self).grace_ms <= final(self).waited_ms < old(self).grace_ms + old(self).poll_ms,
    {
        self.phase = TerminationPhase::Done(TerminationOutcome::TimedOutThenKilled);
        TerminationOutcome::TimedOutThenKilled
    }

    /// The outcome, once the protocol is over.
    pub open spec fn resolved(self) -> Option<TerminationOutcome> {
        match self.phase {
            TerminationPhase::Done(o) => Some(o),
            _ => None,
        }
    }
}

/// The protocol after `n` polls that all observed a still-running worker.
pub open spec fn run_running(t: TerminationProtocol, n: nat) -> TerminationProtocol
    decreases n,
{
    if n == 0 {
        t
    } else {
        observe_model(run_running(t, (n - 1) as nat), PollStatus::Running).0
    }
}

/// `n` all-running polls reach the protocol's forced kill, with the waited
/// time covering the grace window but within one poll interval of it.
pub open spec fn kill_point(t: TerminationProtocol, n: nat) -> bool {
    &&& run_running(t, n).phase is Killing
    &&& t.grace_ms <= run_running(t, n).waited_ms < t.grace_ms + t.poll_ms
}

proof fn lemma_run_running_shift(t: TerminationProtocol, n: nat)
    ensures
        run_running(t, n + 1) == run_running(observe_model(t, PollStatus::Running).0, n),
    decreases n,
{
    let t1 = observe_model(t, PollStatus::Running).0;
    if n == 0 {
        assert(run_running(t, 0) == t);
        assert(run_running(t1, 0) == t1);
        assert(run_running(t, 1) == observe_model(run_running(t, 0), PollStatus::Running).0);
    } else {
        lemma_run_running_shift(t, (n - 1) as nat);
        assert(run_running(t, n + 1) == observe_model(run_running(t, n), PollStatus::Running).0);
        assert(run_running(t1, n) == observe_model(
            run_running(t1, (n - 1) as nat),
            PollStatus::Running,
        ).0);
    }
}

/// Law: a child observed to exit within the grace window ends the
/// protocol with outcome `Exited`, and no forced kill is directed.
pub proof fn lemma_exit_within_grace_is_exited(t: TerminationProtocol)
    requires
        t.wf(),
        t.phase is Waiting,
    ensures
        ({
            let (t2, d) = observe_model(t, PollStatus::Exited);
            &&& t2.phase == TerminationPhase::Done(TerminationOutcome::Exited)
            &&& d == (StopDirective::Finished { outcome: TerminationOutcome::Exited })
            &&& !(d matches StopDirective::ForceKill { .. })
            &&& t2.waited_ms == t.waited_ms < t.grace_ms
        }),
{
}

/// Law: a child that ignores the termination request — every poll observes
/// it still running — is directed to be force-killed once the grace window
/// has elapsed, within one poll interval of it; only then does the
/// protocol report `TimedOutThenKilled`.
pub proof fn lemma_unresponsive_child_reaches_kill(t: TerminationProtocol)
    requires
        t.wf(),
        t.phase is Waiting,
    ensures
        exists|n: nat| kill_point(t, n),
    decreases t.grace_ms - t.waited_ms,
{
    let t1 = observe_model(t, PollStatus::Running).0;
    if t.waited_ms + t.poll_ms >= t.grace_ms {
        assert(run_running(t, 0) == t);
        assert(run_running(t, 1) == t1);
        assert(kill_point(t, 1));
    } else {
        lemma_unresponsive_child_reaches_kill(t1);
        let n1 = choose|n: nat| kill_point(t1, n);
        lemma_run_running_shift(t, n1);
        assert(run_running(t, n1 + 1) == run_running(t1, n1));
        assert(kill_point(t, n1 + 1));
    }
}

/// Law: both polling budgets stay within the protocol's fixed short poll
/// interval.
pub proof fn lemma_poll_budgets_within_interval()
    ensures
        STOP_POLL_MS <= MAX_POLL_INTERVAL_MS,
        SHUTDOWN_POLL_MS <= MAX_POLL_INTERVAL_MS,
{
}

} // verus!
