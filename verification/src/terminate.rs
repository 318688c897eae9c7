//! Graceful-then-forced process termination with a bounded poll loop.
//!
//! The controller decides; the driver outside this crate acts.  A
//! termination request first dispatches a graceful signal, then polls the
//! process table at a fixed interval until the process is gone or the
//! timeout elapses, then escalates to a forced signal and performs one last
//! check.  The controller never reports `Terminated` on the strength of a
//! signal having been sent: only a probe of the process table that comes
//! back negative can confirm termination.
//!
//! The protocol: the driver calls [`Controller::start`], performs the
//! returned [`Action`], reports it back through the matching method
//! (`graceful_sent`, `probed`, `slept`, `forced_sent`), and repeats until it
//! receives [`Action::Finish`].
//!
//! Concurrent requests are independent: a controller holds nothing but its
//! own request's state.  A request its driver abandons is simply no longer
//! driven, and so never produces an outcome at all — misleading ones
//! included.

use vstd::prelude::*;

verus! {

/// Milliseconds between two probes of the process table.
pub const POLL_INTERVAL_MS: u64 = 100;

/// Timeout applied when a request does not carry one.
pub const DEFAULT_TIMEOUT_MS: u64 = 5000;

/// What a completed termination request reports.
///
/// `Terminated` means a probe confirmed the process is gone; `Failed` means
/// the process was still alive when probed after the forced signal.  A
/// platform with no termination primitive at all is a distinct condition
/// reported by the driver, which never builds a controller in that case.
#[derive(Clone, Copy, PartialEq, Eq, Structural, Debug)]
pub enum TerminationOutcome {
    Terminated,
    Failed,
}

/// Where a termination request stands.
#[derive(Clone, Copy, PartialEq, Eq, Structural, Debug)]
pub enum Phase {
    /// Created; no signal dispatched yet.
    Requested,
    /// Graceful signal dispatched; watching the process table.
    Polling,
    /// Timeout elapsed; forced signal dispatched or about to be.
    Escalated,
    /// A probe confirmed the process is gone.
    Confirmed,
    /// The process survived the forced signal.
    Failed,
}

/// What the driver is asked to do next.
#[derive(Clone, Copy, PartialEq, Eq, Structural, Debug)]
pub enum Action {
    /// Dispatch the graceful termination request, then call `graceful_sent`.
    SendGraceful,
    /// Probe the process table, then call `probed` with the result.
    Probe,
    /// Sleep one poll interval, then call `slept`.
    Wait,
    /// Dispatch the forced termination request, then call `forced_sent`.
    SendForced,
    /// The request is complete; report this outcome.
    Finish(TerminationOutcome),
}

/// The termination controller: pure decision state for one request.
///
/// `elapsed_ms` counts the poll intervals slept so far and never exceeds
/// `timeout_ms`.
pub struct Controller {
    pub timeout_ms: u64,
    pub elapsed_ms: u64,
    pub phase: Phase,
}

impl Controller {
    /// Every controller this module hands out satisfies this.
    pub open spec fn wf(&self) -> bool {
        &&& self.elapsed_ms <= self.timeout_ms
        &&& (self.phase is Requested ==> self.elapsed_ms == 0)
        &&& (self.phase is Escalated ==> self.elapsed_ms >= self.timeout_ms)
    }

    /// The controller as built for a fresh request.
    pub open spec fn initial(timeout_ms: u64) -> Controller {
        Controller { timeout_ms, elapsed_ms: 0, phase: Phase::Requested }
    }

    /// Elapsed time after one more poll interval, capped at the timeout:
    /// past the deadline the exact figure no longer matters.
    pub open spec fn spec_bump(self) -> Controller {
        if self.timeout_ms - self.elapsed_ms <= POLL_INTERVAL_MS {
            Controller { elapsed_ms: self.timeout_ms, ..self }
        } else {
            Controller { elapsed_ms: (self.elapsed_ms + POLL_INTERVAL_MS) as u64, ..self }
        }
    }

    /// After a signal was dispatched or a sleep finished: keep polling while
    /// the deadline is ahead, otherwise escalate.
    pub open spec fn spec_poll_decision(self) -> (Controller, Action) {
        if self.elapsed_ms < self.timeout_ms {
            (self, Action::Probe)
        } else {
            (Controller { phase: Phase::Escalated, ..self }, Action::SendForced)
        }
    }

    /// Transition for a probe result.  A negative probe confirms
    /// termination in any phase; a positive one means waiting while
    /// polling, and failure once escalated.
    pub open spec fn spec_probed(self, alive: bool) -> (Controller, Action) {
        if !alive {
            (
                Controller { phase: Phase::Confirmed, ..self },
                Action::Finish(TerminationOutcome::Terminated),
            )
        } else if self.phase is Polling {
            (self, Action::Wait)
        } else {
            (Controller { phase: Phase::Failed, ..self }, Action::Finish(TerminationOutcome::Failed))
        }
    }

    /// Build the controller for a fresh request.
    pub fn new(timeout_ms: u64) -> (c: Controller)
        ensures
            c == Controller::initial(timeout_ms),
            c.wf(),
    {
        Controller { timeout_ms, elapsed_ms: 0, phase: Phase::Requested }
    }

    /// Begin the request: the graceful signal goes out first.
    pub fn start(&mut self) -> (a: Action)
        requires
            old(self).phase is Requested,
            old(self).wf(),
        ensures
            *final(self) == (Controller { phase: Phase::Polling, ..*old(self) }),
            a == Action::SendGraceful,
            final(self).wf(),
    {
        self.phase = Phase::Polling;
        Action::SendGraceful
    }

    /// The graceful signal was dispatched (or its dispatch failed; either
    /// way the request was made and only the process table can tell what
    /// happened).  Decide whether to poll or, with a zero timeout, to
    /// escalate at once.
    pub fn graceful_sent(&mut self) -> (a: Action)
        requires
            old(self).phase is Polling,
            old(self).wf(),
        ensures
            (*final(self), a) == old(self).spec_poll_decision(),
            final(self).wf(),
    {
        if self.elapsed_ms < self.timeout_ms {
            Action::Probe
        } else {
            self.phase = Phase::Escalated;
            Action::SendForced
        }
    }

    /// A probe of the process table came back.
    pub fn probed(&mut self, alive: bool) -> (a: Action)
        requires
            old(self).phase is Polling || old(self).phase is Escalated,
            old(self).wf(),
        ensures
            (*final(self), a) == old(self).spec_probed(alive),
            final(self).wf(),
    {
        if !alive {
            self.phase = Phase::Confirmed;
            Action::Finish(TerminationOutcome::Terminated)
        } else if matches!(self.phase, Phase::Polling) {
            Action::Wait
        } else {
            self.phase = Phase::Failed;
            Action::Finish(TerminationOutcome::Failed)
        }
    }

    /// One poll interval was slept through.
    pub fn slept(&mut self) -> (a: Action)
        requires
            old(self).phase is Polling,
            old(self).wf(),
        ensures
            (*final(self), a) == old(self).spec_bump().spec_poll_decision(),
            final(self).wf(),
    {
        if self.timeout_ms - self.elapsed_ms <= POLL_INTERVAL_MS {
            self.elapsed_ms = self.timeout_ms;
        } else {
            self.elapsed_ms = self.elapsed_ms + POLL_INTERVAL_MS;
        }
        if self.elapsed_ms < self.timeout_ms {
            Action::Probe
        } else {
            self.phase = Phase::Escalated;
            Action::SendForced
        }
    }

    /// The forced signal was dispatched; one final probe decides.
    pub fn forced_sent(&mut self) -> (a: Action)
        requires
            old(self).phase is Escalated,
            old(self).wf(),
        ensures
            *final(self) == *old(self),
            a == Action::Probe,
            final(self).wf(),
    {
        Action::Probe
    }
}

/// How far a phase is from the probe-aligned base cases of [`spec_run`].
pub open spec fn phase_rank(p: Phase) -> nat {
    match p {
        Phase::Requested => 2,
        Phase::Polling => 1,
        _ => 0,
    }
}

/// The whole run of one termination request, as a function of the probe
/// results the process table would hand back, in order.  Returns the
/// outcome and the number of poll intervals waited, or `None` when `probes`
/// is too short to decide the run.
///
/// This is the reference semantics of the controller: what any driver that
/// follows the action protocol computes.
pub open spec fn spec_run(c: Controller, probes: Seq<bool>) -> Option<(TerminationOutcome, int)>
    decreases probes.len(), phase_rank(c.phase),
{
    match c.phase {
        Phase::Requested => spec_run(Controller { phase: Phase::Polling, ..c }, probes),
        Phase::Polling => {
            if c.elapsed_ms >= c.timeout_ms {
                spec_run(Controller { phase: Phase::Escalated, ..c }, probes)
            } else if probes.len() == 0 {
                None
            } else if !probes[0] {
                Some((TerminationOutcome::Terminated, 0))
            } else {
                match spec_run(c.spec_bump(), probes.drop_first()) {
                    Some((o, w)) => Some((o, 1 + w)),
                    None => None,
                }
            }
        },
        Phase::Escalated => {
            if probes.len() == 0 {
                None
            } else if !probes[0] {
                Some((TerminationOutcome::Terminated, 0))
            } else {
                Some((TerminationOutcome::Failed, 0))
            }
        },
        Phase::Confirmed => Some((TerminationOutcome::Terminated, 0)),
        Phase::Failed => Some((TerminationOutcome::Failed, 0)),
    }
}

/// A run from a fresh request with the given timeout.
pub open spec fn spec_terminate(timeout_ms: u64, probes: Seq<bool>) -> Option<
    (TerminationOutcome, int),
> {
    spec_run(Controller::initial(timeout_ms), probes)
}

/// `spec_run` with `w` extra poll intervals already waited.
pub open spec fn add_waits(r: Option<(TerminationOutcome, int)>, w: int) -> Option<
    (TerminationOutcome, int),
> {
    match r {
        Some((o, x)) => Some((o, x + w)),
        None => None,
    }
}

/// Law: a process that the first probe already finds gone — in particular
/// any process id absent from the process table when the request is made —
/// yields `Terminated` after zero poll intervals, whatever the timeout:
/// the controller never waits out the timeout on a dead process.
pub proof fn lemma_absent_process_terminates_immediately(timeout_ms: u64, probes: Seq<bool>)
    requires
        probes.len() > 0,
        !probes[0],
    ensures
        spec_terminate(timeout_ms, probes) == Some((TerminationOutcome::Terminated, 0int)),
{
    reveal_with_fuel(spec_run, 4);
}

/// Law: termination is idempotent on a process that is already gone.  The
/// operating system guarantees a terminated process never reappears under
/// the same id, so every probe of either call reports it dead; both calls
/// then return `Terminated` without waiting, regardless of their timeouts.
pub proof fn lemma_terminate_idempotent(
    timeout_a: u64,
    timeout_b: u64,
    probes_a: Seq<bool>,
    probes_b: Seq<bool>,
)
    requires
        probes_a.len() > 0,
        probes_b.len() > 0,
        forall|k: int| 0 <= k < probes_a.len() ==> !probes_a[k],
        forall|k: int| 0 <= k < probes_b.len() ==> !probes_b[k],
    ensures
        spec_terminate(timeout_a, probes_a) == Some((TerminationOutcome::Terminated, 0int)),
        spec_terminate(timeout_b, probes_b) == Some((TerminationOutcome::Terminated, 0int)),
{
    assert(!probes_a[0]);
    assert(!probes_b[0]);
    lemma_absent_process_terminates_immediately(timeout_a, probes_a);
    lemma_absent_process_terminates_immediately(timeout_b, probes_b);
}

proof fn lemma_failed_run_bound(c: Controller, probes: Seq<bool>, w: int)
    requires
        c.wf(),
        c.phase is Requested || c.phase is Polling || c.phase is Escalated,
        spec_run(c, probes) == Some((TerminationOutcome::Failed, w)),
    ensures
        w >= 0,
        c.elapsed_ms + w * POLL_INTERVAL_MS >= c.timeout_ms,
    decreases probes.len(), phase_rank(c.phase),
{
    reveal_with_fuel(spec_run, 1);
    match c.phase {
        Phase::Requested => {
            lemma_failed_run_bound(Controller { phase: Phase::Polling, ..c }, probes, w);
        },
        Phase::Polling => {
            if c.elapsed_ms >= c.timeout_ms {
                lemma_failed_run_bound(Controller { phase: Phase::Escalated, ..c }, probes, w);
            } else {
                lemma_failed_run_bound(c.spec_bump(), probes.drop_first(), w - 1);
            }
        },
        _ => {},
    }
}

/// Law (bounded wait): a `Failed` outcome is only ever reported once the
/// waited poll intervals cover the whole timeout — failure cannot be
/// declared early.
pub proof fn lemma_failed_only_after_timeout(timeout_ms: u64, probes: Seq<bool>, w: int)
    requires
        spec_terminate(timeout_ms, probes) == Some((TerminationOutcome::Failed, w)),
    ensures
        w * POLL_INTERVAL_MS >= timeout_ms,
{
    lemma_failed_run_bound(Controller::initial(timeout_ms), probes, w);
}

proof fn lemma_terminated_has_negative_probe(c: Controller, probes: Seq<bool>, w: int)
    requires
        c.phase is Requested || c.phase is Polling || c.phase is Escalated,
        spec_run(c, probes) == Some((TerminationOutcome::Terminated, w)),
    ensures
        exists|k: int| 0 <= k < probes.len() && !probes[k],
    decreases probes.len(), phase_rank(c.phase),
{
    reveal_with_fuel(spec_run, 1);
    match c.phase {
        Phase::Requested => {
            lemma_terminated_has_negative_probe(Controller { phase: Phase::Polling, ..c }, probes, w);
        },
        Phase::Polling => {
            if c.elapsed_ms >= c.timeout_ms {
                lemma_terminated_has_negative_probe(
                    Controller { phase: Phase::Escalated, ..c },
                    probes,
                    w,
                );
            } else if !probes[0] {
                assert(0 <= 0 < probes.len() && !probes[0]);
            } else {
                lemma_terminated_has_negative_probe(c.spec_bump(), probes.drop_first(), w - 1);
                let k = choose|k: int|
                    0 <= k < probes.drop_first().len() && !probes.drop_first()[k];
                assert(0 <= k + 1 < probes.len() && !probes[k + 1]);
            }
        },
        _ => {
            assert(0 <= 0 < probes.len() && !probes[0]);
        },
    }
}

/// Law: `Terminated` is only ever reported after a probe of the process
/// table came back negative.  The exit status of a signal-sending command
/// can never, on its own, produce a success report.
pub proof fn lemma_terminated_confirmed_by_probe(timeout_ms: u64, probes: Seq<bool>, w: int)
    requires
        spec_terminate(timeout_ms, probes) == Some((TerminationOutcome::Terminated, w)),
    ensures
        exists|k: int| 0 <= k < probes.len() && !probes[k],
{
    lemma_terminated_has_negative_probe(Controller::initial(timeout_ms), probes, w);
}

proof fn lemma_run_total(c: Controller, probes: Seq<bool>)
    requires
        c.wf(),
        c.phase is Requested || c.phase is Polling || c.phase is Escalated,
        probes.len() * POLL_INTERVAL_MS >= (c.timeout_ms - c.elapsed_ms) + POLL_INTERVAL_MS,
    ensures
        spec_run(c, probes) is Some,
    decreases probes.len(), phase_rank(c.phase),
{
    reveal_with_fuel(spec_run, 1);
    match c.phase {
        Phase::Requested => {
            lemma_run_total(Controller { phase: Phase::Polling, ..c }, probes);
        },
        Phase::Polling => {
            if c.elapsed_ms >= c.timeout_ms {
                lemma_run_total(Controller { phase: Phase::Escalated, ..c }, probes);
            } else if !probes[0] {
            } else {
                lemma_run_total(c.spec_bump(), probes.drop_first());
            }
        },
        _ => {},
    }
}

/// Law: the poll loop cannot run forever.  A run is decided by at most one
/// probe per poll interval of the timeout plus the final one, so a driver
/// that answers every probe always receives an outcome.
pub proof fn lemma_enough_probes_decide(timeout_ms: u64, probes: Seq<bool>)
    requires
        probes.len() * POLL_INTERVAL_MS >= timeout_ms + POLL_INTERVAL_MS,
    ensures
        spec_terminate(timeout_ms, probes) is Some,
{
    lemma_run_total(Controller::initial(timeout_ms), probes);
}

/// Run one termination request against a recorded sequence of probe
/// results, driving a [`Controller`] through the full action protocol.
///
/// Returns the outcome and the number of poll intervals waited, or `None`
/// when the trace is too short to decide the run.  A live driver is this
/// function with the process table in place of `probes` and real signals
/// and sleeps in place of the bookkeeping.
pub fn terminate_with_trace(timeout_ms: u64, probes: &Vec<bool>) -> (r: Option<
    (TerminationOutcome, usize),
>)
    ensures
        match (r, spec_terminate(timeout_ms, probes@)) {
            (Some((o, w)), Some((so, sw))) => o == so && w == sw,
            (None, None) => true,
            _ => false,
        },
{
    let mut c = Controller::new(timeout_ms);
    let ghost c0 = c;
    let _graceful = c.start();
    let mut act = c.graceful_sent();
    if matches!(act, Action::SendForced) {
        act = c.forced_sent();
    }
    let mut i: usize = 0;
    let mut waits: usize = 0;
    proof {
        reveal_with_fuel(spec_run, 4);
        assert(probes@.skip(0) =~= probes@);
        assert(spec_run(c, probes@) == spec_run(c0, probes@));
    }
    loop
        invariant
            c.wf(),
            c.phase is Polling || c.phase is Escalated,
            c.phase is Polling ==> c.elapsed_ms < c.timeout_ms,
            i <= probes.len(),
            waits <= i,
            add_waits(spec_run(c, probes@.skip(i as int)), waits as int) == spec_terminate(
                timeout_ms,
                probes@,
            ),
        decreases probes.len() - i,
    {
        if i == probes.len() {
            assert(probes@.skip(i as int).len() == 0);
            return None;
        }
        let alive = probes[i];
        let ghost rest = probes@.skip(i as int);
        let ghost c_before = c;
        proof {
            reveal_with_fuel(spec_run, 2);
            assert(rest.len() > 0 && rest[0] == alive);
            assert(rest.drop_first() =~= probes@.skip(i as int + 1));
        }
        i = i + 1;
        match c.probed(alive) {
            Action::Finish(o) => {
                return Some((o, waits));
            },
            Action::Wait => {
                waits = waits + 1;
                match c.slept() {
                    Action::SendForced => {
                        let _probe = c.forced_sent();
                    },
                    Action::Probe => {},
                    _ => {
                        return vstd::pervasive::unreached();
                    },
                }
                proof {
                    reveal_with_fuel(spec_run, 2);
                    assert(spec_run(c, rest.drop_first()) == spec_run(
                        c_before.spec_bump(),
                        rest.drop_first(),
                    ));
                    assert(spec_run(c_before, rest) == add_waits(
                        spec_run(c_before.spec_bump(), rest.drop_first()),
                        1,
                    ));
                }
            },
            _ => {
                return vstd::pervasive::unreached();
            },
        }
    }
}

} // verus!
