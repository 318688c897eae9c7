// Scenario tests for the termination controller, driven through recorded
// probe traces: each entry is what one probe of the process table would
// have reported.

use hostcore::procs::BulkStop;
use hostcore::terminate::{
    terminate_with_trace, Action, Controller, Phase, TerminationOutcome, DEFAULT_TIMEOUT_MS,
    POLL_INTERVAL_MS,
};

#[test]
fn absent_pid_terminates_immediately() {
    // A pid that is certainly unused: the very first probe reports it gone,
    // so the outcome is Terminated after zero poll intervals, far below the
    // 500 ms budget.
    let r = terminate_with_trace(500, &vec![false]);
    assert_eq!(r, Some((TerminationOutcome::Terminated, 0)));
}

#[test]
fn absent_pid_terminates_immediately_with_zero_timeout() {
    // With a zero timeout the controller escalates at once; the final probe
    // still confirms the process is gone.
    let r = terminate_with_trace(0, &vec![false]);
    assert_eq!(r, Some((TerminationOutcome::Terminated, 0)));
}

#[test]
fn terminate_is_idempotent_on_dead_process() {
    // A terminated process never reappears, so every probe of either call
    // reports it dead: both calls return Terminated without waiting.
    let first = terminate_with_trace(DEFAULT_TIMEOUT_MS, &vec![false, false, false]);
    let second = terminate_with_trace(DEFAULT_TIMEOUT_MS, &vec![false, false, false]);
    assert_eq!(first, Some((TerminationOutcome::Terminated, 0)));
    assert_eq!(second, Some((TerminationOutcome::Terminated, 0)));
}

#[test]
fn graceful_exit_terminates_within_budget() {
    // A process that honors the graceful signal after two poll intervals:
    // Terminated after 200 ms of waiting, well within the 1000 ms timeout.
    let r = terminate_with_trace(1000, &vec![true, true, false]);
    assert_eq!(r, Some((TerminationOutcome::Terminated, 2)));
}

#[test]
fn resistant_process_fails_at_timeout_boundary() {
    // A process that ignores both signals with a 1000 ms timeout: ten polls
    // at 100 ms intervals, escalation, one final probe, Failed.  The ten
    // waited intervals cover the whole timeout: failure is never early.
    let probes = vec![true; 11];
    let r = terminate_with_trace(1000, &probes);
    assert_eq!(r, Some((TerminationOutcome::Failed, 10)));
    let waits: usize = r.unwrap().1;
    assert!(waits as u64 * POLL_INTERVAL_MS >= 1000);
}

#[test]
fn late_exit_detected_by_final_probe() {
    // The process survives the whole poll window but is gone by the final
    // probe after the forced signal: still Terminated.
    let mut probes = vec![true; 10];
    probes.push(false);
    let r = terminate_with_trace(1000, &probes);
    assert_eq!(r, Some((TerminationOutcome::Terminated, 10)));
}

#[test]
fn short_trace_decides_nothing() {
    // Two probes cannot decide a 300 ms run that needs a third: the
    // simulation reports that the trace ran out rather than an outcome.
    let r = terminate_with_trace(300, &vec![true, true]);
    assert_eq!(r, None);
}

#[test]
fn controller_protocol_for_live_process() {
    // Drive the controller by hand through a run where the process dies
    // after one wait.
    let mut c = Controller::new(200);
    assert!(matches!(c.phase, Phase::Requested));
    assert_eq!(c.start(), Action::SendGraceful);
    assert_eq!(c.graceful_sent(), Action::Probe);
    assert_eq!(c.probed(true), Action::Wait);
    assert_eq!(c.slept(), Action::Probe);
    assert_eq!(c.probed(false), Action::Finish(TerminationOutcome::Terminated));
    assert!(matches!(c.phase, Phase::Confirmed));
}

#[test]
fn controller_escalates_once_timeout_is_spent() {
    let mut c = Controller::new(100);
    assert_eq!(c.start(), Action::SendGraceful);
    assert_eq!(c.graceful_sent(), Action::Probe);
    assert_eq!(c.probed(true), Action::Wait);
    // The single interval exhausts the timeout: escalate instead of probing.
    assert_eq!(c.slept(), Action::SendForced);
    assert!(matches!(c.phase, Phase::Escalated));
    assert_eq!(c.forced_sent(), Action::Probe);
    assert_eq!(c.probed(true), Action::Finish(TerminationOutcome::Failed));
    assert!(matches!(c.phase, Phase::Failed));
}

#[test]
fn controller_with_zero_timeout_escalates_at_once() {
    let mut c = Controller::new(0);
    assert_eq!(c.start(), Action::SendGraceful);
    assert_eq!(c.graceful_sent(), Action::SendForced);
    assert_eq!(c.forced_sent(), Action::Probe);
    assert_eq!(c.probed(false), Action::Finish(TerminationOutcome::Terminated));
}

#[test]
fn bulk_stop_counts_at_most_the_attempts() {
    // Three matched processes, one of which resists: the report says two
    // stopped out of three attempted, and the failure aborts nothing.
    let mut account = BulkStop::new();
    account.record(TerminationOutcome::Terminated);
    account.record(TerminationOutcome::Failed);
    account.record(TerminationOutcome::Terminated);
    assert_eq!(account.attempted, 3);
    assert_eq!(account.stopped_count(), 2);
    assert!(account.stopped_count() <= account.attempted);
}

#[test]
fn bulk_stop_of_nothing_reports_zero() {
    let account = BulkStop::new();
    assert_eq!(account.stopped_count(), 0);
    assert_eq!(account.attempted, 0);
}
