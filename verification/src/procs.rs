//! Process-table logic around the termination controller: recognising the
//! managed process by name, reading the Windows process-list output, and
//! accounting for bulk stop operations.

use vstd::prelude::*;
use crate::terminate::TerminationOutcome;
use crate::text::{
    chars_eq_str, chars_of, contains_chars, contains_sub, decimal_of, spec_contains, spec_decimal,
    spec_lower, spec_trim, to_lower, trim,
};

verus! {

/// Whether a process-table entry names the managed transfer engine,
/// whatever the case and with or without the Windows executable suffix.
pub open spec fn spec_is_rclone_name(name: Seq<char>) -> bool {
    spec_lower(name) == "rclone"@ || spec_lower(name) == "rclone.exe"@
}

/// Whether `name` is the managed engine's process name.
pub fn is_rclone_process_name(name: &str) -> (r: bool)
    ensures
        r == spec_is_rclone_name(name@),
{
    let v = chars_of(name);
    let low = to_lower(&v);
    chars_eq_str(&low, "rclone") || chars_eq_str(&low, "rclone.exe")
}

/// How the Windows process-list tool's output is read when the tool was
/// asked to filter for one process id: the process counts as running unless
/// the output is blank, carries the tool's no-match notice, or never
/// mentions the id.  A blank response is taken as "not found", which can
/// under-detect on locales where the tool words its notice differently.
pub open spec fn spec_tasklist_reports_running(out: Seq<char>, pid: int) -> bool {
    &&& spec_trim(out).len() > 0
    &&& !spec_contains(out, "No tasks are running"@)
    &&& spec_contains(out, spec_decimal(pid))
}

/// Read the process-list output for `pid`.
pub fn tasklist_reports_running(output: &str, pid: u32) -> (r: bool)
    ensures
        r == spec_tasklist_reports_running(output@, pid as int),
{
    let out = chars_of(output);
    let trimmed = trim(&out);
    if trimmed.len() == 0 {
        return false;
    }
    if contains_sub(&out, "No tasks are running") {
        return false;
    }
    let digits = decimal_of(pid);
    contains_chars(&out, &digits)
}

/// How many of the outcomes report a confirmed termination.
pub open spec fn spec_stopped_count(outcomes: Seq<TerminationOutcome>) -> int
    decreases outcomes.len(),
{
    if outcomes.len() == 0 {
        0
    } else {
        spec_stopped_count(outcomes.drop_last()) + if outcomes.last() is Terminated {
            1int
        } else {
            0int
        }
    }
}

/// Law: a bulk stop over any sequence of per-process outcomes reports a
/// count no greater than the number of processes attempted, and every
/// process contributes its outcome — a failure never cuts the accounting
/// short.
pub proof fn lemma_bulk_count_bounded(outcomes: Seq<TerminationOutcome>)
    ensures
        0 <= spec_stopped_count(outcomes) <= outcomes.len(),
    decreases outcomes.len(),
{
    if outcomes.len() > 0 {
        lemma_bulk_count_bounded(outcomes.drop_last());
    }
}

/// Running account of a bulk stop operation: one recorded outcome per
/// matched process, failures included, so a failed termination never
/// aborts the remaining attempts.
pub struct BulkStop {
    /// Processes for which an outcome has been recorded.
    pub attempted: u32,
    /// Processes whose termination a probe confirmed.
    pub stopped: u32,
    /// The outcomes recorded so far, in order.
    pub history: Ghost<Seq<TerminationOutcome>>,
}

impl BulkStop {
    /// The account always matches its history.
    pub open spec fn wf(&self) -> bool {
        &&& self.attempted == self.history@.len()
        &&& self.stopped == spec_stopped_count(self.history@)
    }

    /// An account with nothing attempted.
    pub fn new() -> (b: BulkStop)
        ensures
            b.wf(),
            b.history@ == Seq::<TerminationOutcome>::empty(),
            b.attempted == 0,
            b.stopped == 0,
    {
        BulkStop { attempted: 0, stopped: 0, history: Ghost(Seq::empty()) }
    }

    /// Record the outcome of one process's termination request.
    pub fn record(&mut self, outcome: TerminationOutcome)
        requires
            old(self).wf(),
            old(self).attempted < u32::MAX,
        ensures
            final(self).wf(),
            final(self).history@ == old(self).history@.push(outcome),
            final(self).attempted == old(self).attempted + 1,
            final(self).stopped == old(self).stopped + if outcome is Terminated {
                1int
            } else {
                0int
            },
    {
        proof {
            lemma_bulk_count_bounded(old(self).history@);
            assert(old(self).history@.push(outcome).drop_last() =~= old(self).history@);
        }
        self.attempted = self.attempted + 1;
        if matches!(outcome, TerminationOutcome::Terminated) {
            self.stopped = self.stopped + 1;
        }
        proof {
            self.history@ = old(self).history@.push(outcome);
        }
    }

    /// The count a finished bulk stop reports.
    pub fn stopped_count(&self) -> (n: u32)
        ensures
            n == self.stopped,
    {
        self.stopped
    }
}

} // verus!
