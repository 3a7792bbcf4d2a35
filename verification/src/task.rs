//! One recurring unit of work: where it points, how often it runs, when it ran
//! last and what it remembers.
//!
//! Time is a reading of the caller's monotonic clock in milliseconds. The
//! reading may be negative: a task can be dated back to before the clock's
//! origin.

use crate::cache::{Cache, CacheView};
use vstd::prelude::*;

verus! {

/// Tasks of high priority are served before anything else in every round.
#[derive(Clone, Copy, Debug, PartialEq, Eq, Structural)]
pub enum TaskPriority {
    HIGH,
    LOW,
}

/// What running a task means.
#[derive(Clone, Copy, Debug, PartialEq, Eq, Structural)]
pub enum TaskKind {
    /// Fetch the device's event feed and act on it.
    Events,
    /// Query one PDU as a whole.
    Pdu,
    /// Query one branch.
    Branch,
    /// Query one receptacle.
    Receptacle,
    /// Tell the supervisor that the process is alive.
    Watchdog,
}

/// A recurring unit of work.
#[derive(Debug, PartialEq, Eq)]
pub struct Task {
    /// When the task ran last, or the time it was dated back to.
    pub timestamp: i64,
    /// The cadence: the task is due once more than this has passed since
    /// `timestamp`.
    pub timeout: u32,
    pub priority: TaskPriority,
    pub kind: TaskKind,
    pub pdu: u8,
    pub branch: u8,
    pub receptacle: u8,
    pub cache: Cache,
}

/// A task as the contracts see it.
pub ghost struct TaskView {
    pub timestamp: int,
    pub timeout: int,
    pub priority: TaskPriority,
    pub kind: TaskKind,
    pub pdu: u8,
    pub branch: u8,
    pub receptacle: u8,
    pub cache: CacheView,
}

impl View for Task {
    type V = TaskView;

    open spec fn view(&self) -> TaskView {
        TaskView {
            timestamp: self.timestamp as int,
            timeout: self.timeout as int,
            priority: self.priority,
            kind: self.kind,
            pdu: self.pdu,
            branch: self.branch,
            receptacle: self.receptacle,
            cache: self.cache@,
        }
    }
}

impl TaskView {
    /// The time that has passed since the task ran last; none while its
    /// timestamp lies ahead of `now`.
    pub open spec fn elapsed(self, now: int) -> int {
        if now >= self.timestamp {
            now - self.timestamp
        } else {
            0
        }
    }

    /// More than the cadence has passed since the task ran last.
    pub open spec fn is_due(self, now: int) -> bool {
        self.elapsed(now) > self.timeout
    }

    /// The first reading of the clock at which the task is due.
    pub open spec fn due_from(self) -> int {
        self.timestamp + self.timeout + 1
    }

    /// The task stands at exactly this address.
    pub open spec fn is_at(self, pdu: u8, branch: u8, receptacle: u8) -> bool {
        self.pdu == pdu && self.branch == branch && self.receptacle == receptacle
    }

    /// The task is the task of the receptacle at exactly this address.
    pub open spec fn polls_receptacle(self, pdu: u8, branch: u8, receptacle: u8) -> bool {
        self.kind == TaskKind::Receptacle && self.is_at(pdu, branch, receptacle)
    }

    /// The same task with another timestamp.
    pub open spec fn stamped(self, timestamp: int) -> TaskView {
        TaskView { timestamp, ..self }
    }

    /// The same task with another cache.
    pub open spec fn remembering(self, cache: CacheView) -> TaskView {
        TaskView { cache, ..self }
    }
}

/// The timestamp that makes a task of cadence `timeout` due `seconds` after
/// `now`.
pub open spec fn rescheduled_stamp(now: int, timeout: int, seconds: int) -> int {
    now - timeout + seconds * 1000
}

impl Task {
    /// Records that the task ran at `now`.
    pub fn update_timestamp(&mut self, now: i64)
        ensures
            final(self)@ == old(self)@.stamped(now as int),
    {
        self.timestamp = now;
    }

    /// Tells whether the task is due at `now`.
    pub fn timed_out(&self, now: i64) -> (due: bool)
        ensures
            due == self@.is_due(now as int),
            due == (now >= self@.due_from()),
    {
        now as i128 - self.timestamp as i128 > self.timeout as i128
    }

    /// Tells whether a forced reschedule at `now` stays within the clock's
    /// range.
    pub fn can_reschedule_in(&self, now: i64, seconds: u8) -> (fits: bool)
        ensures
            fits == (i64::MIN <= rescheduled_stamp(now as int, self.timeout as int, seconds as int)
                <= i64::MAX),
    {
        let stamp: i128 = now as i128 - self.timeout as i128 + seconds as i128 * 1000;
        i64::MIN as i128 <= stamp && stamp <= i64::MAX as i128
    }

    /// Makes the task due `seconds` after `now`, whatever its cadence and
    /// whenever it ran last.
    pub fn reschedule_in(&mut self, now: i64, seconds: u8)
        requires
            i64::MIN <= rescheduled_stamp(now as int, old(self).timeout as int, seconds as int)
                <= i64::MAX,
        ensures
            final(self)@ == old(self)@.stamped(
                rescheduled_stamp(now as int, old(self).timeout as int, seconds as int),
            ),
            final(self)@.due_from() == now + seconds * 1000 + 1,
            forall|later: int| final(self)@.is_due(later) <==> later > now + seconds * 1000,
    {
        let stamp: i128 = now as i128 - self.timeout as i128 + seconds as i128 * 1000;
        self.timestamp = stamp as i64;
    }
}

/// After a forced reschedule at `now` the task is due exactly from the first
/// reading after `now + seconds`, whatever its cadence and its earlier
/// timestamp were.
pub proof fn lemma_rescheduled_task_is_due_after(task: TaskView, now: int, seconds: int, later: int)
    requires
        task.timeout >= 0,
        seconds >= 0,
    ensures
        task.stamped(rescheduled_stamp(now, task.timeout, seconds)).is_due(later) <==> later > now
            + seconds * 1000,
{
}

/// A task that has just run is not due before its cadence has passed, and is
/// due from then on.
pub proof fn lemma_fresh_task_waits_out_its_cadence(task: TaskView, now: int, later: int)
    requires
        task.timeout >= 0,
    ensures
        task.stamped(now).is_due(later) <==> later > now + task.timeout,
{
}

} // verus!
