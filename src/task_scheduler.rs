use vstd::prelude::*;

use crate::clock::{elapsed_ms, elapsed_since};
use crate::diagnostic::Diagnostic;

verus! {

/// Lateness beyond which a task's start is reported as drift, in milliseconds.
pub const DRIFT_THRESHOLD_MS: u64 = 5;

/// Criticality of a control routine: `High` outranks `Medium` outranks `Low`.
#[derive(Clone, Copy, Debug, PartialEq, Eq, Structural)]
pub enum TaskPriority {
    High,
    Medium,
    Low,
}

impl TaskPriority {
    pub open spec fn spec_rank(&self) -> nat {
        match self {
            TaskPriority::High => 2,
            TaskPriority::Medium => 1,
            TaskPriority::Low => 0,
        }
    }

    /// Position in the priority order, larger for more critical.
    pub fn rank(&self) -> (r: u8)
        ensures
            r == self.spec_rank(),
    {
        match self {
            TaskPriority::High => 2,
            TaskPriority::Medium => 1,
            TaskPriority::Low => 0,
        }
    }

    /// Whether `self` is strictly more critical than `other`.
    pub fn outranks(&self, other: &TaskPriority) -> (r: bool)
        ensures
            r == (self.spec_rank() > other.spec_rank()),
    {
        self.rank() > other.rank()
    }
}

/// The single record of which task owns execution.
pub struct ArbitrationSlot {
    pub occupant: Option<(String, TaskPriority)>,
}

impl ArbitrationSlot {
    /// An empty slot.
    pub fn new() -> (r: ArbitrationSlot)
        ensures
            r.occupant.is_none(),
    {
        ArbitrationSlot { occupant: None }
    }
}

/// How a due task fared against the slot's occupant.
#[derive(Clone, Copy, Debug, PartialEq, Eq, Structural)]
pub enum Arbitration {
    /// The slot was empty; the task took it.
    Claimed,
    /// A different task of strictly lower priority held the slot; the task took it over.
    Preempted,
    /// A different task of equal or higher priority holds the slot; the task waits.
    Contended,
    /// The task already holds the slot.
    AlreadyRunning,
}

/// Outcome of arbitration for a task named `name` with `priority` against
/// the occupant `occ`.
pub open spec fn arbitration_of(
    occ: Option<(String, TaskPriority)>,
    name: Seq<char>,
    priority: TaskPriority,
) -> Arbitration {
    match occ {
        None => Arbitration::Claimed,
        Some((n, p)) => if n@ == name {
            Arbitration::AlreadyRunning
        } else if priority.spec_rank() > p.spec_rank() {
            Arbitration::Preempted
        } else {
            Arbitration::Contended
        },
    }
}

/// Whether an arbitration outcome lets the task run.
pub open spec fn wins(a: Arbitration) -> bool {
    a == Arbitration::Claimed || a == Arbitration::Preempted
}

/// A named periodic control routine. Its work is held by the host; the
/// scheduler decides when it runs.
pub struct ScheduledTask {
    pub name: String,
    pub interval_ms: u64,
    pub priority: TaskPriority,
    pub last_run: u64,
}

/// What the scheduler decided for one task at one instant.
pub struct TaskStart {
    /// Outcome against the slot; `None` when the period has not yet elapsed.
    pub arbitration: Option<Arbitration>,
    /// Drift event of a late start.
    pub drift: Option<Diagnostic>,
    /// Preemption event when the task took the slot from a lower-priority one.
    pub preemption: Option<Diagnostic>,
}

impl TaskStart {
    /// The host runs the task's work now.
    pub open spec fn runs(&self) -> bool {
        match self.arbitration {
            Some(a) => wins(a),
            None => false,
        }
    }

    /// Executable form of [`TaskStart::runs`].
    pub fn should_run(&self) -> (r: bool)
        ensures
            r == self.runs(),
    {
        match self.arbitration {
            Some(Arbitration::Claimed) | Some(Arbitration::Preempted) => true,
            _ => false,
        }
    }
}

impl ScheduledTask {
    /// A task with period `interval_ms`, counted as last run at `now`.
    pub fn new(name: &str, interval_ms: u64, priority: TaskPriority, now: u64) -> (r: ScheduledTask)
        ensures
            r.name@ == name@,
            r.interval_ms == interval_ms,
            r.priority == priority,
            r.last_run == now,
    {
        ScheduledTask { name: name.to_owned(), interval_ms, priority, last_run: now }
    }

    /// The period has elapsed at `now`.
    pub open spec fn is_due(&self, now: u64) -> bool {
        elapsed_since(now, self.last_run) >= self.interval_ms
    }

    /// How late past its period a due task starts at `now`.
    pub open spec fn start_drift(&self, now: u64) -> int {
        elapsed_since(now, self.last_run) - self.interval_ms
    }

    /// Decides at `now` whether the task runs: once its period has
    /// elapsed, reports drift beyond [`DRIFT_THRESHOLD_MS`] and arbitrates
    /// for the slot. A claiming or preempting task is written into the slot;
    /// otherwise the slot is left alone. `last_run` is not touched.
    pub fn begin(&self, now: u64, slot: &mut ArbitrationSlot) -> (r: TaskStart)
        ensures
            !self.is_due(now) ==> r.arbitration.is_none() && r.drift.is_none()
                && r.preemption.is_none(),
            self.is_due(now) ==> r.arbitration == Some(
                arbitration_of(old(slot).occupant, self.name@, self.priority),
            ),
            self.is_due(now) ==> r.drift == (if self.start_drift(now) > DRIFT_THRESHOLD_MS {
                Some(Diagnostic::Drift { task: self.name, drift_ms: self.start_drift(now) as u64 })
            } else {
                None
            }),
            r.runs() ==> final(slot).occupant == Some((self.name, self.priority)),
            !r.runs() ==> final(slot).occupant == old(slot).occupant,
            r.preemption == (if r.arbitration == Some(Arbitration::Preempted) {
                Some(Diagnostic::Preemption {
                    task: self.name,
                    preempted: old(slot).occupant.unwrap().0,
                })
            } else {
                None
            }),
    {
        let elapsed = elapsed_ms(now, self.last_run);
        if elapsed < self.interval_ms {
            return TaskStart { arbitration: None, drift: None, preemption: None };
        }
        let drift_ms = elapsed - self.interval_ms;
        let drift = if drift_ms > DRIFT_THRESHOLD_MS {
            Some(Diagnostic::Drift { task: self.name.clone(), drift_ms })
        } else {
            None
        };
        let (arbitration, preemption) = match &slot.occupant {
            None => (Arbitration::Claimed, None),
            Some((running_name, running_priority)) => {
                if *running_name == self.name {
                    (Arbitration::AlreadyRunning, None)
                } else if self.priority.outranks(running_priority) {
                    (
                        Arbitration::Preempted,
                        Some(
                            Diagnostic::Preemption {
                                task: self.name.clone(),
                                preempted: running_name.clone(),
                            },
                        ),
                    )
                } else {
                    (Arbitration::Contended, None)
                }
            },
        };
        match arbitration {
            Arbitration::Claimed | Arbitration::Preempted => {
                slot.occupant = Some((self.name.clone(), self.priority));
            },
            _ => {},
        }
        TaskStart { arbitration: Some(arbitration), drift, preemption }
    }

    /// Completion of a run that started at `start` and ended at `end`: clears
    /// the slot, records `end` as the last run, and reports a deadline miss
    /// when the run outlasted the period.
    pub fn finish(&mut self, start: u64, end: u64, slot: &mut ArbitrationSlot) -> (r: Option<
        Diagnostic,
    >)
        ensures
            final(slot).occupant.is_none(),
            final(self).name == old(self).name,
            final(self).interval_ms == old(self).interval_ms,
            final(self).priority == old(self).priority,
            final(self).last_run == end,
            r == (if elapsed_since(end, start) > old(self).interval_ms {
                Some(
                    Diagnostic::DeadlineMiss {
                        task: old(self).name,
                        overrun_ms: (elapsed_since(end, start) - old(self).interval_ms) as u64,
                    },
                )
            } else {
                None
            }),
    {
        slot.occupant = None;
        self.last_run = end;
        let duration = elapsed_ms(end, start);
        if duration > self.interval_ms {
            Some(
                Diagnostic::DeadlineMiss {
                    task: self.name.clone(),
                    overrun_ms: duration - self.interval_ms,
                },
            )
        } else {
            None
        }
    }
}

/// Whether no two tasks of a configuration share a name.
pub fn has_unique_names(tasks: &Vec<ScheduledTask>) -> (r: bool)
    ensures
        r == (forall|i: int, j: int|
            0 <= i < j < tasks@.len() ==> tasks@[i].name@ != tasks@[j].name@),
{
    let n = tasks.len();
    let mut i: usize = 0;
    while i < n
        invariant
            n == tasks@.len(),
            i <= n,
            forall|a: int, b: int|
                0 <= a < b < n && a < i ==> tasks@[a].name@ != tasks@[b].name@,
        decreases n - i,
    {
        let mut j: usize = i + 1;
        while j < n
            invariant
                n == tasks@.len(),
                i < n,
                i + 1 <= j <= n,
                forall|a: int, b: int|
                    0 <= a < b < n && a < i ==> tasks@[a].name@ != tasks@[b].name@,
                forall|b: int| i < b < j ==> tasks@[i as int].name@ != tasks@[b].name@,
            decreases n - j,
        {
            if tasks[i].name == tasks[j].name {
                assert(tasks@[i as int].name@ == tasks@[j as int].name@);
                return false;
            }
            j += 1;
        }
        i += 1;
    }
    true
}

} // verus!
