use vstd::prelude::*;

use crate::sensor::SensorType;

verus! {

/// A timing or data anomaly that the core reports. None of them is fatal:
/// the host routes each one to its log sink and carries on.
#[derive(Clone, Debug, PartialEq, Eq)]
pub enum Diagnostic {
    /// A producer fired `jitter_ms` away from its fixed cadence (negative when early).
    Jitter { sensor_type: SensorType, jitter_ms: i128 },
    /// The buffer was full; the sample of this kind emitted at this wall-clock
    /// time (milliseconds since the Unix epoch) was dropped.
    DataLoss { sensor_type: SensorType, emitted_at: i64 },
    /// The critical sensor has been silent for `missed` consecutive inspections.
    SafetyAlert { missed: u64 },
    /// A due task started `drift_ms` later than its period asked.
    Drift { task: String, drift_ms: u64 },
    /// `task` took the arbitration slot from the lower-priority `preempted`.
    Preemption { task: String, preempted: String },
    /// A task's run lasted `overrun_ms` longer than its period.
    DeadlineMiss { task: String, overrun_ms: u64 },
}

} // verus!
