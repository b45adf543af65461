//! Onboard control core of a satellite: periodic sensor producers feeding a
//! bounded sample buffer, a staleness watchdog over the critical sensor, and a
//! priority-aware periodic task scheduler.
//!
//! Every decision is a plain function of state and time, with time in
//! milliseconds; the host supplies clocks, locks, sleeping and logging.
pub mod clock;
pub mod diagnostic;
pub mod sensor;
pub mod task_scheduler;
pub mod watchdog;
