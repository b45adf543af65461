use vstd::prelude::*;

use std::collections::VecDeque;

use crate::diagnostic::Diagnostic;

verus! {

/// Kind of sensor producing samples.
#[derive(Clone, Copy, Debug, PartialEq, Eq, Structural)]
pub enum SensorType {
    Thermal,
    Gyro,
    Camera,
}

/// The kind whose silence the watchdog guards against.
pub open spec fn is_critical(kind: SensorType) -> bool {
    kind == SensorType::Thermal
}

/// One timestamped reading, immutable once made.
///
/// `timestamp` is on the monotonic clock and `emitted_at` on the wall clock
/// (since the Unix epoch), both in milliseconds. The reading is carried as the
/// bit pattern of an IEEE-754 double; the core never interprets it.
#[derive(Clone, Copy, Debug, PartialEq, Eq, Structural)]
pub struct SensorData {
    pub sensor_type: SensorType,
    pub value_bits: u64,
    pub timestamp: u64,
    pub emitted_at: i64,
}

/// Timing of one producer.
#[derive(Clone, Copy, Debug, PartialEq, Eq, Structural)]
pub struct SensorConfig {
    pub sensor_type: SensorType,
    pub interval_ms: u64,
    pub max_jitter_ms: u64,
}

/// Abstract state of a [`SensorBuffer`].
pub struct BufferModel {
    pub queue: Seq<SensorData>,
    pub capacity: nat,
    pub last_critical_time: Option<u64>,
}

/// Monotonic time of the last critical sample in `q`, if there is one.
pub open spec fn last_critical_in(q: Seq<SensorData>) -> Option<u64>
    decreases q.len(),
{
    if q.len() == 0 {
        None
    } else if is_critical(q.last().sensor_type) {
        Some(q.last().timestamp)
    } else {
        last_critical_in(q.drop_last())
    }
}

/// A buffer that never holds more than its capacity, and whose recorded
/// critical time is that of the most recently accepted critical sample.
pub open spec fn model_wf(m: BufferModel) -> bool {
    &&& m.capacity > 0
    &&& m.queue.len() <= m.capacity
    &&& m.last_critical_time == last_critical_in(m.queue)
}

/// Drop-newest push: a full buffer rejects the sample and stays as it was;
/// otherwise the sample goes to the tail.
pub open spec fn push_model(m: BufferModel, s: SensorData) -> BufferModel {
    if m.queue.len() >= m.capacity {
        m
    } else {
        BufferModel {
            queue: m.queue.push(s),
            capacity: m.capacity,
            last_critical_time: if is_critical(s.sensor_type) {
                Some(s.timestamp)
            } else {
                m.last_critical_time
            },
        }
    }
}

/// The buffer after pushing each of `ss` in order.
pub open spec fn push_all(m: BufferModel, ss: Seq<SensorData>) -> BufferModel
    decreases ss.len(),
{
    if ss.len() == 0 {
        m
    } else {
        push_model(push_all(m, ss.drop_last()), ss.last())
    }
}

/// What a push reports: a data-loss event naming the rejected sample when the
/// buffer is full, nothing otherwise.
pub open spec fn push_report(m: BufferModel, s: SensorData) -> Option<Diagnostic> {
    if m.queue.len() >= m.capacity {
        Some(Diagnostic::DataLoss { sensor_type: s.sensor_type, emitted_at: s.emitted_at })
    } else {
        None
    }
}

/// Bounded FIFO of samples shared by all producers.
pub struct SensorBuffer {
    queue: VecDeque<SensorData>,
    max_size: usize,
    last_thermal_time: Option<u64>,
}

impl View for SensorBuffer {
    type V = BufferModel;

    closed spec fn view(&self) -> BufferModel {
        BufferModel {
            queue: self.queue@,
            capacity: self.max_size as nat,
            last_critical_time: self.last_thermal_time,
        }
    }
}

impl SensorBuffer {
    pub open spec fn wf(&self) -> bool {
        model_wf(self@)
    }

    /// An empty buffer holding at most `size` samples.
    pub fn new(size: usize) -> (r: SensorBuffer)
        requires
            size > 0,
        ensures
            r.wf(),
            r@.queue.len() == 0,
            r@.capacity == size,
            r@.last_critical_time.is_none(),
    {
        SensorBuffer { queue: VecDeque::new(), max_size: size, last_thermal_time: None }
    }

    /// Appends `data` unless the buffer is full, in which case `data` is
    /// dropped and the returned data-loss event names it.
    pub fn push(&mut self, data: SensorData) -> (r: Option<Diagnostic>)
        requires
            old(self).wf(),
        ensures
            final(self).wf(),
            final(self)@ == push_model(old(self)@, data),
            r == push_report(old(self)@, data),
    {
        if self.queue.len() >= self.max_size {
            Some(Diagnostic::DataLoss { sensor_type: data.sensor_type, emitted_at: data.emitted_at })
        } else {
            if let SensorType::Thermal = data.sensor_type {
                self.last_thermal_time = Some(data.timestamp);
            }
            let ghost q = self.queue@;
            self.queue.push_back(data);
            assert(self.queue@.drop_last() =~= q);
            None
        }
    }

    /// Number of samples held.
    pub fn len(&self) -> (r: usize)
        ensures
            r == self@.queue.len(),
    {
        self.queue.len()
    }

    /// Most samples the buffer holds.
    pub fn capacity(&self) -> (r: usize)
        ensures
            r == self@.capacity,
    {
        self.max_size
    }

    /// Monotonic time of the most recently accepted critical sample.
    pub fn last_thermal_time(&self) -> (r: Option<u64>)
        ensures
            r == self@.last_critical_time,
    {
        self.last_thermal_time
    }

    /// The sample at position `i`, oldest first.
    pub fn get(&self, i: usize) -> (r: SensorData)
        requires
            i < self@.queue.len(),
        ensures
            r == self@.queue[i as int],
    {
        self.queue[i]
    }
}

/// Signed deviation, in milliseconds, of the actual fire time `now` from the
/// expected one (negative when early).
pub fn jitter_ms(now: u64, expected: u64) -> (r: i128)
    ensures
        r == now - expected,
{
    now as i128 - expected as i128
}

/// The jitter-exceeded event of a producer configured by `cfg` that fired
/// `jitter` milliseconds off its cadence, if the deviation is beyond tolerance.
pub open spec fn jitter_report(cfg: SensorConfig, jitter: int) -> Option<Diagnostic> {
    if jitter > cfg.max_jitter_ms || -jitter > cfg.max_jitter_ms {
        Some(Diagnostic::Jitter { sensor_type: cfg.sensor_type, jitter_ms: jitter as i128 })
    } else {
        None
    }
}

/// Fixed-cadence producer of one sensor kind.
///
/// The expected fire time advances by exactly one period per cycle from the
/// start time, not from the actual wake time, so a late wake-up does not
/// shift every later expectation.
pub struct SensorProducer {
    pub config: SensorConfig,
    pub last_expected_time: u64,
}

/// What one producer cycle hands back: the new sample, and the jitter event if
/// the cycle fired out of tolerance.
pub struct SensorCycle {
    pub sample: SensorData,
    pub jitter: Option<Diagnostic>,
}

impl SensorProducer {
    /// A producer whose cadence is anchored at `start_time`.
    pub fn new(config: SensorConfig, start_time: u64) -> (r: SensorProducer)
        ensures
            r.config == config,
            r.last_expected_time == start_time,
    {
        SensorProducer { config, last_expected_time: start_time }
    }

    /// Expected fire time of the coming cycle.
    pub open spec fn next_expected(&self) -> int {
        self.last_expected_time + self.config.interval_ms
    }

    /// One cycle, fired at monotonic time `now` and wall-clock time
    /// `emitted_at`, with the reading `value_bits`: advances the expected time
    /// by one period, measures jitter against it and makes the sample.
    pub fn tick(&mut self, now: u64, emitted_at: i64, value_bits: u64) -> (r: SensorCycle)
        requires
            old(self).next_expected() <= u64::MAX,
        ensures
            final(self).config == old(self).config,
            final(self).last_expected_time == old(self).next_expected(),
            r.sample == (SensorData {
                sensor_type: old(self).config.sensor_type,
                value_bits,
                timestamp: now,
                emitted_at,
            }),
            r.jitter == jitter_report(old(self).config, now - old(self).next_expected()),
    {
        let expected = self.last_expected_time + self.config.interval_ms;
        let jitter = jitter_ms(now, expected);
        let max = self.config.max_jitter_ms as i128;
        let report = if jitter > max || -jitter > max {
            Some(Diagnostic::Jitter { sensor_type: self.config.sensor_type, jitter_ms: jitter })
        } else {
            None
        };
        self.last_expected_time = expected;
        SensorCycle {
            sample: SensorData {
                sensor_type: self.config.sensor_type,
                value_bits,
                timestamp: now,
                emitted_at,
            },
            jitter: report,
        }
    }
}

/// Pushing keeps a well-formed buffer well-formed: whatever samples arrive,
/// the queue never outgrows the capacity, and the recorded critical time stays
/// that of the newest accepted critical sample.
pub proof fn lemma_capacity_invariant(m: BufferModel, ss: Seq<SensorData>)
    requires
        model_wf(m),
    ensures
        model_wf(push_all(m, ss)),
        push_all(m, ss).capacity == m.capacity,
    decreases ss.len(),
{
    if ss.len() > 0 {
        lemma_capacity_invariant(m, ss.drop_last());
        let p = push_all(m, ss.drop_last());
        if p.queue.len() < p.capacity {
            assert(p.queue.push(ss.last()).drop_last() =~= p.queue);
        }
    }
}

/// Accepted samples keep their order: after any run of pushes the queue is the
/// old queue followed by the longest prefix of the run that fit.
pub proof fn lemma_fifo_order(m: BufferModel, ss: Seq<SensorData>)
    requires
        m.queue.len() <= m.capacity,
    ensures
        push_all(m, ss).queue == m.queue + ss.take(
            if ss.len() <= m.capacity - m.queue.len() {
                ss.len() as int
            } else {
                m.capacity - m.queue.len()
            },
        ),
        push_all(m, ss).capacity == m.capacity,
    decreases ss.len(),
{
    let room = m.capacity - m.queue.len();
    if ss.len() == 0 {
        assert(m.queue + ss.take(0) =~= m.queue);
    } else {
        let init = ss.drop_last();
        lemma_fifo_order(m, init);
        let p = push_all(m, init);
        if init.len() < room {
            assert(init.take(init.len() as int) =~= init);
            assert(ss.take(ss.len() as int) =~= init.push(ss.last()));
            assert((m.queue + init).push(ss.last()) =~= m.queue + init.push(ss.last()));
        } else {
            assert(init.take(room) =~= ss.take(room));
        }
    }
}

/// Drop-newest: a push onto a full buffer leaves it exactly as it was and
/// reports one data-loss event naming the rejected sample.
pub proof fn lemma_drop_newest(m: BufferModel, s: SensorData)
    requires
        model_wf(m),
        m.queue.len() == m.capacity,
    ensures
        push_model(m, s) == m,
        push_report(m, s) == Some(
            Diagnostic::DataLoss { sensor_type: s.sensor_type, emitted_at: s.emitted_at },
        ),
{
}

} // verus!
