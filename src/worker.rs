use vstd::prelude::*;

use crate::command::MotorCommand;
use crate::telemetry::strictly_increasing;

verus! {

/// Default sampling period of the device loop, in microseconds.
pub const DEFAULT_PERIOD_US: u64 = 1000;

/// What the worker does on one pass of its loop: apply `commands` to the
/// device link in this order, emit one sample stamped `timestamp_us`, then
/// sleep for `sleep_us`.
#[derive(Debug)]
pub struct TickPlan<V> {
    pub commands: Vec<MotorCommand<V>>,
    pub timestamp_us: u64,
    pub sleep_us: u64,
}

/// The decisions of the device worker: the order in which commands reach the
/// device link, the timestamps of the emitted samples, and the cadence.
pub struct Worker<V> {
    period_us: u64,
    last_timestamp_us: Option<u64>,
    applied: Ghost<Seq<MotorCommand<V>>>,
    emitted: Ghost<Seq<u64>>,
}

impl<V> Worker<V> {
    /// The sampling period handed back on every tick.
    pub closed spec fn period(self) -> u64 {
        self.period_us
    }

    /// Every command handed to the device link so far, in the order applied.
    pub closed spec fn applied(self) -> Seq<MotorCommand<V>> {
        self.applied@
    }

    /// The timestamps of every sample emitted so far, in emission order.
    pub closed spec fn emitted(self) -> Seq<u64> {
        self.emitted@
    }

    /// The timestamp of the latest sample, if one was emitted.
    pub closed spec fn last_timestamp(self) -> Option<u64> {
        self.last_timestamp_us
    }

    /// The emitted timestamps strictly increase and the latest one is remembered.
    pub closed spec fn wf(self) -> bool {
        &&& strictly_increasing(self.emitted@)
        &&& self.emitted@.len() == 0 <==> self.last_timestamp_us.is_none()
        &&& self.emitted@.len() > 0 ==> self.last_timestamp_us == Some(self.emitted@.last())
    }

    /// Whether one more strictly later timestamp still fits in a `u64`.
    pub open spec fn can_tick(self) -> bool {
        match self.last_timestamp() {
            Some(t) => t < u64::MAX,
            None => true,
        }
    }

    /// A worker that has applied nothing and emitted nothing yet.
    pub fn new(period_us: u64) -> (r: Self)
        ensures
            r.wf(),
            r.period() == period_us,
            r.applied() == Seq::<MotorCommand<V>>::empty(),
            r.emitted() == Seq::<u64>::empty(),
            r.last_timestamp() == None::<u64>,
    {
        Worker {
            period_us,
            last_timestamp_us: None,
            applied: Ghost(Seq::empty()),
            emitted: Ghost(Seq::empty()),
        }
    }

    /// The timestamp of the latest emitted sample, if any.
    pub fn last_timestamp_us(&self) -> (r: Option<u64>)
        ensures
            r == self.last_timestamp(),
    {
        self.last_timestamp_us
    }

    /// Plans one pass of the loop, given the time elapsed since the worker
    /// started and the commands drained from the command channel in arrival
    /// order. The commands are applied exactly in that order. The sample is
    /// stamped with the elapsed time, or one microsecond after the previous
    /// sample where the clock has not moved past it, so that timestamps
    /// strictly increase.
    pub fn tick(&mut self, elapsed_us: u64, pending: Vec<MotorCommand<V>>) -> (r: TickPlan<V>)
        requires
            old(self).wf(),
            old(self).can_tick(),
        ensures
            final(self).wf(),
            r.commands@ == pending@,
            r.sleep_us == old(self).period(),
            r.timestamp_us == match old(self).last_timestamp() {
                Some(t) => if elapsed_us > t { elapsed_us } else { (t + 1) as u64 },
                None => elapsed_us,
            },
            final(self).period() == old(self).period(),
            final(self).applied() == old(self).applied() + pending@,
            final(self).emitted() == old(self).emitted().push(r.timestamp_us),
            final(self).last_timestamp() == Some(r.timestamp_us),
            old(self).last_timestamp() matches Some(t) ==> t < r.timestamp_us,
    {
        let timestamp_us = match self.last_timestamp_us {
            Some(t) => if elapsed_us > t { elapsed_us } else { t + 1 },
            None => elapsed_us,
        };
        self.last_timestamp_us = Some(timestamp_us);
        self.applied = Ghost(self.applied@ + pending@);
        self.emitted = Ghost(self.emitted@.push(timestamp_us));
        TickPlan { commands: pending, timestamp_us, sleep_us: self.period_us }
    }
}

/// Every sample one worker emits is stamped strictly later than the one
/// before it.
pub proof fn lemma_timestamps_increase<V>(w: Worker<V>)
    requires
        w.wf(),
    ensures
        strictly_increasing(w.emitted()),
{
}

} // verus!
