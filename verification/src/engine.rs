//! Acquisition engine: polls every registered sensor once per tick, collects
//! the successful bundles in registration order, and hands the non-empty
//! batch to the transmitter.
//!
//! One sensor's failure never blocks the others or the tick: a failed or
//! empty read contributes nothing to the batch and polling continues. A
//! transmitter failure is not retried — the batch is lost for that tick
//! (at-most-once delivery) and the failure is escalated to the caller. The
//! surrounding process owns the tick loop itself (the clock, the sleep to
//! the next boundary, and the stop flag checked once per tick).

use crate::bus::BusDevice;
use crate::errors::TransmitError;
use crate::payload::Payload;
use crate::sensors::PiWeatherSensor;
use crate::transmitters::Transmitter;
use vstd::prelude::*;

verus! {

/// Process-level configuration, accepted as plain values: the CLI layer
/// parses, the core never does.
#[derive(Debug, Copy, Clone, PartialEq, Eq, Structural)]
pub struct PiWeather {
    /// Verbose logging requested.
    pub verbose: bool,
    /// Seconds between two poll ticks.
    pub interval: usize,
}

/// What one tick did: how many sensors were polled, how many bundles the
/// batch held, and whether the batch was handed to the transmitter.
#[derive(Debug, Copy, Clone, PartialEq, Eq, Structural)]
pub struct TickStats {
    pub sensors_polled: usize,
    pub batch_len: usize,
    pub delivered: bool,
}

/// The batch that a sequence of per-sensor outcomes yields: the payloads of
/// the successful outcomes, in polling order; failed or empty outcomes
/// contribute nothing.
pub open spec fn spec_batch(outcomes: Seq<Option<Payload>>) -> Seq<Payload>
    decreases outcomes.len(),
{
    if outcomes.len() == 0 {
        Seq::empty()
    } else {
        let rest = spec_batch(outcomes.drop_last());
        match outcomes.last() {
            Some(p) => rest.push(p),
            None => rest,
        }
    }
}

/// How many outcomes of a poll succeeded with a bundle.
pub open spec fn count_some(outcomes: Seq<Option<Payload>>) -> int
    decreases outcomes.len(),
{
    if outcomes.len() == 0 {
        0
    } else {
        count_some(outcomes.drop_last()) + if outcomes.last() is Some {
            1int
        } else {
            0int
        }
    }
}

/// The per-sensor outcomes one poll pass at `now_ms` can produce for the
/// registered sensors: one outcome per sensor, in registration order; every
/// produced bundle is complete (the sensor's cardinality) and stamped
/// `now_ms`; and every sensor owed a debounce cache hit — whose read needs
/// no bus transaction — produced a bundle.
pub open spec fn spec_poll_outcomes_ok<B: BusDevice>(
    sensors: Seq<PiWeatherSensor<B>>,
    now_ms: u64,
    outcomes: Seq<Option<Payload>>,
) -> bool {
    &&& outcomes.len() == sensors.len()
    &&& (forall|j: int|
        0 <= j < outcomes.len() ==> ((#[trigger] outcomes[j]) matches Some(p) ==> p.when_ms
            == now_ms && p.readouts@.len() == sensors[j].cardinality()))
    &&& (forall|j: int|
        0 <= j < outcomes.len() ==> (sensors[j].cache_hit(now_ms) ==> (#[trigger] outcomes[j])
            is Some))
}

/// A tick batch holds exactly one bundle per sensor whose read succeeded
/// with data: its length is the number of successful outcomes.
pub proof fn lemma_batch_len(outcomes: Seq<Option<Payload>>)
    ensures
        spec_batch(outcomes).len() == count_some(outcomes),
    decreases outcomes.len(),
{
    if outcomes.len() > 0 {
        lemma_batch_len(outcomes.drop_last());
    }
}

/// Every successful outcome appears in the tick batch: a sensor that
/// produced a bundle is never dropped by the batch construction.
pub proof fn lemma_batch_contains_success(outcomes: Seq<Option<Payload>>, i: int, p: Payload)
    requires
        0 <= i < outcomes.len(),
        outcomes[i] == Some(p),
    ensures
        spec_batch(outcomes).contains(p),
    decreases outcomes.len(),
{
    let rest = spec_batch(outcomes.drop_last());
    if i == outcomes.len() - 1 {
        assert(spec_batch(outcomes)[rest.len() as int] == p);
    } else {
        lemma_batch_contains_success(outcomes.drop_last(), i, p);
        let k = choose|k: int| 0 <= k < rest.len() && rest[k] == p;
        assert(spec_batch(outcomes)[k] == p);
    }
}

/// How many of a poll's outcomes carry a bundle when all of them do: all.
proof fn lemma_count_some_all(outcomes: Seq<Option<Payload>>)
    requires
        forall|j: int| 0 <= j < outcomes.len() ==> (#[trigger] outcomes[j]) is Some,
    ensures
        count_some(outcomes) == outcomes.len(),
    decreases outcomes.len(),
{
    if outcomes.len() > 0 {
        lemma_count_some_all(outcomes.drop_last());
    }
}

/// End-to-end tick guarantee inside the re-read windows: when every
/// registered sensor is owed a debounce cache hit, the tick's batch holds
/// exactly one bundle per sensor — in particular it is non-empty whenever
/// any sensor is registered, so the tick hands the transmitter that batch,
/// while (by the poll contract) every sensor's device is left without a
/// single new bus operation.
pub proof fn lemma_cache_hit_tick_batch<B: BusDevice>(
    sensors: Seq<PiWeatherSensor<B>>,
    now_ms: u64,
    outcomes: Seq<Option<Payload>>,
)
    requires
        spec_poll_outcomes_ok(sensors, now_ms, outcomes),
        forall|j: int| 0 <= j < sensors.len() ==> (#[trigger] sensors[j]).cache_hit(now_ms),
    ensures
        spec_batch(outcomes).len() == sensors.len(),
{
    assert forall|j: int| 0 <= j < outcomes.len() implies (#[trigger] outcomes[j]) is Some by {
        assert(sensors[j].cache_hit(now_ms));
    }
    lemma_count_some_all(outcomes);
    lemma_batch_len(outcomes);
}

/// Failure isolation: a sensor whose read failed (or returned no data)
/// contributes nothing to the tick batch — the batch is exactly the batch of
/// the other sensors' outcomes, in their order. So with sensor `k` always
/// failing, every tick still delivers the successful bundles of all other
/// sensors.
pub proof fn lemma_engine_isolation(outcomes: Seq<Option<Payload>>, k: int)
    requires
        0 <= k < outcomes.len(),
        outcomes[k] is None,
    ensures
        spec_batch(outcomes) == spec_batch(outcomes.remove(k)),
    decreases outcomes.len(),
{
    if k == outcomes.len() - 1 {
        assert(outcomes.remove(k) =~= outcomes.drop_last());
    } else {
        lemma_engine_isolation(outcomes.drop_last(), k);
        assert(outcomes.remove(k).drop_last() =~= outcomes.drop_last().remove(k));
        assert(outcomes.remove(k).last() == outcomes.last());
    }
}

/// Mutable access to one registered sensor.
fn sensor_at<'a, B: BusDevice>(v: &'a mut Vec<PiWeatherSensor<B>>, i: usize) -> (s: &'a mut
    PiWeatherSensor<B>)
    requires
        i < old(v)@.len(),
    ensures
        *s == old(v)@[i as int],
        final(v)@ == old(v)@.update(i as int, *final(s)),
{
    &mut v[i]
}

/// The acquisition engine: a fixed poll interval, the transmitter the
/// batches go to, and the registered sensor drivers. The registered set is
/// fixed before the tick loop starts and never changes while it runs.
pub struct PiWeatherEngine<B: BusDevice, T: Transmitter> {
    /// Milliseconds between two poll ticks.
    pub interval: u64,
    /// Where non-empty tick batches are delivered.
    pub transmitter: T,
    /// The registered sensor drivers, in registration order.
    pub sensors: Vec<PiWeatherSensor<B>>,
}

impl<B: BusDevice, T: Transmitter> PiWeatherEngine<B, T> {
    /// Every registered driver is internally consistent.
    pub open spec fn wf(self) -> bool {
        forall|j: int|
            0 <= j < self.sensors@.len() ==> (#[trigger] self.sensors@[j]).wf()
    }

    /// An engine with no sensors registered yet.
    pub fn new(interval: u64, transmitter: T) -> (e: PiWeatherEngine<B, T>)
        ensures
            e.interval == interval,
            e.transmitter == transmitter,
            e.sensors@.len() == 0,
            e.wf(),
    {
        PiWeatherEngine { interval, transmitter, sensors: Vec::new() }
    }

    /// Registers one sensor driver; done before the tick loop starts.
    pub fn register_sensor(&mut self, sensor: PiWeatherSensor<B>)
        requires
            old(self).wf(),
            sensor.wf(),
        ensures
            final(self).wf(),
            final(self).sensors@ == old(self).sensors@.push(sensor),
            final(self).interval == old(self).interval,
            final(self).transmitter == old(self).transmitter,
    {
        self.sensors.push(sensor);
    }

    /// Polls every registered sensor once at time `now_ms`, in registration
    /// order, and collects the successful bundles. Returns the batch
    /// together with the per-sensor outcomes it was built from: one outcome
    /// per sensor, where a failed read counts the same as "no data". Every
    /// sensor is polled whatever the others did, and a sensor owed a
    /// debounce cache hit always contributes its bundle.
    pub fn poll_sensors(&mut self, now_ms: u64) -> (r: (Vec<Payload>, Ghost<
        Seq<Option<Payload>>,
    >))
        requires
            old(self).wf(),
        ensures
            final(self).wf(),
            final(self).interval == old(self).interval,
            final(self).transmitter == old(self).transmitter,
            final(self).sensors@.len() == old(self).sensors@.len(),
            forall|j: int|
                0 <= j < old(self).sensors@.len() ==> (#[trigger] old(self).sensors@[j]).same_model(
                    final(self).sensors@[j],
                ),
            forall|j: int|
                0 <= j < old(self).sensors@.len() ==> (#[trigger] final(self).sensors@[j]).polled_from(
                    old(self).sensors@[j],
                    now_ms,
                ),
            spec_poll_outcomes_ok(old(self).sensors@, now_ms, r.1@),
            r.0@ == spec_batch(r.1@),
    {
        let ghost sensors0 = self.sensors@;
        let n = self.sensors.len();
        let mut batch: Vec<Payload> = Vec::new();
        let ghost mut outcomes: Seq<Option<Payload>> = Seq::empty();
        let mut i: usize = 0;
        while i < n
            invariant
                i <= n,
                n == sensors0.len(),
                self.sensors@.len() == n,
                self.interval == old(self).interval,
                self.transmitter == old(self).transmitter,
                forall|j: int| 0 <= j < n ==> (#[trigger] self.sensors@[j]).wf(),
                forall|j: int|
                    0 <= j < n ==> (#[trigger] sensors0[j]).same_model(self.sensors@[j]),
                forall|j: int| i <= j < n ==> self.sensors@[j] == sensors0[j],
                forall|j: int|
                    0 <= j < i ==> (#[trigger] self.sensors@[j]).polled_from(
                        sensors0[j],
                        now_ms,
                    ),
                outcomes.len() == i,
                forall|j: int|
                    0 <= j < i ==> (#[trigger] outcomes[j] matches Some(p) ==> p.when_ms == now_ms
                        && p.readouts@.len() == sensors0[j].cardinality()),
                forall|j: int|
                    0 <= j < i ==> (sensors0[j].cache_hit(now_ms) ==> (#[trigger] outcomes[j])
                        is Some),
                batch@ == spec_batch(outcomes),
            decreases n - i,
        {
            let ghost pre = self.sensors@;
            let s = sensor_at(&mut self.sensors, i);
            let ghost s_pre = *s;
            let res = s.read(now_ms);
            proof {
                assert(s_pre == pre[i as int]);
                assert(s_pre == sensors0[i as int]);
            }
            match res {
                Ok(Some(p)) => {
                    proof {
                        let prev = outcomes;
                        outcomes = outcomes.push(Some(p));
                        assert(outcomes.drop_last() =~= prev);
                        assert(spec_batch(outcomes) == spec_batch(prev).push(p));
                    }
                    batch.push(p);
                },
                Ok(None) => {
                    proof {
                        let prev = outcomes;
                        outcomes = outcomes.push(None);
                        assert(outcomes.drop_last() =~= prev);
                    }
                },
                Err(_) => {
                    proof {
                        let prev = outcomes;
                        outcomes = outcomes.push(None);
                        assert(outcomes.drop_last() =~= prev);
                    }
                },
            }
            proof {
                assert forall|j: int| 0 <= j < n implies (#[trigger] self.sensors@[j]).wf() by {
                    if j != i {
                        assert(self.sensors@[j] == pre[j]);
                    }
                }
                assert forall|j: int|
                    0 <= j < n implies (#[trigger] sensors0[j]).same_model(self.sensors@[j]) by {
                    if j != i {
                        assert(self.sensors@[j] == pre[j]);
                    }
                }
                assert forall|j: int| i + 1 <= j < n implies self.sensors@[j] == sensors0[j] by {
                    assert(self.sensors@[j] == pre[j]);
                }
                assert forall|j: int|
                    0 <= j < i + 1 implies (#[trigger] self.sensors@[j]).polled_from(
                        sensors0[j],
                        now_ms,
                    ) by {
                    if j < i {
                        assert(self.sensors@[j] == pre[j]);
                    }
                }
            }
            i = i + 1;
        }
        (batch, Ghost(outcomes))
    }

    /// One engine tick at time `now_ms`: polls every sensor, and hands the
    /// collected batch to the transmitter exactly when it is non-empty — an
    /// empty batch leaves the transmitter untouched. A transmitter failure
    /// is escalated as that very error, unretried and with the batch lost
    /// for this tick (at most one delivery attempt is ever made, and nothing
    /// is requeued); the error carries the tick's per-sensor outcomes, whose
    /// batch was non-empty. The stats report one poll per registered sensor
    /// and a batch holding exactly the successful bundles, in order.
    pub fn tick(&mut self, now_ms: u64) -> (r: Result<
        (TickStats, Ghost<Seq<Option<Payload>>>),
        (TransmitError, Ghost<Seq<Option<Payload>>>),
    >)
        requires
            old(self).wf(),
        ensures
            final(self).wf(),
            final(self).interval == old(self).interval,
            final(self).sensors@.len() == old(self).sensors@.len(),
            forall|j: int|
                0 <= j < old(self).sensors@.len() ==> (#[trigger] old(self).sensors@[j]).same_model(
                    final(self).sensors@[j],
                ),
            forall|j: int|
                0 <= j < old(self).sensors@.len() ==> (#[trigger] final(self).sensors@[j]).polled_from(
                    old(self).sensors@[j],
                    now_ms,
                ),
            r matches Ok(pair) ==> {
                let st = pair.0;
                let outcomes = pair.1@;
                &&& st.sensors_polled == old(self).sensors@.len()
                &&& spec_poll_outcomes_ok(old(self).sensors@, now_ms, outcomes)
                &&& st.batch_len == spec_batch(outcomes).len()
                &&& (st.delivered <==> spec_batch(outcomes).len() > 0)
            },
            r matches Ok(pair) ==> (spec_batch(pair.1@).len() > 0
                ==> final(self).transmitter.deliveries()
                == old(self).transmitter.deliveries().push(spec_batch(pair.1@))),
            (r matches Ok(pair) && spec_batch(pair.1@).len() == 0) ==> final(self).transmitter
                == old(self).transmitter,
            r matches Err(pair) ==> {
                let outcomes = pair.1@;
                &&& spec_poll_outcomes_ok(old(self).sensors@, now_ms, outcomes)
                &&& spec_batch(outcomes).len() > 0
                &&& final(self).transmitter.deliveries()
                    == old(self).transmitter.deliveries().push(spec_batch(outcomes))
            },
            old(self).sensors@.len() == 0 ==> r is Ok,
    {
        let (batch, Ghost(outcomes)) = self.poll_sensors(now_ms);
        let n_polled = self.sensors.len();
        let batch_len = batch.len();
        if batch_len > 0 {
            match self.transmitter.send(&batch) {
                Ok(_) => {},
                Err(e) => {
                    return Err((e, Ghost(outcomes)));
                },
            }
        }
        Ok(
            (
                TickStats { sensors_polled: n_polled, batch_len, delivered: batch_len > 0 },
                Ghost(outcomes),
            ),
        )
    }
}

/// The next tick boundary: polling start time plus the fixed interval — not
/// "time the tick finished plus the interval" — so a slow tick cannot drift
/// the schedule by more than one interval. Saturates at the numeric limit.
pub fn next_tick_boundary(start_ms: u64, interval_ms: u64) -> (r: u64)
    ensures
        start_ms + interval_ms <= u64::MAX ==> r == start_ms + interval_ms,
        start_ms + interval_ms > u64::MAX ==> r == u64::MAX,
{
    if start_ms <= u64::MAX - interval_ms {
        start_ms + interval_ms
    } else {
        u64::MAX
    }
}

} // verus!
