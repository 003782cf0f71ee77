use vstd::prelude::*;

use crate::message::ExtractedUpdate;
use crate::metering::{
    after_counter, apply_effects, apply_state, feed_in_next, has_readings, initial_state, SensorData,
    FEED_IN_OFF_ABOVE, FEED_IN_ON_BELOW, PUBLISH_INTERVAL_MS,
};

verus! {

/// The first counter reading (previous reading 0) only seeds the baseline: its
/// delta is zero, never a negative or wrapped value.
pub proof fn lemma_first_reading_seeds_baseline(s: SensorData, val: u64)
    requires
        s.zaehlerstand_alt == 0,
    ensures
        after_counter(s, val).zaehlerstand_diff == 0,
        after_counter(s, val).zaehlerstand_alt == val,
        after_counter(s, val).zaehlerstand == val,
{
}

/// A counter delta never exceeds the real increase, and is zero when the
/// counter did not increase.
pub proof fn lemma_delta_never_wraps(s: SensorData, val: u64)
    ensures
        val <= s.zaehlerstand_alt ==> after_counter(s, val).zaehlerstand_diff == 0,
        val > s.zaehlerstand_alt ==> after_counter(s, val).zaehlerstand_diff <= val - s.zaehlerstand_alt,
{
}

/// Power readings inside the dead band never toggle the feed-in flag.
pub proof fn lemma_dead_band_keeps_feed_in(active: bool, power: int)
    requires
        FEED_IN_ON_BELOW <= power <= FEED_IN_OFF_ABOVE,
    ensures
        feed_in_next(active, power) == active,
{
}

/// The state after applying `steps` (update, time) in order.
pub open spec fn run_updates(s: SensorData, steps: Seq<(ExtractedUpdate, u64)>) -> SensorData
    decreases steps.len(),
{
    if steps.len() == 0 {
        s
    } else {
        let before = run_updates(s, steps.drop_last());
        apply_state(before, steps.last().0, steps.last().1)
    }
}

/// Whether step `i` of `steps`, applied from `s`, publishes the readings.
pub open spec fn publishes_at(s: SensorData, steps: Seq<(ExtractedUpdate, u64)>, i: int) -> bool {
    match apply_effects(run_updates(s, steps.take(i)), steps[i].0, steps[i].1) {
        Some(e) => e.should_publish_throttled,
        None => false,
    }
}

/// The first tick with readings always publishes the readings.
pub proof fn lemma_first_tick_publishes(u: ExtractedUpdate, now: u64)
    requires
        has_readings(u),
    ensures
        apply_effects(initial_state(), u, now) matches Some(e) && e.should_publish_throttled,
        apply_state(initial_state(), u, now).last_mqtt_publish == Some(now),
{
}

/// After a publication at `t`, a tick with readings more than the publish
/// interval later publishes again and records its own time.
pub proof fn lemma_publishes_after_interval(s: SensorData, u: ExtractedUpdate, t: u64, now: u64)
    requires
        s.last_mqtt_publish == Some(t),
        has_readings(u),
        now >= t,
        now - t > PUBLISH_INTERVAL_MS,
    ensures
        apply_effects(s, u, now) matches Some(e) && e.should_publish_throttled,
        apply_state(s, u, now).last_mqtt_publish == Some(now),
{
}

/// After a publication at `t`, no number of ticks within the publish interval
/// publishes again, and the time of the last publication stays `t`.
pub proof fn lemma_throttle_within_interval(s: SensorData, steps: Seq<(ExtractedUpdate, u64)>, t: u64)
    requires
        s.last_mqtt_publish == Some(t),
        forall|i: int| 0 <= i < steps.len() ==> t <= #[trigger] steps[i].1 <= t + PUBLISH_INTERVAL_MS,
    ensures
        run_updates(s, steps).last_mqtt_publish == Some(t),
        forall|i: int| 0 <= i < steps.len() ==> !#[trigger] publishes_at(s, steps, i),
    decreases steps.len(),
{
    if steps.len() > 0 {
        let init = steps.drop_last();
        lemma_throttle_within_interval(s, init, t);
        assert forall|i: int| 0 <= i < steps.len() implies !#[trigger] publishes_at(s, steps, i) by {
            if i < init.len() {
                assert(steps.take(i) =~= init.take(i));
                assert(publishes_at(s, init, i) == publishes_at(s, steps, i));
            } else {
                assert(steps.take(i) =~= init);
            }
        }
    }
}


/// The accumulated export energy never decreases, whatever the update and time.
pub proof fn lemma_export_never_decreases(s: SensorData, u: ExtractedUpdate, now: u64)
    ensures
        apply_state(s, u, now).einspeisung >= s.einspeisung,
{
}

/// Over any run of updates the accumulated export energy never decreases.
pub proof fn lemma_export_monotone_over_run(s: SensorData, steps: Seq<(ExtractedUpdate, u64)>)
    ensures
        run_updates(s, steps).einspeisung >= s.einspeisung,
    decreases steps.len(),
{
    if steps.len() > 0 {
        lemma_export_monotone_over_run(s, steps.drop_last());
        lemma_export_never_decreases(run_updates(s, steps.drop_last()), steps.last().0, steps.last().1);
    }
}

} // verus!
