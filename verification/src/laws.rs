//! What holds of every run of the controller.

use vstd::prelude::*;
use crate::clock::{idle_expired, Timestamp};
use crate::cycle::write_seq;
use crate::event::EventModel;
use crate::level::{BrightnessLevel, BRIGHTNESS_OFF};
use crate::state::IdleModel;
use crate::trace::{
    cycle_events, event_time, input_events, last_active, last_reported, occurrences, replay,
    resume, Replay,
};

verus! {

/// The idle check `event` ran at or after `since` and found more than the
/// idle threshold passed since then.
pub open spec fn found_expired(event: EventModel, since: nat) -> bool {
    &&& event is IdleCheck
    &&& since <= event_time(event)
    &&& idle_expired(since, event_time(event))
}

/// Among `events` there is an idle check, not earlier than `since`, that found
/// more than the idle threshold passed since `since`.
pub open spec fn saw_idle_expiry(events: Seq<EventModel>, since: nat) -> bool {
    exists|k: int| 0 <= k < events.len() && found_expired(#[trigger] events[k], since)
}

/// No idle check among `events` ran later than `now`.
pub open spec fn no_check_after(events: Seq<EventModel>, now: nat) -> bool {
    forall|k: int|
        0 <= k < events.len() && (#[trigger] events[k]) is IdleCheck ==> event_time(events[k])
            <= now
}

/// Every one of `events` is an idle check.
pub open spec fn only_idle_checks(events: Seq<EventModel>) -> bool {
    forall|k: int| 0 <= k < events.len() ==> (#[trigger] events[k]) is IdleCheck
}

/// The state mirrors the history. In every run from startup that met no
/// fault, the device shows either nothing or the effective level; the
/// effective level is the one last reported by the hardware; the idle clock
/// stands at the last activity; and the backlight is suppressed only if some
/// idle check found the idle threshold exceeded since that activity.
pub proof fn law_state_follows_history(
    initial: BrightnessLevel,
    start: nat,
    events: Seq<EventModel>,
)
    requires
        !replay(IdleModel::init(initial, start), events).fault,
    ensures
        ({
            let state = replay(IdleModel::init(initial, start), events).state;
            &&& state.wf()
            &&& state.effective == last_reported(initial, events)
            &&& state.last_activity == last_active(start, events)
            &&& state.suppressed() ==> saw_idle_expiry(events, state.last_activity)
        }),
    decreases events.len(),
{
    if events.len() > 0 {
        let earlier = events.drop_last();
        law_state_follows_history(initial, start, earlier);
        let before = replay(IdleModel::init(initial, start), earlier).state;
        let after = replay(IdleModel::init(initial, start), events).state;
        if after.suppressed() {
            // Only an idle check leaves the backlight suppressed, and it does
            // not touch the idle clock.
            assert(events.last() is IdleCheck);
            assert(after.last_activity == before.last_activity);
            if before.suppressed() {
                let k = choose|k: int|
                    0 <= k < earlier.len() && found_expired(
                        #[trigger] earlier[k],
                        before.last_activity,
                    );
                assert(found_expired(events[k], after.last_activity));
            } else {
                assert(found_expired(events[events.len() - 1], after.last_activity));
            }
        }
    }
}

/// Off exactly when idle or reported off. After an idle check at `now` that
/// is not earlier than any idle check before it, the backlight is off if and
/// only if the hardware last reported "off" or more than the idle threshold
/// has passed since the last activity.
pub proof fn law_off_iff_idle_or_reported_off(
    initial: BrightnessLevel,
    start: nat,
    events: Seq<EventModel>,
    now: nat,
)
    requires
        no_check_after(events, now),
        !replay(
            IdleModel::init(initial, start),
            events.push(EventModel::IdleCheck { at: now }),
        ).fault,
    ensures
        ({
            let run = replay(
                IdleModel::init(initial, start),
                events.push(EventModel::IdleCheck { at: now }),
            );
            run.state.hardware == BRIGHTNESS_OFF <==> last_reported(initial, events)
                == BRIGHTNESS_OFF || idle_expired(last_active(start, events), now)
        }),
{
    let all = events.push(EventModel::IdleCheck { at: now });
    assert(all.drop_last() == events);
    let before = replay(IdleModel::init(initial, start), events).state;
    law_state_follows_history(initial, start, events);
    if before.suppressed() {
        // The check that found the threshold exceeded ran no later than
        // `now`, so the threshold is exceeded at `now` as well.
        let k = choose|k: int|
            0 <= k < events.len() && found_expired(#[trigger] events[k], before.last_activity);
        assert(event_time(events[k]) <= now);
        assert(idle_expired(before.last_activity, now));
    }
}

/// Idle checks while off are silent. From a state whose backlight is off, any
/// number of idle checks in a row writes nothing and changes nothing.
pub proof fn law_idle_checks_while_off_write_nothing(state: IdleModel, events: Seq<EventModel>)
    requires
        state.hardware == BRIGHTNESS_OFF,
        only_idle_checks(events),
    ensures
        replay(state, events).writes == Seq::<BrightnessLevel>::empty(),
        replay(state, events).state == state,
    decreases events.len(),
{
    if events.len() > 0 {
        let earlier = events.drop_last();
        assert forall|k: int| 0 <= k < earlier.len() implies (#[trigger] earlier[k]) is IdleCheck by {
            assert(earlier[k] == events[k]);
        }
        law_idle_checks_while_off_write_nothing(state, earlier);
        assert(events[events.len() - 1] is IdleCheck);
    }
}

/// An input event restores the backlight with one write. In a cycle that
/// starts with the backlight suppressed and finds at least one input event
/// queued, only the first event is taken, the device is set to the effective
/// level, and that level is written exactly once. The backlight still shows
/// it at the end of the cycle unless the idle check of the same cycle already
/// finds the threshold exceeded again.
pub proof fn law_input_restores_with_one_write(
    state: IdleModel,
    times: Seq<Timestamp>,
    now: nat,
)
    requires
        state.suppressed(),
        times.len() > 0,
    ensures
        state.events_taken(times.len()) == 1,
        state.after_activity(times).hardware == state.effective,
        state.cycle_writes(times, now).first() == state.effective,
        occurrences(state.cycle_writes(times, now), state.effective) == 1,
        !idle_expired(times.first()@, now) ==> state.after_cycle(times, now).hardware
            == state.effective,
{
    let level = state.effective;
    let writes = state.cycle_writes(times, now);
    assert(occurrences(seq![level], level) == 1) by {
        assert(seq![level].drop_last() == Seq::<BrightnessLevel>::empty());
        assert(occurrences(Seq::<BrightnessLevel>::empty(), level) == 0);
    }
    if state.after_activity(times).suppresses(now) {
        // The restore is followed by the write of "off", which is another level.
        assert(writes == seq![level, BRIGHTNESS_OFF]);
        assert(writes.drop_last() == seq![level]);
    } else {
        assert(writes == seq![level]);
    }
}

/// A run can be taken in parts. Processing `first` and then `rest` leads
/// where processing them as one sequence leads: the writes follow one another,
/// and a fault in the first part ends the run there.
pub proof fn law_replay_in_parts(state: IdleModel, first: Seq<EventModel>, rest: Seq<EventModel>)
    ensures
        replay(state, first + rest) == resume(replay(state, first), rest),
    decreases rest.len(),
{
    let head = replay(state, first);
    if rest.len() == 0 {
        assert(first + rest == first);
        assert(head.writes + Seq::<BrightnessLevel>::empty() == head.writes);
    } else {
        let shorter = rest.drop_last();
        law_replay_in_parts(state, first, shorter);
        assert((first + rest).drop_last() == first + shorter);
        assert((first + rest).last() == rest.last());
        if !head.fault {
            let tail = replay(head.state, shorter);
            let write = write_seq(tail.state.step_write(rest.last()));
            assert((head.writes + tail.writes) + write == head.writes + (tail.writes + write));
        }
    }
}

/// Replaying the first `count` of the input events that a cycle takes leads
/// where taking just those events leads.
proof fn lemma_inputs_replayed(state: IdleModel, times: Seq<Timestamp>, count: nat)
    requires
        count <= state.events_taken(times.len()),
    ensures
        replay(state, input_events(times, count)) == (Replay {
            state: state.after_activity(times.take(count as int)),
            writes: write_seq(state.activity_write(times.take(count as int))),
            fault: false,
        }),
    decreases count,
{
    if count > 0 {
        let fewer = (count - 1) as nat;
        lemma_inputs_replayed(state, times, fewer);
        let events = input_events(times, count);
        assert(events.drop_last() == input_events(times, fewer));
        assert(events.last() == EventModel::Input { at: times[count - 1]@ });
        assert(times.take(count as int).last() == times[count - 1]);
        let before = replay(state, input_events(times, fewer));
        if fewer > 0 {
            // An earlier event was taken, so none of them restored anything.
            assert(!state.suppressed());
            assert(before.writes + Seq::<BrightnessLevel>::empty() == before.writes);
        }
    }
}

/// A cycle is a run. One polling cycle leads to the state, the writes and the
/// fault that replaying its observations one by one leads to.
pub proof fn law_cycle_is_replay(state: IdleModel, times: Seq<Timestamp>, now: nat)
    ensures
        replay(state, cycle_events(state, times, now)) == (Replay {
            state: state.after_cycle(times, now),
            writes: state.cycle_writes(times, now),
            fault: state.cycle_fault(times, now),
        }),
{
    let taken = state.events_taken(times.len());
    let kept = times.take(taken as int);
    lemma_inputs_replayed(state, times, taken);
    assert(cycle_events(state, times, now).drop_last() == input_events(times, taken));
    assert(state.after_activity(kept) == state.after_activity(times)) by {
        if times.len() > 0 && !state.suppressed() {
            assert(kept == times);
        }
    }
    if state.cycle_fault(times, now) {
        assert(state.cycle_writes(times, now) == write_seq(state.activity_write(times)));
    }
}

} // verus!
