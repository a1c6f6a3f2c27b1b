//! How the steps of the popularity cache link up with the runs of one key.
//!
//! Every law on runs of one key holds of the cache: seen from any one key,
//! a step of the cache extends the key's run by the event, by a forgetting,
//! by both, or by nothing.

use vstd::prelude::*;
use crate::aggregator::{DispatchModel, EntryModel, EventModel};
use crate::aggregator_laws::{run, KeyStep};
use crate::cache::{kept_or_forgotten, slot_at, stepped};

verus! {

/// Whether `longer` is `steps` with what a step of the cache on `event` at
/// time `now` can mean for the key `key`: for the event's own key the
/// arrival of the event, which may find the entry forgotten; for any other
/// key nothing, or a forgetting.
pub open spec fn extends_by_step(
    steps: Seq<KeyStep>,
    longer: Seq<KeyStep>,
    key: Seq<char>,
    event: EventModel,
    now: nat,
) -> bool {
    let arrival = KeyStep::Arrived { event, now };
    if key == event.key() {
        longer == steps.push(arrival) || longer == steps.push(KeyStep::Forgotten).push(arrival)
    } else {
        longer == steps || longer == steps.push(KeyStep::Forgotten)
    }
}

/// The dispatches of a key's run after a step of the cache that handed out
/// `dispatch`: the step adds its dispatch to the run of the event's key and
/// nothing to the run of any other key.
pub open spec fn dispatches_after(
    dispatches: Seq<DispatchModel>,
    key: Seq<char>,
    event: EventModel,
    dispatch: Option<DispatchModel>,
) -> Seq<DispatchModel> {
    if key == event.key() && dispatch is Some {
        dispatches.push(dispatch->0)
    } else {
        dispatches
    }
}

/// A step of the cache is a step of every key's run. If a run accounts for
/// the slot that the cache held for `key` before the step, then some
/// extension of it by the step accounts for the slot that the cache holds
/// afterwards, and its dispatches are those of the run and, for the event's
/// key, the post that the step handed out.
pub proof fn lemma_step_extends_run(
    before: Map<Seq<char>, EntryModel>,
    after: Map<Seq<char>, EntryModel>,
    event: EventModel,
    now: nat,
    threshold: nat,
    retention: nat,
    dispatch: Option<DispatchModel>,
    key: Seq<char>,
    steps: Seq<KeyStep>,
)
    requires
        stepped(before, after, event, now, threshold, retention, dispatch),
        run(steps, threshold, retention).slot == slot_at(before, key),
    ensures
        exists|longer: Seq<KeyStep>|
            extends_by_step(steps, longer, key, event, now) && (#[trigger] run(
                longer,
                threshold,
                retention,
            )).slot == slot_at(after, key) && run(longer, threshold, retention).dispatches
                == dispatches_after(
                run(steps, threshold, retention).dispatches,
                key,
                event,
                dispatch,
            ),
{
    let arrival = KeyStep::Arrived { event, now };
    let forgotten = steps.push(KeyStep::Forgotten);
    assert(forgotten.drop_last() =~= steps);
    assert(forgotten.push(arrival).drop_last() =~= forgotten);
    assert(steps.push(arrival).drop_last() =~= steps);
    let longer = if key == event.key() {
        if before.contains_key(key) && crate::cache::stepped_from(
            Some(before[key]),
            after,
            event,
            now,
            threshold,
            retention,
            dispatch,
        ) {
            steps.push(arrival)
        } else {
            forgotten.push(arrival)
        }
    } else if after.contains_key(key) {
        steps
    } else {
        forgotten
    };
    assert(extends_by_step(steps, longer, key, event, now));
    assert(run(longer, threshold, retention).slot == slot_at(after, key));
    assert(run(longer, threshold, retention).dispatches == dispatches_after(
        run(steps, threshold, retention).dispatches,
        key,
        event,
        dispatch,
    ));
}

/// A lookup is a step of every key's run too: if a run accounts for the slot
/// that the cache held for `key` before the lookup, then the same run, or the
/// run with a forgetting after it, accounts for the slot that the cache holds
/// afterwards. Neither dispatches anything.
pub proof fn lemma_lookup_extends_run(
    before: Map<Seq<char>, EntryModel>,
    after: Map<Seq<char>, EntryModel>,
    threshold: nat,
    retention: nat,
    key: Seq<char>,
    steps: Seq<KeyStep>,
)
    requires
        kept_or_forgotten(before, after),
        run(steps, threshold, retention).slot == slot_at(before, key),
    ensures
        run(steps, threshold, retention).slot == slot_at(after, key) || run(
            steps.push(KeyStep::Forgotten),
            threshold,
            retention,
        ).slot == slot_at(after, key),
        run(steps.push(KeyStep::Forgotten), threshold, retention).dispatches == run(
            steps,
            threshold,
            retention,
        ).dispatches,
{
    assert(steps.push(KeyStep::Forgotten).drop_last() =~= steps);
}

} // verus!
