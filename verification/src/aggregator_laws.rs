//! What holds of the slot of one post key over any run of events.

use vstd::prelude::*;
use crate::aggregator::{
    dispatched, expired, live, next_slot, DispatchModel, EntryModel, EventModel,
};
use crate::types::PostModel;

verus! {

/// What can happen to the slot of one key.
pub ghost enum KeyStep {
    /// The cache forgot the entry on its own.
    Forgotten,
    /// An event for the key arrived at time `now`.
    Arrived { event: EventModel, now: nat },
}

/// What a run has made of a slot: what it holds, and the posts dispatched so
/// far, in order.
pub ghost struct KeyTrace {
    pub slot: Option<EntryModel>,
    pub dispatches: Seq<DispatchModel>,
}

/// The run of an empty slot over `steps`.
pub open spec fn run(steps: Seq<KeyStep>, threshold: nat, retention: nat) -> KeyTrace
    decreases steps.len(),
{
    if steps.len() == 0 {
        KeyTrace { slot: None, dispatches: Seq::empty() }
    } else {
        let before = run(steps.drop_last(), threshold, retention);
        match steps.last() {
            KeyStep::Forgotten => KeyTrace { slot: None, dispatches: before.dispatches },
            KeyStep::Arrived { event, now } => KeyTrace {
                slot: next_slot(before.slot, event, now, threshold, retention),
                dispatches: match dispatched(before.slot, event, now, threshold, retention) {
                    Some(post) => before.dispatches.push(post),
                    None => before.dispatches,
                },
            },
        }
    }
}

/// Whether a step is the arrival of a creation event.
pub open spec fn is_creation(step: KeyStep) -> bool {
    step matches KeyStep::Arrived { event, .. } && event is Created
}

/// Whether a step is the arrival of a like.
pub open spec fn is_like(step: KeyStep) -> bool {
    step matches KeyStep::Arrived { event, .. } && event is Liked
}

/// The number of creation events among `steps`.
pub open spec fn creations(steps: Seq<KeyStep>) -> nat
    decreases steps.len(),
{
    if steps.len() == 0 {
        0
    } else {
        creations(steps.drop_last()) + if is_creation(steps.last()) {
            1nat
        } else {
            0nat
        }
    }
}

/// The number of likes among `steps`.
pub open spec fn likes(steps: Seq<KeyStep>) -> nat
    decreases steps.len(),
{
    if steps.len() == 0 {
        0
    } else {
        likes(steps.drop_last()) + if is_like(steps.last()) {
            1nat
        } else {
            0nat
        }
    }
}

/// One if the slot holds an entry, zero if not.
pub open spec fn occupancy(slot: Option<EntryModel>) -> nat {
    if slot is Some {
        1
    } else {
        0
    }
}

/// A post is dispatched at most once for each time that it was created:
/// over any run, the dispatches, and the entry still held if there is one,
/// are no more than the creation events.
pub proof fn lemma_dispatches_bounded_by_creations(
    steps: Seq<KeyStep>,
    threshold: nat,
    retention: nat,
)
    ensures
        run(steps, threshold, retention).dispatches.len() + occupancy(
            run(steps, threshold, retention).slot,
        ) <= creations(steps),
    decreases steps.len(),
{
    if steps.len() > 0 {
        lemma_dispatches_bounded_by_creations(steps.drop_last(), threshold, retention);
    }
}

/// A post that is created once is dispatched at most once, whatever else
/// arrives and in whatever order.
pub proof fn lemma_dispatched_at_most_once(steps: Seq<KeyStep>, threshold: nat, retention: nat)
    requires
        creations(steps) <= 1,
    ensures
        run(steps, threshold, retention).dispatches.len() <= 1,
{
    lemma_dispatches_bounded_by_creations(steps, threshold, retention);
}

/// A step dispatches only on a like and only from a slot that holds an
/// entry. It leaves the slot empty, and the dispatch carries the key and the
/// text of the entry that it removed.
pub proof fn lemma_dispatch_empties_slot(
    slot: Option<EntryModel>,
    event: EventModel,
    now: nat,
    threshold: nat,
    retention: nat,
)
    requires
        dispatched(slot, event, now, threshold, retention) is Some,
    ensures
        slot is Some,
        event is Liked,
        next_slot(slot, event, now, threshold, retention) is None,
        dispatched(slot, event, now, threshold, retention)->0.uri == slot->0.post.uri,
        dispatched(slot, event, now, threshold, retention)->0.text == slot->0.post.text,
{
}

/// Over any run the slot counts fewer likes than the threshold, and every
/// dispatch carries exactly the threshold as its final like count.
pub proof fn lemma_dispatch_carries_threshold(steps: Seq<KeyStep>, threshold: nat, retention: nat)
    requires
        1 <= threshold <= u32::MAX,
    ensures
        run(steps, threshold, retention).slot is Some ==> run(
            steps,
            threshold,
            retention,
        ).slot->0.post.count < threshold,
        forall|i: int|
            0 <= i < run(steps, threshold, retention).dispatches.len() ==> (#[trigger] run(
                steps,
                threshold,
                retention,
            ).dispatches[i]).final_like_count == threshold,
    decreases steps.len(),
{
    if steps.len() > 0 {
        lemma_dispatch_carries_threshold(steps.drop_last(), threshold, retention);
    }
}

/// A step dispatches if and only if it is a like for an entry that has not
/// outlived the retention window, and this like brings its count to exactly
/// the threshold.
pub proof fn lemma_dispatch_iff_threshold_reached(
    slot: Option<EntryModel>,
    event: EventModel,
    now: nat,
    threshold: nat,
    retention: nat,
)
    requires
        slot is Some ==> slot->0.post.count < threshold,
    ensures
        dispatched(slot, event, now, threshold, retention) is Some <==> (event is Liked && slot
            is Some && !expired(slot->0, now, retention) && slot->0.post.count + 1 == threshold),
{
}

/// Whether the steps from index `from` on are arrivals that reach the entry
/// started at time `inserted_at` within its retention window.
pub open spec fn uninterrupted(
    steps: Seq<KeyStep>,
    from: int,
    inserted_at: nat,
    retention: nat,
) -> bool {
    forall|j: int|
        from <= j < steps.len() ==> (#[trigger] steps[j] matches KeyStep::Arrived { now, .. }
            && now <= inserted_at + retention)
}

/// Whether the step at index `i` is a creation event that finds the slot
/// empty or expired, and so starts an entry.
pub open spec fn starts_entry(steps: Seq<KeyStep>, i: int, threshold: nat, retention: nat) -> bool {
    &&& 0 <= i < steps.len()
    &&& steps[i] matches KeyStep::Arrived { event, now }
    &&& event is Created
    &&& live(run(steps.subrange(0, i), threshold, retention).slot, steps[i]->now, retention)
        is None
}

/// The entry that the creation event at index `i` starts, with the likes
/// that arrived after it.
pub open spec fn entry_since(steps: Seq<KeyStep>, i: int) -> EntryModel {
    let event = steps[i]->event;
    EntryModel {
        post: PostModel {
            did: event->did,
            uri: event->Created_uri,
            text: event->text,
            count: likes(steps.subrange(i + 1, steps.len() as int)),
        },
        inserted_at: steps[i]->now,
    }
}

/// Whether the slot has held an entry continuously since the creation event
/// at index `i`: that event started the entry, and every later step is an
/// arrival within the entry's retention window.
pub open spec fn held_since(steps: Seq<KeyStep>, i: int, threshold: nat, retention: nat) -> bool {
    &&& starts_entry(steps, i, threshold, retention)
    &&& uninterrupted(steps, i + 1, steps[i]->now, retention)
}

/// Whether the last step of a run dispatches a post.
pub open spec fn last_step_dispatches(steps: Seq<KeyStep>, threshold: nat, retention: nat) -> bool {
    &&& steps.len() > 0
    &&& steps.last() matches KeyStep::Arrived { event, now }
    &&& dispatched(
        run(steps.drop_last(), threshold, retention).slot,
        event,
        now,
        threshold,
        retention,
    ) is Some
}

proof fn lemma_subrange_of_shorter(steps: Seq<KeyStep>, i: int)
    requires
        0 <= i < steps.len() - 1,
    ensures
        steps.drop_last().subrange(0, i) == steps.subrange(0, i),
        steps.drop_last()[i] == steps[i],
        steps.subrange(i + 1, steps.len() as int).drop_last() == steps.drop_last().subrange(
            i + 1,
            steps.len() - 1,
        ),
        steps.subrange(i + 1, steps.len() as int).last() == steps.last(),
        steps.subrange(i + 1, steps.len() as int).len() > 0,
{
    assert(steps.drop_last().subrange(0, i) =~= steps.subrange(0, i));
    assert(steps.subrange(i + 1, steps.len() as int).drop_last() =~= steps.drop_last().subrange(
        i + 1,
        steps.len() - 1,
    ));
}

/// The count of a held entry is the number of likes that arrived since the
/// creation event that started it, while it was continuously present: the
/// entry is the one that some creation event of the run started, no step
/// after that event found it forgotten or expired, and it counts the likes
/// that arrived after that event.
pub proof fn lemma_count_is_likes_since_creation(
    steps: Seq<KeyStep>,
    threshold: nat,
    retention: nat,
)
    requires
        1 <= threshold <= u32::MAX,
    ensures
        run(steps, threshold, retention).slot matches Some(entry) ==> exists|i: int|
            #[trigger] held_since(steps, i, threshold, retention) && entry == entry_since(
                steps,
                i,
            ),
    decreases steps.len(),
{
    if steps.len() > 0 {
        let shorter = steps.drop_last();
        let before = run(shorter, threshold, retention);
        lemma_count_is_likes_since_creation(shorter, threshold, retention);
        lemma_dispatch_carries_threshold(shorter, threshold, retention);
        let len = steps.len() as int;
        if let Some(entry) = run(steps, threshold, retention).slot {
            let now = steps.last()->now;
            if live(before.slot, now, retention) is Some {
                let held = before.slot->0;
                let i = choose|i: int|
                    #[trigger] held_since(shorter, i, threshold, retention) && held
                        == entry_since(shorter, i);
                lemma_subrange_of_shorter(steps, i);
                assert forall|j: int| i + 1 <= j < steps.len() implies (
                #[trigger] steps[j] matches KeyStep::Arrived { now, .. } && now <= steps[i]->now
                    + retention) by {
                    if j < len - 1 {
                        assert(steps[j] == shorter[j]);
                    }
                }
                assert(held_since(steps, i, threshold, retention));
                assert(entry == entry_since(steps, i));
            } else {
                let i = len - 1;
                assert(steps.subrange(i + 1, len) =~= Seq::<KeyStep>::empty());
                assert(steps.subrange(0, i) =~= shorter);
                assert(held_since(steps, i, threshold, retention));
                assert(entry == entry_since(steps, i));
            }
        }
    }
}

/// An entry that a creation event started, and that has been continuously
/// present since, is held with the likes that arrived after that event, as
/// long as these are fewer than the threshold.
pub proof fn lemma_held_entry_counts_likes(
    steps: Seq<KeyStep>,
    i: int,
    threshold: nat,
    retention: nat,
)
    requires
        1 <= threshold <= u32::MAX,
        held_since(steps, i, threshold, retention),
        likes(steps.subrange(i + 1, steps.len() as int)) < threshold,
    ensures
        run(steps, threshold, retention).slot == Some(entry_since(steps, i)),
    decreases steps.len(),
{
    let len = steps.len() as int;
    let shorter = steps.drop_last();
    if i == len - 1 {
        assert(steps.subrange(i + 1, len) =~= Seq::<KeyStep>::empty());
        assert(steps.subrange(0, i) =~= shorter);
    } else {
        lemma_subrange_of_shorter(steps, i);
        assert forall|j: int| i + 1 <= j < shorter.len() implies (
        #[trigger] shorter[j] matches KeyStep::Arrived { now, .. } && now <= shorter[i]->now
            + retention) by {
            assert(shorter[j] == steps[j]);
        }
        assert(held_since(shorter, i, threshold, retention));
        lemma_held_entry_counts_likes(shorter, i, threshold, retention);
        assert(steps.last() == steps[len - 1]);
    }
}

/// A post is dispatched if and only if its likes reach exactly the
/// threshold while it is continuously present: the last step of a run
/// dispatches exactly when it is a like, some earlier creation event started
/// an entry that no step since has found forgotten or expired, and the likes
/// since that event, this one included, are exactly as many as the
/// threshold.
pub proof fn lemma_dispatch_iff_likes_reach_threshold(
    steps: Seq<KeyStep>,
    threshold: nat,
    retention: nat,
)
    requires
        1 <= threshold <= u32::MAX,
    ensures
        last_step_dispatches(steps, threshold, retention) <==> (steps.len() > 0 && is_like(
            steps.last(),
        ) && exists|i: int|
            #[trigger] held_since(steps, i, threshold, retention) && likes(
                steps.subrange(i + 1, steps.len() as int),
            ) == threshold),
{
    if steps.len() > 0 {
        let len = steps.len() as int;
        let shorter = steps.drop_last();
        let before = run(shorter, threshold, retention);
        if last_step_dispatches(steps, threshold, retention) {
            lemma_count_is_likes_since_creation(shorter, threshold, retention);
            lemma_dispatch_carries_threshold(shorter, threshold, retention);
            let held = before.slot->0;
            let i = choose|i: int|
                #[trigger] held_since(shorter, i, threshold, retention) && held == entry_since(
                    shorter,
                    i,
                );
            lemma_subrange_of_shorter(steps, i);
            assert forall|j: int| i + 1 <= j < steps.len() implies (
            #[trigger] steps[j] matches KeyStep::Arrived { now, .. } && now <= steps[i]->now
                + retention) by {
                if j < len - 1 {
                    assert(steps[j] == shorter[j]);
                }
            }
            assert(held_since(steps, i, threshold, retention));
        }
        if is_like(steps.last()) && exists|i: int|
            #[trigger] held_since(steps, i, threshold, retention) && likes(
                steps.subrange(i + 1, len),
            ) == threshold {
            let i = choose|i: int|
                #[trigger] held_since(steps, i, threshold, retention) && likes(
                    steps.subrange(i + 1, len),
                ) == threshold;
            if i == len - 1 {
                assert(steps.subrange(i + 1, len) =~= Seq::<KeyStep>::empty());
            } else {
                lemma_subrange_of_shorter(steps, i);
                assert forall|j: int| i + 1 <= j < shorter.len() implies (
                #[trigger] shorter[j] matches KeyStep::Arrived { now, .. } && now
                    <= shorter[i]->now + retention) by {
                    assert(shorter[j] == steps[j]);
                }
                assert(held_since(shorter, i, threshold, retention));
                lemma_held_entry_counts_likes(shorter, i, threshold, retention);
                assert(steps.last() == steps[len - 1]);
            }
        }
    }
}

/// An entry that has outlived the retention window is never dispatched,
/// whatever it counts: an event finds it gone, as if the slot were empty.
/// A slot that the cache forgot dispatches nothing either.
pub proof fn lemma_expired_never_dispatched(
    entry: EntryModel,
    event: EventModel,
    now: nat,
    threshold: nat,
    retention: nat,
)
    requires
        expired(entry, now, retention),
    ensures
        dispatched(Some(entry), event, now, threshold, retention) is None,
        next_slot(Some(entry), event, now, threshold, retention) == next_slot(
            None,
            event,
            now,
            threshold,
            retention,
        ),
        dispatched(None, event, now, threshold, retention) is None,
{
}

/// An entry that the cache forgot on its own is not dispatched: the
/// forgetting empties the slot and adds no dispatch to the run.
pub proof fn lemma_forgotten_never_dispatched(steps: Seq<KeyStep>, threshold: nat, retention: nat)
    ensures
        run(steps.push(KeyStep::Forgotten), threshold, retention).slot is None,
        run(steps.push(KeyStep::Forgotten), threshold, retention).dispatches == run(
            steps,
            threshold,
            retention,
        ).dispatches,
{
    assert(steps.push(KeyStep::Forgotten).drop_last() =~= steps);
}

/// A like for a post that is not tracked is dropped: the slot stays empty and
/// nothing is dispatched.
pub proof fn lemma_like_without_post_is_dropped(
    uri: Seq<char>,
    now: nat,
    threshold: nat,
    retention: nat,
)
    ensures
        next_slot(None, EventModel::Liked { uri }, now, threshold, retention) is None,
        dispatched(None, EventModel::Liked { uri }, now, threshold, retention) is None,
{
}

/// A second creation event for a post that is tracked changes nothing.
pub proof fn lemma_duplicate_creation_is_ignored(
    entry: EntryModel,
    event: EventModel,
    now: nat,
    threshold: nat,
    retention: nat,
)
    requires
        event is Created,
        !expired(entry, now, retention),
    ensures
        next_slot(Some(entry), event, now, threshold, retention) == Some(entry),
        dispatched(Some(entry), event, now, threshold, retention) is None,
{
}

} // verus!
