//! The popularity cache: one slot per post key, held in a concurrent cache
//! that carries out each step on a key as one atomic operation.
//!
//! The cache itself forgets entries after the retention window. What it has
//! forgotten it presents as missing, so every step is stated for both cases:
//! the cache presents the entry that it held, or it presents nothing.

use vstd::prelude::*;
use moka::ops::compute::{CompResult, Op};
use moka::sync::Cache;
use std::time::Duration;
use crate::aggregator::{
    dispatch_of, dispatched, next_slot, slot_model, transition, transition_model, AggregatorConfig,
    CacheEntry, DispatchModel, DispatchedPost, EntryModel, Event, EventModel, Transition,
    TransitionModel,
};
use crate::types::{Like, RawPost};

verus! {

/// `moka::sync::Cache`, the concurrent cache that holds the slots. Nothing
/// inside it is visible here: what it holds is named by [`cache_entries`].
#[verifier::external_type_specification]
#[verifier::external_body]
#[verifier::reject_recursive_types(K)]
#[verifier::reject_recursive_types(V)]
#[verifier::reject_recursive_types(S)]
pub struct ExCache<K, V, S>(Cache<K, V, S>);

/// The entries that a cache holds, by key: what was last stored under each
/// key and has neither been removed nor forgotten since.
pub uninterp spec fn cache_entries(cache: Cache<String, CacheEntry>) -> Map<Seq<char>, EntryModel>;

/// The entries of a cache that holds nothing.
pub open spec fn no_entries() -> Map<Seq<char>, EntryModel> {
    Map::empty()
}

/// The slot of `key` among `entries`.
pub open spec fn slot_at(entries: Map<Seq<char>, EntryModel>, key: Seq<char>) -> Option<EntryModel> {
    if entries.contains_key(key) {
        Some(entries[key])
    } else {
        None
    }
}

/// What the cache reports of a step on one key.
#[derive(Debug, PartialEq, Eq)]
pub enum Applied {
    /// There was no entry and there is none.
    StillNone,
    /// The entry was left as it was.
    Unchanged(CacheEntry),
    /// There was no entry; this one was stored.
    Inserted(CacheEntry),
    /// There was an entry; this one took its place.
    ReplacedWith(CacheEntry),
    /// This entry was removed.
    Removed(CacheEntry),
}

/// Model of an [`Applied`].
pub ghost enum AppliedModel {
    StillNone,
    Unchanged(EntryModel),
    Inserted(EntryModel),
    ReplacedWith(EntryModel),
    Removed(EntryModel),
}

impl View for Applied {
    type V = AppliedModel;

    open spec fn view(&self) -> AppliedModel {
        match self {
            Applied::StillNone => AppliedModel::StillNone,
            Applied::Unchanged(entry) => AppliedModel::Unchanged(entry@),
            Applied::Inserted(entry) => AppliedModel::Inserted(entry@),
            Applied::ReplacedWith(entry) => AppliedModel::ReplacedWith(entry@),
            Applied::Removed(entry) => AppliedModel::Removed(entry@),
        }
    }
}

/// Whether `applied` and the slot `after` are what the cache makes of the
/// transition `decided` on a key for which it presented `seen`.
pub open spec fn carried(
    seen: Option<EntryModel>,
    decided: TransitionModel,
    applied: AppliedModel,
    after: Option<EntryModel>,
) -> bool {
    match decided {
        TransitionModel::Keep => after == seen && applied == match seen {
            Some(entry) => AppliedModel::Unchanged(entry),
            None => AppliedModel::StillNone,
        },
        TransitionModel::Put(entry) => after == Some(entry) && applied == if seen is Some {
            AppliedModel::ReplacedWith(entry)
        } else {
            AppliedModel::Inserted(entry)
        },
        TransitionModel::Remove => after is None && (applied == AppliedModel::StillNone || (seen
            is Some && applied == AppliedModel::Removed(seen->0))),
    }
}

/// Whether the cache, presenting `seen` for the key of `event`, asked
/// [`transition_model`] and carried out what it decided.
pub open spec fn computed_from(
    seen: Option<EntryModel>,
    event: EventModel,
    now: nat,
    threshold: nat,
    retention: nat,
    applied: AppliedModel,
    after: Option<EntryModel>,
) -> bool {
    carried(seen, transition_model(seen, event, now, threshold, retention), applied, after)
}

/// A step of the cache on the key of `event`: the cache presented the entry
/// that it held for the key, or nothing, and carried out the transition
/// decided for what it presented.
pub open spec fn computed(
    before: Map<Seq<char>, EntryModel>,
    after: Map<Seq<char>, EntryModel>,
    event: EventModel,
    now: nat,
    threshold: nat,
    retention: nat,
    applied: AppliedModel,
) -> bool {
    let slot = slot_at(after, event.key());
    computed_from(None, event, now, threshold, retention, applied, slot) || (before.contains_key(
        event.key(),
    ) && computed_from(
        Some(before[event.key()]),
        event,
        now,
        threshold,
        retention,
        applied,
        slot,
    ))
}

/// No key but `key` gained an entry or had its entry changed. The cache may
/// have forgotten entries of other keys.
pub open spec fn others_kept_or_forgotten(
    before: Map<Seq<char>, EntryModel>,
    after: Map<Seq<char>, EntryModel>,
    key: Seq<char>,
) -> bool {
    forall|k: Seq<char>|
        k != key && #[trigger] after.contains_key(k) ==> before.contains_key(k) && after[k]
            == before[k]
}

/// No key gained an entry or had its entry changed: what `after` holds,
/// `before` held. The cache may have forgotten entries.
pub open spec fn kept_or_forgotten(
    before: Map<Seq<char>, EntryModel>,
    after: Map<Seq<char>, EntryModel>,
) -> bool {
    forall|k: Seq<char>| #[trigger]
        after.contains_key(k) ==> before.contains_key(k) && after[k] == before[k]
}

/// Builds the cache with `moka::sync::CacheBuilder::time_to_live` and
/// `build`: a cache without a size limit, whose entries expire
/// `retention_secs` seconds after they were last written. The builder panics
/// on a duration of more than a thousand years, which `requires` leaves out.
/// A cache that was just built holds no entry.
#[verifier::external_body]
fn cache_new(retention_secs: u64) -> (made: Cache<String, CacheEntry>)
    requires
        retention_secs <= crate::aggregator::MAX_RETENTION_SECS,
    ensures
        cache_entries(made) == no_entries(),
{
    Cache::builder().time_to_live(Duration::from_secs(retention_secs)).build()
}

/// Runs one step on the slot of `key` with `moka`'s
/// `Cache::entry(..).and_compute_with(..)`, which holds the key's lock from
/// reading the entry to writing it.
///
/// The cache presents the entry that it holds for the key, or nothing where
/// it holds none or the entry has expired. [`transition`] decides on what was
/// presented, and the cache stores, keeps or removes accordingly and reports
/// what it did. A removal reports the removed entry, or that there was none
/// if the entry expired in between. Entries of other keys are not written;
/// they may expire.
#[verifier::external_body]
fn cache_compute(
    cache: &mut Cache<String, CacheEntry>,
    key: String,
    event: &Event,
    now: u64,
    config: &AggregatorConfig,
) -> (applied: Applied)
    requires
        key@ == event@.key(),
    ensures
        computed(
            cache_entries(*old(cache)),
            cache_entries(*final(cache)),
            event@,
            now as nat,
            config.threshold_spec(),
            config.retention_spec(),
            applied@,
        ),
        others_kept_or_forgotten(cache_entries(*old(cache)), cache_entries(*final(cache)), key@),
{
    let done = cache.entry(key).and_compute_with(
        |seen| match transition(seen.map(|e| e.into_value()), event, now, config) {
            Transition::Keep => Op::Nop,
            Transition::Put(entry) => Op::Put(entry),
            Transition::Remove => Op::Remove,
        },
    );
    match done {
        CompResult::StillNone(_) => Applied::StillNone,
        CompResult::Unchanged(e) => Applied::Unchanged(e.into_value()),
        CompResult::Inserted(e) => Applied::Inserted(e.into_value()),
        CompResult::ReplacedWith(e) => Applied::ReplacedWith(e.into_value()),
        CompResult::Removed(e) => Applied::Removed(e.into_value()),
    }
}

/// Reads the entry of `key` with `moka::sync::Cache::get`, which returns a
/// clone of the stored value, or nothing where the cache holds no entry for
/// the key or the entry has expired. The call stores nothing. An entry that
/// it returns is held; where it returns nothing the cache holds none for the
/// key from then on, since an entry that has expired stays expired. Other
/// entries may expire.
#[verifier::external_body]
fn cache_get(cache: &mut Cache<String, CacheEntry>, key: &String) -> (found: Option<CacheEntry>)
    ensures
        slot_model(found) == slot_at(cache_entries(*final(cache)), key@),
        kept_or_forgotten(cache_entries(*old(cache)), cache_entries(*final(cache))),
{
    cache.get(key)
}

/// The step of the whole cache on an event, for a cache that presented
/// `seen` for the event's key.
pub open spec fn stepped_from(
    seen: Option<EntryModel>,
    after: Map<Seq<char>, EntryModel>,
    event: EventModel,
    now: nat,
    threshold: nat,
    retention: nat,
    dispatch: Option<DispatchModel>,
) -> bool {
    &&& slot_at(after, event.key()) == next_slot(seen, event, now, threshold, retention)
    &&& dispatch == dispatched(seen, event, now, threshold, retention)
}

/// One step of the popularity cache.
///
/// The slot of the event's key moves as [`next_slot`] says and the post that
/// [`dispatched`] names is handed out, either from the entry that the cache
/// held for the key or, where the cache had forgotten it, from nothing. No
/// other key gains or changes an entry.
pub open spec fn stepped(
    before: Map<Seq<char>, EntryModel>,
    after: Map<Seq<char>, EntryModel>,
    event: EventModel,
    now: nat,
    threshold: nat,
    retention: nat,
    dispatch: Option<DispatchModel>,
) -> bool {
    &&& others_kept_or_forgotten(before, after, event.key())
    &&& (stepped_from(None, after, event, now, threshold, retention, dispatch) || (
    before.contains_key(event.key()) && stepped_from(
        Some(before[event.key()]),
        after,
        event,
        now,
        threshold,
        retention,
        dispatch,
    )))
}

/// Whether every entry is filed under its post's key and counts fewer likes
/// than the threshold.
pub open spec fn entries_tracked(entries: Map<Seq<char>, EntryModel>, threshold: nat) -> bool {
    forall|k: Seq<char>| #[trigger]
        entries.contains_key(k) ==> entries[k].post.uri == k && entries[k].post.count < threshold
}

/// The popularity cache with its configuration.
pub struct PopularityCache {
    cache: Cache<String, CacheEntry>,
    config: AggregatorConfig,
}

impl View for PopularityCache {
    type V = Map<Seq<char>, EntryModel>;

    closed spec fn view(&self) -> Map<Seq<char>, EntryModel> {
        cache_entries(self.cache)
    }
}

impl PopularityCache {
    /// The configuration that the cache was made with.
    pub closed spec fn config_spec(&self) -> AggregatorConfig {
        self.config
    }

    /// The cache's invariant: see [`entries_tracked`].
    pub open spec fn wf(&self) -> bool {
        entries_tracked(self@, self.config_spec().threshold_spec())
    }

    /// An empty cache.
    pub fn new(config: AggregatorConfig) -> (made: Self)
        ensures
            made.wf(),
            made@ == no_entries(),
            made.config_spec() == config,
    {
        let cache = cache_new(config.retention_secs());
        PopularityCache { cache, config }
    }

    /// The configuration that the cache was made with.
    pub fn config(&self) -> (config: AggregatorConfig)
        ensures
            config == self.config_spec(),
    {
        self.config
    }

    /// Looks up the entry of `uri`, and settles by that whether the cache
    /// still holds it: the entry that is handed out is the one that the cache
    /// holds for `uri`, and where none is handed out the cache holds none.
    /// The lookup stores and changes nothing; the cache may have forgotten
    /// entries.
    pub fn lookup(&mut self, uri: &String) -> (found: Option<CacheEntry>)
        ensures
            slot_model(found) == slot_at(final(self)@, uri@),
            kept_or_forgotten(old(self)@, final(self)@),
            final(self).config_spec() == old(self).config_spec(),
            old(self).wf() ==> final(self).wf(),
    {
        cache_get(&mut self.cache, uri)
    }

    /// Runs an event at time `now` through the cache, as one atomic step on
    /// the slot of the event's key, and hands out the post that the step
    /// dispatches, if any.
    pub fn apply(&mut self, event: Event, now: u64) -> (dispatch: Option<DispatchedPost>)
        requires
            old(self).wf(),
        ensures
            final(self).wf(),
            final(self).config_spec() == old(self).config_spec(),
            stepped(
                old(self)@,
                final(self)@,
                event@,
                now as nat,
                old(self).config_spec().threshold_spec(),
                old(self).config_spec().retention_spec(),
                crate::aggregator::dispatch_model(dispatch),
            ),
    {
        let key = event.uri().clone();
        // An entry that a creation stores counts no like, which is below the
        // threshold because the threshold is at least one.
        let threshold = self.config.threshold();
        assert(threshold >= 1);
        let applied = cache_compute(&mut self.cache, key, &event, now, &self.config);
        let removed = match applied {
            Applied::Removed(entry) => Some(entry),
            _ => None,
        };
        dispatch_of(removed, &event, now, &self.config)
    }

    /// A post event arrives at time `now`. A creation starts tracking the
    /// post unless it is tracked already; deletions and updates change
    /// nothing. No post event dispatches.
    pub fn on_post(&mut self, raw: RawPost, now: u64)
        requires
            old(self).wf(),
        ensures
            final(self).wf(),
            final(self).config_spec() == old(self).config_spec(),
            match crate::aggregator::creation_of(raw) {
                Some(event) => stepped(
                    old(self)@,
                    final(self)@,
                    event,
                    now as nat,
                    old(self).config_spec().threshold_spec(),
                    old(self).config_spec().retention_spec(),
                    None,
                ),
                None => final(self)@ == old(self)@,
            },
    {
        match Event::from_raw_post(raw) {
            Some(event) => {
                let _ = self.apply(event, now);
            },
            None => {},
        }
    }

    /// A like arrives at time `now`. It advances the post that it names, and
    /// hands the post out if this like brings it to the threshold. A like for
    /// a post that is not tracked is dropped.
    pub fn on_like(&mut self, like: Like, now: u64) -> (dispatch: Option<DispatchedPost>)
        requires
            old(self).wf(),
        ensures
            final(self).wf(),
            final(self).config_spec() == old(self).config_spec(),
            stepped(
                old(self)@,
                final(self)@,
                EventModel::Liked { uri: like.uri@ },
                now as nat,
                old(self).config_spec().threshold_spec(),
                old(self).config_spec().retention_spec(),
                crate::aggregator::dispatch_model(dispatch),
            ),
    {
        self.apply(Event::from_like(like), now)
    }
}

} // verus!
