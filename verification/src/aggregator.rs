//! The popularity state machine of one post.
//!
//! Every post key has a slot of its own, which is empty or tracks the post
//! with the likes counted so far. A creation event fills an empty slot, a like
//! event advances a filled one, and the like that brings the count to the
//! threshold empties the slot and dispatches the post. A tracked post that has
//! outlived the retention window counts as gone: it is never dispatched.

use vstd::prelude::*;
use crate::types::{Commit, Like, Post, PostModel, RawPost};

verus! {

/// The longest retention window that can be configured, in seconds: a
/// thousand years of 365 days.
pub const MAX_RETENTION_SECS: u64 = 31_536_000_000;

/// The like count at which a post is dispatched unless configured otherwise.
pub const DEFAULT_THRESHOLD: u32 = 20;

/// The retention window, in seconds, unless configured otherwise: one hour.
pub const DEFAULT_RETENTION_SECS: u64 = 3600;

/// Why a configuration was refused.
#[derive(Debug, Clone, Copy, PartialEq, Eq, Structural)]
pub enum ConfigError {
    /// The threshold is zero: no like count lies below it.
    ZeroThreshold,
    /// The retention window is longer than [`MAX_RETENTION_SECS`].
    RetentionTooLong,
}

/// The like count at which a post is dispatched, and how long a post may stay
/// tracked.
#[derive(Debug, Clone, Copy, PartialEq, Eq)]
pub struct AggregatorConfig {
    threshold: u32,
    retention_secs: u64,
}

impl AggregatorConfig {
    /// The like count at which a post is dispatched. It is at least one.
    pub closed spec fn threshold_spec(&self) -> nat {
        self.threshold as nat
    }

    /// The retention window in seconds.
    pub closed spec fn retention_spec(&self) -> nat {
        self.retention_secs as nat
    }

    #[verifier::type_invariant]
    spec fn well_formed(&self) -> bool {
        &&& self.threshold >= 1
        &&& self.retention_secs <= MAX_RETENTION_SECS
    }

    /// A configuration, unless the threshold is zero or the window too long.
    pub fn new(threshold: u32, retention_secs: u64) -> (made: Result<Self, ConfigError>)
        ensures
            threshold == 0 ==> made == Err::<Self, ConfigError>(ConfigError::ZeroThreshold),
            threshold != 0 && retention_secs > MAX_RETENTION_SECS ==> made == Err::<
                Self,
                ConfigError,
            >(ConfigError::RetentionTooLong),
            threshold != 0 && retention_secs <= MAX_RETENTION_SECS ==> made is Ok
                && made->Ok_0.threshold_spec() == threshold && made->Ok_0.retention_spec()
                == retention_secs,
    {
        if threshold == 0 {
            Err(ConfigError::ZeroThreshold)
        } else if retention_secs > MAX_RETENTION_SECS {
            Err(ConfigError::RetentionTooLong)
        } else {
            Ok(AggregatorConfig { threshold, retention_secs })
        }
    }

    /// The like count at which a post is dispatched. It is at least one.
    pub fn threshold(&self) -> (n: u32)
        ensures
            n == self.threshold_spec(),
            n >= 1,
    {
        proof {
            use_type_invariant(self);
        }
        self.threshold
    }

    /// The retention window in seconds. It is at most [`MAX_RETENTION_SECS`].
    pub fn retention_secs(&self) -> (n: u64)
        ensures
            n == self.retention_spec(),
            n <= MAX_RETENTION_SECS,
    {
        proof {
            use_type_invariant(self);
        }
        self.retention_secs
    }

}

/// A tracked post with the time, in seconds, at which tracking began.
#[derive(Debug, PartialEq, Eq)]
pub struct CacheEntry {
    pub post: Post,
    pub inserted_at: u64,
}

/// Model of a [`CacheEntry`].
pub ghost struct EntryModel {
    pub post: PostModel,
    pub inserted_at: nat,
}

impl View for CacheEntry {
    type V = EntryModel;

    open spec fn view(&self) -> EntryModel {
        EntryModel { post: self.post@, inserted_at: self.inserted_at as nat }
    }
}

impl Clone for CacheEntry {
    fn clone(&self) -> (r: Self)
        ensures
            r@ == self@,
    {
        CacheEntry { post: self.post.clone(), inserted_at: self.inserted_at }
    }
}

/// A post that reached the threshold, as it is handed on for enrichment.
#[derive(Debug, PartialEq, Eq)]
pub struct DispatchedPost {
    pub uri: String,
    pub text: String,
    pub final_like_count: u32,
}

/// Model of a [`DispatchedPost`].
pub ghost struct DispatchModel {
    pub uri: Seq<char>,
    pub text: Seq<char>,
    pub final_like_count: nat,
}

impl View for DispatchedPost {
    type V = DispatchModel;

    open spec fn view(&self) -> DispatchModel {
        DispatchModel {
            uri: self.uri@,
            text: self.text@,
            final_like_count: self.final_like_count as nat,
        }
    }
}

/// An event of one of the two streams, reduced to what the cache needs.
#[derive(Debug, PartialEq, Eq)]
pub enum Event {
    /// A post was created.
    Created { did: String, uri: String, text: String },
    /// A post was liked.
    Liked { uri: String },
}

/// Model of an [`Event`].
pub ghost enum EventModel {
    Created { did: Seq<char>, uri: Seq<char>, text: Seq<char> },
    Liked { uri: Seq<char> },
}

impl View for Event {
    type V = EventModel;

    open spec fn view(&self) -> EventModel {
        match self {
            Event::Created { did, uri, text } => EventModel::Created {
                did: did@,
                uri: uri@,
                text: text@,
            },
            Event::Liked { uri } => EventModel::Liked { uri: uri@ },
        }
    }
}

impl EventModel {
    /// The key of the post that the event is about.
    pub open spec fn key(self) -> Seq<char> {
        match self {
            EventModel::Created { uri, .. } => uri,
            EventModel::Liked { uri } => uri,
        }
    }
}

/// The creation event that a post event stands for, if it is one.
pub open spec fn creation_of(raw: RawPost) -> Option<EventModel> {
    match raw.commit {
        Commit::Create { record } => Some(
            EventModel::Created { did: raw.did@, uri: raw.uri@, text: record.text@ },
        ),
        _ => None,
    }
}

impl Event {
    /// The creation event of a post event. Deletions and updates are none.
    pub fn from_raw_post(raw: RawPost) -> (event: Option<Event>)
        ensures
            event is Some <==> creation_of(raw) is Some,
            event is Some ==> event->0@ == creation_of(raw)->0,
    {
        match raw.commit {
            Commit::Create { record } => Some(
                Event::Created { did: raw.did, uri: raw.uri, text: record.text },
            ),
            _ => None,
        }
    }

    /// The like event of a decoded like. Who liked the post plays no part.
    pub fn from_like(like: Like) -> (event: Event)
        ensures
            event@ == (EventModel::Liked { uri: like.uri@ }),
    {
        Event::Liked { uri: like.uri }
    }

    /// The key of the post that the event is about.
    pub fn uri(&self) -> (uri: &String)
        ensures
            uri@ == self@.key(),
    {
        match self {
            Event::Created { uri, .. } => uri,
            Event::Liked { uri } => uri,
        }
    }
}

/// What a step asks of the cache for the key of its event.
#[derive(Debug, PartialEq, Eq)]
pub enum Transition {
    /// Leave the slot as it is.
    Keep,
    /// Store this entry in the slot.
    Put(CacheEntry),
    /// Empty the slot.
    Remove,
}

/// Model of a [`Transition`].
pub ghost enum TransitionModel {
    Keep,
    Put(EntryModel),
    Remove,
}

impl View for Transition {
    type V = TransitionModel;

    open spec fn view(&self) -> TransitionModel {
        match self {
            Transition::Keep => TransitionModel::Keep,
            Transition::Put(entry) => TransitionModel::Put(entry@),
            Transition::Remove => TransitionModel::Remove,
        }
    }
}

/// The model of an entry that may be missing.
pub open spec fn slot_model(slot: Option<CacheEntry>) -> Option<EntryModel> {
    match slot {
        Some(entry) => Some(entry@),
        None => None,
    }
}

/// The model of a dispatch that may be missing.
pub open spec fn dispatch_model(dispatch: Option<DispatchedPost>) -> Option<DispatchModel> {
    match dispatch {
        Some(post) => Some(post@),
        None => None,
    }
}

/// Whether an entry has outlived the retention window at time `now`.
pub open spec fn expired(entry: EntryModel, now: nat, retention: nat) -> bool {
    now > entry.inserted_at + retention
}

/// What a slot counts as at time `now`: an entry that has outlived the
/// window counts as gone.
pub open spec fn live(slot: Option<EntryModel>, now: nat, retention: nat) -> Option<EntryModel> {
    match slot {
        Some(entry) => if expired(entry, now, retention) {
            None
        } else {
            Some(entry)
        },
        None => None,
    }
}

/// The entry that a creation event starts tracking.
pub open spec fn fresh_entry(did: Seq<char>, uri: Seq<char>, text: Seq<char>, now: nat) -> EntryModel {
    EntryModel { post: PostModel { did, uri, text, count: 0 }, inserted_at: now }
}

/// The like count after one more like. A count at the top of its range stays.
pub open spec fn bumped(count: nat) -> nat {
    if count < u32::MAX {
        count + 1
    } else {
        count
    }
}

/// An entry with one more like.
pub open spec fn liked_entry(entry: EntryModel) -> EntryModel {
    EntryModel {
        post: PostModel { count: bumped(entry.post.count), ..entry.post },
        inserted_at: entry.inserted_at,
    }
}

/// Whether one more like brings an entry to the threshold.
pub open spec fn reaches_threshold(entry: EntryModel, threshold: nat) -> bool {
    entry.post.count + 1 >= threshold
}

/// The slot after an event at time `now`.
///
/// A creation event fills a slot that is empty or has expired, and leaves a
/// live one alone. A like event advances a live slot, or empties it when the
/// threshold is reached; on an empty or expired slot it leaves nothing.
pub open spec fn next_slot(
    slot: Option<EntryModel>,
    event: EventModel,
    now: nat,
    threshold: nat,
    retention: nat,
) -> Option<EntryModel> {
    match event {
        EventModel::Created { did, uri, text } => match live(slot, now, retention) {
            Some(entry) => Some(entry),
            None => Some(fresh_entry(did, uri, text, now)),
        },
        EventModel::Liked { .. } => match live(slot, now, retention) {
            Some(entry) => if reaches_threshold(entry, threshold) {
                None
            } else {
                Some(liked_entry(entry))
            },
            None => None,
        },
    }
}

/// The post that an event at time `now` dispatches, if any: the like that
/// brings a live entry to the threshold dispatches it, with the count that
/// this like completes. Nothing else dispatches.
pub open spec fn dispatched(
    slot: Option<EntryModel>,
    event: EventModel,
    now: nat,
    threshold: nat,
    retention: nat,
) -> Option<DispatchModel> {
    match event {
        EventModel::Created { .. } => None,
        EventModel::Liked { .. } => match live(slot, now, retention) {
            Some(entry) => if reaches_threshold(entry, threshold) {
                Some(
                    DispatchModel {
                        uri: entry.post.uri,
                        text: entry.post.text,
                        final_like_count: bumped(entry.post.count),
                    },
                )
            } else {
                None
            },
            None => None,
        },
    }
}

/// What an event at time `now` asks of the cache, given the entry that the
/// cache presents for the event's key.
pub open spec fn transition_model(
    seen: Option<EntryModel>,
    event: EventModel,
    now: nat,
    threshold: nat,
    retention: nat,
) -> TransitionModel {
    match event {
        EventModel::Created { did, uri, text } => match live(seen, now, retention) {
            Some(_) => TransitionModel::Keep,
            None => TransitionModel::Put(fresh_entry(did, uri, text, now)),
        },
        EventModel::Liked { .. } => match seen {
            None => TransitionModel::Keep,
            Some(entry) => if expired(entry, now, retention) || reaches_threshold(
                entry,
                threshold,
            ) {
                TransitionModel::Remove
            } else {
                TransitionModel::Put(liked_entry(entry))
            },
        },
    }
}

/// The slot after the cache has carried out a transition on it.
pub open spec fn carried_out(seen: Option<EntryModel>, transition: TransitionModel) -> Option<
    EntryModel,
> {
    match transition {
        TransitionModel::Keep => seen,
        TransitionModel::Put(entry) => Some(entry),
        TransitionModel::Remove => None,
    }
}

/// Carrying out the transition of an event gives the next slot.
pub proof fn lemma_transition_gives_next_slot(
    seen: Option<EntryModel>,
    event: EventModel,
    now: nat,
    threshold: nat,
    retention: nat,
)
    ensures
        carried_out(seen, transition_model(seen, event, now, threshold, retention)) == next_slot(
            seen,
            event,
            now,
            threshold,
            retention,
        ),
{
}

/// Whether the entry has outlived the window of `config` at time `now`.
pub fn is_expired(entry: &CacheEntry, now: u64, config: &AggregatorConfig) -> (gone: bool)
    ensures
        gone == expired(entry@, now as nat, config.retention_spec()),
{
    now > entry.inserted_at && now - entry.inserted_at > config.retention_secs
}

/// The like count after one more like.
fn bump(count: u32) -> (next: u32)
    ensures
        next == bumped(count as nat),
{
    if count < u32::MAX {
        count + 1
    } else {
        count
    }
}

/// Decides what the cache does with the slot of the event's key, given the
/// entry that the cache presents for it.
pub fn transition(
    seen: Option<CacheEntry>,
    event: &Event,
    now: u64,
    config: &AggregatorConfig,
) -> (decided: Transition)
    ensures
        decided@ == transition_model(
            slot_model(seen),
            event@,
            now as nat,
            config.threshold_spec(),
            config.retention_spec(),
        ),
{
    proof {
        use_type_invariant(config);
    }
    match event {
        Event::Created { did, uri, text } => {
            let present = match &seen {
                Some(entry) => !is_expired(entry, now, config),
                None => false,
            };
            if present {
                Transition::Keep
            } else {
                Transition::Put(
                    CacheEntry {
                        post: Post {
                            did: did.clone(),
                            uri: uri.clone(),
                            text: text.clone(),
                            count: 0,
                        },
                        inserted_at: now,
                    },
                )
            }
        },
        Event::Liked { .. } => match seen {
            None => Transition::Keep,
            Some(entry) => {
                if is_expired(&entry, now, config) || entry.post.count >= config.threshold - 1 {
                    Transition::Remove
                } else {
                    let CacheEntry { post, inserted_at } = entry;
                    let Post { did, uri, text, count } = post;
                    Transition::Put(
                        CacheEntry { post: Post { did, uri, text, count: bump(count) }, inserted_at },
                    )
                }
            },
        },
    }
}

/// The post that an event dispatches when the cache has removed `removed`
/// for it: see [`dispatched`].
pub fn dispatch_of(
    removed: Option<CacheEntry>,
    event: &Event,
    now: u64,
    config: &AggregatorConfig,
) -> (dispatch: Option<DispatchedPost>)
    ensures
        dispatch_model(dispatch) == dispatched(
            slot_model(removed),
            event@,
            now as nat,
            config.threshold_spec(),
            config.retention_spec(),
        ),
{
    proof {
        use_type_invariant(config);
    }
    match event {
        Event::Created { .. } => None,
        Event::Liked { .. } => match removed {
            None => None,
            Some(entry) => {
                if is_expired(&entry, now, config) || entry.post.count < config.threshold - 1 {
                    None
                } else {
                    let CacheEntry { post, inserted_at: _ } = entry;
                    let Post { did: _, uri, text, count } = post;
                    Some(DispatchedPost { uri, text, final_like_count: bump(count) })
                }
            },
        },
    }
}

} // verus!
