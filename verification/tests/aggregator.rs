use ott::aggregator::{
    dispatch_of, is_expired, transition, AggregatorConfig, CacheEntry, ConfigError,
    DispatchedPost, Event, Transition, DEFAULT_RETENTION_SECS, DEFAULT_THRESHOLD,
    MAX_RETENTION_SECS,
};
use ott::cache::PopularityCache;
use ott::types::{Commit, Like, Post, RawPost, Record};

fn config(threshold: u32, retention_secs: u64) -> AggregatorConfig {
    AggregatorConfig::new(threshold, retention_secs).unwrap()
}

fn creation(uri: &str, text: &str) -> RawPost {
    RawPost {
        did: "did:plc:author".to_string(),
        uri: uri.to_string(),
        commit: Commit::Create { record: Record { text: text.to_string() } },
    }
}

fn like(uri: &str) -> Like {
    Like { did: "did:plc:fan".to_string(), uri: uri.to_string() }
}

fn entry(uri: &str, text: &str, count: u32, inserted_at: u64) -> CacheEntry {
    CacheEntry {
        post: Post {
            did: "did:plc:author".to_string(),
            uri: uri.to_string(),
            text: text.to_string(),
            count,
        },
        inserted_at,
    }
}

#[test]
fn config_rejects_zero_threshold() {
    assert_eq!(AggregatorConfig::new(0, 60), Err(ConfigError::ZeroThreshold));
    assert_eq!(AggregatorConfig::new(0, MAX_RETENTION_SECS + 1), Err(ConfigError::ZeroThreshold));
}

#[test]
fn config_rejects_retention_over_a_thousand_years() {
    assert_eq!(
        AggregatorConfig::new(1, MAX_RETENTION_SECS + 1),
        Err(ConfigError::RetentionTooLong)
    );
    assert_eq!(AggregatorConfig::new(1, u64::MAX), Err(ConfigError::RetentionTooLong));
}

#[test]
fn config_keeps_what_it_was_given() {
    let made = config(DEFAULT_THRESHOLD, DEFAULT_RETENTION_SECS);
    assert_eq!(made.threshold(), 20);
    assert_eq!(made.retention_secs(), 3600);
    let widest = config(u32::MAX, MAX_RETENTION_SECS);
    assert_eq!(widest.threshold(), u32::MAX);
    assert_eq!(widest.retention_secs(), 31_536_000_000);
}

#[test]
fn cache_accepts_the_longest_retention() {
    let mut cache = PopularityCache::new(config(2, MAX_RETENTION_SECS));
    cache.on_post(creation("at://a", "hello"), 0);
    assert_eq!(cache.lookup(&"at://a".to_string()), Some(entry("at://a", "hello", 0, 0)));
}

#[test]
fn creation_event_of_a_create_commit() {
    let event = Event::from_raw_post(creation("at://a", "hello"));
    assert_eq!(
        event,
        Some(Event::Created {
            did: "did:plc:author".to_string(),
            uri: "at://a".to_string(),
            text: "hello".to_string(),
        })
    );
}

#[test]
fn deletions_and_updates_are_no_creation() {
    let deleted =
        RawPost { did: "d".to_string(), uri: "at://a".to_string(), commit: Commit::Delete };
    let updated =
        RawPost { did: "d".to_string(), uri: "at://a".to_string(), commit: Commit::Update };
    assert_eq!(Event::from_raw_post(deleted), None);
    assert_eq!(Event::from_raw_post(updated), None);
}

#[test]
fn like_event_keeps_the_key_only() {
    let event = Event::from_like(like("at://a"));
    assert_eq!(event, Event::Liked { uri: "at://a".to_string() });
    assert_eq!(event.uri(), "at://a");
}

#[test]
fn expiry_is_strictly_after_the_window() {
    let cfg = config(20, 10);
    let held = entry("at://a", "t", 0, 5);
    assert!(!is_expired(&held, 0, &cfg));
    assert!(!is_expired(&held, 5, &cfg));
    assert!(!is_expired(&held, 15, &cfg));
    assert!(is_expired(&held, 16, &cfg));
    assert!(is_expired(&held, u64::MAX, &cfg));
}

#[test]
fn expiry_does_not_overflow_at_the_end_of_time() {
    let cfg = config(20, MAX_RETENTION_SECS);
    let held = entry("at://a", "t", 0, u64::MAX);
    assert!(!is_expired(&held, u64::MAX, &cfg));
    let early = entry("at://a", "t", 0, 0);
    assert!(!is_expired(&early, MAX_RETENTION_SECS, &cfg));
    assert!(is_expired(&early, MAX_RETENTION_SECS + 1, &cfg));
}

#[test]
fn transition_creation_on_empty_slot_stores_fresh_entry() {
    let cfg = config(20, 3600);
    let event = Event::from_raw_post(creation("at://a", "hello")).unwrap();
    assert_eq!(
        transition(None, &event, 42, &cfg),
        Transition::Put(entry("at://a", "hello", 0, 42))
    );
}

#[test]
fn transition_duplicate_creation_keeps_the_entry() {
    let cfg = config(20, 3600);
    let event = Event::from_raw_post(creation("at://a", "other text")).unwrap();
    assert_eq!(
        transition(Some(entry("at://a", "hello", 7, 1)), &event, 42, &cfg),
        Transition::Keep
    );
}

#[test]
fn transition_creation_replaces_an_expired_entry() {
    let cfg = config(20, 10);
    let event = Event::from_raw_post(creation("at://a", "again")).unwrap();
    assert_eq!(
        transition(Some(entry("at://a", "hello", 7, 1)), &event, 12, &cfg),
        Transition::Put(entry("at://a", "again", 0, 12))
    );
}

#[test]
fn transition_like_below_threshold_counts_up() {
    let cfg = config(20, 3600);
    let event = Event::from_like(like("at://a"));
    assert_eq!(
        transition(Some(entry("at://a", "hello", 0, 1)), &event, 2, &cfg),
        Transition::Put(entry("at://a", "hello", 1, 1))
    );
    assert_eq!(
        transition(Some(entry("at://a", "hello", 18, 1)), &event, 2, &cfg),
        Transition::Put(entry("at://a", "hello", 19, 1))
    );
}

#[test]
fn transition_like_at_threshold_removes() {
    let cfg = config(20, 3600);
    let event = Event::from_like(like("at://a"));
    assert_eq!(
        transition(Some(entry("at://a", "hello", 19, 1)), &event, 2, &cfg),
        Transition::Remove
    );
}

#[test]
fn transition_like_on_empty_slot_keeps_it_empty() {
    let cfg = config(20, 3600);
    let event = Event::from_like(like("at://a"));
    assert_eq!(transition(None, &event, 2, &cfg), Transition::Keep);
}

#[test]
fn transition_like_on_expired_entry_removes() {
    let cfg = config(20, 10);
    let event = Event::from_like(like("at://a"));
    assert_eq!(
        transition(Some(entry("at://a", "hello", 3, 0)), &event, 11, &cfg),
        Transition::Remove
    );
}

#[test]
fn transition_like_at_the_top_of_the_range_removes() {
    let cfg = config(u32::MAX, 3600);
    let event = Event::from_like(like("at://a"));
    assert_eq!(
        transition(Some(entry("at://a", "hello", u32::MAX - 2, 0)), &event, 1, &cfg),
        Transition::Put(entry("at://a", "hello", u32::MAX - 1, 0))
    );
    assert_eq!(
        transition(Some(entry("at://a", "hello", u32::MAX - 1, 0)), &event, 1, &cfg),
        Transition::Remove
    );
    assert_eq!(
        transition(Some(entry("at://a", "hello", u32::MAX, 0)), &event, 1, &cfg),
        Transition::Remove
    );
}

#[test]
fn dispatch_of_the_like_that_reaches_the_threshold() {
    let cfg = config(20, 3600);
    let event = Event::from_like(like("at://a"));
    assert_eq!(
        dispatch_of(Some(entry("at://a", "hello", 19, 1)), &event, 2, &cfg),
        Some(DispatchedPost {
            uri: "at://a".to_string(),
            text: "hello".to_string(),
            final_like_count: 20,
        })
    );
}

#[test]
fn dispatch_of_nothing_below_threshold_or_expired_or_on_creation() {
    let cfg = config(20, 10);
    let liked = Event::from_like(like("at://a"));
    let created = Event::from_raw_post(creation("at://a", "hello")).unwrap();
    assert_eq!(dispatch_of(None, &liked, 2, &cfg), None);
    assert_eq!(dispatch_of(Some(entry("at://a", "hello", 18, 1)), &liked, 2, &cfg), None);
    assert_eq!(dispatch_of(Some(entry("at://a", "hello", 19, 1)), &liked, 12, &cfg), None);
    assert_eq!(dispatch_of(Some(entry("at://a", "hello", 19, 1)), &created, 2, &cfg), None);
}

#[test]
fn dispatch_count_saturates_at_the_top_of_the_range() {
    let cfg = config(u32::MAX, 10);
    let liked = Event::from_like(like("at://a"));
    let sent = dispatch_of(Some(entry("at://a", "hello", u32::MAX, 1)), &liked, 2, &cfg);
    assert_eq!(sent.unwrap().final_like_count, u32::MAX);
    let sent = dispatch_of(Some(entry("at://a", "hello", u32::MAX - 1, 1)), &liked, 2, &cfg);
    assert_eq!(sent.unwrap().final_like_count, u32::MAX);
}

#[test]
fn new_cache_is_empty() {
    let mut cache = PopularityCache::new(config(20, 3600));
    assert_eq!(cache.lookup(&"at://a".to_string()), None);
    assert_eq!(cache.config(), config(20, 3600));
}

#[test]
fn twentieth_like_dispatches_once() {
    let mut cache = PopularityCache::new(config(20, 3600));
    let key = "A".to_string();
    cache.on_post(creation("A", "a popular post"), 0);
    let mut dispatches: Vec<DispatchedPost> = Vec::new();
    for n in 1..=19u32 {
        if let Some(post) = cache.on_like(like("A"), 1) {
            dispatches.push(post);
        }
        assert_eq!(cache.lookup(&key), Some(entry("A", "a popular post", n, 0)));
    }
    assert_eq!(dispatches.len(), 0);
    let twentieth = cache.on_like(like("A"), 1);
    assert_eq!(
        twentieth,
        Some(DispatchedPost {
            uri: "A".to_string(),
            text: "a popular post".to_string(),
            final_like_count: 20,
        })
    );
    assert_eq!(cache.lookup(&key), None);
    assert_eq!(cache.on_like(like("A"), 1), None);
    assert_eq!(cache.lookup(&key), None);
}

#[test]
fn like_without_post_is_dropped() {
    let mut cache = PopularityCache::new(config(20, 3600));
    assert_eq!(cache.on_like(like("at://unknown"), 5), None);
    assert_eq!(cache.lookup(&"at://unknown".to_string()), None);
    assert_eq!(cache.apply(Event::Liked { uri: "at://unknown".to_string() }, 6), None);
    assert_eq!(cache.lookup(&"at://unknown".to_string()), None);
}

#[test]
fn like_before_creation_does_not_count() {
    let mut cache = PopularityCache::new(config(2, 3600));
    assert_eq!(cache.on_like(like("A"), 0), None);
    cache.on_post(creation("A", "late"), 1);
    assert_eq!(cache.on_like(like("A"), 2), None);
    assert_eq!(cache.lookup(&"A".to_string()), Some(entry("A", "late", 1, 1)));
}

#[test]
fn duplicate_creation_is_ignored() {
    let mut cache = PopularityCache::new(config(20, 3600));
    cache.on_post(creation("A", "first"), 10);
    assert_eq!(cache.on_like(like("A"), 11), None);
    assert_eq!(cache.on_like(like("A"), 12), None);
    cache.on_post(creation("A", "second"), 13);
    assert_eq!(cache.lookup(&"A".to_string()), Some(entry("A", "first", 2, 10)));
}

#[test]
fn deletions_and_updates_leave_the_cache_alone() {
    let mut cache = PopularityCache::new(config(20, 3600));
    cache.on_post(RawPost { did: "d".to_string(), uri: "A".to_string(), commit: Commit::Delete }, 0);
    cache.on_post(RawPost { did: "d".to_string(), uri: "A".to_string(), commit: Commit::Update }, 0);
    assert_eq!(cache.lookup(&"A".to_string()), None);
    cache.on_post(creation("A", "kept"), 1);
    cache.on_post(RawPost { did: "d".to_string(), uri: "A".to_string(), commit: Commit::Delete }, 2);
    assert_eq!(cache.lookup(&"A".to_string()), Some(entry("A", "kept", 0, 1)));
}

#[test]
fn each_post_is_dispatched_at_most_once() {
    let mut cache = PopularityCache::new(config(3, 3600));
    cache.on_post(creation("A", "a"), 0);
    cache.on_post(creation("B", "b"), 0);
    let mut sent: Vec<String> = Vec::new();
    for round in 0..10u64 {
        for uri in ["A", "B", "C"] {
            if let Some(post) = cache.on_like(like(uri), round) {
                assert_eq!(post.final_like_count, 3);
                sent.push(post.uri);
            }
        }
    }
    assert_eq!(sent, vec!["A".to_string(), "B".to_string()]);
}

#[test]
fn keys_do_not_disturb_each_other() {
    let mut cache = PopularityCache::new(config(2, 3600));
    cache.on_post(creation("A", "a"), 0);
    cache.on_post(creation("B", "b"), 1);
    assert_eq!(cache.on_like(like("A"), 2), None);
    assert_eq!(cache.lookup(&"B".to_string()), Some(entry("B", "b", 0, 1)));
    let sent = cache.on_like(like("A"), 3).unwrap();
    assert_eq!(sent.uri, "A");
    assert_eq!(sent.text, "a");
    assert_eq!(cache.lookup(&"B".to_string()), Some(entry("B", "b", 0, 1)));
}

#[test]
fn expired_entry_is_purged_without_dispatch() {
    let mut cache = PopularityCache::new(config(1, 10));
    cache.on_post(creation("A", "too late"), 100);
    assert_eq!(cache.on_like(like("A"), 111), None);
    assert_eq!(cache.lookup(&"A".to_string()), None);
}

#[test]
fn entry_at_the_edge_of_the_window_still_counts() {
    let mut cache = PopularityCache::new(config(1, 10));
    cache.on_post(creation("A", "just in time"), 100);
    let sent = cache.on_like(like("A"), 110);
    assert_eq!(
        sent,
        Some(DispatchedPost {
            uri: "A".to_string(),
            text: "just in time".to_string(),
            final_like_count: 1,
        })
    );
}

#[test]
fn expired_entry_loses_its_count() {
    let mut cache = PopularityCache::new(config(3, 10));
    cache.on_post(creation("A", "old"), 0);
    assert_eq!(cache.on_like(like("A"), 1), None);
    assert_eq!(cache.on_like(like("A"), 2), None);
    assert_eq!(cache.on_like(like("A"), 11), None);
    assert_eq!(cache.lookup(&"A".to_string()), None);
    assert_eq!(cache.on_like(like("A"), 12), None);
}

#[test]
fn creation_after_dispatch_tracks_the_post_anew() {
    let mut cache = PopularityCache::new(config(1, 3600));
    cache.on_post(creation("A", "first"), 0);
    assert!(cache.on_like(like("A"), 1).is_some());
    assert_eq!(cache.on_like(like("A"), 2), None);
    cache.on_post(creation("A", "second"), 3);
    assert_eq!(cache.lookup(&"A".to_string()), Some(entry("A", "second", 0, 3)));
}

#[test]
fn threshold_of_one_dispatches_on_the_first_like() {
    let mut cache = PopularityCache::new(config(1, 3600));
    cache.on_post(creation("A", "quick"), 0);
    let sent = cache.apply(Event::Liked { uri: "A".to_string() }, 0).unwrap();
    assert_eq!(sent.final_like_count, 1);
    assert_eq!(sent.text, "quick");
}

#[test]
fn clones_are_equal() {
    let post = Post { did: "d".to_string(), uri: "u".to_string(), text: "t".to_string(), count: 4 };
    assert_eq!(post.clone(), post);
    let held = entry("u", "t", 4, 9);
    assert_eq!(held.clone(), held);
    let liked = like("u");
    assert_eq!(liked.clone(), liked);
    let record = Record { text: "t".to_string() };
    assert_eq!(record.clone(), record);
    assert_eq!(
        Post::default(),
        Post { did: String::new(), uri: String::new(), text: String::new(), count: 0 }
    );
}
