use hybrid_cache::api::cached_handlers::get_cache_stats;
use hybrid_cache::cache::memory_cache::NANOS_PER_SEC;
use hybrid_cache::cache::network_sweep::NetworkSweep;
use hybrid_cache::cache::pattern::matches_pattern;
use hybrid_cache::cache::redis_cache::{
    redis_url, CacheLookup, NetworkAck, NetworkRead, RedisCache, Tier, DEFAULT_REDIS_URL,
};
use std::collections::HashMap;

/// A stand-in for the network tier: it keeps what it is given until the
/// expiry, unless it is told to fail.
struct Network {
    held: HashMap<String, (String, u128)>,
    failing: bool,
}

/// A store and the network tier it talks to, driven the way a caller
/// drives them: ask the network tier where there is a handle, then tell
/// the store what came back.
struct Rig {
    cache: RedisCache<u32>,
    network: Network,
}

impl Rig {
    fn with_network() -> Rig {
        Rig {
            cache: RedisCache::new(Ok::<u32, String>(1)),
            network: Network { held: HashMap::new(), failing: false },
        }
    }

    fn without_network() -> Rig {
        Rig {
            cache: RedisCache::new(Err::<u32, String>("connection refused".to_string())),
            network: Network { held: HashMap::new(), failing: false },
        }
    }

    fn set(&mut self, key: &str, payload: &str, ttl_secs: usize, now: u64) -> Tier {
        let ack = if self.cache.connection().is_none() {
            NetworkAck::NotAttempted
        } else if self.network.failing {
            NetworkAck::Failed
        } else {
            let expires_at = now as u128 + ttl_secs as u128 * NANOS_PER_SEC;
            self.network.held.insert(key.to_string(), (payload.to_string(), expires_at));
            NetworkAck::Succeeded
        };
        self.cache.set(key, payload.to_string(), ttl_secs, ack, now)
    }

    fn get(&mut self, key: &str, now: u64) -> CacheLookup<String> {
        self.get_with(key, now, |payload| Ok::<String, String>(payload)).unwrap()
    }

    fn get_json(&mut self, key: &str, now: u64) -> Result<Option<serde_json::Value>, serde_json::Error> {
        self.get_with(key, now, |payload| serde_json::from_str(&payload)).map(CacheLookup::payload)
    }

    fn get_with<T, E, F: FnOnce(String) -> Result<T, E>>(
        &mut self,
        key: &str,
        now: u64,
        decoder: F,
    ) -> Result<CacheLookup<T>, E> {
        let read = if self.cache.connection().is_none() {
            NetworkRead::NotAttempted
        } else if self.network.failing {
            NetworkRead::Failed
        } else {
            match self.network.held.get(key) {
                Some((payload, expires_at)) if *expires_at > now as u128 => {
                    NetworkRead::Found(payload.clone())
                }
                _ => NetworkRead::NotFound,
            }
        };
        self.cache.get(key, read, now, decoder)
    }

    fn delete(&mut self, key: &str) {
        let ack = if self.cache.connection().is_none() {
            NetworkAck::NotAttempted
        } else if self.network.failing {
            NetworkAck::Failed
        } else {
            self.network.held.remove(key);
            NetworkAck::Succeeded
        };
        self.cache.delete(key, ack);
    }

    fn delete_pattern(&mut self, pattern: &str) -> usize {
        let ack = if self.cache.connection().is_none() {
            NetworkAck::NotAttempted
        } else if self.network.failing {
            NetworkAck::Failed
        } else {
            let listed: Vec<String> = self
                .network
                .held
                .keys()
                .filter(|key| matches_pattern(pattern, key))
                .cloned()
                .collect();
            let mut sweep = NetworkSweep::new(listed);
            loop {
                let key = match sweep.next_key() {
                    Some(key) => key.clone(),
                    None => break,
                };
                let removed = self.network.held.remove(&key).is_some();
                sweep.record(removed);
            }
            sweep.outcome()
        };
        self.cache.delete_pattern(pattern, ack)
    }

    fn clear_all(&mut self) {
        let ack = if self.cache.connection().is_none() {
            NetworkAck::NotAttempted
        } else if self.network.failing {
            NetworkAck::Failed
        } else {
            self.network.held.clear();
            NetworkAck::Succeeded
        };
        self.cache.clear_all(ack);
    }
}

fn test_value() -> serde_json::Value {
    let mut object = serde_json::Map::new();
    object.insert("test".to_string(), serde_json::Value::String("value".to_string()));
    serde_json::Value::Object(object)
}

#[test]
fn test_memory_cache_set_get() {
    let mut cache = Rig::without_network();

    let key = "test:key";
    let value = test_value();

    cache.set(key, &serde_json::to_string(&value).unwrap(), 60, 0);
    let retrieved: Option<serde_json::Value> = cache.get_json(key, 0).unwrap();

    assert_eq!(retrieved, Some(value));
}

#[test]
fn test_cache_delete() {
    let mut cache = Rig::without_network();

    let key = "test:delete";
    let value = test_value();

    cache.set(key, &serde_json::to_string(&value).unwrap(), 60, 0);
    cache.delete(key);

    let retrieved: Option<serde_json::Value> = cache.get_json(key, 0).unwrap();
    assert_eq!(retrieved, None);
}

#[test]
fn test_cache_metrics() {
    let mut cache = Rig::without_network();

    let key = "test:metrics";
    let value = test_value();

    cache.set(key, &serde_json::to_string(&value).unwrap(), 60, 0);
    let _: Option<serde_json::Value> = cache.get_json(key, 0).unwrap();
    let _: Option<serde_json::Value> = cache.get_json(key, 0).unwrap();
    let _: Option<serde_json::Value> = cache.get_json("nonexistent", 0).unwrap();

    let metrics = cache.cache.metrics();
    assert_eq!(metrics.hits, 2);
    assert_eq!(metrics.misses, 1);
}

#[test]
fn fresh_store_after_a_failed_attempt() {
    let cache: RedisCache<u32> = RedisCache::new(Err::<u32, String>("refused".to_string()));
    assert!(!cache.is_redis_connected());
    assert!(cache.connection().is_none());
    assert!(cache.memory_cache().is_empty());
    let metrics = cache.metrics();
    assert_eq!(metrics.hits, 0);
    assert_eq!(metrics.misses, 0);
    assert_eq!(metrics.errors, 0);
    assert_eq!(metrics.invalidations, 0);
}

#[test]
fn fresh_store_with_a_handle() {
    let cache: RedisCache<u32> = RedisCache::new(Ok::<u32, String>(7));
    assert!(cache.is_redis_connected());
    assert_eq!(cache.connection(), Some(&7));
    assert!(cache.memory_cache().is_empty());
}

#[test]
fn url_is_the_configured_one_or_the_default() {
    assert_eq!(redis_url(None), "redis://127.0.0.1:6379");
    assert_eq!(redis_url(None), DEFAULT_REDIS_URL);
    assert_eq!(redis_url(Some("redis://cache:6380".to_string())), "redis://cache:6380");
    assert_eq!(redis_url(Some(String::new())), "");
}

#[test]
fn set_then_get_without_network() {
    let mut rig = Rig::without_network();
    assert_eq!(rig.set("k", "v", 1, 100), Tier::Local);
    assert_eq!(rig.get("k", 100), CacheLookup::ServedByLocal("v".to_string()));
    assert!(rig.network.held.is_empty());
    assert_eq!(rig.cache.memory_cache().get("k").unwrap().data, "v");
    assert_eq!(rig.cache.memory_cache().get("k").unwrap().expires_at, 100 + NANOS_PER_SEC);
}

#[test]
fn set_then_get_with_network() {
    let mut rig = Rig::with_network();
    assert_eq!(rig.set("k", "v", 1, 100), Tier::Network);
    assert_eq!(rig.get("k", 100), CacheLookup::ServedByNetwork("v".to_string()));
    assert!(rig.cache.memory_cache().is_empty());
    assert_eq!(rig.network.held.len(), 1);
}

#[test]
fn set_then_get_while_the_network_fails() {
    let mut rig = Rig::with_network();
    rig.network.failing = true;
    assert_eq!(rig.set("k", "v", 1, 100), Tier::Local);
    assert_eq!(rig.get("k", 100), CacheLookup::ServedByLocal("v".to_string()));
    assert!(rig.cache.is_redis_connected());
    let metrics = rig.cache.metrics();
    assert_eq!(metrics.errors, 2);
    assert_eq!(metrics.hits, 1);
    assert_eq!(metrics.misses, 0);
}

#[test]
fn absence_of_the_network_is_no_error() {
    let mut rig = Rig::without_network();
    rig.set("k", "v", 1, 0);
    rig.get("k", 0);
    rig.get("other", 0);
    rig.delete("k");
    assert_eq!(rig.cache.metrics().errors, 0);
}

#[test]
fn failed_read_is_counted_as_an_error() {
    let mut rig = Rig::with_network();
    rig.network.failing = true;
    assert_eq!(rig.get("k", 0), CacheLookup::Absent);
    let metrics = rig.cache.metrics();
    assert_eq!(metrics.errors, 1);
    assert_eq!(metrics.misses, 1);
    assert_eq!(metrics.hits, 0);
    assert!(rig.cache.is_redis_connected());
}

#[test]
fn failed_read_falls_back_to_the_live_local_entry() {
    let mut rig = Rig::with_network();
    rig.network.failing = true;
    rig.set("k", "p", 60, 0);
    let before = rig.cache.metrics().errors;
    assert_eq!(rig.get("k", 0), CacheLookup::ServedByLocal("p".to_string()));
    let metrics = rig.cache.metrics();
    assert_eq!(metrics.errors, before + 1);
    assert_eq!(metrics.hits, 1);
    assert_eq!(metrics.misses, 0);
    assert!(rig.cache.is_redis_connected());
}

#[test]
fn read_that_finds_nothing_is_no_error() {
    let mut rig = Rig::with_network();
    assert_eq!(rig.get("k", 0), CacheLookup::Absent);
    assert_eq!(rig.cache.metrics().errors, 0);
    assert_eq!(rig.cache.metrics().misses, 1);
}

#[test]
fn failed_removals_are_not_counted_as_errors() {
    let mut rig = Rig::with_network();
    rig.network.failing = true;
    rig.delete("k");
    rig.delete_pattern("k*");
    rig.clear_all();
    let metrics = rig.cache.metrics();
    assert_eq!(metrics.errors, 0);
    assert_eq!(metrics.invalidations, 0);
}

#[test]
fn network_payload_wins_over_local_payload() {
    let mut rig = Rig::with_network();
    rig.network.failing = true;
    rig.set("k", "old", 60, 0);
    rig.network.failing = false;
    rig.set("k", "new", 60, 0);
    assert_eq!(rig.get("k", 0), CacheLookup::ServedByNetwork("new".to_string()));
    assert_eq!(rig.cache.memory_cache().get("k").unwrap().data, "old");
    rig.network.failing = true;
    assert_eq!(rig.get("k", 0), CacheLookup::ServedByLocal("old".to_string()));
}

#[test]
fn local_value_is_not_handed_on_to_the_network() {
    let mut rig = Rig::with_network();
    rig.network.failing = true;
    rig.set("k", "v", 60, 0);
    rig.network.failing = false;
    assert!(rig.network.held.is_empty());
    assert_eq!(rig.get("k", 0), CacheLookup::ServedByLocal("v".to_string()));
    assert!(rig.network.held.is_empty());
}

#[test]
fn delete_then_get_without_network() {
    let mut rig = Rig::without_network();
    rig.set("k", "v", 60, 0);
    rig.delete("k");
    assert_eq!(rig.get("k", 0), CacheLookup::Absent);
    assert_eq!(rig.cache.metrics().invalidations, 0);
}

#[test]
fn delete_then_get_with_network() {
    let mut rig = Rig::with_network();
    rig.set("k", "v", 60, 0);
    rig.delete("k");
    assert_eq!(rig.get("k", 0), CacheLookup::Absent);
    assert!(rig.network.held.is_empty());
    assert_eq!(rig.cache.metrics().invalidations, 1);
}

#[test]
fn delete_of_a_missing_key_is_no_error() {
    let mut rig = Rig::with_network();
    rig.delete("nothing");
    assert_eq!(rig.cache.metrics().errors, 0);
    assert_eq!(rig.cache.metrics().invalidations, 1);
    let mut rig = Rig::without_network();
    rig.delete("nothing");
    assert_eq!(rig.cache.metrics().errors, 0);
}

#[test]
fn delete_removes_locally_even_when_the_network_fails() {
    let mut rig = Rig::with_network();
    rig.network.failing = true;
    rig.set("k", "v", 60, 0);
    rig.delete("k");
    assert!(!rig.cache.memory_cache().contains_key("k"));
    assert_eq!(rig.get("k", 0), CacheLookup::Absent);
}

#[test]
fn pattern_deletion_without_network() {
    let mut rig = Rig::without_network();
    rig.set("anchor:detail:1", "d", 60, 0);
    rig.set("anchor:assets:1", "a", 60, 0);
    rig.set("corridor:list:0:50:abc", "l", 60, 0);
    assert_eq!(rig.delete_pattern("anchor:*"), 2);
    assert_eq!(rig.get("anchor:detail:1", 0), CacheLookup::Absent);
    assert_eq!(rig.get("anchor:assets:1", 0), CacheLookup::Absent);
    assert_eq!(rig.get("corridor:list:0:50:abc", 0), CacheLookup::ServedByLocal("l".to_string()));
    assert_eq!(rig.cache.metrics().invalidations, 0);
}

#[test]
fn pattern_deletion_with_network() {
    let mut rig = Rig::with_network();
    rig.set("anchor:detail:1", "d", 60, 0);
    rig.set("anchor:assets:1", "a", 60, 0);
    rig.set("corridor:list:0:50:abc", "l", 60, 0);
    assert_eq!(rig.delete_pattern("anchor:*"), 0);
    assert_eq!(rig.get("anchor:detail:1", 0), CacheLookup::Absent);
    assert_eq!(rig.get("anchor:assets:1", 0), CacheLookup::Absent);
    assert_eq!(
        rig.get("corridor:list:0:50:abc", 0),
        CacheLookup::ServedByNetwork("l".to_string())
    );
    assert_eq!(rig.cache.metrics().invalidations, 1);
}

#[test]
fn pattern_without_wildcard_deletes_one_key() {
    let mut rig = Rig::without_network();
    rig.set("dashboard:stats", "s", 60, 0);
    rig.set("dashboard:stats:old", "o", 60, 0);
    assert_eq!(rig.delete_pattern("dashboard:stats"), 1);
    assert_eq!(rig.get("dashboard:stats", 0), CacheLookup::Absent);
    assert_eq!(rig.get("dashboard:stats:old", 0), CacheLookup::ServedByLocal("o".to_string()));
}

#[test]
fn clear_all_empties_both_tiers() {
    let mut rig = Rig::with_network();
    rig.set("a", "1", 60, 0);
    rig.network.failing = true;
    rig.set("b", "2", 60, 0);
    rig.network.failing = false;
    rig.clear_all();
    assert!(rig.network.held.is_empty());
    assert!(rig.cache.memory_cache().is_empty());
    assert_eq!(rig.get("a", 0), CacheLookup::Absent);
    assert_eq!(rig.get("b", 0), CacheLookup::Absent);
    assert_eq!(rig.cache.metrics().invalidations, 1);
}

#[test]
fn clear_all_without_network() {
    let mut rig = Rig::without_network();
    rig.set("a", "1", 60, 0);
    rig.clear_all();
    assert!(rig.cache.memory_cache().is_empty());
    assert_eq!(rig.cache.metrics().invalidations, 0);
}

#[test]
fn expired_entry_is_absent_and_removed() {
    let mut rig = Rig::without_network();
    rig.set("k", "v", 0, 500);
    assert!(rig.cache.memory_cache().contains_key("k"));
    assert_eq!(rig.cache.memory_cache().len(), 1);
    assert_eq!(rig.get("k", 500), CacheLookup::Absent);
    assert!(!rig.cache.memory_cache().contains_key("k"));
    assert_eq!(rig.cache.memory_cache().len(), 0);
    assert_eq!(rig.cache.metrics().misses, 1);
}

#[test]
fn entry_lives_until_its_expiry() {
    let mut rig = Rig::without_network();
    rig.set("k", "v", 2, 1_000);
    let expiry = 1_000 + 2 * 1_000_000_000;
    assert_eq!(rig.get("k", expiry - 1), CacheLookup::ServedByLocal("v".to_string()));
    assert!(rig.cache.memory_cache().contains_key("k"));
    assert_eq!(rig.get("k", expiry), CacheLookup::Absent);
    assert!(!rig.cache.memory_cache().contains_key("k"));
    assert_eq!(rig.get("k", expiry - 1), CacheLookup::Absent);
}

#[test]
fn expired_entries_of_other_keys_stay_until_looked_up() {
    let mut rig = Rig::without_network();
    rig.set("a", "1", 0, 0);
    rig.set("b", "2", 0, 0);
    assert_eq!(rig.get("a", 10), CacheLookup::Absent);
    assert!(!rig.cache.memory_cache().contains_key("a"));
    assert!(rig.cache.memory_cache().contains_key("b"));
}

#[test]
fn set_replaces_the_local_value_and_its_expiry() {
    let mut rig = Rig::without_network();
    rig.set("k", "old", 1, 0);
    rig.set("k", "new", 5, 0);
    assert_eq!(rig.get("k", 2 * 1_000_000_000), CacheLookup::ServedByLocal("new".to_string()));
    assert_eq!(rig.cache.memory_cache().len(), 1);
}

#[test]
fn reconnect_replaces_the_handle() {
    let mut cache: RedisCache<u32> = RedisCache::new(Err::<u32, String>("refused".to_string()));
    assert_eq!(cache.reconnect(Ok::<u32, String>(5)), Ok(()));
    assert_eq!(cache.connection(), Some(&5));
    assert_eq!(cache.reconnect(Ok::<u32, String>(6)), Ok(()));
    assert_eq!(cache.connection(), Some(&6));
}

#[test]
fn failed_reconnect_leaves_the_store_as_it_was() {
    let mut cache: RedisCache<u32> = RedisCache::new(Ok::<u32, String>(5));
    cache.set("k", "v".to_string(), 60, NetworkAck::Failed, 0);
    assert_eq!(cache.reconnect(Err::<u32, String>("down".to_string())), Err("down".to_string()));
    assert_eq!(cache.connection(), Some(&5));
    assert!(cache.memory_cache().contains_key("k"));
    assert_eq!(cache.metrics().errors, 1);

    let mut cache: RedisCache<u32> = RedisCache::new(Err::<u32, String>("refused".to_string()));
    assert_eq!(cache.reconnect(Err::<u32, String>("down".to_string())), Err("down".to_string()));
    assert!(!cache.is_redis_connected());
}

#[test]
fn failed_call_does_not_drop_the_handle() {
    let mut rig = Rig::with_network();
    rig.network.failing = true;
    rig.set("k", "v", 60, 0);
    rig.get("k", 0);
    rig.delete("k");
    rig.delete_pattern("*");
    rig.clear_all();
    assert!(rig.cache.is_redis_connected());
    assert_eq!(rig.cache.connection(), Some(&1));
}

#[test]
fn reply_counts_even_without_a_handle() {
    let mut cache: RedisCache<u32> = RedisCache::new(Err::<u32, String>("refused".to_string()));
    let lookup = cache.get("k", NetworkRead::Found("v".to_string()), 0, |payload| {
        Ok::<String, String>(payload)
    });
    assert_eq!(lookup, Ok(CacheLookup::ServedByNetwork("v".to_string())));
    assert_eq!(cache.set("k", "v".to_string(), 60, NetworkAck::Succeeded, 0), Tier::Network);
    assert!(cache.memory_cache().is_empty());
}

#[test]
fn lookup_payload() {
    assert_eq!(CacheLookup::ServedByNetwork("n".to_string()).payload(), Some("n".to_string()));
    assert_eq!(CacheLookup::ServedByLocal("l".to_string()).payload(), Some("l".to_string()));
    assert_eq!(CacheLookup::<String>::Absent.payload(), None);
}

#[test]
fn stats_show_flag_and_counts() {
    let mut rig = Rig::with_network();
    rig.set("k", "v", 60, 0);
    rig.get("k", 0);
    rig.get("other", 0);
    rig.delete("k");
    let stats = get_cache_stats(&rig.cache);
    assert!(stats.redis_connected);
    assert_eq!(stats.metrics.hits, 1);
    assert_eq!(stats.metrics.misses, 1);
    assert_eq!(stats.metrics.errors, 0);
    assert_eq!(stats.metrics.invalidations, 1);
    assert_eq!(stats.metrics.hit_rate.percent(), 50);

    let rig = Rig::without_network();
    let stats = get_cache_stats(&rig.cache);
    assert!(!stats.redis_connected);
    assert_eq!(stats.metrics.hit_rate.percent(), 0);
}

#[test]
fn sweep_tries_every_key_once() {
    let listed = vec!["a".to_string(), "b".to_string(), "c".to_string()];
    let mut sweep = NetworkSweep::new(listed);
    assert_eq!(sweep.next_key(), Some(&"a".to_string()));
    assert_eq!(sweep.next_key(), Some(&"a".to_string()));
    sweep.record(true);
    assert_eq!(sweep.next_key(), Some(&"b".to_string()));
    sweep.record(false);
    assert_eq!(sweep.next_key(), Some(&"c".to_string()));
    sweep.record(true);
    assert_eq!(sweep.next_key(), None);
    assert_eq!(sweep.deleted(), 2);
    assert_eq!(sweep.failed(), 1);
    assert_eq!(sweep.outcome(), NetworkAck::Succeeded);
    sweep.record(true);
    assert_eq!(sweep.deleted(), 2);
    assert_eq!(sweep.failed(), 1);
}

#[test]
fn sweep_over_nothing() {
    let mut sweep = NetworkSweep::new(Vec::new());
    assert_eq!(sweep.next_key(), None);
    sweep.record(false);
    assert_eq!(sweep.deleted(), 0);
    assert_eq!(sweep.failed(), 0);
    assert_eq!(sweep.outcome(), NetworkAck::Succeeded);
}

#[test]
fn payload_that_cannot_be_decoded_is_an_error_not_a_miss() {
    let mut rig = Rig::without_network();
    rig.set("k", "{not json", 60, 0);
    assert!(rig.get_json("k", 0).is_err());
    let metrics = rig.cache.metrics();
    assert_eq!(metrics.hits, 0);
    assert_eq!(metrics.misses, 0);
    assert_eq!(metrics.errors, 0);
    assert_eq!(rig.cache.memory_cache().get("k").unwrap().data, "{not json");

    let mut rig = Rig::with_network();
    rig.set("k", "{not json", 60, 0);
    assert!(rig.get_json("k", 0).is_err());
    let metrics = rig.cache.metrics();
    assert_eq!(metrics.hits, 0);
    assert_eq!(metrics.misses, 0);
    assert_eq!(rig.network.held.len(), 1);
}

#[test]
fn payload_of_another_type_is_an_error_and_stays_stored() {
    let mut rig = Rig::without_network();
    let text = serde_json::to_string("text").unwrap();
    rig.set("k", &text, 60, 0);
    let as_number: Result<CacheLookup<i32>, serde_json::Error> =
        rig.get_with("k", 0, |payload| serde_json::from_str(&payload));
    assert!(as_number.is_err());
    assert_eq!(rig.cache.metrics().hits, 0);
    assert_eq!(rig.cache.metrics().misses, 0);
    let as_text: Result<CacheLookup<String>, serde_json::Error> =
        rig.get_with("k", 0, |payload| serde_json::from_str(&payload));
    assert_eq!(as_text.unwrap(), CacheLookup::ServedByLocal("text".to_string()));
    assert_eq!(rig.cache.metrics().hits, 1);
    assert_eq!(rig.cache.metrics().misses, 0);
}

#[test]
fn failed_read_is_counted_though_the_payload_cannot_be_decoded() {
    let mut rig = Rig::with_network();
    rig.network.failing = true;
    rig.set("k", "{not json", 60, 0);
    assert!(rig.get_json("k", 0).is_err());
    let metrics = rig.cache.metrics();
    assert_eq!(metrics.errors, 2);
    assert_eq!(metrics.hits, 0);
    assert_eq!(metrics.misses, 0);
}

#[test]
fn a_miss_does_not_call_the_decoder() {
    let mut rig = Rig::without_network();
    let outcome: Result<CacheLookup<u32>, String> =
        rig.get_with("k", 0, |_| panic!("nothing to decode"));
    assert_eq!(outcome, Ok(CacheLookup::Absent));
    assert_eq!(rig.cache.metrics().misses, 1);

    rig.set("k", "v", 0, 0);
    let outcome: Result<CacheLookup<u32>, String> =
        rig.get_with("k", 0, |_| panic!("nothing to decode"));
    assert_eq!(outcome, Ok(CacheLookup::Absent));
    assert!(!rig.cache.memory_cache().contains_key("k"));
}

#[test]
fn decoded_value_comes_back_with_its_tier() {
    let mut rig = Rig::with_network();
    rig.set("k", "four", 60, 0);
    let outcome: Result<CacheLookup<usize>, String> =
        rig.get_with("k", 0, |payload| Ok(payload.len()));
    assert_eq!(outcome, Ok(CacheLookup::ServedByNetwork(4)));
    rig.network.failing = true;
    rig.set("l", "seven77", 60, 0);
    let outcome: Result<CacheLookup<usize>, String> =
        rig.get_with("l", 0, |payload| Ok(payload.len()));
    assert_eq!(outcome, Ok(CacheLookup::ServedByLocal(7)));
    let outcome: Result<CacheLookup<usize>, String> = rig.get_with("l", 0, |payload| Err(payload));
    assert_eq!(outcome, Err("seven77".to_string()));
    assert_eq!(rig.cache.metrics().hits, 2);
}
