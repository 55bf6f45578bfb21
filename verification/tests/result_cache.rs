use statcards::cache::ResultCache;
use std::time::{Duration, Instant};

fn busy_wait(d: Duration) {
    let start = Instant::now();
    while start.elapsed() < d {
        std::hint::spin_loop();
    }
}

#[test]
fn read_within_ttl_yields_the_exact_inserted_value() {
    let mut cache = ResultCache::new(60, 100);
    let payload = "{\"name\":\"Apr\",\"weeks\":[1,2,3]}".to_string();
    cache.put("github:activity:octo:year".to_string(), payload.clone());
    let got = cache.get(&"github:activity:octo:year".to_string());
    assert_eq!(got.as_deref(), Some(payload.as_str()));
}

#[test]
fn read_past_ttl_misses() {
    let mut cache = ResultCache::new(1, 100);
    cache.put("k".to_string(), "v".to_string());
    busy_wait(Duration::from_millis(1300));
    assert!(cache.get(&"k".to_string()).is_none());
}

#[test]
fn absent_keys_miss() {
    let cache = ResultCache::new(60, 100);
    assert!(cache.get(&"nothing".to_string()).is_none());
}

#[test]
fn a_fresh_insert_replaces_the_old_value_wholesale() {
    let mut cache = ResultCache::new(60, 100);
    cache.put("k".to_string(), "first".to_string());
    cache.put("k".to_string(), "second".to_string());
    assert_eq!(cache.get(&"k".to_string()).as_deref(), Some("second"));
}
