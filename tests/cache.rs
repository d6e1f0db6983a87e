use rsearx::cache::{ttl_exceeded, Cache, HOUR};

fn cache_with(instances: Vec<&str>, creation_time: u64, ttl: u64) -> Cache {
    Cache {
        creation_time,
        ttl,
        instances: instances.into_iter().map(|s| s.to_string()).collect(),
    }
}

#[test]
fn ttl_exceeded_test() {
    let creation_time = 0;
    let mut now = 0;
    let cache = cache_with(Vec::new(), creation_time, HOUR as u64);
    assert!(!ttl_exceeded(&cache, now));

    let cache = cache_with(Vec::new(), creation_time, 25);
    assert!(!ttl_exceeded(&cache, now));

    now += 5;
    let cache = cache_with(Vec::new(), creation_time, 2);
    assert!(ttl_exceeded(&cache, now));

    now += HOUR as u64;
    let cache = cache_with(Vec::new(), creation_time, HOUR as u64);
    assert!(ttl_exceeded(&cache, now));
}

#[test]
fn refresh_due_follows_elapsed_time() {
    let cache = cache_with(vec!["https://a/"], 1000, 3600);
    assert!(!cache.is_refresh_due(1025));
    assert!(!cache.is_refresh_due(4600));
    assert!(cache.is_refresh_due(4601));
}

#[test]
fn refresh_due_when_empty() {
    let cache = cache_with(Vec::new(), 1000, 3600);
    assert!(cache.is_refresh_due(1000));
    assert!(cache.is_refresh_due(1001));
    let fresh = Cache::new(HOUR as u64, 50);
    assert!(fresh.is_refresh_due(50));
    assert!(fresh.instances.is_empty());
    assert_eq!(fresh.ttl, 3600);
}

#[test]
fn clock_before_creation_counts_as_no_time() {
    let cache = cache_with(vec!["https://a/"], 5000, 10);
    assert!(!ttl_exceeded(&cache, 0));
    assert!(!cache.is_refresh_due(0));
}

#[test]
fn refresh_replaces_set_and_timestamp() {
    let mut cache = cache_with(vec!["https://old/"], 10, 3600);
    cache.refresh(vec!["https://new/".to_string(), "https://other/".to_string()], 9000);
    assert_eq!(cache.instances, vec!["https://new/".to_string(), "https://other/".to_string()]);
    assert_eq!(cache.creation_time, 9000);
    assert_eq!(cache.ttl, 3600);
    assert!(!cache.is_refresh_due(9000 + 3600));
}
