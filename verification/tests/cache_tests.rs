use text_to_cypher::cache::{process_clear_schema_cache, SchemaCache};

#[test]
fn put_then_get_returns_value() {
    let mut cache = SchemaCache::new(4);
    cache.put("movies", "{\"entities\":[]}");
    assert_eq!(cache.get("movies").as_deref(), Some("{\"entities\":[]}"));
}

#[test]
fn get_of_absent_key_is_none() {
    let mut cache = SchemaCache::new(4);
    cache.put("movies", "{}");
    assert_eq!(cache.get("books"), None);
}

#[test]
fn put_replaces_value() {
    let mut cache = SchemaCache::new(4);
    cache.put("movies", "old");
    cache.put("movies", "new");
    assert_eq!(cache.get("movies").as_deref(), Some("new"));
    assert_eq!(cache.len(), 1);
}

#[test]
fn invalidate_removes_only_that_key() {
    let mut cache = SchemaCache::new(4);
    cache.put("movies", "a");
    cache.put("books", "b");
    cache.invalidate("movies");
    assert_eq!(cache.get("movies"), None);
    assert_eq!(cache.get("books").as_deref(), Some("b"));
}

#[test]
fn clear_schema_cache_is_invalidation() {
    let mut cache = SchemaCache::new(4);
    cache.put("movies", "a");
    process_clear_schema_cache(&mut cache, "movies");
    assert_eq!(cache.get("movies"), None);
}

#[test]
fn eviction_drops_least_recently_used() {
    let mut cache = SchemaCache::new(2);
    cache.put("a", "1");
    cache.put("b", "2");
    cache.put("c", "3");
    assert_eq!(cache.get("a"), None, "the oldest unused entry leaves first");
    assert_eq!(cache.get("b").as_deref(), Some("2"));
    assert_eq!(cache.get("c").as_deref(), Some("3"));
    assert_eq!(cache.len(), 2);
}

#[test]
fn get_refreshes_recency() {
    let mut cache = SchemaCache::new(2);
    cache.put("a", "1");
    cache.put("b", "2");
    assert_eq!(cache.get("a").as_deref(), Some("1"));
    cache.put("c", "3");
    assert_eq!(cache.get("b"), None, "the unread entry is the one evicted");
    assert_eq!(cache.get("a").as_deref(), Some("1"));
    assert_eq!(cache.get("c").as_deref(), Some("3"));
}

#[test]
fn put_refreshes_recency() {
    let mut cache = SchemaCache::new(2);
    cache.put("a", "1");
    cache.put("b", "2");
    cache.put("a", "1b");
    cache.put("c", "3");
    assert_eq!(cache.get("b"), None);
    assert_eq!(cache.get("a").as_deref(), Some("1b"));
}
