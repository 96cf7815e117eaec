use std::cell::Cell;

use jsonapi_cache::cache::Cache;
use jsonapi_cache::errors::AppError;
use jsonapi_cache::store::Store;

fn fresh_cache() -> Cache {
    Cache::new(Store::new())
}

#[test]
fn store_keeps_text_verbatim() {
    let mut s = Store::new();
    s.set("alpha", "{\"v\":1}");
    assert_eq!(s.get("alpha", 0), Some("{\"v\":1}".to_string()));
    assert_eq!(s.get("alpha", u64::MAX), Some("{\"v\":1}".to_string()));
    assert_eq!(s.get("beta", 0), None);
}

#[test]
fn store_expiry_boundary() {
    let mut s = Store::new();
    s.set_ex("k", "{}", 10, 100);
    assert_eq!(s.get("k", 100), Some("{}".to_string()));
    assert_eq!(s.get("k", 109), Some("{}".to_string()));
    assert_eq!(s.get("k", 110), None);
    assert_eq!(s.get("k", 111), None);
}

#[test]
fn store_last_write_wins() {
    let mut s = Store::new();
    s.set("k", "old");
    s.set("k", "new");
    assert_eq!(s.get("k", 50), Some("new".to_string()));
}

#[test]
fn cache_hit_avoids_recompute() {
    let mut c = fresh_cache();
    let calls: Cell<u32> = Cell::new(0);
    let first = c.remember(100, "key", 60, || {
        calls.set(calls.get() + 1);
        Ok("{\"v\":1}".to_string())
    });
    let second = c.remember(130, "key", 60, || {
        calls.set(calls.get() + 1);
        Ok("{\"v\":2}".to_string())
    });
    assert_eq!(calls.get(), 1);
    assert_eq!(first, Ok("{\"v\":1}".to_string()));
    assert_eq!(second, first);
}

#[test]
fn expiry_triggers_recompute() {
    let mut c = fresh_cache();
    let calls: Cell<u32> = Cell::new(0);
    let first = c.remember(100, "key", 5, || {
        calls.set(calls.get() + 1);
        Ok("{\"v\":1}".to_string())
    });
    let second = c.remember(105, "key", 5, || {
        calls.set(calls.get() + 1);
        Ok("{\"v\":2}".to_string())
    });
    assert_eq!(calls.get(), 2);
    assert_eq!(first, Ok("{\"v\":1}".to_string()));
    assert_eq!(second, Ok("{\"v\":2}".to_string()));
}

#[test]
fn zero_ttl_never_expires() {
    let mut c = fresh_cache();
    let calls: Cell<u32> = Cell::new(0);
    let first = c.remember(0, "key", 0, || {
        calls.set(calls.get() + 1);
        Ok("{\"v\":1}".to_string())
    });
    let much_later = c.remember(u64::MAX, "key", 0, || {
        calls.set(calls.get() + 1);
        Ok("{\"v\":2}".to_string())
    });
    assert_eq!(calls.get(), 1);
    assert_eq!(first, Ok("{\"v\":1}".to_string()));
    assert_eq!(much_later, first);
}

#[test]
fn decode_failure_is_surfaced_not_masked() {
    // Seed the key with text that is not a JSON document, as a foreign
    // writer of the shared store could.
    let mut store = Store::new();
    store.set("key", "not json");
    let mut c = Cache::new(store);
    // The call finds the corrupt entry: a Decode error tagged with the
    // store's name, and no recompute.
    let calls: Cell<u32> = Cell::new(0);
    let hit = c.remember(1, "key", 0, || {
        calls.set(calls.get() + 1);
        Ok("{\"v\":2}".to_string())
    });
    assert_eq!(calls.get(), 0);
    match hit {
        Err(AppError::Decode { target, .. }) => assert_eq!(target, "redis"),
        other => panic!("expected a Decode error, got {:?}", other),
    }
}

#[test]
fn non_json_producer_text_is_rejected_with_encode() {
    let mut c = fresh_cache();
    let r = c.remember(0, "key", 60, || Ok("not json".to_string()));
    match r {
        Err(AppError::Encode { target, .. }) => assert_eq!(target, "redis"),
        other => panic!("expected an Encode error, got {:?}", other),
    }
    // Nothing was stored: the next call consults its producer and
    // succeeds on a proper document.
    let calls: Cell<u32> = Cell::new(0);
    let retry = c.remember(0, "key", 60, || {
        calls.set(calls.get() + 1);
        Ok("{\"v\":1}".to_string())
    });
    assert_eq!(calls.get(), 1);
    assert_eq!(retry, Ok("{\"v\":1}".to_string()));
}

#[test]
fn producer_failure_propagates_untouched() {
    let mut c = fresh_cache();
    let failure = c.remember(0, "key", 60, || {
        Err(AppError::external("upstream", "boom".to_string()))
    });
    assert_eq!(
        failure,
        Err(AppError::External { system: "upstream", message: "boom".to_string() })
    );
    // Nothing was stored: the next call still consults its producer.
    let calls: Cell<u32> = Cell::new(0);
    let retry = c.remember(0, "key", 60, || {
        calls.set(calls.get() + 1);
        Ok("{\"v\":1}".to_string())
    });
    assert_eq!(calls.get(), 1);
    assert_eq!(retry, Ok("{\"v\":1}".to_string()));
}

#[test]
fn flush_clears_everything() {
    let mut c = fresh_cache();
    let _ = c.remember(0, "a", 0, || Ok("{\"v\":1}".to_string()));
    let _ = c.remember(0, "b", 60, || Ok("{\"v\":2}".to_string()));
    let _ = c.remember(0, "c", 604800, || Ok("{\"v\":3}".to_string()));
    c.clear_all();
    // Every previously stored key is absent: each call recomputes.
    let calls: Cell<u32> = Cell::new(0);
    for key in ["a", "b", "c"] {
        let r = c.remember(1, key, 0, || {
            calls.set(calls.get() + 1);
            Ok("{\"fresh\":true}".to_string())
        });
        assert_eq!(r, Ok("{\"fresh\":true}".to_string()));
    }
    assert_eq!(calls.get(), 3);
}

#[test]
fn round_trip_fidelity() {
    // A decodable value survives the store's text representation: encode,
    // store, read back, decode, and compare.
    let mut obj = serde_json::Map::new();
    obj.insert("name".to_string(), serde_json::Value::String("article".to_string()));
    obj.insert("count".to_string(), serde_json::Value::from(42u64));
    obj.insert("flag".to_string(), serde_json::Value::Bool(true));
    let value = serde_json::Value::Object(obj);

    let text = serde_json::to_string(&value).unwrap();
    let mut c = fresh_cache();
    let stored = c.remember(0, "key", 60, || Ok(text.clone())).unwrap();
    let served = c.remember(1, "key", 60, || unreachable!()).unwrap();
    assert_eq!(stored, text);
    assert_eq!(served, text);
    let back: serde_json::Value = serde_json::from_str(&served).unwrap();
    assert_eq!(back, value);
}
