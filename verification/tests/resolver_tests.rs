use std::cell::Cell;

use jsonapi_cache::cache::Cache;
use jsonapi_cache::errors::AppError;
use jsonapi_cache::resolver::{make_translate_path_key, JsonApiClientService};
use jsonapi_cache::route::ResolvedRoute;
use jsonapi_cache::store::Store;

fn fresh_service() -> JsonApiClientService {
    JsonApiClientService::new(Cache::new(Store::new()))
}

const ROUTE_DOC: &str = "{\"jsonapi\":{\"pathPrefix\":\"jsonapi\"},\
\"entity\":{\"type\":\"node\",\"bundle\":\"article\",\"uuid\":\"abc-123\"}}";

#[test]
fn translate_path_key_composes_prefix_and_path() {
    assert_eq!(make_translate_path_key("/about"), "/router/translate-path?path=/about");
}

#[test]
fn path_formatting() {
    let mut svc = fresh_service();
    let endpoint = svc.resolve_external_endpoint(0, "/about", || Ok(ROUTE_DOC.to_string()));
    assert_eq!(endpoint, Ok("/jsonapi/node/article/abc-123".to_string()));
}

#[test]
fn canonical_endpoint_formats_segments_in_order() {
    let route = ResolvedRoute::new(
        "jsonapi".to_string(),
        "node".to_string(),
        "article".to_string(),
        "abc-123".to_string(),
    )
    .unwrap();
    assert_eq!(route.canonical_endpoint(), "/jsonapi/node/article/abc-123");
}

#[test]
fn route_with_empty_segment_is_a_decode_failure() {
    let r = ResolvedRoute::new(
        "jsonapi".to_string(),
        "node".to_string(),
        "".to_string(),
        "abc-123".to_string(),
    );
    match r {
        Err(AppError::Decode { target, .. }) => assert_eq!(target, "resolved route"),
        other => panic!("expected a Decode error, got {:?}", other),
    }
}

#[test]
fn resolution_is_cached_within_the_ttl() {
    let mut svc = fresh_service();
    let calls: Cell<u32> = Cell::new(0);
    let first = svc.resolve_external_endpoint(100, "/about", || {
        calls.set(calls.get() + 1);
        Ok(ROUTE_DOC.to_string())
    });
    // One week minus a second later: still served from the cache.
    let second = svc.resolve_external_endpoint(100 + 604799, "/about", || {
        calls.set(calls.get() + 1);
        Ok(ROUTE_DOC.to_string())
    });
    assert_eq!(calls.get(), 1);
    assert_eq!(first, Ok("/jsonapi/node/article/abc-123".to_string()));
    assert_eq!(second, first);
}

#[test]
fn route_document_missing_a_field_is_a_decode_failure() {
    let mut svc = fresh_service();
    let doc = "{\"jsonapi\":{\"pathPrefix\":\"jsonapi\"},\
\"entity\":{\"type\":\"node\",\"bundle\":\"article\"}}";
    let r = svc.resolve_external_endpoint(0, "/about", || Ok(doc.to_string()));
    match r {
        Err(AppError::Decode { target, .. }) => assert_eq!(target, "resolved route"),
        other => panic!("expected a Decode error, got {:?}", other),
    }
}

#[test]
fn route_document_with_empty_field_is_a_decode_failure() {
    let mut svc = fresh_service();
    let doc = "{\"jsonapi\":{\"pathPrefix\":\"jsonapi\"},\
\"entity\":{\"type\":\"node\",\"bundle\":\"\",\"uuid\":\"abc-123\"}}";
    let r = svc.resolve_external_endpoint(0, "/about", || Ok(doc.to_string()));
    match r {
        Err(AppError::Decode { target, .. }) => assert_eq!(target, "resolved route"),
        other => panic!("expected a Decode error, got {:?}", other),
    }
}

#[test]
fn corrupt_cached_route_is_reported_against_the_store() {
    // A corrupt entry under the translate-path key, as a foreign writer
    // of the shared store could leave it.
    let mut store = Store::new();
    store.set(&make_translate_path_key("/about"), "not json");
    let mut svc = JsonApiClientService::new(Cache::new(store));
    // The call hits the corrupt entry: tagged "redis", and the producer
    // is not consulted.
    let r = svc.resolve_external_endpoint(1, "/about", || unreachable!());
    match r {
        Err(AppError::Decode { target, .. }) => assert_eq!(target, "redis"),
        other => panic!("expected a Decode error, got {:?}", other),
    }
}

#[test]
fn non_json_fetch_is_rejected_before_storing() {
    let mut svc = fresh_service();
    // An upstream answer that is not a JSON document cannot be persisted:
    // an Encode failure tagged with the store's name, and nothing stored.
    let first = svc.resolve_external_endpoint(0, "/about", || Ok("not json".to_string()));
    match first {
        Err(AppError::Encode { target, .. }) => assert_eq!(target, "redis"),
        other => panic!("expected an Encode error, got {:?}", other),
    }
    // A proper document now resolves: the poisoned text left no entry.
    let again = svc.resolve_external_endpoint(1, "/about", || Ok(ROUTE_DOC.to_string()));
    assert_eq!(again, Ok("/jsonapi/node/article/abc-123".to_string()));
}

#[test]
fn producer_failure_propagates_through_resolution() {
    let mut svc = fresh_service();
    let r = svc.resolve_external_endpoint(0, "/about", || {
        Err(AppError::external("http", "connection refused".to_string()))
    });
    assert_eq!(
        r,
        Err(AppError::External { system: "http", message: "connection refused".to_string() })
    );
}

#[test]
fn get_external_data_serves_and_caches_the_document() {
    let mut svc = fresh_service();
    let calls: Cell<u32> = Cell::new(0);
    let doc = "{\"data\":{\"id\":\"abc-123\",\"attributes\":{\"title\":\"hello\"}}}";
    let first = svc.get_external_data(50, "/jsonapi/node/article/abc-123", || {
        calls.set(calls.get() + 1);
        Ok(doc.to_string())
    });
    let second = svc.get_external_data(60, "/jsonapi/node/article/abc-123", || {
        calls.set(calls.get() + 1);
        Ok("{}".to_string())
    });
    assert_eq!(calls.get(), 1);
    assert_eq!(first, Ok(doc.to_string()));
    assert_eq!(second, first);
    // The served text decodes into the caller's shape.
    let value: serde_json::Value = serde_json::from_str(&second.unwrap()).unwrap();
    assert_eq!(value["data"]["id"], serde_json::Value::String("abc-123".to_string()));
}

#[test]
fn clear_cache_forces_resolution_anew() {
    let mut svc = fresh_service();
    let calls: Cell<u32> = Cell::new(0);
    let _ = svc.resolve_external_endpoint(0, "/about", || {
        calls.set(calls.get() + 1);
        Ok(ROUTE_DOC.to_string())
    });
    svc.clear_cache();
    let again = svc.resolve_external_endpoint(1, "/about", || {
        calls.set(calls.get() + 1);
        Ok(ROUTE_DOC.to_string())
    });
    assert_eq!(calls.get(), 2);
    assert_eq!(again, Ok("/jsonapi/node/article/abc-123".to_string()));
}
