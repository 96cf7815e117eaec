//! The path-resolution and typed-resource layer over the cache.
//!
//! [`JsonApiClientService`] translates a human-facing path into a canonical
//! resource address, and fetches arbitrary resource documents, both through
//! the read-through cache.  The upstream GET itself is a capability the
//! caller hands in as a producer: a closure that performs an authenticated
//! request and yields the response's JSON text or a failure.  Everything
//! around that call — key construction, cache policy, route decoding and
//! endpoint formatting — lives here, with its behaviour pinned down against
//! the cache's model.

use vstd::prelude::*;
use vstd::string::StringExecFns;

use crate::cache::{
    lemma_cache_hit_avoids_recompute, live, produced_view, remember_hit, remember_model,
    result_matches, Cache, ModelResult,
};
use crate::errors::AppError;
use crate::route::{decode_resolved_route, route_endpoint_of};
use crate::store::EntryModel;

verus! {

/// The time-to-live applied to resolver and fetcher entries: one week, in
/// seconds.
pub const CACHE_TTL_SECS: u64 = 604800;

/// The cache key of a path translation: the fixed translate-path route
/// with the path as its query parameter.
pub open spec fn translate_path_key(path: Seq<char>) -> Seq<char> {
    "/router/translate-path?path="@ + path
}

/// Build the cache key of a path translation.
pub fn make_translate_path_key(path: &str) -> (r: String)
    ensures
        r@ == translate_path_key(path@),
        r@.len() != 0,
{
    let mut key: String = "/router/translate-path?path=".to_owned();
    key.append(path);
    proof {
        reveal_strlit("/router/translate-path?path=");
    }
    key
}

/// The abstract outcome of a path resolution.
pub ghost enum ResolveResult {
    /// The resolution succeeds with this canonical endpoint.
    Endpoint(Seq<char>),
    /// A live cache entry was found whose text is not a JSON document: a
    /// `Decode` failure tagged with the store's name.
    CorruptEntry,
    /// The producer yielded text that is not a JSON document, so nothing
    /// was stored: an `Encode` failure tagged with the store's name.
    NotJson,
    /// The document does not decode into a route with four non-empty
    /// fields: a `Decode` failure naming the resolved-route target.
    RouteMismatch,
    /// The producer failed: exactly the producer's error.
    Failed(AppError),
}

/// Lift a cache outcome to a resolution outcome by decoding the document.
pub open spec fn lift_route(out: ModelResult) -> ResolveResult {
    match out {
        ModelResult::Value(text) => match route_endpoint_of(text) {
            Some(ep) => ResolveResult::Endpoint(ep),
            None => ResolveResult::RouteMismatch,
        },
        ModelResult::CorruptEntry => ResolveResult::CorruptEntry,
        ModelResult::NotJson => ResolveResult::NotJson,
        ModelResult::Failed(e) => ResolveResult::Failed(e),
    }
}

/// The model of one path resolution: the store's contents after the call
/// and the call's outcome, from what the producer would yield.
pub open spec fn resolve_model(
    m: Map<Seq<char>, EntryModel>,
    now: u64,
    path: Seq<char>,
    produced: Result<Seq<char>, AppError>,
) -> (Map<Seq<char>, EntryModel>, ResolveResult) {
    let (m2, out) = remember_model(m, now, translate_path_key(path), CACHE_TTL_SECS, produced);
    (m2, lift_route(out))
}

/// Whether a concrete resolution result realises an abstract outcome.
pub open spec fn resolve_matches(r: Result<String, AppError>, out: ResolveResult) -> bool {
    match out {
        ResolveResult::Endpoint(ep) => r matches Ok(s) && s@ == ep,
        ResolveResult::CorruptEntry => r matches Err(e)
            && (e matches AppError::Decode { target, .. } && target@ == "redis"@),
        ResolveResult::NotJson => r matches Err(e)
            && (e matches AppError::Encode { target, .. } && target@ == "redis"@),
        ResolveResult::RouteMismatch => r matches Err(e)
            && (e matches AppError::Decode { target, .. } && target@ == "resolved route"@),
        ResolveResult::Failed(e) => r == Err::<String, AppError>(e),
    }
}

/// Law: a resolution is served from the cache for a week.  Once a first
/// resolution of a path has succeeded — its outcome is an endpoint — any
/// resolution of the same path within the TTL window yields the same
/// endpoint without a new upstream round-trip: whatever a later producer
/// would return, the store is left unchanged and the outcome is the first
/// call's.
pub proof fn lemma_resolution_is_cached(
    m: Map<Seq<char>, EntryModel>,
    now0: u64,
    now1: u64,
    path: Seq<char>,
    text0: Seq<char>,
)
    requires
        now0 + CACHE_TTL_SECS <= u64::MAX,
        !live(m, translate_path_key(path), now0),
        now0 <= now1,
        now1 < now0 + CACHE_TTL_SECS,
    ensures
        resolve_model(m, now0, path, Ok(text0)).1 is Endpoint ==> forall|
            produced: Result<Seq<char>, AppError>,
        |
            #[trigger] resolve_model(resolve_model(m, now0, path, Ok(text0)).0, now1, path, produced)
                == resolve_model(m, now0, path, Ok(text0)),
{
    lemma_cache_hit_avoids_recompute(
        m,
        now0,
        now1,
        translate_path_key(path),
        CACHE_TTL_SECS,
        text0,
    );
}

/// The client service: path resolution and resource fetching over the
/// read-through cache.
pub struct JsonApiClientService {
    cache: Cache,
}

impl JsonApiClientService {
    /// The abstract contents of the cache the service reads through.
    pub closed spec fn contents(self) -> Map<Seq<char>, EntryModel> {
        self.cache.contents()
    }

    /// A service over the given cache.  The authenticated HTTP capability
    /// is not held here: each call takes the upstream GET it may need as a
    /// producer.
    pub fn new(cache: Cache) -> (r: Self)
        ensures
            r.contents() == cache.contents(),
    {
        JsonApiClientService { cache }
    }

    /// Translate a human-facing path into its canonical endpoint string.
    ///
    /// The translate-path document for `path` is served through the cache
    /// under the translate-path key with the one-week TTL; `fetch` is the
    /// authenticated GET of that key's address, consulted only on a miss.
    /// The document is decoded into a resolved route — a shape mismatch or
    /// an empty field is a `Decode` failure naming the resolved-route
    /// target — and the canonical endpoint is its four segments
    /// slash-joined, in the fixed order prefix, type, bundle, UUID.
    pub fn resolve_external_endpoint<F: FnOnce() -> Result<String, AppError>>(
        &mut self,
        now: u64,
        path: &str,
        fetch: F,
    ) -> (r: Result<String, AppError>)
        requires
            now + CACHE_TTL_SECS <= u64::MAX,
            call_requires(fetch, ()),
        ensures
            live(old(self).contents(), translate_path_key(path@), now) ==> final(self).contents()
                == old(self).contents() && resolve_matches(
                r,
                lift_route(remember_hit(old(self).contents(), translate_path_key(path@))),
            ),
            !live(old(self).contents(), translate_path_key(path@), now) ==> exists|
                pr: Result<String, AppError>,
            |
                {
                    &&& #[trigger] call_ensures(fetch, (), pr)
                    &&& ({
                        let (m2, out) = resolve_model(
                            old(self).contents(),
                            now,
                            path@,
                            produced_view(pr),
                        );
                        final(self).contents() == m2 && resolve_matches(r, out)
                    })
                },
    {
        let key = make_translate_path_key(path);
        let text = match self.cache.remember(now, key.as_str(), CACHE_TTL_SECS, fetch) {
            Ok(t) => t,
            Err(e) => {
                return Err(e);
            },
        };
        match decode_resolved_route(text.as_str()) {
            Ok(route) => Ok(route.canonical_endpoint()),
            Err(e) => Err(e),
        }
    }

    /// Fetch the resource document at an already-canonical endpoint.
    ///
    /// The document is served through the cache under the endpoint itself
    /// with the one-week TTL; `fetch` is the authenticated GET of the
    /// endpoint, consulted only on a miss.  The call yields the document's
    /// JSON text; decoding it into a caller-chosen shape is the caller's
    /// step, outside this core.
    pub fn get_external_data<F: FnOnce() -> Result<String, AppError>>(
        &mut self,
        now: u64,
        endpoint: &str,
        fetch: F,
    ) -> (r: Result<String, AppError>)
        requires
            endpoint@.len() != 0,
            now + CACHE_TTL_SECS <= u64::MAX,
            call_requires(fetch, ()),
        ensures
            live(old(self).contents(), endpoint@, now) ==> final(self).contents() == old(
                self,
            ).contents() && result_matches(r, remember_hit(old(self).contents(), endpoint@)),
            !live(old(self).contents(), endpoint@, now) ==> exists|pr: Result<String, AppError>|
                {
                    &&& #[trigger] call_ensures(fetch, (), pr)
                    &&& ({
                        let (m2, out) = remember_model(
                            old(self).contents(),
                            now,
                            endpoint@,
                            CACHE_TTL_SECS,
                            produced_view(pr),
                        );
                        final(self).contents() == m2 && result_matches(r, out)
                    })
                },
    {
        self.cache.remember(now, endpoint, CACHE_TTL_SECS, fetch)
    }

    /// Unconditionally remove every cache entry.
    pub fn clear_cache(&mut self)
        ensures
            final(self).contents() == Map::<Seq<char>, EntryModel>::empty(),
    {
        self.cache.clear_all();
    }
}

} // verus!
