//! The read-through cache primitive.
//!
//! [`Cache::remember`] looks a key up in the store and serves the stored
//! text when a live entry is found; otherwise it invokes the producer it
//! was given, persists a successful result under the key with the
//! requested expiry, and hands the result back.  Its behaviour is pinned
//! down by [`remember_model`], a mathematical model over the store's map
//! view, and the laws at the bottom of this module are proved of that
//! model.
//!
//! The cache persists values as JSON text, and only as JSON text: produced
//! text that is no JSON document cannot be serialized into the store and
//! is rejected with an `Encode` failure before anything is written.  A
//! live entry whose text is not a JSON document (left by a foreign writer
//! of the shared store) is reported as a `Decode` failure, not silently
//! recomputed: a poisoned entry is a visible error, never healed behind
//! the caller's back.

use vstd::prelude::*;

use crate::errors::AppError;
use crate::store::{entry_live, EntryModel, Store};

verus! {

/// Whether `text` is the text of a JSON document.  The exact grammar is
/// serde_json's; nothing in this crate states what it accepts on given
/// characters.
pub uninterp spec fn parses_as_json(text: Seq<char>) -> bool;

/// Relies on serde_json::from_str::<serde_json::Value>: whether it accepts
/// `text` depends on the characters alone.
#[verifier::external_body]
fn is_json_document(text: &str) -> (r: bool)
    ensures
        r == parses_as_json(text@),
{
    serde_json::from_str::<serde_json::Value>(text).is_ok()
}

/// Whether `key` holds a live entry in `m` at time `now`.
pub open spec fn live(m: Map<Seq<char>, EntryModel>, key: Seq<char>, now: u64) -> bool {
    m.contains_key(key) && entry_live(m[key], now)
}

/// The expiry a write at `now` with the given TTL carries: none for a TTL
/// of zero ("cache forever"), otherwise the absolute instant `now + ttl`.
pub open spec fn expiry_of(now: u64, ttl_secs: u64) -> Option<u64> {
    if ttl_secs == 0 {
        None
    } else {
        Some((now + ttl_secs) as u64)
    }
}

/// The abstract outcome of a `remember` call.
pub ghost enum ModelResult {
    /// The call succeeds with this text.
    Value(Seq<char>),
    /// A live entry was found whose text is not a JSON document: the call
    /// fails with a `Decode` error tagged with the store's name.
    CorruptEntry,
    /// The producer yielded text that is not a JSON document, so it cannot
    /// be persisted: nothing is stored and the call fails with an `Encode`
    /// error tagged with the store's name.
    NotJson,
    /// The producer failed: the call fails with exactly the producer's
    /// error.
    Failed(AppError),
}

/// What a hit returns: the stored text, or a corrupt-entry failure when
/// that text is not a JSON document.
pub open spec fn remember_hit(m: Map<Seq<char>, EntryModel>, key: Seq<char>) -> ModelResult {
    if parses_as_json(m[key].text) {
        ModelResult::Value(m[key].text)
    } else {
        ModelResult::CorruptEntry
    }
}

/// The model of one `remember` call: the store's contents after the call,
/// and the call's outcome.  `produced` is what the producer would yield;
/// on a hit it is ignored, which is exactly what "the producer is not
/// invoked" means.
pub open spec fn remember_model(
    m: Map<Seq<char>, EntryModel>,
    now: u64,
    key: Seq<char>,
    ttl_secs: u64,
    produced: Result<Seq<char>, AppError>,
) -> (Map<Seq<char>, EntryModel>, ModelResult) {
    if live(m, key, now) {
        (m, remember_hit(m, key))
    } else {
        match produced {
            Ok(text) => if parses_as_json(text) {
                (
                    m.insert(key, EntryModel { text, expires_at: expiry_of(now, ttl_secs) }),
                    ModelResult::Value(text),
                )
            } else {
                (m, ModelResult::NotJson)
            },
            Err(e) => (m, ModelResult::Failed(e)),
        }
    }
}

/// The view of a producer's result.
pub open spec fn produced_view(pr: Result<String, AppError>) -> Result<Seq<char>, AppError> {
    match pr {
        Ok(t) => Ok(t@),
        Err(e) => Err(e),
    }
}

/// Whether a concrete call result realises an abstract outcome.
pub open spec fn result_matches(r: Result<String, AppError>, out: ModelResult) -> bool {
    match out {
        ModelResult::Value(t) => r matches Ok(s) && s@ == t,
        ModelResult::CorruptEntry => r matches Err(e)
            && (e matches AppError::Decode { target, .. } && target@ == "redis"@),
        ModelResult::NotJson => r matches Err(e)
            && (e matches AppError::Encode { target, .. } && target@ == "redis"@),
        ModelResult::Failed(e) => r == Err::<String, AppError>(e),
    }
}

/// One step of the read-through flow, decided from the store's reply.
pub enum ReadDecision {
    /// A live entry holding a JSON document: serve this text.
    Serve(String),
    /// A live entry whose text is not a JSON document: fail with this
    /// error, and do not recompute.
    Reject(AppError),
    /// No live entry: consult the producer.
    Produce,
}

/// Decide what the store's reply to a read means.  A driver of the
/// read-through flow over another store enacts this decision on what its
/// store returned.
pub fn decide_read(reply: Option<String>) -> (r: ReadDecision)
    ensures
        match reply {
            Some(t) => if parses_as_json(t@) {
                r == ReadDecision::Serve(t)
            } else {
                r matches ReadDecision::Reject(e) && (e matches AppError::Decode { target, .. }
                    && target@ == "redis"@)
            },
            None => r == ReadDecision::Produce,
        },
{
    match reply {
        Some(raw) => {
            if is_json_document(raw.as_str()) {
                ReadDecision::Serve(raw)
            } else {
                ReadDecision::Reject(
                    AppError::decode("redis", "stored value is not a JSON document".to_owned()),
                )
            }
        },
        None => ReadDecision::Produce,
    }
}

/// Check that a produced text can be persisted: only JSON documents go
/// into the store.  Text that is not a JSON document is rejected with an
/// `Encode` error tagged with the store's name — nothing may be stored
/// that a later read would have to reject.
pub fn validate_produced(text: String) -> (r: Result<String, AppError>)
    ensures
        parses_as_json(text@) ==> r == Ok::<String, AppError>(text),
        !parses_as_json(text@) ==> (r matches Err(e) && (e matches AppError::Encode {
            target,
            ..
        } && target@ == "redis"@)),
{
    if is_json_document(text.as_str()) {
        Ok(text)
    } else {
        Err(AppError::encode("redis", "produced value is not a JSON document".to_owned()))
    }
}

/// The read-through cache over a [`Store`].
#[derive(Clone, Debug)]
pub struct Cache {
    store: Store,
}

impl Cache {
    /// The abstract contents of the underlying store.
    pub closed spec fn contents(self) -> Map<Seq<char>, EntryModel> {
        self.store.contents()
    }

    /// A cache over the given store.
    pub fn new(store: Store) -> (r: Cache)
        ensures
            r.contents() == store.contents(),
    {
        Cache { store }
    }

    /// Serve `key` from the store, or compute, persist and return.
    ///
    /// On a live entry the stored text is returned (a `Decode` failure
    /// tagged "redis" when it is not a JSON document) and the store is
    /// untouched.  Otherwise the producer is invoked exactly once: a
    /// produced JSON document is stored under `key` — forever for a TTL of
    /// zero, until `now + ttl_secs` for a positive TTL — and returned;
    /// produced text that is no JSON document cannot be persisted and is
    /// rejected with an `Encode` failure tagged "redis"; a producer
    /// failure is returned exactly as the producer yielded it.  In the two
    /// failure cases nothing is stored.
    pub fn remember<F: FnOnce() -> Result<String, AppError>>(
        &mut self,
        now: u64,
        key: &str,
        ttl_secs: u64,
        producer: F,
    ) -> (r: Result<String, AppError>)
        requires
            key@.len() != 0,
            now + ttl_secs <= u64::MAX,
            call_requires(producer, ()),
        ensures
            live(old(self).contents(), key@, now) ==> final(self).contents() == old(
                self,
            ).contents() && result_matches(r, remember_hit(old(self).contents(), key@)),
            !live(old(self).contents(), key@, now) ==> exists|pr: Result<String, AppError>|
                {
                    &&& #[trigger] call_ensures(producer, (), pr)
                    &&& ({
                        let (m2, out) = remember_model(
                            old(self).contents(),
                            now,
                            key@,
                            ttl_secs,
                            produced_view(pr),
                        );
                        final(self).contents() == m2 && result_matches(r, out)
                    })
                },
    {
        match decide_read(self.store.get(key, now)) {
            ReadDecision::Serve(text) => Ok(text),
            ReadDecision::Reject(e) => Err(e),
            ReadDecision::Produce => {
                let pr = producer();
                let ghost gpr = pr;
                match pr {
                    Ok(text) => match validate_produced(text) {
                        Ok(text) => {
                            if ttl_secs == 0 {
                                self.store.set(key, text.as_str());
                            } else {
                                self.store.set_ex(key, text.as_str(), ttl_secs, now);
                            }
                            assert(call_ensures(producer, (), gpr));
                            Ok(text)
                        },
                        Err(e) => {
                            assert(call_ensures(producer, (), gpr));
                            Err(e)
                        },
                    },
                    Err(e) => {
                        assert(call_ensures(producer, (), gpr));
                        Err(e)
                    },
                }
            },
        }
    }

    /// Unconditionally remove every entry of the store.  Afterwards no key
    /// is live at any time: nothing stored before the flush is
    /// retrievable.
    pub fn clear_all(&mut self)
        ensures
            final(self).contents() == Map::<Seq<char>, EntryModel>::empty(),
            forall|k: Seq<char>, now: u64| !live(final(self).contents(), k, now),
    {
        self.store.flush_all();
    }
}

/// Law: a value cached under a positive TTL is served from the store for
/// as long as the TTL has not elapsed.  Once a first call has succeeded —
/// its outcome is a value — then whatever a later producer would yield, a
/// second call within the window returns the first call's value and
/// leaves the store unchanged: the producer is not consulted again.
pub proof fn lemma_cache_hit_avoids_recompute(
    m: Map<Seq<char>, EntryModel>,
    now0: u64,
    now1: u64,
    key: Seq<char>,
    ttl_secs: u64,
    text0: Seq<char>,
)
    requires
        0 < ttl_secs,
        now0 + ttl_secs <= u64::MAX,
        !live(m, key, now0),
        now0 <= now1,
        now1 < now0 + ttl_secs,
    ensures
        remember_model(m, now0, key, ttl_secs, Ok(text0)).1 is Value ==> forall|
            produced: Result<Seq<char>, AppError>,
        |
            #[trigger] remember_model(
                remember_model(m, now0, key, ttl_secs, Ok(text0)).0,
                now1,
                key,
                ttl_secs,
                produced,
            ) == (remember_model(m, now0, key, ttl_secs, Ok(text0)).0, ModelResult::Value(text0)),
{
}

/// Law: once the TTL has elapsed the stored value is not returned again.
/// After a first call has stored a value, the next call past the window
/// consults its producer: it returns exactly what the producer yields,
/// and on success the old entry is replaced.
pub proof fn lemma_expiry_triggers_recompute(
    m: Map<Seq<char>, EntryModel>,
    now0: u64,
    now1: u64,
    key: Seq<char>,
    ttl_secs: u64,
    text0: Seq<char>,
    produced: Result<Seq<char>, AppError>,
)
    requires
        0 < ttl_secs,
        now0 + ttl_secs <= u64::MAX,
        !live(m, key, now0),
        now0 + ttl_secs <= now1,
    ensures
        remember_model(m, now0, key, ttl_secs, Ok(text0)).1 is Value ==> ({
            let m1 = remember_model(m, now0, key, ttl_secs, Ok(text0)).0;
            remember_model(m1, now1, key, ttl_secs, produced) == match produced {
                Ok(t) => if parses_as_json(t) {
                    (
                        m1.insert(
                            key,
                            EntryModel { text: t, expires_at: expiry_of(now1, ttl_secs) },
                        ),
                        ModelResult::Value(t),
                    )
                } else {
                    (m1, ModelResult::NotJson)
                },
                Err(e) => (m1, ModelResult::Failed(e)),
            }
        }),
{
}

/// Law: an entry stored with a TTL of zero never expires.  Once a first
/// call with TTL zero has succeeded, then at any later time, under any
/// TTL and any producer, the call is a hit on the stored value; only an
/// explicit flush removes it.
pub proof fn lemma_zero_ttl_never_expires(
    m: Map<Seq<char>, EntryModel>,
    now0: u64,
    now1: u64,
    key: Seq<char>,
    ttl1: u64,
    text0: Seq<char>,
    produced: Result<Seq<char>, AppError>,
)
    requires
        !live(m, key, now0),
    ensures
        remember_model(m, now0, key, 0, Ok(text0)).1 is Value ==> remember_model(
            remember_model(m, now0, key, 0, Ok(text0)).0,
            now1,
            key,
            ttl1,
            produced,
        ) == (remember_model(m, now0, key, 0, Ok(text0)).0, ModelResult::Value(text0)),
{
}

/// Law: text that is not a JSON document is never persisted.  A producer
/// yielding such text has the call fail with the encode rejection, and
/// the store is left as it was: no later read can find a poisoned entry
/// that this primitive wrote.
pub proof fn lemma_non_document_is_not_stored(
    m: Map<Seq<char>, EntryModel>,
    now: u64,
    key: Seq<char>,
    ttl_secs: u64,
    text: Seq<char>,
)
    requires
        !live(m, key, now),
    ensures
        !parses_as_json(text) ==> remember_model(m, now, key, ttl_secs, Ok(text)) == (
            m,
            ModelResult::NotJson,
        ),
{
}

/// Law: a live entry whose text is not a JSON document surfaces as a
/// corrupt-entry failure.  The producer is not consulted and the entry is
/// neither healed nor discarded.
pub proof fn lemma_decode_failure_surfaced(
    m: Map<Seq<char>, EntryModel>,
    now: u64,
    key: Seq<char>,
    ttl_secs: u64,
    produced: Result<Seq<char>, AppError>,
)
    requires
        live(m, key, now),
    ensures
        !parses_as_json(m[key].text) ==> remember_model(m, now, key, ttl_secs, produced) == (
            m,
            ModelResult::CorruptEntry,
        ),
{
}

/// Law: a producer failure propagates untouched: the call fails with
/// exactly the producer's error and the store is left as it was.
pub proof fn lemma_producer_failure_propagates(
    m: Map<Seq<char>, EntryModel>,
    now: u64,
    key: Seq<char>,
    ttl_secs: u64,
    e: AppError,
)
    requires
        !live(m, key, now),
    ensures
        remember_model(m, now, key, ttl_secs, Err(e)) == (m, ModelResult::Failed(e)),
{
}

} // verus!
