//! Resolved routes: the decoded result of path translation.
//!
//! The upstream router answers a translate-path request with a JSON
//! document carrying a `jsonapi` section (with the API path prefix) and an
//! `entity` description (with type, bundle and UUID).  A [`ResolvedRoute`]
//! holds those four fields; all four must be present and non-empty to form
//! a valid canonical endpoint, and anything less is a decode failure, not
//! a partial result.

use vstd::prelude::*;
use vstd::string::StringExecFns;

use crate::cache::parses_as_json;
use crate::errors::AppError;

verus! {

/// The decoded result of path translation: an API path prefix, an entity
/// type, a bundle (sub-type) identifier, and a UUID.
#[derive(Clone, Debug, PartialEq, Eq)]
pub struct ResolvedRoute {
    pub path_prefix: String,
    pub entity_type: String,
    pub bundle: String,
    pub uuid: String,
}

/// The canonical endpoint four segments denote: the segments slash-joined
/// in the fixed order prefix, type, bundle, UUID, each taken verbatim.
pub open spec fn endpoint_of(
    path_prefix: Seq<char>,
    entity_type: Seq<char>,
    bundle: Seq<char>,
    uuid: Seq<char>,
) -> Seq<char> {
    seq!['/'] + path_prefix + seq!['/'] + entity_type + seq!['/'] + bundle + seq!['/'] + uuid
}

/// What serde_json's reading of a translate-path document yields: the
/// `jsonapi.pathPrefix`, `entity.type`, `entity.bundle` and `entity.uuid`
/// fields, in that order, or nothing where the text is not a JSON document
/// with all four present as strings.  Nothing in this crate states what
/// the reading yields on given characters.
pub uninterp spec fn route_doc_of(text: Seq<char>) -> Option<
    (Seq<char>, Seq<char>, Seq<char>, Seq<char>),
>;

/// Relies on serde_json::from_str::<serde_json::Value> and on
/// serde_json::Value::{get, as_str}: reads the four route fields of a
/// translate-path document.  The result depends on the characters alone,
/// and the fields can only be read after the parse succeeds, so text that
/// yields a route is a JSON document.
#[verifier::external_body]
fn parse_route_document(text: &str) -> (r: Option<ResolvedRoute>)
    ensures
        match r {
            Some(route) => route_doc_of(text@) == Some(
                (route.path_prefix@, route.entity_type@, route.bundle@, route.uuid@),
            ) && parses_as_json(text@),
            None => route_doc_of(text@) is None,
        },
{
    let doc: serde_json::Value = serde_json::from_str(text).ok()?;
    Some(ResolvedRoute {
        path_prefix: doc.get("jsonapi")?.get("pathPrefix")?.as_str()?.to_owned(),
        entity_type: doc.get("entity")?.get("type")?.as_str()?.to_owned(),
        bundle: doc.get("entity")?.get("bundle")?.as_str()?.to_owned(),
        uuid: doc.get("entity")?.get("uuid")?.as_str()?.to_owned(),
    })
}

/// The canonical endpoint a translate-path document denotes, if it decodes
/// into a route whose four fields are all non-empty.
pub open spec fn route_endpoint_of(text: Seq<char>) -> Option<Seq<char>> {
    match route_doc_of(text) {
        Some((p, t, b, u)) => if p.len() > 0 && t.len() > 0 && b.len() > 0 && u.len() > 0 {
            Some(endpoint_of(p, t, b, u))
        } else {
            None
        },
        None => None,
    }
}

impl ResolvedRoute {
    /// All four fields non-empty: what a route needs to form a canonical
    /// endpoint.
    pub open spec fn wf(self) -> bool {
        &&& self.path_prefix@.len() > 0
        &&& self.entity_type@.len() > 0
        &&& self.bundle@.len() > 0
        &&& self.uuid@.len() > 0
    }

    /// The canonical endpoint this route denotes.
    pub open spec fn endpoint(self) -> Seq<char> {
        endpoint_of(self.path_prefix@, self.entity_type@, self.bundle@, self.uuid@)
    }

    /// A route from its four segments: accepted exactly when every segment
    /// is non-empty, and a `Decode` failure naming the resolved-route
    /// target otherwise.
    pub fn new(path_prefix: String, entity_type: String, bundle: String, uuid: String) -> (r:
        Result<ResolvedRoute, AppError>)
        ensures
            (ResolvedRoute { path_prefix, entity_type, bundle, uuid }).wf() ==> r
                == Ok::<ResolvedRoute, AppError>(
                ResolvedRoute { path_prefix, entity_type, bundle, uuid },
            ),
            !(ResolvedRoute { path_prefix, entity_type, bundle, uuid }).wf() ==> (r matches Err(e)
                && (e matches AppError::Decode { target, .. } && target@ == "resolved route"@)),
    {
        if path_prefix.as_str().is_empty() || entity_type.as_str().is_empty()
            || bundle.as_str().is_empty() || uuid.as_str().is_empty() {
            Err(
                AppError::decode(
                    "resolved route",
                    "a route segment is missing or empty".to_owned(),
                ),
            )
        } else {
            Ok(ResolvedRoute { path_prefix, entity_type, bundle, uuid })
        }
    }

    /// Format the canonical endpoint: the four segments slash-joined, in
    /// order, each verbatim.
    pub fn canonical_endpoint(&self) -> (r: String)
        ensures
            r@ == self.endpoint(),
    {
        let mut out: String = "/".to_owned();
        out.append(self.path_prefix.as_str());
        out.append("/");
        out.append(self.entity_type.as_str());
        out.append("/");
        out.append(self.bundle.as_str());
        out.append("/");
        out.append(self.uuid.as_str());
        proof {
            reveal_strlit("/");
            assert(out@ =~= self.endpoint());
        }
        out
    }
}

/// Decode a cached-or-fetched translate-path document into a route.  The
/// text must read as a translate-path document with all four route fields
/// present and non-empty; anything else is a `Decode` failure naming the
/// resolved-route target.
pub fn decode_resolved_route(text: &str) -> (r: Result<ResolvedRoute, AppError>)
    ensures
        r matches Ok(route) ==> (route.wf() && route_doc_of(text@) == Some(
            (route.path_prefix@, route.entity_type@, route.bundle@, route.uuid@),
        ) && route_endpoint_of(text@) == Some(route.endpoint()) && parses_as_json(text@)),
        r matches Err(e) ==> (route_endpoint_of(text@) is None && (e matches AppError::Decode {
            target,
            ..
        } && target@ == "resolved route"@)),
{
    match parse_route_document(text) {
        Some(route) => ResolvedRoute::new(
            route.path_prefix,
            route.entity_type,
            route.bundle,
            route.uuid,
        ),
        None => Err(
            AppError::decode("resolved route", "not a translate-path document".to_owned()),
        ),
    }
}

} // verus!
