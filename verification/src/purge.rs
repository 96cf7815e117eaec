//! The decision of the administrative cache-purge boundary.
//!
//! The flush-all operation is exposed behind an authenticated
//! administrative call: a caller-supplied token is compared against a
//! configured secret.  The surrounding transport is outside the core; the
//! decision itself — is a secret configured at all, and does the supplied
//! token match it — is here, so the boundary's behaviour is pinned down.

use vstd::prelude::*;
use vstd::string::StrSliceExecFns;

verus! {

/// What the purge boundary decides for one request.
#[derive(Clone, Copy, Debug, PartialEq, Eq, Structural)]
pub enum PurgeCheck {
    /// No secret is configured (absent, or nothing but whitespace): the
    /// operation is unavailable.
    NotConfigured,
    /// The supplied token is absent or differs from the secret: the
    /// request is rejected.
    Unauthorized,
    /// The supplied token matches the secret: the flush may proceed.
    Authorized,
}

/// A whitespace character: the Unicode White_Space set, the characters
/// that trimming a string removes.
pub open spec fn is_space(c: char) -> bool {
    ||| c == '\u{9}' || c == '\u{a}' || c == '\u{b}' || c == '\u{c}' || c == '\u{d}'
    ||| c == ' ' || c == '\u{85}' || c == '\u{a0}' || c == '\u{1680}'
    ||| ('\u{2000}' <= c && c <= '\u{200a}')
    ||| c == '\u{2028}' || c == '\u{2029}' || c == '\u{202f}' || c == '\u{205f}'
    ||| c == '\u{3000}'
}

/// A text of nothing but whitespace — empty after trimming: not a usable
/// secret.
pub open spec fn blank(s: Seq<char>) -> bool {
    forall|i: int| 0 <= i < s.len() ==> is_space(#[trigger] s[i])
}

/// The decision the boundary owes: unavailable without a usable secret,
/// authorized exactly on a matching token, rejected otherwise.
pub open spec fn purge_check_model(
    expected: Option<Seq<char>>,
    provided: Option<Seq<char>>,
) -> PurgeCheck {
    match expected {
        None => PurgeCheck::NotConfigured,
        Some(secret) => if blank(secret) {
            PurgeCheck::NotConfigured
        } else if provided == Some(secret) {
            PurgeCheck::Authorized
        } else {
            PurgeCheck::Unauthorized
        },
    }
}

fn is_blank(s: &str) -> (r: bool)
    ensures
        r == blank(s@),
{
    let n: usize = s.unicode_len();
    let mut i: usize = 0;
    while i < n
        invariant
            i <= n,
            n == s@.len(),
            forall|j: int| 0 <= j < i ==> is_space(#[trigger] s@[j]),
        decreases n - i,
    {
        let c = s.get_char(i);
        let space: bool = (c == '\u{9}' || c == '\u{a}' || c == '\u{b}' || c == '\u{c}'
            || c == '\u{d}') || (c == ' ' || c == '\u{85}' || c == '\u{a0}' || c == '\u{1680}')
            || ('\u{2000}' <= c && c <= '\u{200a}') || (c == '\u{2028}' || c == '\u{2029}'
            || c == '\u{202f}' || c == '\u{205f}') || c == '\u{3000}';
        if !space {
            return false;
        }
        i = i + 1;
    }
    true
}

/// Decide a purge request: `expected` is the configured secret, if the
/// environment holds one, and `provided` is the token the request
/// carried.
pub fn check_purge_token(expected: Option<&String>, provided: Option<&String>) -> (r: PurgeCheck)
    ensures
        r == purge_check_model(
            match expected {
                Some(s) => Some(s@),
                None => None::<Seq<char>>,
            },
            match provided {
                Some(s) => Some(s@),
                None => None::<Seq<char>>,
            },
        ),
{
    match expected {
        None => PurgeCheck::NotConfigured,
        Some(secret) => {
            if is_blank(secret.as_str()) {
                PurgeCheck::NotConfigured
            } else {
                match provided {
                    None => PurgeCheck::Unauthorized,
                    Some(token) => {
                        if *token == *secret {
                            PurgeCheck::Authorized
                        } else {
                            PurgeCheck::Unauthorized
                        }
                    },
                }
            }
        },
    }
}

} // verus!
