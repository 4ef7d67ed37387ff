//! The downstream client adapter's computable half.
//!
//! A handler turns its typed request into one prepared downstream call: a
//! URL joined from the trimmed base URL and the operation's fixed path
//! suffix, plus the structured request body. The HTTP round trip itself
//! happens outside the library; what came back — a body, a network
//! failure, or an unparseable body — returns as a [`FetchOutcome`], and
//! every failure is re-labeled with the adapter's own error kind, with the
//! underlying cause text kept for observability.

use vstd::prelude::*;

use crate::error::BridgeError;
use crate::json::JsonValue;

verus! {

/// `s` without its trailing slashes.
pub open spec fn trim_trailing_slashes(s: Seq<char>) -> Seq<char>
    decreases s.len(),
{
    if s.len() > 0 && s.last() == '/' {
        trim_trailing_slashes(s.drop_last())
    } else {
        s
    }
}

/// Joins a base URL and a fixed path suffix: the base's trailing slashes
/// go, the suffix is appended as given.
pub fn join_url(base: &String, suffix: &str) -> (r: String)
    ensures
        r@ == trim_trailing_slashes(base@) + suffix@,
{
    let n = base.as_str().unicode_len();
    let mut end = n;
    proof {
        assert(base@.subrange(0, n as int) =~= base@);
    }
    while end > 0 && base.as_str().get_char(end - 1) == '/'
        invariant
            end <= n,
            n == base@.len(),
            trim_trailing_slashes(base@) == trim_trailing_slashes(
                base@.subrange(0, end as int),
            ),
        decreases end,
    {
        proof {
            let cut = base@.subrange(0, end as int);
            assert(cut.last() == base@[end - 1]);
            assert(cut.drop_last() =~= base@.subrange(0, end - 1));
        }
        end = end - 1;
    }
    proof {
        let cut = base@.subrange(0, end as int);
        if end > 0 {
            assert(cut.last() == base@[end - 1]);
        }
        assert(trim_trailing_slashes(cut) == cut);
    }
    let trimmed = base.as_str().substring_char(0, end);
    String::from_str(trimmed).concat(suffix)
}

/// One prepared downstream call: where to send it and what to send.
#[derive(Debug)]
pub struct DownstreamCall {
    pub url: String,
    pub body: JsonValue,
}

/// What one downstream HTTP round trip came back with.
#[derive(Debug)]
pub enum FetchOutcome {
    /// The exchange completed and the body was a well-formed value tree.
    Body(JsonValue),
    /// The call failed at the network level; the underlying error text.
    NetworkError(String),
    /// The exchange completed but the body was not parseable; the
    /// original parse failure text.
    InvalidBody(String),
}

/// Re-labels a downstream outcome with the adapter's own failure kinds:
/// a network failure becomes `DownstreamUnreachable` and an unparseable
/// body becomes `DownstreamParseError`, each keeping the underlying cause
/// text verbatim; a well-formed body passes through unchanged.
pub fn downstream_value(outcome: FetchOutcome) -> (r: Result<JsonValue, BridgeError>)
    ensures
        outcome matches FetchOutcome::Body(v) ==> r == Ok::<JsonValue, BridgeError>(v),
        outcome matches FetchOutcome::NetworkError(c) ==> r == Err::<JsonValue, BridgeError>(
            BridgeError::DownstreamUnreachable { cause: c },
        ),
        outcome matches FetchOutcome::InvalidBody(c) ==> r == Err::<JsonValue, BridgeError>(
            BridgeError::DownstreamParseError { cause: c },
        ),
{
    match outcome {
        FetchOutcome::Body(v) => Ok(v),
        FetchOutcome::NetworkError(c) => Err(BridgeError::DownstreamUnreachable { cause: c }),
        FetchOutcome::InvalidBody(c) => Err(BridgeError::DownstreamParseError { cause: c }),
    }
}

} // verus!
