//! The backend adapter's verified half: the endpoint URL, the mapping of an
//! HTTP exchange's outcome into a result or an error, and the collapse of an
//! error into its display message.
//!
//! The single blocking POST itself is network I/O and lives with the
//! surrounding program, which hands its outcome back as an [`HttpReply`].

use vstd::prelude::*;

use crate::model::{AnalysisError, AnalysisResult, SpecError, SpecResult, outcome_view};
use crate::text::{dec_digits, push_decimal};
use crate::wire::{DecodeFailure, decode_body, lemma_take_step, spec_decoded};

verus! {

/// How one HTTP exchange ended, as plain values: a 2xx body, a non-2xx
/// status with its body, or transport trouble with its message.
#[derive(Debug, PartialEq, Eq)]
pub enum HttpReply {
    Success(String),
    Status(u16, String),
    Transport(String),
}

/// Mathematical model of an `HttpReply`.
pub enum SpecReply {
    Success(Seq<char>),
    Status(u16, Seq<char>),
    Transport(Seq<char>),
}

impl View for HttpReply {
    type V = SpecReply;

    open spec fn view(&self) -> SpecReply {
        match self {
            HttpReply::Success(b) => SpecReply::Success(b@),
            HttpReply::Status(c, b) => SpecReply::Status(*c, b@),
            HttpReply::Transport(m) => SpecReply::Transport(m@),
        }
    }
}

/// The base URL with trailing slashes stripped.
pub open spec fn trim_trailing_slashes(s: Seq<char>) -> Seq<char>
    decreases s.len(),
{
    if s.len() > 0 && s.last() == '/' {
        trim_trailing_slashes(s.drop_last())
    } else {
        s
    }
}

/// The URL the request is posted to.
pub open spec fn spec_endpoint(base: Seq<char>) -> Seq<char> {
    trim_trailing_slashes(base) + "/api/analyze"@
}

/// Build the endpoint URL from a user-edited base: trailing slashes are
/// stripped before the path is appended.
pub fn endpoint_url(base: &str) -> (r: String)
    ensures
        r@ == spec_endpoint(base@),
{
    let n = base.unicode_len();
    let mut end: usize = n;
    proof {
        assert(base@.take(n as int) =~= base@);
    }
    while end > 0 && base.get_char(end - 1) == '/'
        invariant
            end <= n,
            n == base@.len(),
            trim_trailing_slashes(base@) == trim_trailing_slashes(base@.take(end as int)),
        decreases end,
    {
        proof {
            lemma_take_step(base@, end - 1);
        }
        end = end - 1;
    }
    proof {
        let t = base@.take(end as int);
        assert(end > 0 ==> t.last() == base@[end - 1]);
        assert(trim_trailing_slashes(t) == t);
    }
    let mut r = base.substring_char(0, end).to_owned();
    r.append("/api/analyze");
    r
}

/// The message an error collapses to at the session boundary: the transport
/// or parse message itself, `HTTP <code>: <body>` for a rejection, and a
/// fixed line for a worker that vanished.
pub open spec fn spec_error_message(e: SpecError) -> Seq<char> {
    match e {
        SpecError::Transport(m) => m,
        SpecError::RemoteRejected(code, body) => "HTTP "@ + dec_digits(code as nat) + ": "@
            + body,
        SpecError::MalformedResponse(m) => m,
        SpecError::InternalInterrupted => "background task interrupted"@,
    }
}

/// Collapse an error into its human-readable message.
pub fn error_message(e: &AnalysisError) -> (r: String)
    ensures
        r@ == spec_error_message(e@),
{
    match e {
        AnalysisError::Transport(m) => m.clone(),
        AnalysisError::RemoteRejected(code, body) => {
            let mut s = String::from_str("HTTP ");
            push_decimal(&mut s, *code as u64);
            s.append(": ");
            s.append(body.as_str());
            proof {
                assert(s@ =~= spec_error_message(e@));
            }
            s
        },
        AnalysisError::MalformedResponse(m) => m.clone(),
        AnalysisError::InternalInterrupted => String::from_str("background task interrupted"),
    }
}

/// What the adapter makes of an exchange: transport trouble and non-2xx
/// statuses become their errors; a 2xx body is decoded under the schema or
/// becomes a malformed-response error with a fixed message.
pub open spec fn spec_interpret(rep: SpecReply) -> Result<SpecResult, SpecError> {
    match rep {
        SpecReply::Transport(m) => Err(SpecError::Transport(m)),
        SpecReply::Status(code, body) => Err(SpecError::RemoteRejected(code, body)),
        SpecReply::Success(body) => match spec_decoded(body) {
            Some(a) => Ok(a),
            None => Err(SpecError::MalformedResponse(spec_malformed_message(body))),
        },
    }
}

/// Which malformed-response message a 2xx body that failed to decode gets.
pub open spec fn spec_malformed_message(body: Seq<char>) -> Seq<char> {
    if crate::wire::parsed_json(body) is None {
        "invalid JSON in response body"@
    } else {
        "unexpected response shape"@
    }
}

/// Map one finished exchange into the submission's outcome.
pub fn interpret_exchange(reply: HttpReply) -> (r: Result<AnalysisResult, AnalysisError>)
    ensures
        outcome_view(r) == spec_interpret(reply@),
{
    match reply {
        HttpReply::Transport(m) => Err(AnalysisError::Transport(m)),
        HttpReply::Status(code, body) => Err(AnalysisError::RemoteRejected(code, body)),
        HttpReply::Success(body) => match decode_body(body.as_str()) {
            Ok(a) => Ok(a),
            Err(DecodeFailure::NotJson) => Err(
                AnalysisError::MalformedResponse(
                    String::from_str("invalid JSON in response body"),
                ),
            ),
            Err(DecodeFailure::WrongShape) => Err(
                AnalysisError::MalformedResponse(String::from_str("unexpected response shape")),
            ),
        },
    }
}

} // verus!
