//! Decoding the platform's response envelope, and classifying what came back
//! from the transport.
use vstd::prelude::*;
use crate::json::{
    find, json_bool, json_int, json_members, json_text, lookup, parse_bool, parse_int,
    parse_members, parse_text,
};

verus! {

/// A failure of one call, one variant per cause.
#[derive(Debug, Clone, PartialEq, Eq)]
pub enum RequestError {
    /// The transport failed: connection, timeout, TLS or DNS.
    Network { message: String },
    /// The platform answered with `ok: false`.
    Api { error_code: i64, description: String, retry_after: Option<i64> },
    /// The body is not a well-formed envelope.
    InvalidJson { raw: String },
    /// A part of a multipart form could not be built: its file could not be
    /// read. No request was sent.
    Io { message: String },
    /// The envelope was a success, but its `result` does not have the shape
    /// of the operation's output.
    InvalidResult { raw: String },
}

/// The mathematical value of a [`RequestError`].
pub ghost enum ErrorModel {
    Network { message: Seq<char> },
    Api { error_code: i64, description: Seq<char>, retry_after: Option<i64> },
    InvalidJson { raw: Seq<char> },
    Io { message: Seq<char> },
    InvalidResult { raw: Seq<char> },
}

impl View for RequestError {
    type V = ErrorModel;

    open spec fn view(&self) -> ErrorModel {
        match self {
            RequestError::Network { message } => ErrorModel::Network { message: message@ },
            RequestError::Api { error_code, description, retry_after } => ErrorModel::Api {
                error_code: *error_code,
                description: description@,
                retry_after: *retry_after,
            },
            RequestError::InvalidJson { raw } => ErrorModel::InvalidJson { raw: raw@ },
            RequestError::Io { message } => ErrorModel::Io { message: message@ },
            RequestError::InvalidResult { raw } => ErrorModel::InvalidResult { raw: raw@ },
        }
    }
}

/// The view of a decoding outcome: the raw `result` text, or the error.
pub open spec fn outcome_view(r: Result<String, RequestError>) -> Result<Seq<char>, ErrorModel> {
    match r {
        Ok(s) => Ok(s@),
        Err(e) => Err(e@),
    }
}

pub open spec fn key_ok() -> Seq<char> { seq!['o', 'k'] }
pub open spec fn key_result() -> Seq<char> { seq!['r', 'e', 's', 'u', 'l', 't'] }
pub open spec fn key_error_code() -> Seq<char> {
    seq!['e', 'r', 'r', 'o', 'r', '_', 'c', 'o', 'd', 'e']
}
pub open spec fn key_description() -> Seq<char> {
    seq!['d', 'e', 's', 'c', 'r', 'i', 'p', 't', 'i', 'o', 'n']
}
pub open spec fn key_parameters() -> Seq<char> {
    seq!['p', 'a', 'r', 'a', 'm', 'e', 't', 'e', 'r', 's']
}
pub open spec fn key_retry_after() -> Seq<char> {
    seq!['r', 'e', 't', 'r', 'y', '_', 'a', 'f', 't', 'e', 'r']
}

/// The retry hint of a `parameters` value: `Some(None)` when there is no
/// hint, `None` when the value is malformed.
pub open spec fn retry_hint(params: Option<Seq<char>>) -> Option<Option<i64>> {
    match params {
        None => Some(None),
        Some(p) => match json_members(p) {
            None => None,
            Some(pm) => match find(pm, key_retry_after()) {
                None => Some(None),
                Some(v) => match json_int(v) {
                    None => None,
                    Some(n) => Some(Some(n)),
                },
            },
        },
    }
}

/// What an envelope's members decode to. A success carries `result` and
/// neither `error_code` nor `description`; a failure carries an integer
/// `error_code` and a string `description` and no `result`; anything else,
/// a missing or non-boolean `ok` included, is an invalid envelope.
pub open spec fn decode_members(body: Seq<char>, m: Seq<(Seq<char>, Seq<char>)>) -> Result<Seq<char>, ErrorModel> {
    let invalid = Err(ErrorModel::InvalidJson { raw: body });
    let result = find(m, key_result());
    let code = find(m, key_error_code());
    let desc = find(m, key_description());
    match find(m, key_ok()) {
        None => invalid,
        Some(ok) => match json_bool(ok) {
            None => invalid,
            Some(true) => if result is Some && code is None && desc is None {
                Ok(result->0)
            } else {
                invalid
            },
            Some(false) => if result is None && code is Some && desc is Some {
                match (json_int(code->0), json_text(desc->0), retry_hint(find(m, key_parameters()))) {
                    (Some(c), Some(d), Some(h)) => Err(ErrorModel::Api {
                        error_code: c,
                        description: d,
                        retry_after: h,
                    }),
                    _ => invalid,
                }
            } else {
                invalid
            },
        },
    }
}

/// What a response body decodes to.
pub open spec fn decode_spec(body: Seq<char>) -> Result<Seq<char>, ErrorModel> {
    match json_members(body) {
        None => Err(ErrorModel::InvalidJson { raw: body }),
        Some(m) => decode_members(body, m),
    }
}

fn invalid(body: &str) -> (r: RequestError)
    ensures
        r@ == (ErrorModel::InvalidJson { raw: body@ }),
{
    RequestError::InvalidJson { raw: body.to_owned() }
}

fn read_retry_hint(params: Option<String>) -> (r: Option<Option<i64>>)
    ensures
        r == retry_hint(match params { Some(p) => Some(p@), None => None }),
{
    match params {
        None => Some(None),
        Some(p) => match parse_members(p.as_str()) {
            None => None,
            Some(pm) => match lookup(&pm, "retry_after") {
                None => {
                    proof { reveal_strlit("retry_after"); }
                    assert("retry_after"@ =~= key_retry_after());
                    Some(None)
                },
                Some(v) => {
                    proof { reveal_strlit("retry_after"); }
                    assert("retry_after"@ =~= key_retry_after());
                    match parse_int(v.as_str()) {
                        None => None,
                        Some(n) => Some(Some(n)),
                    }
                },
            },
        },
    }
}

/// Decodes a response body into the raw text of its `result`, or the error
/// that the envelope reports, or `InvalidJson` for a malformed envelope.
pub fn decode_envelope(body: &str) -> (r: Result<String, RequestError>)
    ensures
        outcome_view(r) == decode_spec(body@),
{
    let m = match parse_members(body) {
        None => return Err(invalid(body)),
        Some(m) => m,
    };
    proof {
        reveal_strlit("ok");
        reveal_strlit("result");
        reveal_strlit("error_code");
        reveal_strlit("description");
        reveal_strlit("parameters");
    }
    assert("ok"@ =~= key_ok());
    assert("result"@ =~= key_result());
    assert("error_code"@ =~= key_error_code());
    assert("description"@ =~= key_description());
    assert("parameters"@ =~= key_parameters());
    let result = lookup(&m, "result");
    let code = lookup(&m, "error_code");
    let desc = lookup(&m, "description");
    let ok = match lookup(&m, "ok") {
        None => return Err(invalid(body)),
        Some(ok) => match parse_bool(ok.as_str()) {
            None => return Err(invalid(body)),
            Some(b) => b,
        },
    };
    if ok {
        match (result, code, desc) {
            (Some(res), None, None) => Ok(res),
            _ => Err(invalid(body)),
        }
    } else {
        match (result, code, desc) {
            (None, Some(c), Some(d)) => {
                let hint = read_retry_hint(lookup(&m, "parameters"));
                match (parse_int(c.as_str()), parse_text(d.as_str()), hint) {
                    (Some(c), Some(d), Some(h)) => Err(
                        RequestError::Api { error_code: c, description: d, retry_after: h },
                    ),
                    _ => Err(invalid(body)),
                }
            },
            _ => Err(invalid(body)),
        }
    }
}

/// What the transport handed back for one request.
#[derive(Debug, Clone, PartialEq, Eq)]
pub enum Exchange {
    /// No response arrived: connection, timeout, TLS or DNS failure.
    Failed { message: String },
    /// A response arrived with this body.
    Received { body: String },
}

/// What one exchange decodes to.
pub open spec fn response_spec(e: Exchange) -> Result<Seq<char>, ErrorModel> {
    match e {
        Exchange::Failed { message } => Err(ErrorModel::Network { message: message@ }),
        Exchange::Received { body } => decode_spec(body@),
    }
}

/// Classifies the outcome of one request: a transport failure is a network
/// error, a received body is decoded as an envelope.
pub fn decode_response(e: Exchange) -> (r: Result<String, RequestError>)
    ensures
        outcome_view(r) == response_spec(e),
{
    match e {
        Exchange::Failed { message } => Err(RequestError::Network { message }),
        Exchange::Received { body } => decode_envelope(body.as_str()),
    }
}

/// An envelope with `ok: true` and a `result`, and neither `error_code` nor
/// `description`, decodes to the raw text of that `result`.
pub proof fn lemma_success_yields_result(body: Seq<char>, m: Seq<(Seq<char>, Seq<char>)>, result: Seq<char>)
    requires
        json_members(body) == Some(m),
        find(m, key_ok()) == Some(seq!['t', 'r', 'u', 'e']),
        find(m, key_result()) == Some(result),
        find(m, key_error_code()) is None,
        find(m, key_description()) is None,
    ensures
        decode_spec(body) == Ok::<Seq<char>, ErrorModel>(result),
{
}

/// A transport failure is a network error, never an error of the platform.
pub proof fn lemma_transport_failure_is_network(e: Exchange)
    requires
        e is Failed,
    ensures
        response_spec(e) matches Err(ErrorModel::Network { .. }),
        !(response_spec(e) matches Err(ErrorModel::Api { .. })),
{
}

/// An envelope without the `ok` key is invalid: neither a success nor an
/// error of the platform.
pub proof fn lemma_missing_ok_is_invalid(body: Seq<char>, m: Seq<(Seq<char>, Seq<char>)>)
    requires
        json_members(body) == Some(m),
        find(m, key_ok()) is None,
    ensures
        decode_spec(body) == Err::<Seq<char>, ErrorModel>(ErrorModel::InvalidJson { raw: body }),
{
}

} // verus!
