//! Interpretation of the submission response.
//!
//! One network round trip answers with a JSON document that carries a
//! boolean success flag, an optional signed upload URL, and possibly a
//! non-empty error array. serde_json reads those pieces out of the
//! body text; since parsing depends on the body alone, each piece
//! bears a name here, and the outcome of an attempt is pinned, if and
//! only if, to those names. The error taxonomy mirrors what the
//! processing loop distinguishes: every kind short of success is
//! retryable, and which kind it was is only logged.

use vstd::prelude::*;

verus! {

/// What one submission attempt came to. Everything but `Success` is
/// retryable; the distinctions are kept for logging.
#[derive(Debug)]
pub enum SubmitOutcome {
    /// The request never completed (connection, DNS, timeout).
    TransportError,
    /// The response body was not the expected document.
    DecodeError,
    /// The response carried a non-empty error array.
    GraphqlError,
    /// The response was well-formed but the success flag was false.
    NotSuccessful,
    /// The report was accepted; a signed upload URL may accompany it.
    Success { upload_url: Option<String> },
}

/// The mathematical value of a [`SubmitOutcome`]: the retry policy
/// only tells success from failure, and keeps the upload URL.
pub enum OutcomeV {
    Failure,
    Success { upload_url: Option<Seq<char>> },
}

impl View for SubmitOutcome {
    type V = OutcomeV;

    open spec fn view(&self) -> OutcomeV {
        match self {
            SubmitOutcome::Success { upload_url } => OutcomeV::Success {
                upload_url: upload_url.deep_view(),
            },
            _ => OutcomeV::Failure,
        }
    }
}

/// Whether the body parses as a JSON document: what
/// serde_json::from_str decides of the text, named.
pub uninterp spec fn submit_decodes(body: Seq<char>) -> bool;

/// The length of the document's `errors` array, where the body parses
/// and carries one.
pub uninterp spec fn submit_errors_len(body: Seq<char>) -> Option<usize>;

/// The boolean under `data.reportOnlineGame.success`, where the body
/// parses and carries one.
pub uninterp spec fn submit_success_of(body: Seq<char>) -> Option<bool>;

/// The string under `data.reportOnlineGame.uploadUrl`, where the body
/// parses and carries one.
pub uninterp spec fn submit_url_of(body: Seq<char>) -> Option<Seq<char>>;

/// The response carried a non-empty error array.
pub open spec fn graphql_errors_in(body: Seq<char>) -> bool {
    match submit_errors_len(body) {
        Some(n) => n > 0,
        None => false,
    }
}

/// The pieces of one submission response, as read out of the body.
struct SubmitEnvelope {
    decodes: bool,
    errors_len: Option<usize>,
    success: Option<bool>,
    upload_url: Option<String>,
}

/// Relies on serde_json: `from_str` parses the body, and `Value::get`,
/// `Value::as_array`, `Value::as_bool` and `Value::as_str` read the
/// envelope's pieces out of the parsed tree. Every piece is a function
/// of the body text alone, so each is pinned to its name.
#[verifier::external_body]
fn read_submit_envelope(body: &str) -> (r: SubmitEnvelope)
    ensures
        r.decodes == submit_decodes(body@),
        r.errors_len == submit_errors_len(body@),
        r.success == submit_success_of(body@),
        r.upload_url.deep_view() == submit_url_of(body@),
{
    let v: Option<serde_json::Value> = serde_json::from_str(body).ok();
    let errors = v.as_ref().and_then(|d| d.get("errors")).and_then(|e| e.as_array());
    let node = v.as_ref().and_then(|d| d.get("data")).and_then(|d| d.get("reportOnlineGame"));
    SubmitEnvelope {
        decodes: v.is_some(),
        errors_len: errors.map(|a| a.len()),
        success: node.and_then(|n| n.get("success")).and_then(|s| s.as_bool()),
        upload_url: node
            .and_then(|n| n.get("uploadUrl"))
            .and_then(|u| u.as_str())
            .map(|s| s.to_string()),
    }
}

/// Reads the submission response body. A parse failure or a missing
/// success flag is a decode error; a non-empty `errors` array a
/// GraphQL error; a false success flag a semantic failure; otherwise
/// the attempt succeeded, with the upload URL if one was sent. A
/// transport error never arises here: that kind belongs to the caller
/// that made the round trip.
pub fn interpret_response(body: &str) -> (r: SubmitOutcome)
    ensures
        !(r is TransportError),
        r is DecodeError <==> (!submit_decodes(body@) || (!graphql_errors_in(body@)
            && submit_success_of(body@) is None)),
        r is GraphqlError <==> (submit_decodes(body@) && graphql_errors_in(body@)),
        r is NotSuccessful <==> (submit_decodes(body@) && !graphql_errors_in(body@)
            && submit_success_of(body@) == Some(false)),
        r is Success <==> (submit_decodes(body@) && !graphql_errors_in(body@)
            && submit_success_of(body@) == Some(true)),
        (r matches SubmitOutcome::Success { upload_url } ==> upload_url.deep_view()
            == submit_url_of(body@)),
{
    let env = read_submit_envelope(body);
    if !env.decodes {
        return SubmitOutcome::DecodeError;
    }
    if let Some(n) = env.errors_len {
        if n > 0 {
            return SubmitOutcome::GraphqlError;
        }
    }
    match env.success {
        None => SubmitOutcome::DecodeError,
        Some(false) => SubmitOutcome::NotSuccessful,
        Some(true) => SubmitOutcome::Success { upload_url: env.upload_url },
    }
}

/// The mutation result under `data.<field>` of a terminal call's
/// response, where the body parses and carries one.
pub uninterp spec fn terminal_ack_of(body: Seq<char>, field: Seq<char>) -> Option<bool>;

/// Relies on serde_json: `from_str`, `Value::get` and `Value::as_bool`
/// read the single mutation result out of the body; it is a function
/// of the body and field alone, so it is pinned to its name.
#[verifier::external_body]
fn read_terminal_ack(body: &str, field: &str) -> (r: Option<bool>)
    ensures
        r == terminal_ack_of(body@, field@),
{
    serde_json::from_str::<serde_json::Value>(body)
        .ok()
        .as_ref()
        .and_then(|v| v.get("data"))
        .and_then(|d| d.get(field))
        .and_then(|n| n.as_bool())
}

/// Reads the response of a one-shot terminal call (completion or
/// abandonment), whose single field is the mutation's boolean result:
/// true exactly when the service acknowledged it.
pub fn interpret_terminal_response(body: &str, field: &str) -> (r: bool)
    ensures
        r == (terminal_ack_of(body@, field@) == Some(true)),
{
    match read_terminal_ack(body, field) {
        Some(b) => b,
        None => false,
    }
}

} // verus!
