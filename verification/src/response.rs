//! Finalization of one HTTP send.
//!
//! However the network step ends — a response, a transport error, or the
//! cancellation signal winning the race — the pending record is finalized
//! exactly once: a completed exchange sets the status and never the error, a
//! failure or a cancellation sets the error, the sentinel elapsed `-1`, and
//! touches nothing else. A record never ends with both or with neither.

use vstd::prelude::*;

use crate::models::HttpResponse;
use crate::models::HttpResponseHeader;

verus! {

/// How the network step of one send ended.
pub enum SendOutcome {
    /// The transport produced a response; the body was fully received and
    /// durably written to `body_path`.
    Completed {
        status: u16,
        status_reason: Option<String>,
        headers: Vec<HttpResponseHeader>,
        url: String,
        remote_addr: Option<String>,
        version: Option<String>,
        content_length: Option<i64>,
        body_len: i64,
        elapsed_headers: i64,
        elapsed: i64,
        body_path: String,
    },
    /// A network-layer failure: DNS, TLS, connect, timeout, or a malformed
    /// response. A normal terminal outcome, never a crash.
    TransportFailed { message: String },
    /// The cancellation signal won the race.
    SendCancelled,
}

/// A send that reached a response: a status is set and no error.
pub open spec fn response_succeeded(r: HttpResponse) -> bool {
    r.status >= 100 && r.error is None
}

/// A send that ended in an error message (failure or cancellation).
pub open spec fn response_failed(r: HttpResponse) -> bool {
    r.error is Some
}

/// A record that will change no more.
pub open spec fn response_terminal(r: HttpResponse) -> bool {
    response_succeeded(r) || response_failed(r)
}

/// A well-formed outcome: times are measured forward and sizes are counts.
pub open spec fn outcome_wf(outcome: SendOutcome) -> bool {
    match outcome {
        SendOutcome::Completed {
            status,
            content_length,
            body_len,
            elapsed_headers,
            elapsed,
            ..
        } => {
            &&& 100 <= status <= 999
            &&& body_len >= 0
            &&& (content_length matches Some(l) ==> l >= 0)
            &&& 0 <= elapsed_headers <= elapsed
        },
        _ => true,
    }
}

/// How the finalized record relates to the pending one and the outcome.
pub open spec fn response_completed(
    base: HttpResponse,
    outcome: SendOutcome,
    r: HttpResponse,
) -> bool {
    &&& r.id == base.id
    &&& r.workspace_id == base.workspace_id
    &&& r.request_id == base.request_id
    &&& match outcome {
        SendOutcome::Completed {
            status,
            status_reason,
            headers,
            url,
            remote_addr,
            version,
            content_length,
            body_len,
            elapsed_headers,
            elapsed,
            body_path,
        } => {
            &&& r.status == status as int
            &&& r.status_reason == status_reason
            &&& r.headers == headers
            &&& r.url == url
            &&& r.remote_addr == remote_addr
            &&& r.version == version
            &&& r.elapsed == elapsed
            &&& r.elapsed_headers == elapsed_headers
            &&& r.content_length == Some(
                match content_length {
                    Some(l) => l,
                    None => body_len,
                },
            )
            &&& r.body_path == Some(body_path)
            &&& r.error is None
        },
        SendOutcome::TransportFailed { message } => {
            &&& r.elapsed == -1
            &&& r.error == Some(message)
            &&& r.status == base.status
            &&& r.url == base.url
            &&& r.status_reason == base.status_reason
            &&& r.version == base.version
            &&& r.remote_addr == base.remote_addr
            &&& r.body_path == base.body_path
            &&& r.headers == base.headers
            &&& r.elapsed_headers == base.elapsed_headers
            &&& r.content_length == base.content_length
        },
        SendOutcome::SendCancelled => {
            &&& r.elapsed == -1
            &&& (r.error matches Some(e) && e@ == "Request was cancelled"@)
            &&& r.status == base.status
            &&& r.url == base.url
            &&& r.status_reason == base.status_reason
            &&& r.version == base.version
            &&& r.remote_addr == base.remote_addr
            &&& r.body_path == base.body_path
            &&& r.headers == base.headers
            &&& r.elapsed_headers == base.elapsed_headers
            &&& r.content_length == base.content_length
        },
    }
}

/// Finalize the pending record with the outcome of its network step. A
/// completed exchange captures the wire data and prefers the
/// transport-reported content length over the received byte count; a
/// failure or a cancellation sets the error and the sentinel elapsed `-1`
/// and leaves every other field — the body path above all — untouched.
pub fn complete_response(base: HttpResponse, outcome: SendOutcome) -> (r: HttpResponse)
    requires
        outcome_wf(outcome),
    ensures
        response_completed(base, outcome, r),
        response_terminal(r),
        !(response_succeeded(r) && response_failed(r)),
        (outcome matches SendOutcome::Completed { .. }) ==> r.elapsed >= 0,
        !(outcome matches SendOutcome::Completed { .. }) ==> r.elapsed == -1,
{
    match outcome {
        SendOutcome::Completed {
            status,
            status_reason,
            headers,
            url,
            remote_addr,
            version,
            content_length,
            body_len,
            elapsed_headers,
            elapsed,
            body_path,
        } => {
            let reported = match content_length {
                Some(l) => l,
                None => body_len,
            };
            HttpResponse {
                id: base.id,
                workspace_id: base.workspace_id,
                request_id: base.request_id,
                url,
                status: status as i64,
                status_reason,
                headers,
                version,
                remote_addr,
                content_length: Some(reported),
                elapsed,
                elapsed_headers,
                body_path: Some(body_path),
                error: None,
            }
        },
        SendOutcome::TransportFailed { message } => {
            HttpResponse { elapsed: -1, error: Some(message), ..base }
        },
        SendOutcome::SendCancelled => {
            HttpResponse {
                elapsed: -1,
                error: Some(String::from_str("Request was cancelled")),
                ..base
            }
        },
    }
}

/// Every finalized send carries exactly one of a status and an error, and a
/// non-negative elapsed time unless it failed or was cancelled, where the
/// sentinel `-1` stands.
pub proof fn lemma_send_outcome_exclusive(
    base: HttpResponse,
    outcome: SendOutcome,
    r: HttpResponse,
)
    requires
        outcome_wf(outcome),
        response_completed(base, outcome, r),
        base.error is None,
        base.status == 0,
    ensures
        response_terminal(r),
        !(response_succeeded(r) && response_failed(r)),
        response_succeeded(r) <==> (outcome matches SendOutcome::Completed { .. }),
        response_succeeded(r) ==> r.elapsed >= 0,
        response_failed(r) ==> r.elapsed == -1,
{
}

/// Cancellation before the network step completes leaves no partial side
/// effects: a pending record finalized by cancellation still has no body
/// written, the sentinel elapsed `-1`, and the fixed cancellation message.
pub proof fn lemma_cancel_writes_nothing(base: HttpResponse, r: HttpResponse)
    requires
        response_completed(base, SendOutcome::SendCancelled, r),
        base.body_path is None,
    ensures
        r.body_path is None,
        r.elapsed == -1,
        r.error matches Some(e) && e@ == "Request was cancelled"@,
{
}

/// The file a response body is stored under: the response's own identity,
/// or the caller's generated name for an ephemeral send that has none.
pub fn body_file_name(response_id: &str, generated: String) -> (r: String)
    ensures
        response_id@.len() > 0 ==> r@ == response_id@,
        response_id@.len() == 0 ==> r@ == generated@,
{
    if !response_id.is_empty() {
        response_id.to_owned()
    } else {
        generated
    }
}

} // verus!
