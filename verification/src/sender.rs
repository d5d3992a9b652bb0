//! The notification sender: everything a send attempt computes before the
//! POST is issued, and how the response is judged afterwards.
//!
//! The caller performs the file read, the token exchange and the HTTP
//! request itself; `prepare_send` turns their raw outcomes into the exact
//! request to issue — URL, headers and body — or into the error that stops
//! the attempt, and `classify_response` and `attempt_result` fix what is
//! reported once the request was issued.

use crate::credentials::auth_token_from_exchange;
use crate::credentials::resolve_project_id;
use crate::credentials::spec_auth_token;
use crate::credentials::spec_exchange_view;
use crate::credentials::spec_read_view;
use crate::credentials::spec_resolve_project_id;
use crate::errors::DeliveryOutcome;
use crate::errors::FcmError;
use crate::json::build_envelope;
use crate::json::spec_envelope;
use crate::payload::FcmPayloadData;
use crate::text::decimal_string;
use crate::text::spec_decimal;
use vstd::prelude::*;
use vstd::string::StrSliceExecFns;
use vstd::string::StringExecFns;
use vstd::utf8::encode_utf8;

verus! {

/// The provider's send endpoint for one project.
pub open spec fn spec_send_url(project_id: Seq<char>) -> Seq<char> {
    "https://fcm.googleapis.com/v1/projects/"@ + project_id + "/messages:send"@
}

/// Composes the endpoint URL for the given project id.
pub fn send_url(project_id: &str) -> (r: String)
    ensures
        r@ == spec_send_url(project_id@),
{
    let mut u = "https://fcm.googleapis.com/v1/projects/".to_owned();
    u.append(project_id);
    u.append("/messages:send");
    proof {
        assert(u@ =~= spec_send_url(project_id@));
    }
    u
}

/// The value of the Authorization header for one bearer token.
pub open spec fn spec_authorization(token: Seq<char>) -> Seq<char> {
    "Bearer "@ + token
}

/// Composes the Authorization header value for the given bearer token.
pub fn authorization_header(token: &str) -> (r: String)
    ensures
        r@ == spec_authorization(token@),
{
    let mut h = "Bearer ".to_owned();
    h.append(token);
    h
}

/// One fully composed send request, ready to be issued: the endpoint URL,
/// the Authorization and Content-Length header values, and the body bytes.
pub struct PreparedRequest {
    pub url: String,
    pub authorization: String,
    pub content_length: String,
    pub body: Vec<u8>,
}

/// Composes the one request a send attempt issues, from the payload, the
/// device token, and the raw outcomes of the credential file read and the
/// OAuth token exchange.
///
/// The attempt proceeds only when both the project id and the bearer token
/// were obtained; otherwise the first failure met stops it. On success the
/// URL carries exactly the resolved project id, the Authorization header
/// exactly the stripped token, the body the UTF-8 bytes of the envelope,
/// and Content-Length their count in decimal.
pub fn prepare_send(
    payload: &FcmPayloadData,
    device_token: &str,
    read: Result<Vec<u8>, String>,
    exchange: Result<String, String>,
) -> (r: Result<PreparedRequest, FcmError>)
    ensures
        ({
            let rpid = spec_resolve_project_id(spec_read_view(read));
            let rtok = spec_auth_token(spec_exchange_view(exchange));
            let env = spec_envelope(
                payload.title@,
                payload.message@,
                payload.image@,
                payload.click_action@,
                device_token@,
            );
            match r {
                Ok(req) => rpid is Ok && rtok is Ok && (match rpid {
                    Ok(pid) => req.url@ == spec_send_url(pid),
                    Err(_) => false,
                }) && (match rtok {
                    Ok(t) => req.authorization@ == spec_authorization(t),
                    Err(_) => false,
                }) && req.body@ == encode_utf8(env) && req.content_length@ == spec_decimal(
                    encode_utf8(env).len(),
                ),
                Err(e) => match rpid {
                    Err(e1) => e == e1,
                    Ok(_) => match rtok {
                        Err(e2) => e == e2,
                        Ok(_) => false,
                    },
                },
            }
        }),
{
    let project_id = match resolve_project_id(read) {
        Ok(p) => p,
        Err(e) => {
            return Err(e);
        },
    };
    let token = match auth_token_from_exchange(exchange) {
        Ok(t) => t,
        Err(e) => {
            return Err(e);
        },
    };
    let envelope = build_envelope(payload, device_token);
    let url = send_url(project_id.as_str());
    let authorization = authorization_header(token.as_str());
    let body = envelope.as_str().as_bytes_vec();
    let content_length = decimal_string(body.len());
    Ok(PreparedRequest { url, authorization, content_length, body })
}

/// The endpoint's answer, as the sender sees it: the HTTP status when an
/// answer arrived, or the transport error text when none did.
pub open spec fn spec_response_view(response: Result<u16, String>) -> Result<u16, Seq<char>> {
    match response {
        Ok(status) => Ok(status),
        Err(e) => Err(e@),
    }
}

/// How one answer is judged: a 2xx status is a delivery, any other status a
/// rejection carrying that status, and no answer a transport error.
pub open spec fn spec_classify(response: Result<u16, Seq<char>>) -> DeliveryOutcome {
    match response {
        Ok(status) => if 200 <= status < 300 {
            DeliveryOutcome::Delivered
        } else {
            DeliveryOutcome::Rejected(status)
        },
        Err(_) => DeliveryOutcome::TransportError,
    }
}

/// Judges the outcome of an issued request. A rejection or a transport
/// error is reported for logging, never raised.
pub fn classify_response(response: Result<u16, String>) -> (r: DeliveryOutcome)
    ensures
        r == spec_classify(spec_response_view(response)),
{
    match response {
        Ok(status) => {
            if 200 <= status && status < 300 {
                DeliveryOutcome::Delivered
            } else {
                DeliveryOutcome::Rejected(status)
            }
        },
        Err(_) => DeliveryOutcome::TransportError,
    }
}

/// The relay's fire-and-forget policy: once the request was issued, the
/// overall call reports success whatever came back — a rejection or a
/// transport error is logged by the caller, not raised.
pub fn attempt_result(outcome: &DeliveryOutcome) -> (r: Result<(), FcmError>)
    ensures
        r is Ok,
{
    let _ = outcome;
    Ok(())
}

} // verus!
