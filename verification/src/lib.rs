//! Verified core of a minimal Firebase Cloud Messaging relay.
//!
//! The library holds everything the relay computes or decides: building the
//! JSON envelope for a notification, resolving the project id out of a
//! service-account credential document, composing the endpoint URL and the
//! request headers, stripping the token-type marker off a bearer token, and
//! classifying the outcome of the delivery attempt. The surrounding binary
//! performs the file read, the OAuth token exchange and the HTTP POST, and
//! hands the results to this crate as plain values.

use vstd::prelude::*;

mod credentials;
mod errors;
mod json;
mod payload;
mod sender;
mod text;

pub use credentials::auth_token_from_exchange;
pub use credentials::json_top_str_fields;
pub use credentials::resolve_project_id;
pub use credentials::spec_auth_token;
pub use credentials::spec_exchange_view;
pub use credentials::spec_find_space;
pub use credentials::spec_read_view;
pub use credentials::spec_resolve_project_id;
pub use credentials::spec_strip_token_type;
pub use credentials::strip_token_type;
pub use credentials::value_top_str_fields;
pub use errors::DeliveryOutcome;
pub use errors::FcmError;
pub use json::build_envelope;
pub use json::lemma_envelope_deterministic;
pub use json::spec_envelope;
pub use json::spec_escape;
pub use json::spec_escape_char;
pub use json::spec_hex_digit;
pub use json::spec_quoted;
pub use payload::FcmPayloadData;
pub use sender::attempt_result;
pub use sender::authorization_header;
pub use sender::classify_response;
pub use sender::prepare_send;
pub use sender::send_url;
pub use sender::spec_authorization;
pub use sender::spec_classify;
pub use sender::spec_response_view;
pub use sender::spec_send_url;
pub use sender::PreparedRequest;
pub use text::decimal_string;
pub use text::spec_decimal;
pub use text::spec_digit;

verus! {

/// The fixed OAuth scope requested for every token exchange.
pub fn messaging_scope() -> (r: &'static str)
    ensures
        r@ == "https://www.googleapis.com/auth/firebase.messaging"@,
{
    "https://www.googleapis.com/auth/firebase.messaging"
}

} // verus!
