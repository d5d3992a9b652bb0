//! The failure kinds of the relay.

use vstd::prelude::*;

verus! {

/// Why a send attempt could not reach the point of issuing the request.
///
/// `IOFailure` is the credential file being unreadable, `ParseFailure` its
/// content being malformed (not UTF-8 or not JSON), `MissingField` a parsed
/// document without a `project_id` string field, and `AuthFailure` a failed
/// token exchange.
#[derive(Clone, Copy, PartialEq, Eq, Structural, Debug)]
pub enum FcmError {
    IOFailure,
    ParseFailure,
    MissingField,
    AuthFailure,
}

/// What became of one delivery attempt that did reach the network.
///
/// `Rejected` carries the non-success HTTP status the endpoint answered
/// with; `TransportError` is a request that got no HTTP answer at all.
#[derive(Clone, Copy, PartialEq, Eq, Structural, Debug)]
pub enum DeliveryOutcome {
    Delivered,
    Rejected(u16),
    TransportError,
}

} // verus!
