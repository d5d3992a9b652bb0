//! The credential resolver: project id and bearer token.
//!
//! The caller reads the service-account document from disk and performs the
//! OAuth token exchange; this module does everything the relay decides or
//! computes with the results. It classifies a failed read, decodes and
//! parses the document, extracts the `project_id` field, and strips the
//! token-type marker off the exchanged bearer token.

use crate::errors::FcmError;
use vstd::prelude::*;
use vstd::string::StrSliceExecFns;
use vstd::utf8::decode_utf8;
use vstd::utf8::valid_utf8;

verus! {

#[verifier::external_type_specification]
#[verifier::external_body]
pub struct ExValue(serde_json::Value);

/// The top-level fields of a parsed JSON document whose value is a string:
/// a map from field name to field value. Empty when the document is not an
/// object.
pub uninterp spec fn value_top_str_fields(v: serde_json::Value) -> Map<Seq<char>, Seq<char>>;

/// What parsing a text as JSON yields: `None` when the text is not a valid
/// JSON document, otherwise the top-level string fields of the document.
pub uninterp spec fn json_top_str_fields(s: Seq<char>) -> Option<Map<Seq<char>, Seq<char>>>;

/// Relies on serde_json::from_str: whether a text parses to a `Value`, and
/// what the parsed value then holds, are functions of the text alone.
#[verifier::external_body]
fn parse_json(s: &str) -> (r: Option<serde_json::Value>)
    ensures
        r is Some <==> json_top_str_fields(s@) is Some,
        r matches Some(v) ==> json_top_str_fields(s@) == Some(value_top_str_fields(v)),
{
    serde_json::from_str::<serde_json::Value>(s).ok()
}

/// Relies on `Value`'s `&str` indexing and `Value::as_str`: yields the named
/// top-level field exactly when the document is an object holding that field
/// with a string value.
#[verifier::external_body]
fn get_str_field(v: &serde_json::Value, key: &str) -> (r: Option<String>)
    ensures
        r is Some <==> value_top_str_fields(*v).dom().contains(key@),
        r matches Some(s) ==> s@ == value_top_str_fields(*v)[key@],
{
    match v[key].as_str() {
        Some(s) => Some(s.to_string()),
        None => None,
    }
}

/// Relies on String::from_utf8: succeeds exactly on valid UTF-8 and decodes
/// the bytes to the characters they encode.
#[verifier::external_body]
fn bytes_to_string(b: Vec<u8>) -> (r: Option<String>)
    ensures
        r is Some <==> valid_utf8(b@),
        r matches Some(s) ==> s@ == decode_utf8(b@),
{
    String::from_utf8(b).ok()
}

/// The outcome of reading the credential file, as the resolver sees it.
pub open spec fn spec_read_view(read: Result<Vec<u8>, String>) -> Result<Seq<u8>, Seq<char>> {
    match read {
        Ok(b) => Ok(b@),
        Err(e) => Err(e@),
    }
}

/// What resolving the project id yields for a given read outcome: the
/// `project_id` string field of the document, or the first failure met on
/// the way there.
pub open spec fn spec_resolve_project_id(read: Result<Seq<u8>, Seq<char>>) -> Result<
    Seq<char>,
    FcmError,
> {
    match read {
        Err(_) => Err(FcmError::IOFailure),
        Ok(bytes) => if !valid_utf8(bytes) {
            Err(FcmError::ParseFailure)
        } else {
            match json_top_str_fields(decode_utf8(bytes)) {
                None => Err(FcmError::ParseFailure),
                Some(fields) => if fields.dom().contains("project_id"@) {
                    Ok(fields["project_id"@])
                } else {
                    Err(FcmError::MissingField)
                },
            }
        },
    }
}

/// Resolves the project id out of the credential document.
///
/// `read` is the raw outcome of reading the configured file. The resolver
/// fails with `IOFailure` when the read failed, `ParseFailure` when the
/// content is not UTF-8 or not JSON, and `MissingField` when the parsed
/// document has no top-level `project_id` string field.
pub fn resolve_project_id(read: Result<Vec<u8>, String>) -> (r: Result<String, FcmError>)
    ensures
        match r {
            Ok(pid) => spec_resolve_project_id(spec_read_view(read)) == Ok::<
                Seq<char>,
                FcmError,
            >(pid@),
            Err(e) => spec_resolve_project_id(spec_read_view(read)) == Err::<Seq<char>, FcmError>(
                e,
            ),
        },
{
    let bytes = match read {
        Ok(b) => b,
        Err(_) => {
            return Err(FcmError::IOFailure);
        },
    };
    let content = match bytes_to_string(bytes) {
        Some(s) => s,
        None => {
            return Err(FcmError::ParseFailure);
        },
    };
    let doc = match parse_json(content.as_str()) {
        Some(v) => v,
        None => {
            return Err(FcmError::ParseFailure);
        },
    };
    match get_str_field(&doc, "project_id") {
        Some(pid) => Ok(pid),
        None => Err(FcmError::MissingField),
    }
}

/// The position of the first space at or after `from`, if any.
pub open spec fn spec_find_space(s: Seq<char>, from: int) -> Option<int>
    decreases s.len() - from,
{
    if from < 0 || from >= s.len() {
        None
    } else if s[from] == ' ' {
        Some(from)
    } else {
        spec_find_space(s, from + 1)
    }
}

/// The raw token inside an exchanged bearer token: the text between the
/// first space and the following space or the end. A token without any
/// token-type marker is kept whole.
pub open spec fn spec_strip_token_type(s: Seq<char>) -> Seq<char> {
    match spec_find_space(s, 0) {
        None => s,
        Some(i) => match spec_find_space(s, i + 1) {
            None => s.subrange(i + 1, s.len() as int),
            Some(j) => s.subrange(i + 1, j),
        },
    }
}

fn find_space(s: &str, from: usize) -> (r: Option<usize>)
    requires
        from <= s@.len(),
    ensures
        match r {
            Some(i) => spec_find_space(s@, from as int) == Some(i as int) && from <= i < s@.len(),
            None => spec_find_space(s@, from as int) is None,
        },
{
    let n = s.unicode_len();
    let mut i: usize = from;
    while i < n
        invariant
            from <= i <= n,
            n == s@.len(),
            spec_find_space(s@, from as int) == spec_find_space(s@, i as int),
        decreases n - i,
    {
        let c = s.get_char(i);
        if c == ' ' {
            return Some(i);
        }
        i = i + 1;
    }
    None
}

/// Strips the token-type marker off a bearer token.
pub fn strip_token_type(s: &str) -> (r: String)
    ensures
        r@ == spec_strip_token_type(s@),
{
    let n = s.unicode_len();
    match find_space(s, 0) {
        None => s.to_owned(),
        Some(i) => {
            let end = match find_space(s, i + 1) {
                Some(j) => j,
                None => n,
            };
            s.substring_char(i + 1, end).to_owned()
        },
    }
}

/// What the token acquisition yields for a given exchange outcome: the
/// stripped token on success, `AuthFailure` on any error from the exchange.
pub open spec fn spec_auth_token(exchange: Result<Seq<char>, Seq<char>>) -> Result<
    Seq<char>,
    FcmError,
> {
    match exchange {
        Ok(t) => Ok(spec_strip_token_type(t)),
        Err(_) => Err(FcmError::AuthFailure),
    }
}

/// The outcome of the token exchange, as the resolver sees it.
pub open spec fn spec_exchange_view(exchange: Result<String, String>) -> Result<
    Seq<char>,
    Seq<char>,
> {
    match exchange {
        Ok(t) => Ok(t@),
        Err(e) => Err(e@),
    }
}

/// Turns the raw outcome of the OAuth token exchange into the bearer token
/// the request will carry, with the token-type marker stripped; any exchange
/// error becomes `AuthFailure`.
pub fn auth_token_from_exchange(exchange: Result<String, String>) -> (r: Result<String, FcmError>)
    ensures
        match r {
            Ok(t) => spec_auth_token(spec_exchange_view(exchange)) == Ok::<Seq<char>, FcmError>(
                t@,
            ),
            Err(e) => spec_auth_token(spec_exchange_view(exchange)) == Err::<Seq<char>, FcmError>(
                e,
            ),
        },
{
    match exchange {
        Ok(t) => Ok(strip_token_type(t.as_str())),
        Err(_) => Err(FcmError::AuthFailure),
    }
}

} // verus!
