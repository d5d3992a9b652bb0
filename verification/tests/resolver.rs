use fcm_relay::resolve_project_id;
use fcm_relay::strip_token_type;
use fcm_relay::auth_token_from_exchange;
use fcm_relay::FcmError;

fn ok_read(content: &str) -> Result<Vec<u8>, String> {
    Ok(content.as_bytes().to_vec())
}

#[test]
fn resolves_project_id_from_well_formed_file() {
    let content = "{\"project_id\":\"p1\",\"private_key\":\"dummy-key-material\",\"client_email\":\"svc@p1.iam.gserviceaccount.com\"}";
    let r = resolve_project_id(ok_read(content));
    assert_eq!(r, Ok("p1".to_string()));
}

#[test]
fn missing_project_id_is_missing_field() {
    let content = "{\"private_key\":\"dummy-key-material\",\"client_email\":\"svc@p1.example\"}";
    let r = resolve_project_id(ok_read(content));
    assert_eq!(r, Err(FcmError::MissingField));
}

#[test]
fn non_string_project_id_is_missing_field() {
    let r = resolve_project_id(ok_read("{\"project_id\":7}"));
    assert_eq!(r, Err(FcmError::MissingField));
}

#[test]
fn non_object_document_is_missing_field() {
    let r = resolve_project_id(ok_read("[1,2,3]"));
    assert_eq!(r, Err(FcmError::MissingField));
}

#[test]
fn failed_read_is_io_failure() {
    let r = resolve_project_id(Err("No such file or directory".to_string()));
    assert_eq!(r, Err(FcmError::IOFailure));
}

#[test]
fn malformed_json_is_parse_failure() {
    let r = resolve_project_id(ok_read("{\"project_id\":"));
    assert_eq!(r, Err(FcmError::ParseFailure));
}

#[test]
fn non_utf8_content_is_parse_failure() {
    let r = resolve_project_id(Ok(vec![0xff, 0xfe, 0x7b, 0x7d]));
    assert_eq!(r, Err(FcmError::ParseFailure));
}

#[test]
fn empty_document_is_parse_failure() {
    let r = resolve_project_id(ok_read(""));
    assert_eq!(r, Err(FcmError::ParseFailure));
}

#[test]
fn strips_bearer_marker() {
    assert_eq!(strip_token_type("Bearer abc.def"), "abc.def".to_string());
}

#[test]
fn token_without_marker_is_kept_whole() {
    assert_eq!(strip_token_type("abc.def"), "abc.def".to_string());
}

#[test]
fn strip_keeps_only_the_second_segment() {
    assert_eq!(strip_token_type("Bearer abc extra"), "abc".to_string());
}

#[test]
fn strip_of_empty_token_is_empty() {
    assert_eq!(strip_token_type(""), "".to_string());
}

#[test]
fn exchange_success_yields_stripped_token() {
    let r = auth_token_from_exchange(Ok("Bearer tok.123".to_string()));
    assert_eq!(r, Ok("tok.123".to_string()));
}

#[test]
fn exchange_error_is_auth_failure() {
    let r = auth_token_from_exchange(Err("invalid_grant".to_string()));
    assert_eq!(r, Err(FcmError::AuthFailure));
}
