use fcm_relay::attempt_result;
use fcm_relay::authorization_header;
use fcm_relay::build_envelope;
use fcm_relay::classify_response;
use fcm_relay::decimal_string;
use fcm_relay::messaging_scope;
use fcm_relay::prepare_send;
use fcm_relay::send_url;
use fcm_relay::DeliveryOutcome;
use fcm_relay::FcmError;
use fcm_relay::FcmPayloadData;

fn sample_payload() -> FcmPayloadData {
    FcmPayloadData::new(
        "Hello!".to_string(),
        "Hi".to_string(),
        "http://x/img.png".to_string(),
        "OPEN_APP".to_string(),
    )
}

#[test]
fn url_carries_exactly_the_project_id() {
    assert_eq!(
        send_url("proj-123"),
        "https://fcm.googleapis.com/v1/projects/proj-123/messages:send".to_string()
    );
}

#[test]
fn authorization_header_carries_the_token() {
    assert_eq!(authorization_header("tok.123"), "Bearer tok.123".to_string());
}

#[test]
fn decimal_renders_exactly() {
    assert_eq!(decimal_string(0), "0".to_string());
    assert_eq!(decimal_string(7), "7".to_string());
    assert_eq!(decimal_string(1234), "1234".to_string());
    assert_eq!(decimal_string(1000000), "1000000".to_string());
}

#[test]
fn scope_is_the_messaging_scope() {
    assert_eq!(
        messaging_scope(),
        "https://www.googleapis.com/auth/firebase.messaging"
    );
}

#[test]
fn prepared_request_is_exact() {
    let payload = sample_payload();
    let read = Ok("{\"project_id\":\"proj-123\"}".as_bytes().to_vec());
    let exchange = Ok("Bearer tok.123".to_string());
    let req = prepare_send(&payload, "tok1", read, exchange).unwrap();
    assert_eq!(
        req.url,
        "https://fcm.googleapis.com/v1/projects/proj-123/messages:send".to_string()
    );
    assert_eq!(req.authorization, "Bearer tok.123".to_string());
    let envelope = build_envelope(&payload, "tok1");
    assert_eq!(req.body, envelope.as_bytes().to_vec());
    assert_eq!(req.content_length, envelope.len().to_string());
}

#[test]
fn failed_read_stops_the_attempt() {
    let payload = sample_payload();
    let r = prepare_send(
        &payload,
        "tok1",
        Err("No such file".to_string()),
        Ok("Bearer t".to_string()),
    );
    assert!(matches!(r, Err(FcmError::IOFailure)));
}

#[test]
fn failed_exchange_stops_the_attempt() {
    let payload = sample_payload();
    let read = Ok("{\"project_id\":\"proj-123\"}".as_bytes().to_vec());
    let r = prepare_send(&payload, "tok1", read, Err("invalid_grant".to_string()));
    assert!(matches!(r, Err(FcmError::AuthFailure)));
}

#[test]
fn credential_failure_is_reported_before_auth_failure() {
    let payload = sample_payload();
    let r = prepare_send(
        &payload,
        "tok1",
        Ok("not json".as_bytes().to_vec()),
        Err("invalid_grant".to_string()),
    );
    assert!(matches!(r, Err(FcmError::ParseFailure)));
}

#[test]
fn success_statuses_are_delivered() {
    assert_eq!(classify_response(Ok(200)), DeliveryOutcome::Delivered);
    assert_eq!(classify_response(Ok(204)), DeliveryOutcome::Delivered);
    assert_eq!(classify_response(Ok(299)), DeliveryOutcome::Delivered);
}

#[test]
fn non_success_status_is_rejected_and_still_reported_as_success() {
    let outcome = classify_response(Ok(500));
    assert_eq!(outcome, DeliveryOutcome::Rejected(500));
    assert!(attempt_result(&outcome).is_ok());
    let outcome = classify_response(Ok(404));
    assert_eq!(outcome, DeliveryOutcome::Rejected(404));
    assert!(attempt_result(&outcome).is_ok());
    assert_eq!(classify_response(Ok(301)), DeliveryOutcome::Rejected(301));
    assert_eq!(classify_response(Ok(199)), DeliveryOutcome::Rejected(199));
}

#[test]
fn transport_error_is_reported_without_a_fault() {
    let outcome = classify_response(Err("request timed out".to_string()));
    assert_eq!(outcome, DeliveryOutcome::TransportError);
    assert!(attempt_result(&outcome).is_ok());
}
