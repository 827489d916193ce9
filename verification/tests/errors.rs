use kreta_proxy::error::{ErrorResponse, KretaError};
use kreta_proxy::resources::KretaErrorResponse;

fn refused() -> KretaError {
    KretaError::ErrorResponse(KretaErrorResponse {
        error: String::from("invalid_grant"),
        error_code: String::from("17"),
        error_description: String::from("wrong password"),
    })
}

#[test]
fn bad_response_is_answered_with_500_and_21() {
    let reply = KretaError::KretaBadResponse(String::from("eof")).error_response();
    assert_eq!(reply.status, 500);
    assert_eq!(reply.body.error_code, 21);
    assert_eq!(reply.body.title, "Unrecognisable response from kreta server");
    assert_eq!(reply.body.message, "eof");
}

#[test]
fn send_failure_is_answered_with_500_and_20() {
    let reply = KretaError::KretaRequestSendFailed(String::from("dns")).error_response();
    assert_eq!(reply.status, 500);
    assert_eq!(reply.body.error_code, 20);
    assert_eq!(reply.body.title, "Request failed");
    assert_eq!(reply.body.message, "dns");
}

#[test]
fn parse_error_is_answered_with_500_and_22() {
    let reply = KretaError::ParseError(String::from("bad json")).error_response();
    assert_eq!(reply.status, 500);
    assert_eq!(reply.body.error_code, 22);
    assert_eq!(reply.body.title, "Parsing response failed");
    assert_eq!(reply.body.message, "bad json");
}

#[test]
fn upstream_error_is_answered_with_400_and_22() {
    let reply = refused().error_response();
    assert_eq!(reply.status, 400);
    assert_eq!(reply.body.error_code, 22);
    assert_eq!(reply.body.title, "Kreta error response");
    assert_eq!(
        reply.body.message,
        "error_title=invalid_grant;error_message=wrong password;error_code=17"
    );
}

#[test]
fn answer_carries_the_given_time() {
    let reply = refused().error_response_at(String::from("2024-01-01T00:00:00+00:00"));
    assert_eq!(reply.status, 400);
    assert_eq!(reply.body.time, "2024-01-01T00:00:00+00:00");
    assert_eq!(reply.body.title, "Kreta error response");
}

#[test]
fn answer_carries_the_time_of_the_clock() {
    let reply = refused().error_response();
    let time = reply.body.time;
    assert!(time.len() >= 20, "{}", time);
    assert_eq!(&time[4..5], "-");
    assert_eq!(&time[10..11], "T");
    assert!(time.ends_with("+00:00"), "{}", time);
}

#[test]
fn errors_describe_themselves() {
    assert_eq!(KretaError::KretaBadResponse(String::new()).to_string(), "Kreta invalid response!");
    assert_eq!(
        KretaError::KretaRequestSendFailed(String::new()).to_string(),
        "Invalid access token!"
    );
    assert_eq!(KretaError::ParseError(String::new()).to_string(), "Response couldn't be parsed!");
    assert_eq!(refused().to_string(), "Kreta responses with error!");
}

#[test]
fn response_of_a_message_holds_its_parts() {
    let response = ErrorResponse::from_message(7, String::from("title"), String::from("message"));
    assert_eq!(response.error_code, 7);
    assert_eq!(response.title, "title");
    assert_eq!(response.message, "message");
    assert!(!response.time.is_empty());
    let stamped =
        ErrorResponse::stamped(8, String::from("t"), String::from("m"), String::from("now"));
    assert_eq!(stamped.error_code, 8);
    assert_eq!(stamped.title, "t");
    assert_eq!(stamped.message, "m");
    assert_eq!(stamped.time, "now");
}
