use cgp_patterns::component::CanUseComponent;
use cgp_patterns::contexts::{ApiClient, CanUseApiClient};
use cgp_patterns::failure::{Cause, Failure, FailureKind};
use cgp_patterns::providers::ApiMessageResponse;
use cgp_patterns::schema::{FromJson, SchemaMismatch};
use cgp_patterns::traits::{
    CanQueryMessage, ErrStatusCode, ErrorRaiserComponent, HttpResponse, MessageQuerierComponent,
    MessageRequest, TransportError,
};
use serde_json::Value;

fn client() -> ApiClient {
    ApiClient {
        api_base_url: String::from("http://localhost:8000"),
        auth_token: String::from("SECRET-REDACTED"),
    }
}

fn answer(status: u16, body: &str) -> Result<HttpResponse, TransportError> {
    Ok(HttpResponse { status, body: body.as_bytes().to_vec() })
}

fn wired<Context: CanUseApiClient>() {}

fn uses<Context: CanUseComponent<Component, Params>, Component, Params>() {}

#[test]
fn the_registry_of_the_client_is_wired() {
    wired::<ApiClient>();
    uses::<ApiClient, MessageQuerierComponent, ()>();
    uses::<ApiClient, ErrorRaiserComponent, ErrStatusCode>();
}

#[test]
fn the_request_names_the_message_and_bears_the_token() {
    assert_eq!(
        client().message_request(&42),
        MessageRequest {
            url: String::from("http://localhost:8000/api/messages/42"),
            authorization: String::from("Bearer SECRET-REDACTED"),
        }
    );
    assert_eq!(client().message_request(&0).url, "http://localhost:8000/api/messages/0");
    assert_eq!(
        client().message_request(&u64::MAX).url,
        "http://localhost:8000/api/messages/18446744073709551615"
    );
}

#[test]
fn a_200_answer_with_a_message_gives_the_message() {
    assert_eq!(client().read_message(answer(200, "{\"message\":\"hi\"}")), Ok(String::from("hi")));
}

#[test]
fn every_2xx_status_is_a_success() {
    for status in [200, 201, 204, 299] {
        assert_eq!(
            client().read_message(answer(status, "{\"message\": \"hi\", \"id\": 1}")),
            Ok(String::from("hi"))
        );
    }
}

#[test]
fn a_404_answer_is_a_protocol_failure_that_carries_404() {
    let failure = client().read_message(answer(404, "not found")).unwrap_err();
    assert_eq!(failure, Failure::raise(Cause::Status { status_code: 404 }));
    assert_eq!(failure.kind(), FailureKind::Protocol);
    assert_eq!(failure.depth(), 0);
    assert_eq!(failure.chain(), vec![String::from("unexpected status code 404")]);
}

#[test]
fn a_status_outside_2xx_is_a_protocol_failure_whatever_the_body() {
    for status in [0, 100, 199, 300, 301, 401, 500, 65535] {
        let failure = client().read_message(answer(status, "{\"message\":\"hi\"}")).unwrap_err();
        assert_eq!(failure.kind(), FailureKind::Protocol);
        assert_eq!(failure.cause(), &Cause::Status { status_code: status });
    }
}

#[test]
fn a_connection_failure_is_a_transport_failure() {
    let failure = client()
        .read_message(Err(TransportError { message: String::from("connection refused") }))
        .unwrap_err();
    assert_eq!(failure, Failure::raise(Cause::Http { message: String::from("connection refused") }));
    assert_eq!(failure.kind(), FailureKind::Transport);
    assert_ne!(failure.kind(), FailureKind::Protocol);
}

#[test]
fn a_successful_answer_that_is_no_json_is_a_format_failure() {
    let failure = client().read_message(answer(200, "<html>")).unwrap_err();
    assert_eq!(failure.kind(), FailureKind::Format);
    let line = serde_json::from_slice::<Value>(b"<html>").unwrap_err().to_string();
    assert_eq!(failure.cause(), &Cause::Json { message: line });
}

#[test]
fn a_successful_answer_without_a_message_is_a_format_failure() {
    for body in ["{}", "{\"message\": 3}", "[\"hi\"]", "{\"Message\": \"hi\"}"] {
        let failure = client().read_message(answer(200, body)).unwrap_err();
        assert_eq!(failure.kind(), FailureKind::Format);
        assert_eq!(failure.cause(), &Cause::Schema { field: String::from("message") });
    }
}

#[test]
fn the_body_of_an_answer_is_read_from_a_document() {
    let value = serde_json::from_str::<Value>("{\"message\": \"hi\"}").unwrap();
    assert_eq!(
        ApiMessageResponse::from_json(&value),
        Ok(ApiMessageResponse { message: String::from("hi") })
    );
    assert_eq!(
        ApiMessageResponse::from_json(&Value::Null),
        Err(SchemaMismatch { field: String::from("message") })
    );
}
