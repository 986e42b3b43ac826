use myday::client::Client;
use myday::request::{
    bearer_header, Body, Field, Method, Request, Value, CLIENT_ID, GRANT_TYPE, ORIGIN, REGISTER_URL,
    SEARCH_URL, SESSIONS_URL, SESSION_URL, TOKEN_URL,
};
use myday::sessions::RegisterSessionRequest;

fn text(name: &str, value: &str) -> Field {
    Field { name: name.to_string(), value: Value::Text(value.to_string()) }
}

#[test]
fn fields_hold_what_they_were_given() {
    assert_eq!(Field::text("a", "b"), text("a", "b"));
    assert_eq!(
        Field::number("n", 18446744073709551615),
        Field { name: "n".to_string(), value: Value::Number(u64::MAX) }
    );
}

#[test]
fn the_bearer_header_presents_the_token() {
    assert_eq!(bearer_header("abc"), "Bearer abc");
    assert_eq!(bearer_header(""), "Bearer ");
}

#[test]
fn the_token_exchange_is_a_form_post() {
    let request = Request::token("id-token", "device-code");
    assert_eq!(
        request,
        Request {
            method: Method::Post,
            url: "https://api.myday.cloud/sessions/token".to_string(),
            query: vec![],
            authorization: None,
            body: Body::Form(vec![
                text("grant_type", "get_token"),
                text("client_id", "myday-mobile-af53151c-8124-4f7b-9979-7169fcf64bf1"),
                text("id_token", "id-token"),
                text("code", "device-code"),
            ]),
        }
    );
}

#[test]
fn the_client_exchanges_its_own_credential() {
    let client = Client::new("the-token".to_string(), "the-code".to_string());
    assert_eq!(client.get_access_token(), Request::token("the-token", "the-code"));
    assert_eq!(GRANT_TYPE, "get_token");
    assert_eq!(CLIENT_ID, "myday-mobile-af53151c-8124-4f7b-9979-7169fcf64bf1");
}

#[test]
fn the_session_is_asked_for_by_its_identifier() {
    assert_eq!(
        Request::session("abc123", "tok"),
        Request {
            method: Method::Get,
            url: "https://api.myday.cloud/sessions/session/abc123".to_string(),
            query: vec![],
            authorization: Some("Bearer tok".to_string()),
            body: Body::Empty,
        }
    );
}

#[test]
fn a_search_by_date_sends_the_times_as_they_came() {
    assert_eq!(
        Request::sessions_from_date("2024-01-01", "any text & more", "tok"),
        Request {
            method: Method::Get,
            url: "https://api.myday.cloud/legacy/api/endpoint/CISConnectLite/sessions".to_string(),
            query: vec![text("endDateTime", "any text & more"), text("startDateTime", "2024-01-01")],
            authorization: Some("Bearer tok".to_string()),
            body: Body::Empty,
        }
    );
}

#[test]
fn a_search_by_code_sends_the_code_as_a_number() {
    assert_eq!(
        Request::sessions_from_code(123456, "tok"),
        Request {
            method: Method::Get,
            url: "https://api.myday.cloud/legacy/api/endpoint/CISConnectLite/search".to_string(),
            query: vec![Field { name: "RegistrationCode".to_string(), value: Value::Number(123456) }],
            authorization: Some("Bearer tok".to_string()),
            body: Body::Empty,
        }
    );
}

#[test]
fn a_registration_is_a_json_post() {
    assert_eq!(
        Request::register(42, "X1".to_string(), "tok"),
        Request {
            method: Method::Post,
            url: "https://api.myday.cloud/legacy/api/endpoint/CISConnectLite/register".to_string(),
            query: vec![],
            authorization: Some("Bearer tok".to_string()),
            body: Body::Json(RegisterSessionRequest {
                session_id: 42,
                registration_code: "X1".to_string(),
                force_incorrect_session_registration: false,
            }),
        }
    );
}

#[test]
fn every_endpoint_lies_under_the_origin() {
    assert_eq!(ORIGIN, "https://api.myday.cloud/");
    for url in [TOKEN_URL, SESSION_URL, SESSIONS_URL, SEARCH_URL, REGISTER_URL] {
        assert!(url.starts_with(ORIGIN));
    }
    assert!(Request::token("a", "b").url.starts_with(ORIGIN));
    assert!(Request::session("../../elsewhere", "t").url.starts_with(ORIGIN));
    assert!(Request::sessions_from_date("a", "b", "t").url.starts_with(ORIGIN));
    assert!(Request::sessions_from_code(1, "t").url.starts_with(ORIGIN));
    assert!(Request::register(1, "c".to_string(), "t").url.starts_with(ORIGIN));
}
