use myday::exchange::Operation;
use myday::routes::{
    expiry, register, sessions, ExpiryResponse, SessionsQuery, BAD_REQUEST,
    INTERNAL_SERVER_ERROR, OK,
};
use myday::{GatewayError, RegisterError};

fn query(start: Option<&str>, end: Option<&str>, code: Option<u64>) -> SessionsQuery {
    SessionsQuery {
        start_time: start.map(|s| s.to_string()),
        end_time: end.map(|s| s.to_string()),
        registration_code: code,
    }
}

#[test]
fn a_query_by_code_alone_is_valid() {
    let q = query(None, None, Some(1234));
    assert!(q.is_valid());
    assert_eq!(q.registration_code(), Some(1234));
    assert_eq!(q.start_end_times(), None);
    assert_eq!(sessions(&q), Ok(Operation::SessionsFromCode { registration_code: 1234 }));
}

#[test]
fn a_query_by_both_times_alone_is_valid() {
    let q = query(Some("2024-01-01"), Some("2024-01-31"), None);
    assert!(q.is_valid());
    assert_eq!(q.registration_code(), None);
    assert_eq!(q.start_end_times(), Some(("2024-01-01", "2024-01-31")));
    assert_eq!(
        sessions(&q),
        Ok(Operation::SessionsFromDate {
            start_time: "2024-01-01".to_string(),
            end_time: "2024-01-31".to_string(),
        })
    );
}

#[test]
fn a_query_with_code_and_times_is_refused() {
    for q in [
        query(Some("a"), Some("b"), Some(1)),
        query(Some("a"), None, Some(1)),
        query(None, Some("b"), Some(1)),
    ] {
        assert!(!q.is_valid());
        assert_eq!(sessions(&q), Err(GatewayError::ValidationError));
    }
}

#[test]
fn a_query_with_nothing_is_refused() {
    let q = query(None, None, None);
    assert!(!q.is_valid());
    assert_eq!(sessions(&q), Err(GatewayError::ValidationError));
}

#[test]
fn a_query_with_one_time_only_is_refused() {
    for q in [query(Some("a"), None, None), query(None, Some("b"), None)] {
        assert!(!q.is_valid());
        assert_eq!(q.start_end_times(), None);
        assert_eq!(sessions(&q), Err(GatewayError::ValidationError));
    }
}

#[test]
fn times_are_not_validated() {
    let q = query(Some(""), Some("not a time"), None);
    assert!(q.is_valid());
    assert_eq!(q.start_end_times(), Some(("", "not a time")));
}

#[test]
fn failures_have_their_status() {
    assert_eq!(GatewayError::ValidationError.status(), 400);
    assert_eq!(GatewayError::MalformedCredential.status(), 500);
    assert_eq!(GatewayError::UpstreamUnavailable.status(), 500);
    assert_eq!(GatewayError::UpstreamProtocolError.status(), 500);
    assert_eq!(RegisterError::InvalidSessionDetails.status(), 400);
    assert_eq!(RegisterError::RequestError.status(), 500);
    assert_eq!((OK, BAD_REQUEST, INTERNAL_SERVER_ERROR), (200, 400, 500));
}

#[test]
fn the_register_route_reports_each_outcome() {
    assert_eq!(register(Ok(())), 200);
    assert_eq!(register(Err(RegisterError::InvalidSessionDetails)), 400);
    assert_eq!(register(Err(RegisterError::RequestError)), 500);
}

#[test]
fn the_expiry_route_answers_with_the_expiry_or_a_status() {
    assert_eq!(
        expiry(Ok("2024-01-01T00:00:00Z".to_string())),
        Ok(ExpiryResponse { expiry: "2024-01-01T00:00:00Z".to_string() })
    );
    assert_eq!(expiry(Err(GatewayError::UpstreamUnavailable)), Err(500));
    assert_eq!(expiry(Err(GatewayError::UpstreamProtocolError)), Err(500));
    assert_eq!(expiry(Err(GatewayError::MalformedCredential)), Err(500));
}
