use myday::sessions::{publish_all, RegisterSessionRequest, RegisterSessionResponse, SessionResponse};
use myday::{RegisterError, Session};

fn record(id: u64, locations: Option<Vec<String>>, status: Option<&str>) -> SessionResponse {
    SessionResponse {
        session_id: id,
        name: format!("Lecture {}", id),
        description: "Algorithms".to_string(),
        start: "2024-01-01T09:00:00".to_string(),
        end: "2024-01-01T10:00:00".to_string(),
        session_status: status.map(|s| s.to_string()),
        locations,
        attendance_status: "Present".to_string(),
    }
}

#[test]
fn missing_locations_become_an_empty_list() {
    let session = Session::from(record(7, None, Some("Open")));
    assert_eq!(session.locations, Vec::<String>::new());
}

#[test]
fn present_locations_keep_order_and_content() {
    let locations = vec!["Room B".to_string(), "Room A".to_string(), "Room B".to_string()];
    let session = Session::from(record(7, Some(locations.clone()), Some("Open")));
    assert_eq!(session.locations, locations);
}

#[test]
fn present_but_empty_locations_stay_empty() {
    let session = Session::from(record(7, Some(vec![]), None));
    assert!(session.locations.is_empty());
}

#[test]
fn every_other_field_is_handed_through() {
    let session = Session::from(record(19, Some(vec!["Hall".to_string()]), Some("Closed")));
    assert_eq!(
        session,
        Session {
            session_id: 19,
            name: "Lecture 19".to_string(),
            description: "Algorithms".to_string(),
            start: "2024-01-01T09:00:00".to_string(),
            end: "2024-01-01T10:00:00".to_string(),
            locations: vec!["Hall".to_string()],
            session_status: Some("Closed".to_string()),
            attendance_status: "Present".to_string(),
        }
    );
}

#[test]
fn a_record_without_session_status_is_published_without_one() {
    let session = Session::from(record(3, None, None));
    assert_eq!(session.session_status, None);
    assert_eq!(session.session_id, 3);
}

#[test]
fn times_are_not_reformatted() {
    let mut input = record(1, None, None);
    input.start = "not a time".to_string();
    input.end = "".to_string();
    let session = Session::from(input);
    assert_eq!(session.start, "not a time");
    assert_eq!(session.end, "");
}

#[test]
fn publish_all_keeps_the_order_of_the_records() {
    let sessions = publish_all(vec![
        record(3, None, None),
        record(1, Some(vec!["X".to_string()]), Some("Open")),
        record(2, Some(vec![]), None),
    ]);
    assert_eq!(sessions.len(), 3);
    assert_eq!(sessions[0], Session::from(record(3, None, None)));
    assert_eq!(sessions[1], Session::from(record(1, Some(vec!["X".to_string()]), Some("Open"))));
    assert_eq!(sessions[2], Session::from(record(2, Some(vec![]), None)));
    assert_eq!(sessions[0].session_id, 3);
    assert_eq!(sessions[1].locations, vec!["X".to_string()]);
}

#[test]
fn publish_all_of_nothing_is_nothing() {
    assert_eq!(publish_all(vec![]), Vec::<Session>::new());
}

#[test]
fn a_registration_never_forces_a_wrong_code() {
    let request = RegisterSessionRequest::new(42, "X1".to_string());
    assert_eq!(request.session_id, 42);
    assert_eq!(request.registration_code, "X1");
    assert!(!request.force_incorrect_session_registration);
}

fn answer(status: &str, ok: bool) -> RegisterSessionResponse {
    RegisterSessionResponse { status: status.to_string(), ok }
}

#[test]
fn registration_succeeds_on_status_200_and_ok() {
    assert_eq!(answer("200", true).outcome(), Ok(()));
}

#[test]
fn registration_fails_on_status_200_without_ok() {
    assert_eq!(answer("200", false).outcome(), Err(RegisterError::InvalidSessionDetails));
}

#[test]
fn registration_fails_on_ok_with_another_status() {
    assert_eq!(answer("400", true).outcome(), Err(RegisterError::InvalidSessionDetails));
    assert_eq!(answer("201", true).outcome(), Err(RegisterError::InvalidSessionDetails));
    assert_eq!(answer("", true).outcome(), Err(RegisterError::InvalidSessionDetails));
    assert_eq!(answer(" 200", true).outcome(), Err(RegisterError::InvalidSessionDetails));
    assert_eq!(answer("2000", true).outcome(), Err(RegisterError::InvalidSessionDetails));
}

#[test]
fn registration_fails_when_both_deviate() {
    assert_eq!(answer("400", false).outcome(), Err(RegisterError::InvalidSessionDetails));
}
