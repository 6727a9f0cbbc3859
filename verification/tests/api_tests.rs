use mdotp::api::Error;
use mdotp::api::ErrorResponse;
use mdotp::api::PresenceResponse;
use mdotp::presence::Presence;
use mdotp::presence::PresenceError;
use mdotp::presence::PresenceState;
use mdotp::user_id::UserId;

fn alice() -> UserId {
    UserId::parse("@alice:example.org").unwrap()
}

#[test]
fn generic_bad_request_body() {
    let e = Error::generic_bad_request(String::from("no such route"));
    assert_eq!(e.error_code, "bad_request");
    assert_eq!(e.message, "no such route");
}

#[test]
fn generic_bad_request_response_status() {
    let r = ErrorResponse::generic_bad_request(String::from("bad user id"));
    assert_eq!(r.status, 400);
    assert_eq!(r.body.error_code, "bad_request");
    assert_eq!(r.body.message, "bad user id");
}

#[test]
fn not_tracked_maps_to_not_found() {
    let r = ErrorResponse::for_presence_error(&PresenceError::NotTracked(alice()));
    assert_eq!(r.status, 404);
    assert_eq!(r.body.error_code, "not_tracked");
    assert_eq!(r.body.message, "this user is not tracked");
}

#[test]
fn presence_unavailable_maps_to_bad_request() {
    let r = ErrorResponse::for_presence_error(&PresenceError::PresenceUnavailable(alice()));
    assert_eq!(r.status, 400);
    assert_eq!(r.body.error_code, "presence_unavailable");
    assert_eq!(r.body.message, "presence information is unavailable for this user");
}

#[test]
fn internal_error_maps_to_server_error() {
    let r = ErrorResponse::for_presence_error(
        &PresenceError::InternalError(String::from("transport failed")),
    );
    assert_eq!(r.status, 500);
    assert_eq!(r.body.error_code, "internal_error");
    assert_eq!(r.body.message, "internal protocol error");
}

#[test]
fn error_accessors_match_the_wire_codes() {
    assert_eq!(PresenceError::NotTracked(alice()).code(), "not_tracked");
    assert_eq!(PresenceError::PresenceUnavailable(alice()).code(), "presence_unavailable");
    assert_eq!(PresenceError::InternalError(String::from("x")).code(), "internal_error");
}

#[test]
fn response_variants_carry_their_payload() {
    let rec = Presence {
        avatar_url: None,
        displayname: None,
        currently_active: None,
        last_active_ago: None,
        presence: PresenceState::Unavailable,
        status_msg: None,
    };
    let ok = PresenceResponse::Found(rec);
    match ok {
        PresenceResponse::Found(p) => assert!(p.presence == PresenceState::Unavailable),
        PresenceResponse::Failed(_) => panic!("expected a record"),
    }
    let failed = PresenceResponse::Failed(Error::generic_bad_request(String::from("x")));
    match failed {
        PresenceResponse::Found(_) => panic!("expected an error"),
        PresenceResponse::Failed(e) => assert_eq!(e.error_code, "bad_request"),
    }
}
