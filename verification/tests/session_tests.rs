use grease::error::GreaseError;
use grease::member::{Member, MemberForSemester};
use grease::misc::LoginInfo;
use grease::session::{parse_i64, Session};

fn member(email: &str, pass_hash: &str) -> Member {
    Member {
        email: email.to_owned(),
        first_name: "F".to_owned(),
        preferred_name: None,
        last_name: "L".to_owned(),
        pass_hash: pass_hash.to_owned(),
        phone_number: "1".to_owned(),
        picture: None,
        passengers: 0,
        location: "x".to_owned(),
        on_campus: None,
        about: None,
        major: None,
        minor: None,
        hometown: None,
        arrived_at_tech: None,
        gateway_drug: None,
        conflicts: None,
        dietary_restrictions: None,
    }
}

#[test]
fn parse_i64_reads_like_std() {
    for text in ["0", "12", "-12", "+12", "9223372036854775807", "-9223372036854775808", "9223372036854775808", "", "-", "+", "1a", " 1", "--1", "007"] {
        assert_eq!(parse_i64(text), text.parse::<i64>().ok(), "text {:?}", text);
    }
}

#[test]
fn reset_token_records_when_it_was_requested() {
    let request = Session::forgotten_password_request_at(
        "gb@gatech.edu".to_owned(),
        &Some(member("gb@gatech.edu", "h")),
        "0123abcd-ef01-4234-8567-89abcdef0123",
        1_700_000_000_123,
    )
    .unwrap();
    assert_eq!(request.session.key, "0123abcd-ef01-4234-8567-89abcdefX1700000000123");
    assert_eq!(request.reset_url, "https://gleeclub.gatech.edu/glubhub/#/reset-password/0123abcd-ef01-4234-8567-89abcdefX1700000000123");
    assert_eq!(request.email.subject, "Reset Your Password");
    assert_eq!(request.email.to_address, "gb@gatech.edu");
    assert_eq!(Session::requested_millis(&request.session.key), Some(1_700_000_000_123));
    assert_eq!(Session::requested_millis("no separator"), None);
    assert_eq!(Session::requested_millis("abcX12X34"), Some(12));
    assert_eq!(Session::requested_millis("abcXnot a number"), None);
}

#[test]
fn reset_request_for_unknown_member() {
    match Session::forgotten_password_request_at("x@y".to_owned(), &None, "0123abcd-ef01-4234-8567-89abcdef0123", 0) {
        Err(GreaseError::BadRequest(message)) => assert_eq!(message, "No member with the email x@y."),
        _ => panic!("expected an error"),
    }
}

#[test]
fn generated_reset_token_is_fresh() {
    let request = Session::generate_for_forgotten_password("gb@gatech.edu".to_owned(), &Some(member("gb@gatech.edu", "h"))).unwrap();
    let (random, time) = request.session.key.split_once('X').unwrap();
    assert_eq!(random.len(), 32);
    assert!(time.parse::<i64>().is_ok());
}

#[test]
fn reset_password_within_a_day() {
    let session = || Session { member: "gb@gatech.edu".to_owned(), key: "0123abcd-ef01-4234-8567-89abcdefX1700000000123".to_owned() };
    let change = Session::reset_password_at(Some(session()), "new pass", 1_700_086_400, 0).unwrap();
    assert_eq!(change.member, "gb@gatech.edu");
    assert!(bcrypt::verify("new pass", &change.pass_hash).unwrap());
    assert!(Session::reset_password_at(Some(session()), "new pass", 1_700_086_399, 999_999_999).is_ok());
    match Session::reset_password_at(Some(session()), "new pass", 1_700_086_400, 1) {
        Err(GreaseError::BadRequest(message)) => {
            assert_eq!(message, "Your token expired after 24 hours. Please request another password reset.")
        }
        _ => panic!("expected an expired token"),
    }
    match Session::reset_password_at(None, "new pass", 0, 0) {
        Err(GreaseError::BadRequest(message)) => assert_eq!(
            message,
            "No password reset request was found for the given token. Please request another password reset."
        ),
        _ => panic!("expected an unknown token"),
    }
    let unreadable = Session { member: "gb@gatech.edu".to_owned(), key: "plain-session-key".to_owned() };
    assert!(Session::reset_password_at(Some(unreadable), "new pass", 0, 0).is_err());
    let fresh = Session::generate_for_forgotten_password("gb@gatech.edu".to_owned(), &Some(member("gb@gatech.edu", "h"))).unwrap();
    assert!(Session::reset_password(Some(fresh.session), "now").is_ok());
    let old = Session { member: "gb@gatech.edu".to_owned(), key: "0123abcd-ef01-4234-8567-89abcdefX1000".to_owned() };
    assert!(Session::reset_password(Some(old), "now").is_err());
}

#[test]
fn sessions_have_uuid_keys() {
    let session = Session::generate("gb@gatech.edu".to_owned());
    assert_eq!(session.member, "gb@gatech.edu");
    assert_eq!(session.key.len(), 36);
    assert!(session.key.chars().all(|c| c.is_ascii_hexdigit() && !c.is_ascii_uppercase() || c == '-'));
}

#[test]
fn login_checks_password_and_reuses_session() {
    let hash = bcrypt::hash("pw", 4).unwrap();
    let info = LoginInfo { email: "gb@gatech.edu".to_owned(), pass_hash: "pw".to_owned() };
    let existing = Session { member: "gb@gatech.edu".to_owned(), key: "existing".to_owned() };
    let reused = Session::login(&info, Some(member("gb@gatech.edu", &hash)), Some(existing)).unwrap();
    assert_eq!(reused.key, "existing");
    let fresh = Session::login(&info, Some(member("gb@gatech.edu", &hash)), None).unwrap();
    assert_eq!(fresh.key.len(), 36);
    let wrong = LoginInfo { email: "gb@gatech.edu".to_owned(), pass_hash: "nope".to_owned() };
    match Session::login(&wrong, Some(member("gb@gatech.edu", &hash)), None) {
        Err(GreaseError::BadRequest(message)) => assert_eq!(message, "Invalid email or password"),
        _ => panic!("expected a refusal"),
    }
    assert!(Session::login(&info, None, None).is_err());
}

#[test]
fn tokens_log_in_as_their_member() {
    let found = MemberForSemester { member: member("gb@gatech.edu", "h"), active_semester: None };
    let session = || Some(Session { member: "gb@gatech.edu".to_owned(), key: "k".to_owned() });
    assert!(matches!(MemberForSemester::load_from_token(None, None), Err(GreaseError::Unauthorized)));
    match MemberForSemester::load_from_token(session(), None) {
        Err(GreaseError::BadRequest(m)) => assert_eq!(m, "No member with the email gb@gatech.edu."),
        _ => panic!("expected an error"),
    }
    let loaded = MemberForSemester::load_from_token(session(), Some(found)).unwrap();
    assert_eq!(loaded.member.email, "gb@gatech.edu");
}
