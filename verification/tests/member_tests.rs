use grease::error::GreaseError;
use grease::member::{
    ActiveSemester, ActiveSemesterUpdate, Enrollment, Member, MemberForSemester, NewMember,
    RegisterForSemesterForm,
};

fn member(email: &str, pass_hash: &str) -> Member {
    Member {
        email: email.to_owned(),
        first_name: "George".to_owned(),
        preferred_name: None,
        last_name: "Burdell".to_owned(),
        pass_hash: pass_hash.to_owned(),
        phone_number: "4045551234".to_owned(),
        picture: None,
        passengers: 3,
        location: "Glenn".to_owned(),
        on_campus: Some(true),
        about: None,
        major: Some("CS".to_owned()),
        minor: None,
        hometown: None,
        arrived_at_tech: Some(2019),
        gateway_drug: None,
        conflicts: None,
        dietary_restrictions: None,
    }
}

fn new_member(email: &str, pass_hash: Option<&str>, enrollment: Option<Enrollment>) -> NewMember {
    NewMember {
        email: email.to_owned(),
        first_name: "Ada".to_owned(),
        preferred_name: Some("Addie".to_owned()),
        last_name: "Lovelace".to_owned(),
        pass_hash: pass_hash.map(|p| p.to_owned()),
        phone_number: "555".to_owned(),
        picture: None,
        passengers: 0,
        location: "Home Park".to_owned(),
        on_campus: Some(false),
        about: Some("Sings".to_owned()),
        major: None,
        minor: None,
        hometown: Some("London".to_owned()),
        arrived_at_tech: None,
        gateway_drug: None,
        conflicts: None,
        dietary_restrictions: Some("none".to_owned()),
        enrollment,
        section: Some("Tenor 1".to_owned()),
    }
}

fn bad_request(result: Result<impl std::fmt::Debug, GreaseError>) -> String {
    match result {
        Err(GreaseError::BadRequest(message)) => message,
        other => panic!("expected a bad request, got {:?}", other),
    }
}

#[test]
fn load_reports_missing_member() {
    let found = Member::load("gb@gatech.edu", Some(member("gb@gatech.edu", "x"))).unwrap();
    assert_eq!(found.email, "gb@gatech.edu");
    assert_eq!(bad_request(Member::load("nobody@gatech.edu", None)), "No member with the email nobody@gatech.edu.");
}

#[test]
fn check_login_needs_the_right_password() {
    let hash = bcrypt::hash("hunter2", 4).unwrap();
    let found = Member::check_login(Some(member("gb@gatech.edu", &hash)), "hunter2");
    assert_eq!(found.map(|m| m.email), Some("gb@gatech.edu".to_owned()));
    assert!(Member::check_login(Some(member("gb@gatech.edu", &hash)), "hunter3").is_none());
    assert!(Member::check_login(Some(member("gb@gatech.edu", "not a hash")), "hunter2").is_none());
    assert!(Member::check_login(None, "hunter2").is_none());
}

#[test]
fn update_refuses_an_email_another_member_holds() {
    let update = new_member("new@gatech.edu", None, Some(Enrollment::Club));
    let result = Member::update("gb@gatech.edu", true, update, true, Some(member("gb@gatech.edu", "h")), "Fall 2024", None);
    assert_eq!(bad_request(result), "Cannot change email to new@gatech.edu, as another user has that email.");
}

#[test]
fn update_changes_the_email_when_it_is_free() {
    let update = new_member("new@gatech.edu", None, Some(Enrollment::Club));
    let result =
        Member::update("gb@gatech.edu", true, update, false, Some(member("gb@gatech.edu", "h")), "Fall 2024", None).unwrap();
    assert_eq!(result.member.email, "new@gatech.edu");
    assert_eq!(result.member.pass_hash, "h");
    assert_eq!(result.active_semester.unwrap().member, "new@gatech.edu");
}

#[test]
fn update_refuses_unknown_member() {
    let update = new_member("gb@gatech.edu", None, Some(Enrollment::Club));
    let result = Member::update("gb@gatech.edu", true, update, false, None, "Fall 2024", None);
    assert_eq!(bad_request(result), "No member with the email gb@gatech.edu.");
}

#[test]
fn update_refuses_password_change_by_others() {
    let update = new_member("gb@gatech.edu", Some("secret"), Some(Enrollment::Club));
    let result = Member::update("gb@gatech.edu", false, update, false, Some(member("gb@gatech.edu", "h")), "Fall 2024", None);
    assert_eq!(bad_request(result), "Only members themselves can change their own passwords.");
}

#[test]
fn update_keeps_hash_and_on_campus_and_updates_record() {
    let update = new_member("gb@gatech.edu", None, Some(Enrollment::Class));
    let existing_record = ActiveSemester {
        member: "gb@gatech.edu".to_owned(),
        semester: "Fall 2024".to_owned(),
        enrollment: Enrollment::Club,
        section: Some("Bass 2".to_owned()),
    };
    let result =
        Member::update("gb@gatech.edu", false, update, false, Some(member("gb@gatech.edu", "old-hash")), "Fall 2024", Some(existing_record))
            .unwrap();
    assert_eq!(result.member.pass_hash, "old-hash");
    assert_eq!(result.member.on_campus, Some(true));
    assert_eq!(result.member.first_name, "Ada");
    assert_eq!(result.member.preferred_name, Some("Addie".to_owned()));
    let record = result.active_semester.unwrap();
    assert_eq!(record.enrollment, Enrollment::Class);
    assert_eq!(record.section, Some("Tenor 1".to_owned()));
}

#[test]
fn update_hashes_a_new_password_that_then_logs_in() {
    let update = new_member("gb@gatech.edu", Some("new password"), None);
    let result = Member::update("gb@gatech.edu", true, update, false, Some(member("gb@gatech.edu", "old")), "Fall 2024", None).unwrap();
    assert_ne!(result.member.pass_hash, "new password");
    assert!(result.active_semester.is_none());
    let logged_in = Member::check_login(Some(result.member), "new password");
    assert!(logged_in.is_some());
}

#[test]
fn active_semester_update_cases() {
    let record = || ActiveSemester {
        member: "gb@gatech.edu".to_owned(),
        semester: "Fall 2024".to_owned(),
        enrollment: Enrollment::Club,
        section: Some("Bass 2".to_owned()),
    };
    let keep_section = ActiveSemester::update(
        "gb@gatech.edu",
        "Fall 2024",
        Some(record()),
        ActiveSemesterUpdate { enrollment: Some(Enrollment::Class), section: None },
    )
    .unwrap();
    assert_eq!(keep_section.section, Some("Bass 2".to_owned()));
    assert_eq!(keep_section.enrollment, Enrollment::Class);
    let removed = ActiveSemester::update(
        "gb@gatech.edu",
        "Fall 2024",
        Some(record()),
        ActiveSemesterUpdate { enrollment: None, section: Some("Tenor 1".to_owned()) },
    );
    assert!(removed.is_none());
    let created = ActiveSemester::update(
        "gb@gatech.edu",
        "Spring 2025",
        None,
        ActiveSemesterUpdate { enrollment: Some(Enrollment::Club), section: None },
    )
    .unwrap();
    assert_eq!(created.semester, "Spring 2025");
    assert_eq!(created.section, None);
    assert!(ActiveSemester::update("a", "b", None, ActiveSemesterUpdate { enrollment: None, section: None }).is_none());
}

#[test]
fn registration_needs_hash_and_enrollment() {
    let missing_hash = new_member("ada@gatech.edu", None, Some(Enrollment::Club)).for_current_semester("Fall 2024".to_owned());
    assert_eq!(bad_request(missing_hash), "The `passHash` field is required for new member registration.");
    let inactive = new_member("ada@gatech.edu", Some("hash"), None).for_current_semester("Fall 2024".to_owned());
    assert_eq!(bad_request(inactive), "New members cannot enroll as inactive.");
    let registered =
        new_member("ada@gatech.edu", Some("hash"), Some(Enrollment::Class)).for_current_semester("Fall 2024".to_owned()).unwrap();
    assert_eq!(registered.member.pass_hash, "hash");
    assert_eq!(registered.member.on_campus, Some(false));
    let record = registered.active_semester.unwrap();
    assert_eq!(record.member, "ada@gatech.edu");
    assert_eq!(record.semester, "Fall 2024");
    assert_eq!(record.enrollment, Enrollment::Class);
}

#[test]
fn create_refuses_taken_email() {
    let taken = Member::create(new_member("ada@gatech.edu", Some("h"), Some(Enrollment::Club)), true, "Fall 2024".to_owned());
    assert_eq!(bad_request(taken), "A member already exists with the email ada@gatech.edu.");
    let created = Member::create(new_member("ada@gatech.edu", Some("h"), Some(Enrollment::Club)), false, "Fall 2024".to_owned());
    assert!(created.is_ok());
}

#[test]
fn register_for_semester_once() {
    let form = || RegisterForSemesterForm {
        location: "Towers".to_owned(),
        on_campus: Some(true),
        conflicts: None,
        dietary_restrictions: Some("vegan".to_owned()),
        enrollment: Enrollment::Club,
        section: "Baritone".to_owned(),
    };
    let existing = Some(ActiveSemester {
        member: "gb@gatech.edu".to_owned(),
        semester: "Fall 2024".to_owned(),
        enrollment: Enrollment::Class,
        section: None,
    });
    let again = Member::register_for_semester("gb@gatech.edu".to_owned(), form(), "Fall 2024".to_owned(), &existing);
    assert_eq!(bad_request(again), "Member with email gb@gatech.edu is already active for the current semester.");
    let registration = Member::register_for_semester("gb@gatech.edu".to_owned(), form(), "Fall 2024".to_owned(), &None).unwrap();
    assert_eq!(registration.location, "Towers");
    assert_eq!(registration.dietary_restrictions, Some("vegan".to_owned()));
    assert_eq!(registration.active_semester.section, Some("Baritone".to_owned()));
    assert_eq!(registration.active_semester.semester, "Fall 2024");
}

#[test]
fn member_for_semester_and_active_semester_create() {
    let new = MemberForSemester { member: member("gb@gatech.edu", "h"), active_semester: None };
    let refused = MemberForSemester::create(new, &Some(member("gb@gatech.edu", "h")));
    assert_eq!(bad_request(refused), "A member with the email gb@gatech.edu already exists.");
    let new = MemberForSemester { member: member("gb@gatech.edu", "h"), active_semester: None };
    assert!(MemberForSemester::create(new, &None).is_ok());

    let record = || ActiveSemester {
        member: "gb@gatech.edu".to_owned(),
        semester: "Fall 2024".to_owned(),
        enrollment: Enrollment::Club,
        section: None,
    };
    let twice = ActiveSemester::create(record(), &Some(record()));
    assert_eq!(bad_request(twice), "The member with email gb@gatech.edu already is active in semester Fall 2024.");
    assert!(ActiveSemester::create(record(), &None).is_ok());
}

#[test]
fn full_name_prefers_non_empty_preferred_name() {
    let mut m = member("gb@gatech.edu", "h");
    assert_eq!(m.full_name(), "George Burdell");
    m.preferred_name = Some("Buzz".to_owned());
    assert_eq!(m.full_name(), "Buzz Burdell");
    m.preferred_name = Some(String::new());
    assert_eq!(m.full_name(), "George Burdell");
}
