use grease::auth::{check_attendance_edit, MemberPermission, User};
use grease::error::GreaseError;
use grease::member::{Member, MemberForSemester};

fn user(permissions: Vec<MemberPermission>) -> User {
    User {
        member: MemberForSemester {
            member: Member {
                email: "officer@x".to_owned(),
                first_name: "F".to_owned(),
                preferred_name: None,
                last_name: "L".to_owned(),
                pass_hash: "h".to_owned(),
                phone_number: "1".to_owned(),
                picture: None,
                passengers: 0,
                location: "x".to_owned(),
                on_campus: None,
                about: None,
                major: None,
                minor: None,
                hometown: None,
                arrived_at_tech: None,
                gateway_drug: None,
                conflicts: None,
                dietary_restrictions: None,
            },
            active_semester: None,
        },
        permissions,
    }
}

#[test]
fn general_permissions_cover_every_event_type() {
    let officer = user(vec![MemberPermission::from_row(("edit-attendance".to_owned(), None))]);
    assert!(officer.has_permission("edit-attendance", None));
    assert!(officer.has_permission("edit-attendance", Some("Rehearsal")));
    assert!(!officer.has_permission("edit-semester", None));
}

#[test]
fn typed_permissions_only_cover_their_type() {
    let officer = user(vec![MemberPermission::from_row(("edit-attendance".to_owned(), Some("Sectional".to_owned())))]);
    assert!(officer.has_permission("edit-attendance", Some("Sectional")));
    assert!(!officer.has_permission("edit-attendance", Some("Rehearsal")));
    assert!(!officer.has_permission("edit-attendance", None));
    match officer.check_for_permission("edit-attendance", Some("Rehearsal")) {
        Err(GreaseError::Forbidden(Some(name))) => assert_eq!(name, "edit-attendance"),
        other => panic!("expected forbidden, got {:?}", other),
    }
    assert!(officer.check_for_permission("edit-attendance", Some("Sectional")).is_ok());
}

#[test]
fn section_leaders_edit_their_own_section() {
    let tenor = Some(Some("Tenor 1".to_owned()));
    let bass = Some(Some("Bass 2".to_owned()));
    assert!(check_attendance_edit(true, &None, &None, false).is_ok());
    assert!(check_attendance_edit(false, &tenor, &tenor, true).is_ok());
    assert!(check_attendance_edit(false, &tenor, &bass, true).is_err());
    assert!(check_attendance_edit(false, &tenor, &tenor, false).is_err());
    match check_attendance_edit(false, &None, &None, true) {
        Err(GreaseError::BadRequest(m)) => assert_eq!(m, "Not allowed to edit attendance"),
        _ => panic!("expected a refusal"),
    }
}
