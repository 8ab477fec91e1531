use grease::roles::{PermissionType, RolePermission};

fn grant(id: i32, role: &str, permission: &str, event_type: Option<&str>) -> RolePermission {
    RolePermission {
        id,
        role: role.to_owned(),
        permission: permission.to_owned(),
        event_type: event_type.map(|t| t.to_owned()),
    }
}

fn keys(grants: &[RolePermission]) -> Vec<(i32, String, String, Option<String>)> {
    grants.iter().map(|g| (g.id, g.role.clone(), g.permission.clone(), g.event_type.clone())).collect()
}

#[test]
fn permission_type_text_forms() {
    assert_eq!(PermissionType::Static.as_str(), "static");
    assert_eq!(PermissionType::Event.as_str(), "event");
    assert_eq!(PermissionType::parse("event"), Some(PermissionType::Event));
    assert_eq!(PermissionType::parse("static"), Some(PermissionType::Static));
    assert_eq!(PermissionType::parse("Static"), None);
}

#[test]
fn enabling_a_permission_adds_one_grant() {
    let mut grants = vec![grant(1, "President", "edit-links", None)];
    RolePermission::enable(&mut grants, 2, "President", "edit-attendance", &Some("Rehearsal".to_owned()));
    assert_eq!(
        keys(&grants),
        vec![
            (1, "President".to_owned(), "edit-links".to_owned(), None),
            (2, "President".to_owned(), "edit-attendance".to_owned(), Some("Rehearsal".to_owned())),
        ]
    );
}

#[test]
fn enabling_twice_changes_nothing() {
    let mut grants = vec![grant(1, "President", "edit-attendance", Some("Rehearsal"))];
    RolePermission::enable(&mut grants, 2, "President", "edit-attendance", &Some("Rehearsal".to_owned()));
    assert_eq!(
        keys(&grants),
        vec![(1, "President".to_owned(), "edit-attendance".to_owned(), Some("Rehearsal".to_owned()))]
    );
    // The same permission for another event type is a different grant.
    RolePermission::enable(&mut grants, 3, "President", "edit-attendance", &Some("Sectional".to_owned()));
    assert_eq!(grants.len(), 2);
}

#[test]
fn grants_for_all_events_are_never_found() {
    // The store compares a missing event type with SQL equality, which
    // never holds: a grant for all events is added again and never removed.
    let mut grants = vec![grant(1, "President", "edit-links", None)];
    RolePermission::enable(&mut grants, 2, "President", "edit-links", &None);
    assert_eq!(
        keys(&grants),
        vec![
            (1, "President".to_owned(), "edit-links".to_owned(), None),
            (2, "President".to_owned(), "edit-links".to_owned(), None),
        ]
    );
    RolePermission::disable(&mut grants, "President", "edit-links", &None);
    assert_eq!(grants.len(), 2);
}

#[test]
fn disabling_removes_only_that_grant() {
    let mut grants = vec![
        grant(1, "President", "edit-attendance", Some("Rehearsal")),
        grant(2, "Section Leader", "edit-attendance", Some("Sectional")),
        grant(3, "President", "edit-attendance", Some("Rehearsal")),
        grant(4, "President", "edit-attendance", None),
    ];
    RolePermission::disable(&mut grants, "President", "edit-attendance", &Some("Rehearsal".to_owned()));
    assert_eq!(
        keys(&grants),
        vec![
            (2, "Section Leader".to_owned(), "edit-attendance".to_owned(), Some("Sectional".to_owned())),
            (4, "President".to_owned(), "edit-attendance".to_owned(), None),
        ]
    );
    RolePermission::disable(&mut grants, "Nobody", "edit-attendance", &Some("Sectional".to_owned()));
    assert_eq!(grants.len(), 2);
}
