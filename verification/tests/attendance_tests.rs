use grease::attendance::{AbsenceRequest, AbsenceRequestState, Attendance, AttendanceForm, MemberAttendance};
use grease::error::GreaseError;
use grease::event::{Event, EventWithGig};
use grease::member::{ActiveSemester, Enrollment, Member, MemberForSemester};

const SUNDAY: i64 = 1_704_585_600;

fn event(id: i32, call_time: i64, default_attend: bool) -> Event {
    Event {
        id,
        name: "Rehearsal".to_owned(),
        semester: "Spring 2024".to_owned(),
        type_: "Rehearsal".to_owned(),
        call_time,
        release_time: None,
        points: 10,
        comments: None,
        location: None,
        gig_count: false,
        default_attend,
        section: None,
    }
}

fn attendance(confirmed: bool) -> Attendance {
    Attendance { member: "gb@gatech.edu".to_owned(), event: 1, should_attend: true, did_attend: false, confirmed, minutes_late: 0 }
}

fn plain_member(email: &str) -> Member {
    member_for_semester(email).member
}

fn member_for_semester(email: &str) -> MemberForSemester {
    MemberForSemester {
        member: Member {
            email: email.to_owned(),
            first_name: "F".to_owned(),
            preferred_name: None,
            last_name: "L".to_owned(),
            pass_hash: "h".to_owned(),
            phone_number: "1".to_owned(),
            picture: None,
            passengers: 0,
            location: "x".to_owned(),
            on_campus: None,
            about: None,
            major: None,
            minor: None,
            hometown: None,
            arrived_at_tech: None,
            gateway_drug: None,
            conflicts: None,
            dietary_restrictions: None,
        },
        active_semester: None,
    }
}

#[test]
fn new_members_are_expected_only_at_future_default_events() {
    let events = vec![
        EventWithGig { event: event(1, SUNDAY - 100, true), gig: None },
        EventWithGig { event: event(2, SUNDAY + 100, true), gig: None },
        EventWithGig { event: event(3, SUNDAY + 100, false), gig: None },
    ];
    let records = Attendance::create_for_new_member_at(&"new@x".to_owned(), &events, SUNDAY);
    assert_eq!(records.iter().map(|r| (r.event, r.should_attend)).collect::<Vec<_>>(), vec![(1, false), (2, true), (3, false)]);
    assert!(records.iter().all(|r| r.member == "new@x"));
    assert_eq!(Attendance::create_for_new_member(&"new@x".to_owned(), &events).len(), 3);
}

#[test]
fn new_events_expect_every_member_by_default() {
    let members = vec![member_for_semester("a@x"), member_for_semester("b@x")];
    let records = Attendance::create_for_new_event(&event(7, SUNDAY, true), &members);
    assert_eq!(records.len(), 2);
    assert_eq!(records[1].member, "b@x");
    assert!(records.iter().all(|r| r.event == 7 && r.should_attend));
    let optional = Attendance::create_for_new_event(&event(8, SUNDAY, false), &members);
    assert!(optional.iter().all(|r| !r.should_attend));
}

#[test]
fn updating_attendance_needs_a_record() {
    let form = AttendanceForm { should_attend: false, did_attend: true, minutes_late: 5, confirmed: true };
    let updated = Attendance::update(1, &"gb@gatech.edu".to_owned(), &form, Some(attendance(false))).unwrap();
    assert!(updated.did_attend && !updated.should_attend && updated.confirmed);
    assert_eq!(updated.minutes_late, 5);
    assert_eq!(updated.member, "gb@gatech.edu");
    match Attendance::update(4, &"gb@gatech.edu".to_owned(), &form, None) {
        Err(GreaseError::BadRequest(m)) => {
            assert_eq!(m, "No attendance exists for member gb@gatech.edu at event 4. (Are they inactive?)")
        }
        _ => panic!("expected an error"),
    }
    assert!(Attendance::ensure_exists_for_member_at_event(&"gb@gatech.edu".to_owned(), 1, Some(&attendance(true))).is_ok());
}

#[test]
fn excusing_unconfirmed_members() {
    let excused = Attendance::excuse_unconfirmed(vec![attendance(true), attendance(false)]);
    assert!(excused[0].should_attend);
    assert!(!excused[1].should_attend);
    let twice = Attendance::excuse_unconfirmed(Attendance::excuse_unconfirmed(vec![attendance(false)]));
    assert!(!twice[0].should_attend && !twice[0].confirmed);
}

#[test]
fn member_attendance_credit() {
    let approved = AbsenceRequest {
        member: "gb@gatech.edu".to_owned(),
        event: 1,
        time: SUNDAY,
        reason: "sick".to_owned(),
        state: AbsenceRequestState::Approved,
    };
    let excused = MemberAttendance {
        event: EventWithGig { event: event(1, SUNDAY, true), gig: None },
        attendance: Some(attendance(false)),
        absence_request: Some(approved),
        rsvp_issue: None,
    };
    assert!(excused.approved_absence());
    assert!(!excused.deny_credit());
    let missed = MemberAttendance {
        event: EventWithGig { event: event(1, SUNDAY, true), gig: None },
        attendance: Some(attendance(false)),
        absence_request: None,
        rsvp_issue: None,
    };
    assert!(missed.deny_credit());
    let no_record = MemberAttendance { event: EventWithGig { event: event(1, SUNDAY, true), gig: None }, attendance: None, absence_request: None, rsvp_issue: None };
    assert!(!no_record.should_attend() && !no_record.did_attend() && no_record.minutes_late() == 0);
}

#[test]
fn member_views_of_events_carry_rsvp_issues() {
    let rows = vec![
        (event(1, SUNDAY + 3 * 86_400, true), None, Some(attendance(false)), None),
        (event(2, SUNDAY + 3 * 86_400, true), None, None, None),
    ];
    let views = Attendance::load_for_member_at_all_events_at(rows, true, SUNDAY);
    assert_eq!(views.len(), 2);
    assert_eq!(views[0].rsvp_issue, Some("You cannot RSVP for Rehearsal events.".to_owned()));
    assert_eq!(views[1].event.event.id, 2);
    let inactive = Attendance::load_for_member_at_all_events(vec![(event(3, SUNDAY, true), None, None, None)], false);
    assert_eq!(inactive[0].rsvp_issue, Some("Member must be active to RSVP to events.".to_owned()));
    match Attendance::load_for_member_at_event_at(5, None, true, SUNDAY) {
        Err(GreaseError::BadRequest(m)) => assert_eq!(m, "No event exists with id 5."),
        _ => panic!("expected an error"),
    }
    let one = Attendance::load_for_member_at_event_at(1, Some((event(1, SUNDAY, true), None, None, None)), true, SUNDAY + 1).unwrap();
    assert_eq!(one.rsvp_issue, Some("Responses are closed for this event.".to_owned()));
}

#[test]
fn event_attendance_keeps_one_row_per_member() {
    let semester = |name: &str| ActiveSemester {
        member: "a@x".to_owned(),
        semester: name.to_owned(),
        enrollment: Enrollment::Club,
        section: None,
    };
    let record = |member: &str| Attendance {
        member: member.to_owned(),
        event: 1,
        should_attend: true,
        did_attend: false,
        confirmed: false,
        minutes_late: 0,
    };
    let rows = vec![
        (record("a@x"), (plain_member("a@x"), semester("Fall 2023"))),
        (record("a@x"), (plain_member("a@x"), semester("Spring 2024"))),
        (record("b@x"), (plain_member("b@x"), semester("Spring 2024"))),
    ];
    let loaded = Attendance::load_for_event(rows);
    assert_eq!(loaded.len(), 2);
    assert_eq!(loaded[0].0.member, "a@x");
    assert_eq!(loaded[0].1.active_semester.as_ref().unwrap().semester, "Fall 2023");
    assert_eq!(loaded[1].1.member.email, "b@x");
}

#[test]
fn answering_absence_requests() {
    let request = || AbsenceRequest {
        member: "gb@gatech.edu".to_owned(),
        event: 1,
        time: SUNDAY,
        reason: "exam".to_owned(),
        state: AbsenceRequestState::Pending,
    };
    assert_eq!(AbsenceRequest::approve("gb@gatech.edu", 1, Some(request())).unwrap().state, AbsenceRequestState::Approved);
    assert_eq!(AbsenceRequest::deny("gb@gatech.edu", 1, Some(request())).unwrap().state, AbsenceRequestState::Denied);
    match AbsenceRequest::approve("gb@gatech.edu", 2, None) {
        Err(GreaseError::BadRequest(m)) => assert_eq!(m, "No absence request for member gb@gatech.edu at event with id 2."),
        _ => panic!("expected an error"),
    }
}

#[test]
fn only_approved_requests_excuse() {
    let request = |state| AbsenceRequest {
        member: "gb@gatech.edu".to_owned(),
        event: 1,
        time: SUNDAY,
        reason: "exam".to_owned(),
        state,
    };
    assert!(AbsenceRequest::excused_for_event(&Some(request(AbsenceRequestState::Approved))));
    assert!(!AbsenceRequest::excused_for_event(&Some(request(AbsenceRequestState::Pending))));
    assert!(!AbsenceRequest::excused_for_event(&Some(request(AbsenceRequestState::Denied))));
    assert!(!AbsenceRequest::excused_for_event(&None));
}

#[test]
fn looking_up_one_event_for_a_member() {
    match Attendance::load_for_member_at_event(7, None, true) {
        Err(GreaseError::BadRequest(m)) => assert_eq!(m, "No event exists with id 7."),
        _ => panic!("expected a bad request"),
    }
    let view = Attendance::load_for_member_at_event(1, Some((event(1, SUNDAY, true), None, None, None)), false).unwrap();
    assert_eq!(view.event.event.id, 1);
    assert_eq!(view.rsvp_issue, Some("Member must be active to RSVP to events.".to_owned()));
}
