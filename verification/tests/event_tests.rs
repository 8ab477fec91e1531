use grease::attendance::{AbsenceRequest, AbsenceRequestState, Attendance};
use grease::error::GreaseError;
use grease::event::{
    Event, EventUpdate, EventWithGig, Gig, GigRequest, GigRequestStatus, NewEvent, NewEventFields, NewGig, Period,
};
use grease::uniform::Uniform;

const DAY: i64 = 86_400;
// Sunday 2024-01-07 00:00 UTC
const SUNDAY: i64 = 1_704_585_600;

fn event(id: i32, kind: &str, call_time: i64) -> Event {
    Event {
        id,
        name: format!("{} {}", kind, id),
        semester: "Spring 2024".to_owned(),
        type_: kind.to_owned(),
        call_time,
        release_time: Some(call_time + 7200),
        points: 10,
        comments: None,
        location: Some("Couch".to_owned()),
        gig_count: true,
        default_attend: true,
        section: None,
    }
}

fn attendance(event: i32, should_attend: bool, did_attend: bool) -> Attendance {
    Attendance { member: "gb@gatech.edu".to_owned(), event, should_attend, did_attend, confirmed: false, minutes_late: 0 }
}

fn with_gig(event: Event) -> EventWithGig {
    EventWithGig { event, gig: None }
}

fn fields(call_time: i64, release_time: Option<i64>) -> NewEventFields {
    NewEventFields {
        name: "Rehearsal".to_owned(),
        semester: "Spring 2024".to_owned(),
        type_: "Rehearsal".to_owned(),
        call_time,
        release_time,
        points: 10,
        comments: None,
        location: None,
        gig_count: false,
        default_attend: true,
        section: None,
    }
}

fn gig_request(status: GigRequestStatus, event: Option<i32>) -> GigRequest {
    GigRequest {
        id: 1,
        time: SUNDAY,
        name: "Wedding".to_owned(),
        organization: "Family".to_owned(),
        event,
        contact_name: "Pat".to_owned(),
        contact_email: "pat@x".to_owned(),
        contact_phone: "555".to_owned(),
        start_time: SUNDAY + 3 * DAY,
        location: "Chapel".to_owned(),
        comments: None,
        status,
    }
}

fn message(result: Result<impl std::fmt::Debug, GreaseError>) -> String {
    match result {
        Err(GreaseError::BadRequest(m)) | Err(GreaseError::ServerError(m)) => m,
        other => panic!("expected an error, got {:?}", other),
    }
}

#[test]
fn week_attendance_counts_only_same_week_past_events() {
    let this = event(1, "Volunteer Gig", SUNDAY + 3 * DAY);
    let pairs = vec![
        (with_gig(event(2, "Rehearsal", SUNDAY + DAY)), attendance(2, true, true)),
        (with_gig(event(3, "Rehearsal", SUNDAY + 8 * DAY)), attendance(3, true, false)),
    ];
    let now = SUNDAY + 5 * DAY;
    assert_eq!(this.went_to_event_type_during_week_of_at(&pairs, &vec![], "Rehearsal", now), Some(true));
    assert_eq!(this.went_to_event_type_during_week_of_at(&pairs, &vec![], "Sectional", now), None);
    let missed = vec![(with_gig(event(2, "Rehearsal", SUNDAY + DAY)), attendance(2, true, false))];
    assert_eq!(this.went_to_event_type_during_week_of_at(&missed, &vec![], "Rehearsal", now), Some(false));
    let excused = vec![AbsenceRequest {
        member: "gb@gatech.edu".to_owned(),
        event: 2,
        time: SUNDAY,
        reason: "sick".to_owned(),
        state: AbsenceRequestState::Approved,
    }];
    assert_eq!(this.went_to_event_type_during_week_of_at(&missed, &excused, "Rehearsal", now), Some(true));
}

#[test]
fn rsvp_rules() {
    let now = SUNDAY;
    let gig = event(1, "Volunteer Gig", SUNDAY + 3 * DAY);
    assert_eq!(gig.rsvp_issue_at(None, false, now), Some("Member must be active to RSVP to events.".to_owned()));
    assert_eq!(gig.rsvp_issue_at(None, true, now), None);
    let late = event(2, "Volunteer Gig", SUNDAY + DAY / 2);
    assert_eq!(late.rsvp_issue_at(None, true, now), Some("Responses are closed for this event.".to_owned()));
    let rehearsal = event(3, "Rehearsal", SUNDAY + 3 * DAY);
    assert_eq!(rehearsal.rsvp_issue_at(None, true, now), Some("You cannot RSVP for Rehearsal events.".to_owned()));
    let not_expected = attendance(3, false, false);
    assert_eq!(rehearsal.rsvp_issue_at(Some(&not_expected), true, now), None);

    let answered = Event::rsvp_at(&gig, &"gb@gatech.edu".to_owned(), Some(attendance(1, true, false)), true, false, now).unwrap();
    assert!(!answered.should_attend);
    assert!(answered.confirmed);
    assert_eq!(
        message(Event::rsvp_at(&gig, &"gb@gatech.edu".to_owned(), None, true, true, now)),
        "No attendance exists for member gb@gatech.edu at event with id 1."
    );
    let confirmed = Event::confirm(1, &"gb@gatech.edu".to_owned(), Some(attendance(1, false, false))).unwrap();
    assert!(confirmed.should_attend && confirmed.confirmed);
}

#[test]
fn repeating_events() {
    let weekly = Event::repeat_event_times(SUNDAY, Some(SUNDAY + 3600), Period::Weekly, SUNDAY / DAY + 15);
    assert_eq!(weekly, vec![
        (SUNDAY, Some(SUNDAY + 3600)),
        (SUNDAY + 7 * DAY, Some(SUNDAY + 7 * DAY + 3600)),
        (SUNDAY + 14 * DAY, Some(SUNDAY + 14 * DAY + 3600)),
    ]);
    assert_eq!(Event::repeat_event_times(SUNDAY, None, Period::No, 0), vec![(SUNDAY, None)]);
    // January has 31 days, February 2024 has 29.
    assert_eq!(Event::period_step(Period::Monthly, SUNDAY), 31 * DAY);
    assert_eq!(Event::period_step(Period::Monthly, SUNDAY + 30 * DAY), 29 * DAY);
    assert_eq!(Event::period_step(Period::Biweekly, SUNDAY), 14 * DAY);
}

#[test]
fn creating_events_checks_times_and_repeats() {
    let plain = NewEvent { fields: fields(SUNDAY, Some(SUNDAY + 3600)), repeat: Period::No, repeat_until: None, gig: None };
    let creation = Event::create(plain, None, None).unwrap();
    assert_eq!(creation.times, vec![(SUNDAY, Some(SUNDAY + 3600))]);
    let backwards = NewEvent { fields: fields(SUNDAY, Some(SUNDAY)), repeat: Period::No, repeat_until: None, gig: None };
    assert_eq!(message(Event::create(backwards, None, None)), "Release time must be after call time if it is supplied.");
    let no_until = NewEvent { fields: fields(SUNDAY, None), repeat: Period::Daily, repeat_until: None, gig: None };
    assert_eq!(message(Event::create(no_until, None, None)), "Must supply a repeat until time if repeat is supplied.");
    let request = gig_request(GigRequestStatus::Pending, None);
    let from_request = NewEvent { fields: fields(SUNDAY, None), repeat: Period::No, repeat_until: None, gig: None };
    assert_eq!(message(Event::create(from_request, Some(&request), None)), "There are currently no uniforms.");
    let uniform = Uniform { id: 4, name: "Jackets".to_owned(), color: None, description: None };
    let from_request = NewEvent { fields: fields(SUNDAY, None), repeat: Period::No, repeat_until: None, gig: None };
    let creation = Event::create(from_request, Some(&request), Some(&uniform)).unwrap();
    let gig = creation.gig.unwrap();
    assert_eq!(gig.uniform, 4);
    assert_eq!(gig.contact_name, Some("Pat".to_owned()));
    assert_eq!(gig.performance_time, SUNDAY + 3 * DAY);
}

#[test]
fn updating_events() {
    let update = || EventUpdate { fields: fields(SUNDAY, None), gig: None };
    assert_eq!(message(Event::update(9, None, update())), "No event with id 9.");
    let gig = Gig {
        event: 9,
        performance_time: SUNDAY,
        uniform: 1,
        contact_name: None,
        contact_email: None,
        contact_phone: None,
        price: None,
        public: false,
        summary: None,
        description: None,
    };
    let found = EventWithGig { event: event(9, "Tutti Gig", SUNDAY), gig: Some(gig) };
    assert_eq!(message(Event::update(9, Some(found), update())), "Gig fields must be present when updating gig events.");
    let updated = Event::update(9, Some(with_gig(event(9, "Rehearsal", SUNDAY + DAY))), update()).unwrap();
    assert_eq!(updated.event.id, 9);
    assert_eq!(updated.event.call_time, SUNDAY);
    assert!(updated.gig.is_none());
}

#[test]
fn gig_request_status_changes() {
    assert_eq!(
        message(gig_request(GigRequestStatus::Accepted, Some(3)).set_status(GigRequestStatus::Pending)),
        "Cannot change the status of an accepted gig request."
    );
    assert_eq!(
        message(gig_request(GigRequestStatus::Dismissed, None).set_status(GigRequestStatus::Accepted)),
        "Cannot directly accept a gig request if it is dismissed. Please reopen it first."
    );
    assert_eq!(
        message(gig_request(GigRequestStatus::Pending, None).set_status(GigRequestStatus::Accepted)),
        "Must create the event for the gig request first before marking it as accepted."
    );
    assert_eq!(gig_request(GigRequestStatus::Pending, Some(3)).set_status(GigRequestStatus::Accepted).unwrap(), GigRequestStatus::Accepted);
    assert_eq!(gig_request(GigRequestStatus::Dismissed, None).set_status(GigRequestStatus::Pending).unwrap(), GigRequestStatus::Pending);
    assert_eq!(gig_request(GigRequestStatus::Pending, None).set_status(GigRequestStatus::Dismissed).unwrap(), GigRequestStatus::Dismissed);
}

#[test]
fn public_events() {
    let gig = |public| Gig {
        event: 5,
        performance_time: SUNDAY,
        uniform: 1,
        contact_name: None,
        contact_email: None,
        contact_phone: None,
        price: None,
        public,
        summary: Some("Fun".to_owned()),
        description: None,
    };
    assert_eq!(message(EventWithGig::to_public(event(5, "Tutti Gig", SUNDAY), gig(false))), "Event with id 5 is not a public event.");
    let public = EventWithGig::to_public(event(5, "Tutti Gig", SUNDAY), gig(true)).unwrap();
    assert_eq!(public.time, SUNDAY * 1000);
    assert_eq!(public.summary, "Fun");
    assert_eq!(public.description, "");
    assert_eq!(public.location, "Couch");
    let encoded = public.invite.strip_prefix("data:text/calendar;base64,").unwrap();
    let calendar = String::from_utf8(base64::decode_config(encoded, base64::URL_SAFE).unwrap()).unwrap();
    assert!(calendar.contains("BEGIN:VCALENDAR"));
    assert!(calendar.contains("SUMMARY:Tutti Gig 5"));
    assert!(calendar.contains("DESCRIPTION:Fun"));
    assert!(calendar.contains("DTSTART:20240107T000000Z"));
    // The event's release time ends the invite.
    assert!(calendar.contains("DTEND:20240107T020000Z"));
    assert!(calendar.contains("LOCATION:Couch"));
}

#[test]
fn calendar_invites_without_a_release_time_last_an_hour() {
    let mut open_ended = event(6, "Volunteer Gig", SUNDAY);
    open_ended.release_time = None;
    open_ended.location = None;
    let gig = Gig {
        event: 6,
        performance_time: SUNDAY + 1800,
        uniform: 1,
        contact_name: None,
        contact_email: None,
        contact_phone: None,
        price: None,
        public: true,
        summary: None,
        description: None,
    };
    let url = EventWithGig::build_calendar_url(&open_ended, &gig);
    let encoded = url.strip_prefix("data:text/calendar;base64,").unwrap();
    let calendar = String::from_utf8(base64::decode_config(encoded, base64::URL_SAFE).unwrap()).unwrap();
    assert!(calendar.contains("SUMMARY:Volunteer Gig 6"));
    assert!(calendar.contains("DTSTART:20240107T003000Z"));
    assert!(calendar.contains("DTEND:20240107T013000Z"));
}

#[test]
fn sectionals_of_the_week() {
    let this = event(1, "Rehearsal", SUNDAY + DAY);
    let mut long = event(2, "Sectional", SUNDAY + 2 * DAY);
    long.release_time = Some(SUNDAY + 8 * DAY);
    let short = event(3, "Sectional", SUNDAY + 3 * DAY);
    let mut other_semester = event(4, "Sectional", SUNDAY + 2 * DAY);
    other_semester.semester = "Fall 2023".to_owned();
    other_semester.release_time = Some(SUNDAY + 9 * DAY);
    let events = vec![long, short, other_semester];
    assert_eq!(this.load_sectionals_the_week_of(&events), vec![0]);
}

#[test]
fn new_gig_of_event() {
    let new_gig = NewGig {
        performance_time: SUNDAY,
        uniform: 2,
        contact_name: None,
        contact_email: None,
        contact_phone: None,
        price: Some(100),
        public: true,
        summary: None,
        description: None,
    };
    let gig = new_gig.as_full_gig(8);
    assert_eq!(gig.event, 8);
    assert_eq!(gig.price, Some(100));
}

#[test]
fn loading_an_event() {
    assert_eq!(message(Event::load(4, None)), "No event with id 4.");
    let found = Event::load(4, Some((event(4, "Rehearsal", SUNDAY), None))).unwrap();
    assert_eq!(found.event.id, 4);
    assert!(found.gig.is_none());
}

#[test]
fn repetitions_come_in_order_before_the_end() {
    let until = (SUNDAY + 100 * DAY) / DAY;
    let monthly = Event::repeat_event_times(SUNDAY, None, Period::Monthly, until);
    assert_eq!(monthly.len(), 4);
    for pair in monthly.windows(2) {
        assert!(pair[0].0 < pair[1].0);
        assert_eq!(pair[1].0 - pair[0].0, Event::period_step(Period::Monthly, pair[0].0));
    }
    assert!(monthly.iter().skip(1).all(|(call, _)| call / DAY < until));
}

#[test]
fn checking_rsvp_issues() {
    let now = SUNDAY;
    let gig = event(1, "Volunteer Gig", SUNDAY + 3 * DAY);
    let expected = attendance(1, true, false);
    assert!(Event::check_for_rsvp_issue_at(&gig, &expected, true, now).is_ok());
    match Event::check_for_rsvp_issue_at(&gig, &expected, false, now) {
        Err(GreaseError::BadRequest(m)) => assert_eq!(m, "Member must be active to RSVP to events."),
        _ => panic!("expected a bad request"),
    }
    let sectional = event(2, "Sectional", SUNDAY + 3 * DAY);
    match Event::check_for_rsvp_issue_at(&sectional, &attendance(2, true, false), true, now) {
        Err(GreaseError::BadRequest(m)) => assert_eq!(m, "You cannot RSVP for Sectional events."),
        _ => panic!("expected a bad request"),
    }
    // An event long past is closed whatever the clock says today.
    let past = event(3, "Volunteer Gig", SUNDAY);
    match Event::check_for_rsvp_issue(&past, &attendance(3, true, false), true) {
        Err(GreaseError::BadRequest(m)) => assert_eq!(m, "Responses are closed for this event."),
        _ => panic!("expected a bad request"),
    }
    // Inactive members are refused whenever they ask.
    match Event::rsvp(&gig, &"gb@gatech.edu".to_owned(), Some(attendance(1, true, false)), false, true) {
        Err(GreaseError::BadRequest(m)) => assert_eq!(m, "Member must be active to RSVP to events."),
        _ => panic!("expected a bad request"),
    }
    assert_eq!(
        message(Event::rsvp(&gig, &"gb@gatech.edu".to_owned(), None, true, true)),
        "No attendance exists for member gb@gatech.edu at event with id 1."
    );
}

#[test]
fn storing_events_from_a_request_accepts_it() {
    let request = gig_request(GigRequestStatus::Pending, None);
    let uniform = Uniform { id: 4, name: "Jackets".to_owned(), color: None, description: None };
    let weekly = NewEvent {
        fields: fields(SUNDAY, Some(SUNDAY + 3600)),
        repeat: Period::Weekly,
        repeat_until: Some(SUNDAY / DAY + 15),
        gig: None,
    };
    let creation = Event::create(weekly, Some(&request), Some(&uniform)).unwrap();
    assert_eq!(creation.times.len(), 3);
    // The store hands the new IDs back newest first.
    let stored = creation.stored(&vec![12, 11, 10], Some(&request)).unwrap();
    assert_eq!(stored.first_id, 10);
    assert_eq!(stored.events.iter().map(|e| (e.id, e.call_time)).collect::<Vec<_>>(), vec![
        (10, SUNDAY),
        (11, SUNDAY + 7 * DAY),
        (12, SUNDAY + 14 * DAY),
    ]);
    assert_eq!(stored.events[1].release_time, Some(SUNDAY + 7 * DAY + 3600));
    assert_eq!(stored.gigs.iter().map(|g| (g.event, g.uniform)).collect::<Vec<_>>(), vec![(10, 4), (11, 4), (12, 4)]);
    let accepted = stored.accepted_request.unwrap();
    assert_eq!(accepted.status, GigRequestStatus::Accepted);
    assert_eq!(accepted.event, Some(10));
    assert_eq!(accepted.id, request.id);
    assert_eq!(message(creation.stored(&vec![12, 11], None)), "error inserting new event into database");
    let plain = NewEvent { fields: fields(SUNDAY, None), repeat: Period::No, repeat_until: None, gig: None };
    let alone = Event::create(plain, None, None).unwrap().stored(&vec![7], None).unwrap();
    assert!(alone.gigs.is_empty() && alone.accepted_request.is_none());
    assert_eq!(alone.events[0].name, "Rehearsal");
}
