use grease::attendance::{AbsenceRequest, AbsenceRequestState, Attendance, MemberAttendance};
use grease::event::{Event, EventWithGig};
use grease::grades::{GradeRule, GradeSheet, WeeklyAttendanceContext};
use grease::member::Member;
use grease::semester::Semester;

const DAY: i64 = 86_400;
const HOUR: i64 = 3_600;
// Sunday 2024-01-07 00:00 UTC
const SUNDAY: i64 = 1_704_585_600;

fn event(id: i32, kind: &str, call_time: i64, points: i32) -> Event {
    Event {
        id,
        name: format!("{} {}", kind, id),
        semester: "Spring 2024".to_owned(),
        type_: kind.to_owned(),
        call_time,
        release_time: Some(call_time + 2 * HOUR),
        points,
        comments: None,
        location: None,
        gig_count: true,
        default_attend: true,
        section: None,
    }
}

fn item(event: Event, should_attend: bool, did_attend: bool, minutes_late: i32) -> MemberAttendance {
    let id = event.id;
    MemberAttendance {
        event: EventWithGig { event, gig: None },
        attendance: Some(Attendance { member: "gb@gatech.edu".to_owned(), event: id, should_attend, did_attend, confirmed: true, minutes_late }),
        absence_request: None,
        rsvp_issue: None,
    }
}

fn semester() -> Semester {
    Semester { name: "Spring 2024".to_owned(), start_date: SUNDAY, end_date: SUNDAY + 16 * 7 * DAY, gig_requirement: 5, current: true }
}

#[test]
fn grade_sheet_for_a_member() {
    let attendance = vec![
        item(event(1, "Rehearsal", SUNDAY + DAY + 19 * HOUR, 10), true, true, 0),
        item(event(2, "Volunteer Gig", SUNDAY + 3 * DAY + 18 * HOUR, 5), false, true, 0),
        item(event(3, "Rehearsal", SUNDAY + 8 * DAY + 19 * HOUR, 10), true, false, 0),
        item(event(4, "Tutti Gig", SUNDAY + 10 * DAY + 18 * HOUR, 35), true, true, 0),
        item(event(5, "Rehearsal", SUNDAY + 15 * DAY + 19 * HOUR, 10), true, false, 0),
    ];
    let now = SUNDAY + 13 * DAY;
    let sheet = GradeSheet::for_member(&attendance, &semester(), now);
    let rules = sheet.entries.iter().map(|e| (e.index, e.rule)).collect::<Vec<_>>();
    assert_eq!(rules, vec![
        (0, GradeRule::AttendedRequiredEvent),
        (1, GradeRule::AttendedBonusEvent { points: 5 }),
        (2, GradeRule::UnexcusedAbsence { points: 10 }),
        (3, GradeRule::DeductedForMissedRehearsal { points: 35 }),
        (4, GradeRule::NotYetHappened),
    ]);
    assert_eq!(sheet.volunteer_gigs_attended, 1);
}

#[test]
fn lateness_and_weeks() {
    let late = item(event(1, "Rehearsal", SUNDAY + DAY, 10), true, true, 30);
    let sheet = GradeSheet::for_member(&vec![late], &semester(), SUNDAY + 2 * DAY);
    assert_eq!(sheet.entries[0].rule, GradeRule::LateToRequiredEvent { points: 10, minutes_late: 30, duration_minutes: 120 });
    let mut no_release = event(2, "Rehearsal", SUNDAY + DAY, 10);
    no_release.release_time = None;
    assert_eq!(GradeSheet::lateness_duration(&no_release), 60);
    let weeks = GradeSheet::organize_into_weeks(&semester(), &vec![
        item(event(1, "Rehearsal", SUNDAY + DAY, 10), true, true, 0),
        item(event(2, "Rehearsal", SUNDAY + 9 * DAY, 10), true, true, 0),
    ]);
    assert_eq!(weeks, vec![vec![0], vec![1]]);
    let empty_weeks = GradeSheet::organize_into_weeks(&semester(), &vec![]);
    assert_eq!(empty_weeks.len(), 17);
}

#[test]
fn optional_and_sectional_rules() {
    let attendance = vec![
        item(event(1, "Sectional", SUNDAY + DAY, 5), true, true, 0),
        item(event(2, "Sectional", SUNDAY + 2 * DAY, 5), true, false, 0),
        item(event(3, "Other", SUNDAY + 3 * DAY, 5), false, false, 0),
    ];
    let week = vec![0, 1, 2];
    let context = WeeklyAttendanceContext::for_week(&attendance, &week);
    assert!(context.attended_sectionals);
    assert_eq!(context.missed_sectional, Some(SUNDAY + 2 * DAY));
    assert!(!context.missed_rehearsal);
    let now = SUNDAY + 5 * DAY;
    assert_eq!(GradeSheet::grade_rule(&attendance[1], &context, now), GradeRule::AttendedOtherSectional);
    assert_eq!(GradeSheet::grade_rule(&attendance[2], &context, now), GradeRule::NotExpected);
    assert_eq!(GradeSheet::grade_rule(&attendance[0], &context, now), GradeRule::AttendedRequiredEvent);
}

#[test]
fn legacy_semester_grades() {
    let member = Member {
        email: "gb@gatech.edu".to_owned(),
        first_name: "F".to_owned(),
        preferred_name: None,
        last_name: "L".to_owned(),
        pass_hash: "h".to_owned(),
        phone_number: "1".to_owned(),
        picture: None,
        passengers: 0,
        location: "x".to_owned(),
        on_campus: None,
        about: None,
        major: None,
        minor: None,
        hometown: None,
        arrived_at_tech: None,
        gateway_drug: None,
        conflicts: None,
        dietary_restrictions: None,
    };
    let attendance = |id, did_attend| Attendance {
        member: "gb@gatech.edu".to_owned(),
        event: id,
        should_attend: true,
        did_attend,
        confirmed: true,
        minutes_late: 0,
    };
    let pairs = vec![
        (EventWithGig { event: event(1, "Rehearsal", SUNDAY + DAY, 10), gig: None }, attendance(1, true)),
        (EventWithGig { event: event(2, "Rehearsal", SUNDAY + 2 * DAY, 10), gig: None }, attendance(2, false)),
        (EventWithGig { event: event(3, "Rehearsal", SUNDAY + 20 * DAY, 10), gig: None }, attendance(3, false)),
    ];
    let grades = member.calc_grades_at(&pairs, &semester(), &vec![], &vec![], SUNDAY + 5 * DAY);
    let rules = grades.changes.iter().map(|c| c.rule).collect::<Vec<_>>();
    assert_eq!(rules, vec![GradeRule::AttendedRequiredEvent, GradeRule::UnexcusedAbsence { points: 10 }]);
    assert_eq!(grades.gig_requirement, 5);
    assert!(!grades.semester_is_finished);
}

#[test]
fn gigs_in_a_week_with_a_missed_rehearsal_lose_their_credit() {
    let member = Member {
        email: "gb@gatech.edu".to_owned(),
        first_name: "F".to_owned(),
        preferred_name: None,
        last_name: "L".to_owned(),
        pass_hash: "h".to_owned(),
        phone_number: "1".to_owned(),
        picture: None,
        passengers: 0,
        location: "x".to_owned(),
        on_campus: None,
        about: None,
        major: None,
        minor: None,
        hometown: None,
        arrived_at_tech: None,
        gateway_drug: None,
        conflicts: None,
        dietary_restrictions: None,
    };
    let attendance = |id, did_attend| Attendance {
        member: "gb@gatech.edu".to_owned(),
        event: id,
        should_attend: true,
        did_attend,
        confirmed: true,
        minutes_late: 0,
    };
    let pairs = vec![
        (EventWithGig { event: event(1, "Rehearsal", SUNDAY + DAY, 10), gig: None }, attendance(1, false)),
        (EventWithGig { event: event(2, "Volunteer Gig", SUNDAY + 2 * DAY, 5), gig: None }, attendance(2, true)),
        (EventWithGig { event: event(3, "Tutti Gig", SUNDAY + 3 * DAY, 20), gig: None }, attendance(3, true)),
    ];
    let grades = member.calc_grades_at(&pairs, &semester(), &vec![], &vec![], SUNDAY + 6 * DAY);
    let rules = grades.changes.iter().map(|c| c.rule).collect::<Vec<_>>();
    assert_eq!(
        rules,
        vec![
            GradeRule::UnexcusedAbsence { points: 10 },
            GradeRule::BonusDeniedForMissedRehearsal { points: 5 },
            GradeRule::DeductedForMissedRehearsal { points: 20 },
        ]
    );
    assert_eq!(grades.volunteer_gigs_attended, 0);
}

#[test]
fn approved_absences_are_not_deducted() {
    let mut missed = item(event(1, "Rehearsal", SUNDAY + DAY, 10), true, false, 0);
    missed.absence_request = Some(AbsenceRequest {
        member: "gb@gatech.edu".to_owned(),
        event: 1,
        time: SUNDAY,
        reason: "exam".to_owned(),
        state: AbsenceRequestState::Approved,
    });
    let gig = item(event(2, "Volunteer Gig", SUNDAY + 2 * DAY, 5), false, true, 0);
    let sheet = GradeSheet::for_member(&vec![missed, gig], &semester(), SUNDAY + 5 * DAY);
    assert_eq!(sheet.entries[0].rule, GradeRule::ApprovedAbsence);
    assert_eq!(sheet.entries[1].rule, GradeRule::AttendedBonusEvent { points: 5 });
    assert_eq!(sheet.volunteer_gigs_attended, 1);
}

#[test]
fn every_event_is_graded_once() {
    let attendance = vec![
        item(event(1, "Rehearsal", SUNDAY + DAY, 10), true, true, 0),
        item(event(2, "Rehearsal", SUNDAY + 7 * DAY, 10), true, true, 0),
        item(event(3, "Rehearsal", SUNDAY + 8 * DAY, 10), true, true, 0),
        item(event(4, "Rehearsal", SUNDAY + 30 * DAY, 10), true, true, 0),
    ];
    let sheet = GradeSheet::for_member(&attendance, &semester(), SUNDAY + 40 * DAY);
    // The entries follow the order of the events.
    let indices = sheet.entries.iter().map(|e| e.index).collect::<Vec<_>>();
    assert_eq!(indices, vec![0, 1, 2, 3]);
}

#[test]
fn a_first_event_on_a_sunday_falls_between_weeks() {
    let attendance = vec![item(event(1, "Rehearsal", SUNDAY, 10), true, false, 0)];
    let sheet = GradeSheet::for_member(&attendance, &semester(), SUNDAY + DAY);
    assert!(sheet.entries.is_empty());
}
