use grease::email::{
    event_in_48_hours_subject, filter_unaddressed_events, new_event_email_subject, reset_password_email_subject,
    EmailLoop, EventEmailDetails, MEMBER_LIST_ADDRESS,
};
use grease::event::Event;

const DAY: i64 = 86_400;

fn event(id: i32, name: &str, call_time: i64, release_time: Option<i64>) -> Event {
    Event {
        id,
        name: name.to_owned(),
        semester: "Spring 2000".to_owned(),
        type_: "Rehearsal".to_owned(),
        call_time,
        release_time,
        points: 10,
        comments: None,
        location: None,
        gig_count: false,
        default_attend: true,
        section: None,
    }
}

#[test]
fn email_subjects() {
    let e = event(1, "Spring Concert", 0, None);
    assert_eq!(event_in_48_hours_subject(&e), "Spring Concert is in 48 Hours");
    assert_eq!(new_event_email_subject(&e), "New Glee Club Event - Spring Concert");
    assert_eq!(reset_password_email_subject(), "Reset Your GlubHub Password");
    assert_eq!(MEMBER_LIST_ADDRESS, "gleeclub@lists.gatech.edu");
}

#[test]
fn event_times_are_written_for_emails() {
    let e = event(1, "Concert", 946_756_800, Some(946_764_000));
    let details = EventEmailDetails::for_event(&e, Some("Black Slacks".to_owned()));
    assert_eq!(details.uniform_name, Some("Black Slacks".to_owned()));
    assert_eq!(details.start_time, "Sat, Jan 01 20:00 PM");
    assert_eq!(details.end_time, Some("Sat, Jan 01 22:00 PM".to_owned()));
    let no_end = EventEmailDetails::for_event(&event(2, "Rehearsal", 0, None), None);
    assert_eq!(no_end.end_time, None);
    assert_eq!(no_end.start_time, "Thu, Jan 01 00:00 AM");
}

#[test]
fn reminder_windows_follow_the_last_round() {
    let mut reminders = EmailLoop::start(1_000_000);
    let window = reminders.step(1_000_600);
    assert_eq!(window.from, 1_000_000 + 2 * DAY);
    assert_eq!(window.to, 1_000_600 + 2 * DAY);
    assert_eq!(reminders.last_run, 1_000_600);
    let next = reminders.step(1_001_200);
    assert_eq!(next.from, window.to);
}

#[test]
fn unaddressed_events_lie_between_the_two_checks() {
    let since = 1_000_000;
    let now = 1_003_600;
    let events = vec![
        event(1, "too early", since + 2 * DAY, None),
        event(2, "in window", since + 2 * DAY + 10, None),
        event(3, "too late", now + 2 * DAY, None),
        event(4, "also in", now + 2 * DAY - 1, None),
    ];
    assert_eq!(filter_unaddressed_events(&events, since, now), vec![1, 3]);
}
