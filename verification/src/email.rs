//! The emails the site sends: reminders before events, news of new
//! events, and password resets, and the schedule of the reminders.

use crate::datetime::SECONDS_PER_DAY;
use crate::event::Event;
use crate::text::{concat3, owned};
use vstd::prelude::*;

verus! {

/// The name of the mailing list of all members.
pub const MEMBER_LIST_NAME: &'static str = "Glee Club Members";

/// The address of the mailing list of all members.
pub const MEMBER_LIST_ADDRESS: &'static str = "gleeclub@lists.gatech.edu";

/// The name emails are sent under.
pub const MAILGUN_NAME: &'static str = "GlubHub";

/// The address emails are sent from.
pub const MAILGUN_EMAIL: &'static str = "mail@glubhub.org";

/// The domain emails are sent through.
pub const MAILGUN_DOMAIN: &'static str = "mail.glubhub.org";

/// The earliest point in time the time library formats: the start of year
/// -9999.
pub const EARLIEST_FORMATTED_TIME: i64 = -377_705_203_200;

/// The latest point in time the time library formats: the last second of
/// year 9999.
pub const LATEST_FORMATTED_TIME: i64 = 253_402_300_799;

/// The subject of the reminder two days before an event.
pub open spec fn in_48_hours_subject(event_name: Seq<char>) -> Seq<char> {
    event_name + " is in 48 Hours"@
}

/// The subject of the news of a new event.
pub open spec fn new_event_subject(event_name: Seq<char>) -> Seq<char> {
    "New Glee Club Event - "@ + event_name
}

/// The subject of a password reset email.
pub open spec fn reset_password_subject() -> Seq<char> {
    "Reset Your GlubHub Password"@
}

/// The subject of the reminder two days before `event`.
pub fn event_in_48_hours_subject(event: &Event) -> (subject: String)
    ensures
        subject@ == in_48_hours_subject(event.name@),
{
    let subject = concat3("", event.name.as_str(), " is in 48 Hours");
    proof {
        reveal_strlit("");
    }
    subject
}

/// The subject of the news of `event`.
pub fn new_event_email_subject(event: &Event) -> (subject: String)
    ensures
        subject@ == new_event_subject(event.name@),
{
    let subject = concat3("New Glee Club Event - ", event.name.as_str(), "");
    proof {
        reveal_strlit("");
    }
    subject
}

/// The subject of a password reset email.
pub fn reset_password_email_subject() -> (subject: String)
    ensures
        subject@ == reset_password_subject(),
{
    owned("Reset Your GlubHub Password")
}

/// A point in time as the time library writes it for an email, such as
/// "Sat, Jan 01 8:00 PM", in UTC.
pub uninterp spec fn spec_event_time_text(timestamp: i64) -> Seq<char>;

/// Writes the time of an event for an email.
///
/// Calls the time library: `OffsetDateTime::from_unix_timestamp`, then
/// `format` with the description "[weekday repr:short], [month repr:short]
/// [day] [hour]:[minute padding:zero] [period case:upper]". Trusted to
/// depend on the timestamp alone.
#[verifier::external_body]
fn format_event_time(timestamp: i64) -> (text: String)
    requires
        EARLIEST_FORMATTED_TIME <= timestamp <= LATEST_FORMATTED_TIME,
    ensures
        text@ == spec_event_time_text(timestamp),
{
    let description = time::format_description::parse(
        "[weekday repr:short], [month repr:short] [day] [hour]:[minute padding:zero] [period case:upper]",
    ).unwrap();
    time::OffsetDateTime::from_unix_timestamp(timestamp).unwrap().format(&description).unwrap()
}

/// What an email about an event shows besides the event itself.
#[derive(Debug)]
pub struct EventEmailDetails {
    /// The name of the uniform for the event, if it is a gig.
    pub uniform_name: Option<String>,
    /// When the event starts.
    pub start_time: String,
    /// When the event ends, if known.
    pub end_time: Option<String>,
}

/// Whether the times of an event lie where the time library formats them.
pub open spec fn formattable_event(event: Event) -> bool {
    &&& EARLIEST_FORMATTED_TIME <= event.call_time <= LATEST_FORMATTED_TIME
    &&& event.release_time matches Some(t) ==> EARLIEST_FORMATTED_TIME <= t <= LATEST_FORMATTED_TIME
}

impl EventEmailDetails {
    /// The details of an email about `event`, whose uniform, if it is a
    /// gig, is named `uniform_name`.
    pub fn for_event(event: &Event, uniform_name: Option<String>) -> (details: EventEmailDetails)
        requires
            formattable_event(*event),
        ensures
            details.uniform_name == uniform_name,
            details.start_time@ == spec_event_time_text(event.call_time),
            match event.release_time {
                Some(t) => details.end_time matches Some(e) && e@ == spec_event_time_text(t),
                None => details.end_time is None,
            },
    {
        let end_time = match event.release_time {
            Some(t) => Some(format_event_time(t)),
            None => None,
        };
        EventEmailDetails { uniform_name, start_time: format_event_time(event.call_time), end_time }
    }
}

/// The span of call times whose events get their reminder in one round.
#[derive(Debug, Clone, Copy, PartialEq, Eq, Structural)]
pub struct EmailWindow {
    /// Events calling at or after this time are included.
    pub from: i64,
    /// Events calling before this time are included.
    pub to: i64,
}

/// The reminder loop: when it last ran.
#[derive(Debug, Clone, Copy, PartialEq, Eq, Structural)]
pub struct EmailLoop {
    /// When the loop last sent reminders.
    pub last_run: i64,
}

/// Whether a time is one the time library can move two days forward.
pub open spec fn can_add_two_days(t: int) -> bool {
    EARLIEST_FORMATTED_TIME <= t && t + 2 * SECONDS_PER_DAY <= LATEST_FORMATTED_TIME
}

impl EmailLoop {
    /// The loop before its first round, started at `now`.
    pub fn start(now: i64) -> (state: EmailLoop)
        ensures
            state.last_run == now,
    {
        EmailLoop { last_run: now }
    }

    /// One round at time `now`: the events to remind about call between
    /// two days after the last round and two days from now; the round then
    /// counts as the last one.
    pub fn step(&mut self, now: i64) -> (window: EmailWindow)
        requires
            can_add_two_days(old(self).last_run as int),
            can_add_two_days(now as int),
        ensures
            window.from == old(self).last_run + 2 * SECONDS_PER_DAY,
            window.to == now + 2 * SECONDS_PER_DAY,
            final(self).last_run == now,
    {
        let window = EmailWindow { from: self.last_run + 2 * SECONDS_PER_DAY, to: now + 2 * SECONDS_PER_DAY };
        self.last_run = now;
        window
    }
}

/// Whether an event calling at `call_time` gets its reminder in the round
/// at `now` after the check at `since`: it calls before two days from now
/// and after two days from `since`.
pub open spec fn is_unaddressed(call_time: int, since: int, now: int) -> bool {
    call_time < now + 2 * SECONDS_PER_DAY && call_time > since + 2 * SECONDS_PER_DAY
}

/// The positions, in order, of the events that still need their reminder,
/// as of `now`, after the check at `since`.
pub fn filter_unaddressed_events(events: &Vec<Event>, since: i64, now: i64) -> (positions: Vec<usize>)
    requires
        can_add_two_days(since as int),
        can_add_two_days(now as int),
    ensures
        forall|k: int|
            0 <= k < positions@.len() ==> (#[trigger] positions@[k]) < events@.len() && is_unaddressed(
                events@[positions@[k] as int].call_time as int,
                since as int,
                now as int,
            ),
        forall|k: int, l: int| 0 <= k < l < positions@.len() ==> positions@[k] < positions@[l],
        forall|i: int|
            0 <= i < events@.len() && is_unaddressed(events@[i].call_time as int, since as int, now as int)
                ==> positions@.contains(i as usize),
{
    let two_days_from_now = now + 2 * SECONDS_PER_DAY;
    let two_days_from_last_checked = since + 2 * SECONDS_PER_DAY;
    let mut positions: Vec<usize> = Vec::new();
    let mut i: usize = 0;
    while i < events.len()
        invariant
            0 <= i <= events@.len(),
            two_days_from_now == now + 2 * SECONDS_PER_DAY,
            two_days_from_last_checked == since + 2 * SECONDS_PER_DAY,
            forall|k: int|
                0 <= k < positions@.len() ==> (#[trigger] positions@[k]) < i && is_unaddressed(
                    events@[positions@[k] as int].call_time as int,
                    since as int,
                    now as int,
                ),
            forall|k: int, l: int| 0 <= k < l < positions@.len() ==> positions@[k] < positions@[l],
            forall|j: int|
                0 <= j < i && is_unaddressed(events@[j].call_time as int, since as int, now as int)
                    ==> positions@.contains(j as usize),
        decreases events@.len() - i,
    {
        let call_time = events[i].call_time;
        if call_time < two_days_from_now && call_time > two_days_from_last_checked {
            let ghost before = positions@;
            positions.push(i);
            assert forall|j: int|
                0 <= j < i + 1 && is_unaddressed(events@[j].call_time as int, since as int, now as int)
                    implies positions@.contains(j as usize) by {
                if j < i {
                    let k = choose|k: int| 0 <= k < before.len() && before[k] == j as usize;
                    assert(positions@[k] == j as usize);
                } else {
                    assert(positions@[before.len() as int] == j as usize);
                }
            }
        }
        i += 1;
    }
    positions
}

/// Whether an event calling at `call_time` is reminded of in a round with
/// `window`: it calls at or after its start and before its end.
pub open spec fn in_window(call_time: int, window: EmailWindow) -> bool {
    window.from <= call_time && call_time < window.to
}

/// The positions, in order, of the events that a round with `window`
/// reminds members of.
pub fn events_to_notify_about(events: &Vec<Event>, window: EmailWindow) -> (positions: Vec<usize>)
    ensures
        forall|k: int|
            0 <= k < positions@.len() ==> (#[trigger] positions@[k]) < events@.len() && in_window(
                events@[positions@[k] as int].call_time as int,
                window,
            ),
        forall|k: int, l: int| 0 <= k < l < positions@.len() ==> positions@[k] < positions@[l],
        forall|i: int|
            0 <= i < events@.len() && in_window(events@[i].call_time as int, window) ==> positions@.contains(
                i as usize,
            ),
{
    let mut positions: Vec<usize> = Vec::new();
    let mut i: usize = 0;
    while i < events.len()
        invariant
            0 <= i <= events@.len(),
            forall|k: int|
                0 <= k < positions@.len() ==> (#[trigger] positions@[k]) < i && in_window(
                    events@[positions@[k] as int].call_time as int,
                    window,
                ),
            forall|k: int, l: int| 0 <= k < l < positions@.len() ==> positions@[k] < positions@[l],
            forall|j: int|
                0 <= j < i && in_window(events@[j].call_time as int, window) ==> positions@.contains(j as usize),
        decreases events@.len() - i,
    {
        let call_time = events[i].call_time;
        if window.from <= call_time && call_time < window.to {
            let ghost before = positions@;
            positions.push(i);
            assert forall|j: int|
                0 <= j < i + 1 && in_window(events@[j].call_time as int, window) implies positions@.contains(
                    j as usize,
                ) by {
                if j < i {
                    let k = choose|k: int| 0 <= k < before.len() && before[k] == j as usize;
                    assert(positions@[k] == j as usize);
                } else {
                    assert(positions@[before.len() as int] == j as usize);
                }
            }
        }
        i += 1;
    }
    positions
}

/// Rounds of reminders leave no gap and overlap nowhere: the window of a
/// round starts where the window of the round before ended.
pub proof fn law_reminder_windows_are_contiguous(
    first: EmailLoop,
    second: EmailLoop,
    window1: EmailWindow,
    window2: EmailWindow,
    now1: i64,
    now2: i64,
)
    requires
        window1.from == first.last_run + 2 * SECONDS_PER_DAY,
        window1.to == now1 + 2 * SECONDS_PER_DAY,
        second.last_run == now1,
        window2.from == second.last_run + 2 * SECONDS_PER_DAY,
        window2.to == now2 + 2 * SECONDS_PER_DAY,
    ensures
        window2.from == window1.to,
        forall|t: int| in_window(t, window1) ==> !in_window(t, window2),
{
}

/// Whether the time library can move `t` two days forward.
pub fn fits_two_days_ahead(t: i64) -> (fits: bool)
    ensures
        fits == can_add_two_days(t as int),
{
    EARLIEST_FORMATTED_TIME <= t && t <= LATEST_FORMATTED_TIME - 2 * SECONDS_PER_DAY
}

/// Whether the times of `event` lie where the time library formats them.
pub fn is_formattable(event: &Event) -> (formattable: bool)
    ensures
        formattable == formattable_event(*event),
{
    EARLIEST_FORMATTED_TIME <= event.call_time && event.call_time <= LATEST_FORMATTED_TIME && match event.release_time {
        Some(t) => EARLIEST_FORMATTED_TIME <= t && t <= LATEST_FORMATTED_TIME,
        None => true,
    }
}

} // verus!
