//! Events that members attend, the gigs attached to some of them, and the
//! rules for creating, repeating, answering and publishing them.

use crate::attendance::{AbsenceRequest, AbsenceRequestState, Attendance};
use crate::datetime::{
    day_of, is_leap_year, is_valid_time, last_sunday, leap_day_exists, local_now, month_of, spec_month_of,
    spec_year_of, sunday_on_or_before, valid_time, year_of, MAX_DAY, SECONDS_PER_DAY,
    SECONDS_PER_WEEK, EARLIEST_CLOCK_TIME, LATEST_CLOCK_TIME,
};
use crate::error::GreaseError;
use crate::text::{concat3, copy_opt_string, decimal, int_decimal, owned, str_eq};
use crate::uniform::Uniform;
use chrono::TimeZone;
use icalendar::{Calendar, Component, EventLike, Property};
use vstd::prelude::*;

verus! {

/// The type name of weekly rehearsals.
pub const REHEARSAL: &'static str = "Rehearsal";
/// The type name of sectional rehearsals.
pub const SECTIONAL: &'static str = "Sectional";
/// The type name of volunteer gigs.
pub const VOLUNTEER_GIG: &'static str = "Volunteer Gig";
/// The type name of gigs the whole club sings at.
pub const TUTTI_GIG: &'static str = "Tutti Gig";
/// The type name of ombuds events.
pub const OMBUDS: &'static str = "Ombuds";
/// The type name of any other event.
pub const OTHER: &'static str = "Other";

/// An event that members are expected (or invited) to attend.
#[derive(Debug)]
pub struct Event {
    /// The ID of the event.
    pub id: i32,
    /// The name of the event.
    pub name: String,
    /// The name of the semester this event belongs to.
    pub semester: String,
    /// The type of the event (one of the type names above, or another).
    pub type_: String,
    /// When members are expected to arrive (seconds since the epoch).
    pub call_time: i64,
    /// When members will probably be released.
    pub release_time: Option<i64>,
    /// How many points attending this event is worth.
    pub points: i32,
    /// General details about the event.
    pub comments: Option<String>,
    /// Where the event is held.
    pub location: Option<String>,
    /// Whether this event counts toward the volunteer gig count.
    pub gig_count: bool,
    /// Whether members are assumed to attend.
    pub default_attend: bool,
    /// The singing section this event is for, if only one.
    pub section: Option<String>,
}

/// The performance details of an event that is a gig.
#[derive(Debug)]
pub struct Gig {
    /// The ID of the event this gig belongs to.
    pub event: i32,
    /// When members actually perform.
    pub performance_time: i64,
    /// The ID of the uniform for this gig.
    pub uniform: i32,
    /// The contact's name.
    pub contact_name: Option<String>,
    /// The contact's email.
    pub contact_email: Option<String>,
    /// The contact's phone number.
    pub contact_phone: Option<String>,
    /// The price charged for the gig.
    pub price: Option<i32>,
    /// Whether the gig is shown on the external website.
    pub public: bool,
    /// A public summary of the gig.
    pub summary: Option<String>,
    /// A public description of the gig.
    pub description: Option<String>,
}

/// An event together with its gig, if it has one.
#[derive(Debug)]
pub struct EventWithGig {
    /// The event.
    pub event: Event,
    /// The event's gig details.
    pub gig: Option<Gig>,
}

/// Whether the event's type is the given type name.
pub open spec fn has_type(event: Event, kind: &str) -> bool {
    event.type_@ == kind@
}

/// The event type names are all different.
pub proof fn lemma_event_types_differ()
    ensures
        SECTIONAL@ != OMBUDS@,
        SECTIONAL@ != REHEARSAL@,
        SECTIONAL@ != TUTTI_GIG@,
        SECTIONAL@ != VOLUNTEER_GIG@,
        SECTIONAL@ != OTHER@,
        REHEARSAL@ != OMBUDS@,
        REHEARSAL@ != TUTTI_GIG@,
        REHEARSAL@ != VOLUNTEER_GIG@,
        REHEARSAL@ != OTHER@,
        TUTTI_GIG@ != OMBUDS@,
        TUTTI_GIG@ != VOLUNTEER_GIG@,
        TUTTI_GIG@ != OTHER@,
        VOLUNTEER_GIG@ != OMBUDS@,
        VOLUNTEER_GIG@ != OTHER@,
        OTHER@ != OMBUDS@,
{
    reveal_strlit("Rehearsal");
    reveal_strlit("Sectional");
    reveal_strlit("Volunteer Gig");
    reveal_strlit("Tutti Gig");
    reveal_strlit("Ombuds");
    reveal_strlit("Other");
    assert(SECTIONAL@[0] != OMBUDS@[0]);
    assert(SECTIONAL@[0] != REHEARSAL@[0]);
    assert(SECTIONAL@[0] != TUTTI_GIG@[0]);
    assert(SECTIONAL@[0] != VOLUNTEER_GIG@[0]);
    assert(SECTIONAL@[0] != OTHER@[0]);
    assert(REHEARSAL@[0] != OMBUDS@[0]);
    assert(REHEARSAL@[0] != TUTTI_GIG@[0]);
    assert(REHEARSAL@[0] != VOLUNTEER_GIG@[0]);
    assert(REHEARSAL@[0] != OTHER@[0]);
    assert(TUTTI_GIG@[0] != OMBUDS@[0]);
    assert(TUTTI_GIG@[0] != VOLUNTEER_GIG@[0]);
    assert(TUTTI_GIG@[0] != OTHER@[0]);
    assert(VOLUNTEER_GIG@[0] != OMBUDS@[0]);
    assert(VOLUNTEER_GIG@[0] != OTHER@[0]);
    assert(OTHER@[1] != OMBUDS@[1]);
}

/// The event's times are points the calendar can represent.
pub open spec fn valid_event(event: Event) -> bool {
    &&& valid_time(event.call_time as int)
    &&& (event.release_time matches Some(r) ==> valid_time(r as int))
}

/// Whether the event is a gig (volunteer or tutti).
pub open spec fn spec_is_gig(event: Event) -> bool {
    has_type(event, VOLUNTEER_GIG) || has_type(event, TUTTI_GIG)
}

impl Event {
    /// Whether the event's type is the given type name.
    pub fn is_type(&self, kind: &str) -> (r: bool)
        ensures
            r == has_type(*self, kind),
    {
        str_eq(self.type_.as_str(), kind)
    }

    /// Whether this event is a gig (volunteer or tutti).
    pub fn is_gig(&self) -> (r: bool)
        ensures
            r == spec_is_gig(*self),
    {
        self.is_type(VOLUNTEER_GIG) || self.is_type(TUTTI_GIG)
    }
}


/// Whether `other` is an event of type `kind` that ended, before `now`, in
/// the same week and semester as `this` (but is not `this`).
pub open spec fn counts_toward_week_of(this: Event, other: Event, kind: Seq<char>, now: int) -> bool {
    let last = sunday_on_or_before(this.call_time as int);
    let next = last + SECONDS_PER_WEEK;
    let end = match other.release_time {
        Some(release) => release as int,
        None => other.call_time as int,
    };
    &&& other.id != this.id
    &&& other.semester@ == this.semester@
    &&& other.call_time > last
    &&& end < next
    &&& end < now
    &&& other.type_@ == kind
}

/// Whether an approved absence request covers the event with the given ID.
pub open spec fn excused_by(requests: Seq<AbsenceRequest>, event_id: i32) -> bool {
    exists|r: int|
        0 <= r < requests.len() && (#[trigger] requests[r]).event == event_id && requests[r].state
            == AbsenceRequestState::Approved
}

/// Whether the member went to an event of type `kind` in the week of `this`:
/// `None` when every such event was one they neither were expected at nor
/// attended, otherwise whether any of them was attended or excused.
pub open spec fn spec_went_to_event_type(
    this: Event,
    pairs: Seq<(EventWithGig, Attendance)>,
    requests: Seq<AbsenceRequest>,
    kind: Seq<char>,
    now: int,
) -> Option<bool> {
    if forall|i: int|
        0 <= i < pairs.len() && counts_toward_week_of(this, (#[trigger] pairs[i]).0.event, kind, now)
            ==> !pairs[i].1.should_attend && !pairs[i].1.did_attend {
        None
    } else {
        Some(
            exists|i: int|
                0 <= i < pairs.len() && counts_toward_week_of(this, (#[trigger] pairs[i]).0.event, kind, now)
                    && (pairs[i].1.did_attend || excused_by(requests, pairs[i].0.event.id)),
        )
    }
}

/// Whether an approved absence request covers the event with the given ID.
fn has_approved_request(requests: &Vec<AbsenceRequest>, event_id: i32) -> (r: bool)
    ensures
        r == excused_by(requests@, event_id),
{
    let mut i: usize = 0;
    while i < requests.len()
        invariant
            0 <= i <= requests@.len(),
            forall|q: int| 0 <= q < i ==> !((#[trigger] requests@[q]).event == event_id && requests@[q].state
                == AbsenceRequestState::Approved),
        decreases requests@.len() - i,
    {
        if requests[i].event == event_id && requests[i].state == AbsenceRequestState::Approved {
            return true;
        }
        i += 1;
    }
    false
}

impl Event {
    /// Whether the member went to an event of type `kind` in the same week as
    /// this event, judged at time `now` (see [`spec_went_to_event_type`]).
    pub fn went_to_event_type_during_week_of_at(
        &self,
        events_with_attendance: &Vec<(EventWithGig, Attendance)>,
        absence_requests: &Vec<AbsenceRequest>,
        kind: &str,
        now: i64,
    ) -> (went: Option<bool>)
        requires
            valid_time(self.call_time as int),
        ensures
            went == spec_went_to_event_type(*self, events_with_attendance@, absence_requests@, kind@, now as int),
    {
        let ghost pairs = events_with_attendance@;
        let last = last_sunday(self.call_time);
        let next = last + SECONDS_PER_WEEK;
        let mut all_ignorable = true;
        let mut any_went = false;
        let mut i: usize = 0;
        while i < events_with_attendance.len()
            invariant
                pairs == events_with_attendance@,
                valid_time(self.call_time as int),
                last == sunday_on_or_before(self.call_time as int),
                next == last + SECONDS_PER_WEEK,
                0 <= i <= pairs.len(),
                all_ignorable == forall|q: int|
                    0 <= q < i && counts_toward_week_of(*self, (#[trigger] pairs[q]).0.event, kind@, now as int)
                        ==> !pairs[q].1.should_attend && !pairs[q].1.did_attend,
                any_went == exists|q: int|
                    0 <= q < i && counts_toward_week_of(*self, (#[trigger] pairs[q]).0.event, kind@, now as int)
                        && (pairs[q].1.did_attend || excused_by(absence_requests@, pairs[q].0.event.id)),
            decreases pairs.len() - i,
        {
            let (given, attendance) = &events_with_attendance[i];
            let given_event = &given.event;
            let end_time = match given_event.release_time {
                Some(release_time) => release_time,
                None => given_event.call_time,
            };
            let counts = given_event.id != self.id && given_event.semester == self.semester
                && given_event.call_time > last && end_time < next && end_time < now
                && str_eq(given_event.type_.as_str(), kind);
            if counts {
                if attendance.should_attend || attendance.did_attend {
                    all_ignorable = false;
                }
                if attendance.did_attend || has_approved_request(absence_requests, given_event.id) {
                    any_went = true;
                }
            }
            i += 1;
        }
        if all_ignorable {
            None
        } else {
            Some(any_went)
        }
    }
}
impl Event {
    /// Whether the member went to an event of type `kind` in the same week as
    /// this event, judged at the current local time.
    pub fn went_to_event_type_during_week_of(
        &self,
        events_with_attendance: &Vec<(EventWithGig, Attendance)>,
        absence_requests: &Vec<AbsenceRequest>,
        kind: &str,
    ) -> (went: Option<bool>)
        requires
            valid_time(self.call_time as int),
        ensures
            exists|now: int|
                EARLIEST_CLOCK_TIME <= now <= LATEST_CLOCK_TIME && went == #[trigger] spec_went_to_event_type(*self, events_with_attendance@, absence_requests@, kind@, now),
    {
        let now = local_now();
        self.went_to_event_type_during_week_of_at(events_with_attendance, absence_requests, kind, now)
    }
}

// ---------------------------------------------------------------------------
// Answering events
// ---------------------------------------------------------------------------

/// The characters of an optional string.
pub open spec fn opt_view(s: Option<String>) -> Option<Seq<char>> {
    match s {
        Some(v) => Some(v@),
        None => None,
    }
}

/// The record behind an optional reference.
pub open spec fn copied(a: Option<&Attendance>) -> Option<Attendance> {
    match a {
        Some(x) => Some(*x),
        None => None,
    }
}

/// Why a member cannot answer (RSVP to) an event at time `now`, if they
/// cannot.
pub open spec fn spec_rsvp_issue(event: Event, attendance: Option<Attendance>, is_active: bool, now: int) -> Option<Seq<char>> {
    if !is_active {
        Some("Member must be active to RSVP to events."@)
    } else if !(match attendance {
        Some(a) => a.should_attend,
        None => true,
    }) {
        None
    } else if now + SECONDS_PER_DAY > event.call_time {
        Some("Responses are closed for this event."@)
    } else if has_type(event, TUTTI_GIG) || has_type(event, SECTIONAL) || has_type(event, REHEARSAL) {
        Some("You cannot RSVP for "@ + event.type_@ + " events."@)
    } else {
        None
    }
}

/// Rehearsals, sectionals and tutti gigs cannot be answered: an active
/// member who is expected (or has no record), asking at least a day before
/// the call time, is told "You cannot RSVP for <type> events.", and every
/// other kind of event can then be answered.
pub proof fn law_mandatory_events_cannot_be_answered(
    event: Event,
    attendance: Option<Attendance>,
    now: int,
)
    requires
        attendance matches Some(a) ==> a.should_attend,
        now + 86_400 <= event.call_time,
    ensures
        (event.type_@ == "Rehearsal"@ || event.type_@ == "Sectional"@ || event.type_@ == "Tutti Gig"@) ==> spec_rsvp_issue(
            event,
            attendance,
            true,
            now,
        ) == Some("You cannot RSVP for "@ + event.type_@ + " events."@),
        !(event.type_@ == "Rehearsal"@ || event.type_@ == "Sectional"@ || event.type_@ == "Tutti Gig"@)
            ==> spec_rsvp_issue(event, attendance, true, now) is None,
{
}

/// Nobody answers for a member who is not active, and nothing stops a
/// member who is not expected.
pub proof fn law_who_may_answer(event: Event, attendance: Option<Attendance>, now: int)
    ensures
        spec_rsvp_issue(event, attendance, false, now) == Some("Member must be active to RSVP to events."@),
        (attendance matches Some(a) && !a.should_attend) ==> spec_rsvp_issue(event, attendance, true, now) is None,
{
}

impl Event {
    /// Why a member cannot answer this event at time `now`, if they cannot:
    /// inactive members cannot answer, members not expected need not,
    /// answers close a day before the call time, and rehearsals, sectionals
    /// and tutti gigs cannot be answered at all.
    pub fn rsvp_issue_at(&self, given_attendance: Option<&Attendance>, is_active: bool, now: i64) -> (issue: Option<String>)
        requires
            valid_time(self.call_time as int),
        ensures
            opt_view(issue) == spec_rsvp_issue(
                *self,
                copied(given_attendance),
                is_active,
                now as int,
            ),
    {
        let should_attend = match given_attendance {
            Some(a) => a.should_attend,
            None => true,
        };
        if !is_active {
            Some(owned("Member must be active to RSVP to events."))
        } else if !should_attend {
            None
        } else if now > self.call_time - SECONDS_PER_DAY {
            Some(owned("Responses are closed for this event."))
        } else if self.is_type(TUTTI_GIG) || self.is_type(SECTIONAL) || self.is_type(REHEARSAL) {
            Some(concat3("You cannot RSVP for ", self.type_.as_str(), " events."))
        } else {
            None
        }
    }

    /// Why a member cannot answer this event now, if they cannot.
    pub fn rsvp_issue(&self, given_attendance: Option<&Attendance>, is_active: bool) -> (issue: Option<String>)
        requires
            valid_time(self.call_time as int),
        ensures
            exists|now: int|
                EARLIEST_CLOCK_TIME <= now <= LATEST_CLOCK_TIME && opt_view(issue) == #[trigger] spec_rsvp_issue(
                    *self,
                    copied(given_attendance),
                    is_active,
                    now,
                ),
    {
        let now = local_now();
        self.rsvp_issue_at(given_attendance, is_active, now)
    }

    /// Refuses an answer to the event at time `now` when there is an issue.
    pub fn check_for_rsvp_issue_at(
        given_event: &Event,
        given_attendance: &Attendance,
        is_active: bool,
        now: i64,
    ) -> (result: Result<(), GreaseError>)
        requires
            valid_time(given_event.call_time as int),
        ensures
            match spec_rsvp_issue(*given_event, Some(*given_attendance), is_active, now as int) {
                Some(issue) => result matches Err(GreaseError::BadRequest(m)) && m@ == issue,
                None => result is Ok,
            },
    {
        match given_event.rsvp_issue_at(Some(given_attendance), is_active, now) {
            Some(issue) => Err(GreaseError::BadRequest(issue)),
            None => Ok(()),
        }
    }

    /// Refuses an answer to the event now when there is an issue.
    pub fn check_for_rsvp_issue(given_event: &Event, given_attendance: &Attendance, is_active: bool) -> (result: Result<
        (),
        GreaseError,
    >)
        requires
            valid_time(given_event.call_time as int),
        ensures
            exists|now: int| EARLIEST_CLOCK_TIME <= now <= LATEST_CLOCK_TIME && #[trigger] rsvp_check_outcome(*given_event, *given_attendance, is_active, now, result),
    {
        let now = local_now();
        let result = Self::check_for_rsvp_issue_at(given_event, given_attendance, is_active, now);
        assert(rsvp_check_outcome(*given_event, *given_attendance, is_active, now as int, result));
        result
    }

    /// Records a member's answer to an event at time `now`: refused when they
    /// have no attendance record or cannot answer; otherwise their record says
    /// whether they will attend and that they confirmed.
    pub fn rsvp_at(
        event: &Event,
        member_email: &String,
        attendance: Option<Attendance>,
        is_active: bool,
        attending: bool,
        now: i64,
    ) -> (result: Result<Attendance, GreaseError>)
        requires
            valid_time(event.call_time as int),
        ensures
            match attendance {
                None => result matches Err(GreaseError::ServerError(m)) && m@ == missing_attendance_message(
                    member_email@,
                    event.id as int,
                ),
                Some(a) => match spec_rsvp_issue(*event, Some(a), is_active, now as int) {
                    Some(issue) => result matches Err(GreaseError::BadRequest(m)) && m@ == issue,
                    None => result == Ok::<Attendance, GreaseError>(
                        Attendance { should_attend: attending, confirmed: true, ..a },
                    ),
                },
            },
    {
        match attendance {
            None => Err(GreaseError::ServerError(missing_attendance(member_email, event.id))),
            Some(a) => {
                match Self::check_for_rsvp_issue_at(event, &a, is_active, now) {
                    Err(error) => Err(error),
                    Ok(()) => Ok(Attendance { should_attend: attending, confirmed: true, ..a }),
                }
            },
        }
    }

    /// Confirms that a member will attend an event: refused when they have no
    /// attendance record; otherwise their record says they will attend and
    /// that they confirmed.
    pub fn confirm(event_id: i32, member_email: &String, attendance: Option<Attendance>) -> (result: Result<
        Attendance,
        GreaseError,
    >)
        ensures
            match attendance {
                None => result matches Err(GreaseError::ServerError(m)) && m@ == missing_attendance_message(
                    member_email@,
                    event_id as int,
                ),
                Some(a) => result == Ok::<Attendance, GreaseError>(
                    Attendance { should_attend: true, confirmed: true, ..a },
                ),
            },
    {
        match attendance {
            None => Err(GreaseError::ServerError(missing_attendance(member_email, event_id))),
            Some(a) => Ok(Attendance { should_attend: true, confirmed: true, ..a }),
        }
    }
}

/// What checking an answer to `event` at time `now` gives: the issue as a
/// bad request if there is one.
pub open spec fn rsvp_check_outcome(
    event: Event,
    attendance: Attendance,
    is_active: bool,
    now: int,
    result: Result<(), GreaseError>,
) -> bool {
    match spec_rsvp_issue(event, Some(attendance), is_active, now) {
        Some(issue) => result matches Err(GreaseError::BadRequest(m)) && m@ == issue,
        None => result is Ok,
    }
}

/// What recording a member's answer to `event` at time `now` gives.
pub open spec fn rsvp_outcome(
    event: Event,
    member_email: Seq<char>,
    attendance: Option<Attendance>,
    is_active: bool,
    attending: bool,
    now: int,
    result: Result<Attendance, GreaseError>,
) -> bool {
    match attendance {
        None => result matches Err(GreaseError::ServerError(m)) && m@ == missing_attendance_message(
            member_email,
            event.id as int,
        ),
        Some(a) => match spec_rsvp_issue(event, Some(a), is_active, now) {
            Some(issue) => result matches Err(GreaseError::BadRequest(m)) && m@ == issue,
            None => result == Ok::<Attendance, GreaseError>(Attendance { should_attend: attending, confirmed: true, ..a }),
        },
    }
}

impl Event {
    /// Records a member's answer to an event now.
    pub fn rsvp(
        event: &Event,
        member_email: &String,
        attendance: Option<Attendance>,
        is_active: bool,
        attending: bool,
    ) -> (result: Result<Attendance, GreaseError>)
        requires
            valid_time(event.call_time as int),
        ensures
            exists|now: int|
                EARLIEST_CLOCK_TIME <= now <= LATEST_CLOCK_TIME && #[trigger] rsvp_outcome(*event, member_email@, attendance, is_active, attending, now, result),
    {
        let now = local_now();
        let ghost given = attendance;
        let result = Self::rsvp_at(event, member_email, attendance, is_active, attending, now);
        assert(rsvp_outcome(*event, member_email@, given, is_active, attending, now as int, result));
        result
    }
}

/// The message for a member without an attendance record for an event.
pub open spec fn missing_attendance_message(member: Seq<char>, event_id: int) -> Seq<char> {
    "No attendance exists for member "@ + member + " at event with id "@ + int_decimal(event_id) + "."@
}

fn missing_attendance(member_email: &String, event_id: i32) -> (m: String)
    ensures
        m@ == missing_attendance_message(member_email@, event_id as int),
{
    let mut m = owned("No attendance exists for member ");
    m.append(member_email.as_str());
    m.append(" at event with id ");
    m.append(decimal(event_id as i64).as_str());
    m.append(".");
    m
}

// ---------------------------------------------------------------------------
// Repeating events
// ---------------------------------------------------------------------------

/// How often a new event repeats.
#[derive(Debug, Clone, Copy, PartialEq, Eq, Structural)]
pub enum Period {
    /// It does not repeat.
    No,
    /// Every day.
    Daily,
    /// Every week.
    Weekly,
    /// Every other week.
    Biweekly,
    /// Every month (by the length of the month it falls in).
    Monthly,
    /// Every 365 days.
    Yearly,
}

/// The number of days of a month, given whether its year is a leap year.
pub open spec fn days_in_month(month: u32, leap: bool) -> int {
    if month == 1 || month == 3 || month == 5 || month == 7 || month == 8 || month == 10 || month == 12 {
        31
    } else if month == 4 || month == 6 || month == 9 || month == 11 {
        30
    } else if leap {
        29
    } else {
        28
    }
}

/// How far, in seconds, an event at `t` repeats.
pub open spec fn spec_period_step(period: Period, t: int) -> int {
    match period {
        Period::No => 0,
        Period::Daily => SECONDS_PER_DAY as int,
        Period::Weekly => SECONDS_PER_WEEK as int,
        Period::Biweekly => 2 * SECONDS_PER_WEEK,
        Period::Monthly => days_in_month(
            spec_month_of(t as i64),
            is_leap_year(spec_year_of(t as i64) as int),
        ) * SECONDS_PER_DAY,
        Period::Yearly => 365 * SECONDS_PER_DAY,
    }
}

/// Shifts an optional release time by `step`.
pub open spec fn shift(release: Option<int>, step: int) -> Option<int> {
    match release {
        Some(r) => Some(r + step),
        None => None,
    }
}

/// The call and release times of an event and its repetitions: the event
/// itself, then (unless it does not repeat) one more each period while the
/// repetition falls on a day before `until`.
pub open spec fn spec_repeat_times(call: int, release: Option<int>, period: Period, until: int) -> Seq<(int, Option<int>)>
    decreases until - day_of(call),
{
    let first = seq![(call, release)];
    if period == Period::No {
        first
    } else {
        let step = spec_period_step(period, call);
        let next = call + step;
        if day_of(next) < until && day_of(next) > day_of(call) {
            first + spec_repeat_times(next, shift(release, step), period, until)
        } else {
            first
        }
    }
}

/// The times of a list of events, as integers.
pub open spec fn times_view(times: Seq<(i64, Option<i64>)>) -> Seq<(int, Option<int>)> {
    times.map_values(
        |p: (i64, Option<i64>)|
            (
                p.0 as int,
                match p.1 {
                    Some(r) => Some(r as int),
                    None => None,
                },
            ),
    )
}

/// The repetitions of an event start with the event itself.
pub proof fn lemma_repeat_times_start(call: int, release: Option<int>, period: Period, until: int)
    ensures
        spec_repeat_times(call, release, period, until).len() >= 1,
        spec_repeat_times(call, release, period, until)[0] == (call, release),
{
}

proof fn lemma_step_at_least_a_day(period: Period, t: int)
    requires
        period != Period::No,
    ensures
        SECONDS_PER_DAY <= spec_period_step(period, t) <= 365 * SECONDS_PER_DAY,
{
}

/// The repetitions of an event come in order, one period apart, and all
/// but the event itself fall on days before the day they repeat until.
pub proof fn law_repetitions_come_in_order(call: int, release: Option<int>, period: Period, until: int)
    ensures
        forall|i: int|
            #![trigger spec_repeat_times(call, release, period, until)[i]]
            1 <= i < spec_repeat_times(call, release, period, until).len() ==> day_of(
                spec_repeat_times(call, release, period, until)[i].0,
            ) < until && spec_repeat_times(call, release, period, until)[i - 1].0 < spec_repeat_times(
                call,
                release,
                period,
                until,
            )[i].0 && spec_repeat_times(call, release, period, until)[i].0 == spec_repeat_times(
                call,
                release,
                period,
                until,
            )[i - 1].0 + spec_period_step(period, spec_repeat_times(call, release, period, until)[i - 1].0),
        forall|i: int|
            #![trigger spec_repeat_times(call, release, period, until)[i]]
            0 <= i < spec_repeat_times(call, release, period, until).len() ==> spec_repeat_times(
                call,
                release,
                period,
                until,
            )[i].0 >= call,
    decreases until - day_of(call),
{
    let times = spec_repeat_times(call, release, period, until);
    if period != Period::No {
        let step = spec_period_step(period, call);
        let next = call + step;
        lemma_step_at_least_a_day(period, call);
        if day_of(next) < until && day_of(next) > day_of(call) {
            let rest = spec_repeat_times(next, shift(release, step), period, until);
            law_repetitions_come_in_order(next, shift(release, step), period, until);
            lemma_repeat_times_start(next, shift(release, step), period, until);
            assert(times == seq![(call, release)] + rest);
            assert forall|i: int| 1 <= i < times.len() implies day_of(#[trigger] times[i].0) < until
                && times[i - 1].0 < times[i].0 && times[i].0 == times[i - 1].0 + spec_period_step(
                period,
                times[i - 1].0,
            ) by {
                assert(times[i] == rest[i - 1]);
                if i >= 2 {
                    assert(times[i - 1] == rest[i - 2]);
                }
            }
            assert forall|i: int| 0 <= i < times.len() implies #[trigger] times[i].0 >= call by {
                if i >= 1 {
                    assert(times[i] == rest[i - 1]);
                }
            }
        }
    }
}

proof fn lemma_day_of_shift(t: int, days: int)
    ensures
        day_of(t + days * SECONDS_PER_DAY) == day_of(t) + days,
{
    vstd::arithmetic::div_mod::lemma_hoist_over_denominator(t, days, 86400);
}

/// Daily, weekly, biweekly and yearly events repeat every `days` days (one,
/// seven, fourteen and 365): the `i`-th repetition calls, and releases,
/// `i * days` days after the event, and the repetitions go on until the
/// next one would fall on or after the day they repeat until.
pub proof fn law_fixed_periods_repeat_every_n_days(
    call: int,
    release: Option<int>,
    period: Period,
    until: int,
    days: int,
)
    requires
        (period == Period::Daily && days == 1) || (period == Period::Weekly && days == 7) || (period
            == Period::Biweekly && days == 14) || (period == Period::Yearly && days == 365),
    ensures
        forall|i: int|
            #![trigger spec_repeat_times(call, release, period, until)[i]]
            0 <= i < spec_repeat_times(call, release, period, until).len() ==> spec_repeat_times(
                call,
                release,
                period,
                until,
            )[i] == (call + i * days * SECONDS_PER_DAY, shift(release, i * days * SECONDS_PER_DAY)),
        day_of(call + spec_repeat_times(call, release, period, until).len() * days * SECONDS_PER_DAY) >= until,
    decreases until - day_of(call),
{
    let times = spec_repeat_times(call, release, period, until);
    let d = SECONDS_PER_DAY as int;
    let step = days * d;
    assert(spec_period_step(period, call) == step);
    let next = call + step;
    lemma_day_of_shift(call, days);
    if day_of(next) < until {
        let rest = spec_repeat_times(next, shift(release, step), period, until);
        law_fixed_periods_repeat_every_n_days(next, shift(release, step), period, until, days);
        assert(times == seq![(call, release)] + rest);
        assert forall|i: int| 0 <= i < times.len() implies #[trigger] times[i] == (
            call + i * days * SECONDS_PER_DAY,
            shift(release, i * days * SECONDS_PER_DAY),
        ) by {
            if i == 0 {
                assert(0 * days * SECONDS_PER_DAY == 0) by (nonlinear_arith);
                assert(shift(release, 0) == release);
            } else {
                assert(times[i] == rest[i - 1]);
                assert(next + (i - 1) * days * SECONDS_PER_DAY == call + i * days * SECONDS_PER_DAY) by (nonlinear_arith)
                    requires
                        next == call + days * SECONDS_PER_DAY,
                ;
                assert(step + (i - 1) * days * SECONDS_PER_DAY == i * days * SECONDS_PER_DAY) by (nonlinear_arith)
                    requires
                        step == days * SECONDS_PER_DAY,
                ;
            }
        }
        assert(next + rest.len() * days * SECONDS_PER_DAY == call + times.len() * days * SECONDS_PER_DAY) by (nonlinear_arith)
            requires
                next == call + days * SECONDS_PER_DAY,
                times.len() == rest.len() + 1,
        ;
    } else {
        assert(times.len() == 1);
        assert(1 * days * SECONDS_PER_DAY == step) by (nonlinear_arith)
            requires
                step == days * SECONDS_PER_DAY,
        ;
    }
}

/// How far each kind of repetition steps: a day, a week, two weeks or 365
/// days, and for monthly repetitions the length of the month the event
/// falls in: 31 days in January, March, May, July, August, October and
/// December, 30 in April, June, September and November, and in February 29
/// days in leap years and 28 otherwise.
pub proof fn law_repetition_steps(t: int)
    ensures
        spec_period_step(Period::No, t) == 0,
        spec_period_step(Period::Daily, t) == 86_400,
        spec_period_step(Period::Weekly, t) == 7 * 86_400,
        spec_period_step(Period::Biweekly, t) == 14 * 86_400,
        spec_period_step(Period::Yearly, t) == 365 * 86_400,
        ({
            let month = spec_month_of(t as i64);
            let year = spec_year_of(t as i64) as int;
            let leap = (year % 4 == 0 && year % 100 != 0) || year % 400 == 0;
            &&& (month == 1 || month == 3 || month == 5 || month == 7 || month == 8 || month == 10 || month == 12)
                ==> spec_period_step(Period::Monthly, t) == 31 * 86_400
            &&& (month == 4 || month == 6 || month == 9 || month == 11) ==> spec_period_step(Period::Monthly, t) == 30
                * 86_400
            &&& (month == 2 && leap) ==> spec_period_step(Period::Monthly, t) == 29 * 86_400
            &&& (month == 2 && !leap) ==> spec_period_step(Period::Monthly, t) == 28 * 86_400
        }),
{
}

impl Event {
    /// How far, in seconds, an event at `t` repeats.
    pub fn period_step(period: Period, t: i64) -> (step: i64)
        requires
            valid_time(t as int),
        ensures
            step == spec_period_step(period, t as int),
    {
        match period {
            Period::No => 0,
            Period::Daily => SECONDS_PER_DAY,
            Period::Weekly => SECONDS_PER_WEEK,
            Period::Biweekly => 2 * SECONDS_PER_WEEK,
            Period::Yearly => 365 * SECONDS_PER_DAY,
            Period::Monthly => {
                let month = month_of(t);
                let days: i64 = if month == 1 || month == 3 || month == 5 || month == 7 || month == 8
                    || month == 10 || month == 12 {
                    31
                } else if month == 4 || month == 6 || month == 9 || month == 11 {
                    30
                } else if leap_day_exists(year_of(t)) {
                    29
                } else {
                    28
                };
                days * SECONDS_PER_DAY
            },
        }
    }

    /// The call and release times of an event and its repetitions until the
    /// day `until` (days since the epoch; see [`spec_repeat_times`]).
    pub fn repeat_event_times(
        given_call_time: i64,
        given_release_time: Option<i64>,
        period: Period,
        until: i64,
    ) -> (times: Vec<(i64, Option<i64>)>)
        requires
            valid_time(given_call_time as int),
            given_release_time matches Some(r) ==> valid_time(r as int),
            -MAX_DAY - 1 <= until <= MAX_DAY,
        ensures
            times_view(times@) == spec_repeat_times(
                given_call_time as int,
                match given_release_time {
                    Some(r) => Some(r as int),
                    None => None,
                },
                period,
                until as int,
            ),
    {
        let ghost release0 = match given_release_time {
            Some(r) => Some(r as int),
            None => None::<int>,
        };
        let ghost whole = spec_repeat_times(given_call_time as int, release0, period, until as int);
        let mut times: Vec<(i64, Option<i64>)> = Vec::new();
        let mut call_time = given_call_time;
        let mut release_time = given_release_time;
        loop
            invariant
                release0 == match given_release_time {
                    Some(r) => Some(r as int),
                    None => None::<int>,
                },
                whole == spec_repeat_times(given_call_time as int, release0, period, until as int),
                valid_time(given_call_time as int),
                given_release_time matches Some(r) ==> valid_time(r as int),
                -MAX_DAY - 1 <= until <= MAX_DAY,
                valid_time(call_time as int),
                call_time >= given_call_time,
                release_time is Some <==> given_release_time is Some,
                release_time matches Some(r) ==> r - call_time == given_release_time->0 - given_call_time,
                whole == times_view(times@) + spec_repeat_times(
                    call_time as int,
                    match release_time {
                        Some(r) => Some(r as int),
                        None => None,
                    },
                    period,
                    until as int,
                ),
            decreases until - day_of(call_time as int),
        {
            let ghost current = match release_time {
                Some(r) => Some(r as int),
                None => None::<int>,
            };
            times.push((call_time, release_time));
            assert(times_view(times@) =~= times_view(times@.drop_last()).push((call_time as int, current)));
            if period == Period::No {
                assert(whole =~= times_view(times@));
                return times;
            }
            let step = Self::period_step(period, call_time);
            proof {
                lemma_step_at_least_a_day(period, call_time as int);
            }
            let next = call_time + step;
            if next < until * SECONDS_PER_DAY && step >= SECONDS_PER_DAY {
                assert(day_of(next as int) < until);
                assert(day_of(next as int) > day_of(call_time as int));
                assert(whole =~= times_view(times@) + spec_repeat_times(
                    next as int,
                    shift(current, step as int),
                    period,
                    until as int,
                ));
                call_time = next;
                release_time = match release_time {
                    Some(r) => Some(r + step),
                    None => None,
                };
            } else {
                assert(!(day_of(next as int) < until));
                assert(whole =~= times_view(times@));
                return times;
            }
        }
    }
}

// ---------------------------------------------------------------------------
// Gigs and gig requests
// ---------------------------------------------------------------------------

/// The performance details given for a new gig.
#[derive(Debug)]
pub struct NewGig {
    /// When members actually perform.
    pub performance_time: i64,
    /// The ID of the uniform for the gig.
    pub uniform: i32,
    /// The contact's name.
    pub contact_name: Option<String>,
    /// The contact's email.
    pub contact_email: Option<String>,
    /// The contact's phone number.
    pub contact_phone: Option<String>,
    /// The price charged for the gig.
    pub price: Option<i32>,
    /// Whether the gig is shown on the external website.
    pub public: bool,
    /// A public summary of the gig.
    pub summary: Option<String>,
    /// A public description of the gig.
    pub description: Option<String>,
}

/// Where a request for the club to perform stands.
#[derive(Debug, Clone, Copy, PartialEq, Eq, Structural)]
pub enum GigRequestStatus {
    /// Not yet answered.
    Pending,
    /// An event was created for it.
    Accepted,
    /// It was turned down.
    Dismissed,
}

/// The text that stands for each [`GigRequestStatus`].
pub open spec fn gig_request_status_text(value: GigRequestStatus) -> Seq<char> {
    match value {
        GigRequestStatus::Pending => "pending"@,
        GigRequestStatus::Accepted => "accepted"@,
        GigRequestStatus::Dismissed => "dismissed"@,
    }
}

impl GigRequestStatus {
    /// The text that stands for this value.
    pub fn as_str(&self) -> (text: &'static str)
        ensures
            text@ == gig_request_status_text(*self),
    {
        match self {
            GigRequestStatus::Pending => "pending",
            GigRequestStatus::Accepted => "accepted",
            GigRequestStatus::Dismissed => "dismissed",
        }
    }

    /// The value that `text` stands for, if any.
    pub fn parse(text: &str) -> (value: Option<GigRequestStatus>)
        ensures
            match value {
                Some(v) => gig_request_status_text(v) == text@,
                None => forall|v: GigRequestStatus| gig_request_status_text(v) != text@,
            },
    {
        if str_eq(text, "pending") {
            return Some(GigRequestStatus::Pending);
        }
        if str_eq(text, "accepted") {
            return Some(GigRequestStatus::Accepted);
        }
        if str_eq(text, "dismissed") {
            return Some(GigRequestStatus::Dismissed);
        }
        proof {
            assert forall|v: GigRequestStatus| gig_request_status_text(v) != text@ by {
                reveal_strlit("pending");
                reveal_strlit("accepted");
                reveal_strlit("dismissed");
            }
        }
        None
    }
}

/// No two request statuses share a text, so reading back a status's text gives the status.
pub proof fn law_gig_request_status_text_is_unambiguous(a: GigRequestStatus, b: GigRequestStatus)
    ensures
        gig_request_status_text(a) == gig_request_status_text(b) ==> a == b,
{
    reveal_strlit("pending");
    reveal_strlit("accepted");
    reveal_strlit("dismissed");
    assert({
        let text = gig_request_status_text(GigRequestStatus::Pending);
        text.len() == 7 && text[0] == 'p' && text[1] == 'e' && text[2] == 'n'
    });
    assert({
        let text = gig_request_status_text(GigRequestStatus::Accepted);
        text.len() == 8 && text[0] == 'a' && text[1] == 'c' && text[2] == 'c'
    });
    assert({
        let text = gig_request_status_text(GigRequestStatus::Dismissed);
        text.len() == 9 && text[0] == 'd' && text[1] == 'i' && text[2] == 's'
    });
}

/// A request for the club to perform.
#[derive(Debug)]
pub struct GigRequest {
    /// The ID of the request.
    pub id: i32,
    /// When the request was placed.
    pub time: i64,
    /// The name of the potential event.
    pub name: String,
    /// The organization asking.
    pub organization: String,
    /// The event created from the request, if any.
    pub event: Option<i32>,
    /// The contact's name.
    pub contact_name: String,
    /// The contact's email.
    pub contact_email: String,
    /// The contact's phone number.
    pub contact_phone: String,
    /// When the event would probably start.
    pub start_time: i64,
    /// Where the event would be.
    pub location: String,
    /// Any comments about the event.
    pub comments: Option<String>,
    /// Where the request stands.
    pub status: GigRequestStatus,
}

/// The gig that a request turns into, with the given uniform.
pub open spec fn spec_build_new_gig(request: GigRequest, uniform: i32) -> NewGig {
    NewGig {
        performance_time: request.start_time,
        uniform,
        contact_name: Some(request.contact_name),
        contact_email: Some(request.contact_email),
        contact_phone: Some(request.contact_phone),
        price: None,
        public: false,
        summary: None,
        description: None,
    }
}

/// The gig of event `event_id` with the given details.
pub open spec fn spec_full_gig(gig: NewGig, event_id: i32) -> Gig {
    Gig {
        event: event_id,
        performance_time: gig.performance_time,
        uniform: gig.uniform,
        contact_name: gig.contact_name,
        contact_email: gig.contact_email,
        contact_phone: gig.contact_phone,
        price: gig.price,
        public: gig.public,
        summary: gig.summary,
        description: gig.description,
    }
}

/// The error a request's status change meets, if any: an accepted request
/// keeps its status, a dismissed one must be reopened before it is
/// accepted, and a pending one is accepted only once its event exists.
pub open spec fn status_change_error(
    current: GigRequestStatus,
    given: GigRequestStatus,
    has_event: bool,
) -> Option<Seq<char>> {
    if current == given {
        None
    } else if current == GigRequestStatus::Accepted {
        Some("Cannot change the status of an accepted gig request."@)
    } else if current == GigRequestStatus::Dismissed && given == GigRequestStatus::Accepted {
        Some("Cannot directly accept a gig request if it is dismissed. Please reopen it first."@)
    } else if current == GigRequestStatus::Pending && given == GigRequestStatus::Accepted && !has_event {
        Some("Must create the event for the gig request first before marking it as accepted."@)
    } else {
        None
    }
}

impl NewGig {
    /// The gig of event `event_id` with these details.
    pub fn as_full_gig(self, event_id: i32) -> (gig: Gig)
        ensures
            gig == spec_full_gig(self, event_id),
    {
        Gig {
            event: event_id,
            performance_time: self.performance_time,
            uniform: self.uniform,
            contact_name: self.contact_name,
            contact_email: self.contact_email,
            contact_phone: self.contact_phone,
            price: self.price,
            public: self.public,
            summary: self.summary,
            description: self.description,
        }
    }
}

impl GigRequest {
    /// The gig this request turns into: performed at the requested start
    /// time, in the default uniform, with the request's contact. Fails when
    /// there is no uniform.
    pub fn build_new_gig(&self, default_uniform: Option<&Uniform>) -> (result: Result<NewGig, GreaseError>)
        ensures
            match default_uniform {
                Some(u) => result == Ok::<NewGig, GreaseError>(spec_build_new_gig(*self, u.id)),
                None => result matches Err(GreaseError::ServerError(m)) && m@ == "There are currently no uniforms."@,
            },
    {
        match default_uniform {
            None => Err(GreaseError::ServerError(owned("There are currently no uniforms."))),
            Some(uniform) => Ok(
                NewGig {
                    performance_time: self.start_time,
                    uniform: uniform.id,
                    contact_name: Some(self.contact_name.clone()),
                    contact_email: Some(self.contact_email.clone()),
                    contact_phone: Some(self.contact_phone.clone()),
                    price: None,
                    public: false,
                    summary: None,
                    description: None,
                },
            ),
        }
    }

    /// Changes the status of the request to `given_status`, returning the
    /// status it then has (see [`status_change_error`]).
    pub fn set_status(&self, given_status: GigRequestStatus) -> (result: Result<GigRequestStatus, GreaseError>)
        ensures
            match status_change_error(self.status, given_status, self.event is Some) {
                Some(message) => result matches Err(GreaseError::BadRequest(m)) && m@ == message,
                None => result == Ok::<GigRequestStatus, GreaseError>(given_status),
            },
    {
        match (self.status, given_status) {
            (GigRequestStatus::Pending, GigRequestStatus::Pending)
            | (GigRequestStatus::Dismissed, GigRequestStatus::Dismissed)
            | (GigRequestStatus::Accepted, GigRequestStatus::Accepted) => Ok(given_status),
            (GigRequestStatus::Accepted, _) => Err(
                GreaseError::BadRequest(owned("Cannot change the status of an accepted gig request.")),
            ),
            (GigRequestStatus::Dismissed, GigRequestStatus::Accepted) => Err(
                GreaseError::BadRequest(
                    owned("Cannot directly accept a gig request if it is dismissed. Please reopen it first."),
                ),
            ),
            _ => {
                if self.status == GigRequestStatus::Pending && given_status == GigRequestStatus::Accepted
                    && self.event.is_none() {
                    Err(
                        GreaseError::BadRequest(
                            owned(
                                "Must create the event for the gig request first before marking it as accepted.",
                            ),
                        ),
                    )
                } else {
                    Ok(given_status)
                }
            },
        }
    }
}

/// An accepted gig request keeps its status: every change away from it is
/// refused.
pub proof fn law_accepted_requests_stay_accepted(given: GigRequestStatus, has_event: bool)
    requires
        given != GigRequestStatus::Accepted,
    ensures
        status_change_error(GigRequestStatus::Accepted, given, has_event) is Some,
{
}

/// A request only becomes accepted from pending, and only once its event
/// exists.
pub proof fn law_acceptance_needs_an_event(current: GigRequestStatus, has_event: bool)
    requires
        current != GigRequestStatus::Accepted,
        status_change_error(current, GigRequestStatus::Accepted, has_event) is None,
    ensures
        current == GigRequestStatus::Pending,
        has_event,
{
}

/// A dismissed request can always be reopened, and a pending one dismissed.
pub proof fn law_reopen_and_dismiss_are_allowed(has_event: bool)
    ensures
        status_change_error(GigRequestStatus::Dismissed, GigRequestStatus::Pending, has_event) is None,
        status_change_error(GigRequestStatus::Pending, GigRequestStatus::Dismissed, has_event) is None,
{
}

// ---------------------------------------------------------------------------
// Creating and updating events
// ---------------------------------------------------------------------------

/// The fields of a new event, or the new values of an event.
#[derive(Debug)]
pub struct NewEventFields {
    /// The name of the event.
    pub name: String,
    /// The name of the semester it belongs to.
    pub semester: String,
    /// The type of the event.
    pub type_: String,
    /// When members are expected to arrive.
    pub call_time: i64,
    /// When members will probably be released.
    pub release_time: Option<i64>,
    /// How many points it is worth.
    pub points: i32,
    /// General details.
    pub comments: Option<String>,
    /// Where it is held.
    pub location: Option<String>,
    /// Whether it counts toward the volunteer gig count.
    pub gig_count: bool,
    /// Whether members are assumed to attend.
    pub default_attend: bool,
    /// The singing section it is for, if only one.
    pub section: Option<String>,
}

/// A new event, how it repeats, and its gig details if it is a gig.
#[derive(Debug)]
pub struct NewEvent {
    /// The event's fields.
    pub fields: NewEventFields,
    /// How often it repeats.
    pub repeat: Period,
    /// The day (days since the epoch) repetitions stop before, if it repeats.
    pub repeat_until: Option<i64>,
    /// The gig details, if it is a gig.
    pub gig: Option<NewGig>,
}

/// The new values of an event, and of its gig if it is one.
#[derive(Debug)]
pub struct EventUpdate {
    /// The event's new fields.
    pub fields: NewEventFields,
    /// The gig's new details.
    pub gig: Option<NewGig>,
}

/// What creating an event adds: one event per call and release time, all
/// with the given fields, and the gig details for each if it is a gig.
#[derive(Debug)]
pub struct EventCreation {
    /// The call and release times of the events to add.
    pub times: Vec<(i64, Option<i64>)>,
    /// The fields the events share.
    pub fields: NewEventFields,
    /// The gig details the events share, if they are gigs.
    pub gig: Option<NewGig>,
}

/// The times of a new event lie where the calendar can represent them.
pub open spec fn valid_new_event(new_event: NewEvent) -> bool {
    &&& valid_time(new_event.fields.call_time as int)
    &&& (new_event.fields.release_time matches Some(r) ==> valid_time(r as int))
    &&& (new_event.repeat_until matches Some(u) ==> -MAX_DAY <= u <= MAX_DAY)
}

/// Whether creating the event needs the default uniform: it comes from a
/// request and has no gig details of its own.
pub open spec fn needs_default_uniform(new_event: NewEvent, from_request: Option<GigRequest>) -> bool {
    from_request is Some && new_event.gig is None
}

/// The gig details of the events created from `new_event`.
pub open spec fn spec_creation_gig(
    new_event: NewEvent,
    from_request: Option<GigRequest>,
    default_uniform: Option<Uniform>,
) -> Option<NewGig> {
    match from_request {
        Some(request) => match new_event.gig {
            Some(gig) => Some(gig),
            None => Some(spec_build_new_gig(request, default_uniform->0.id)),
        },
        None => new_event.gig,
    }
}

/// The day repetitions of a new event stop before.
pub open spec fn spec_until(new_event: NewEvent) -> int {
    if new_event.repeat == Period::No {
        day_of(new_event.fields.call_time as int)
    } else {
        new_event.repeat_until->0 as int
    }
}

/// The release time of the new event, as an integer.
pub open spec fn release_of(fields: NewEventFields) -> Option<int> {
    match fields.release_time {
        Some(r) => Some(r as int),
        None => None,
    }
}

/// The event with ID `event_id` and the given fields.
pub open spec fn spec_event_from_fields(event_id: i32, fields: NewEventFields) -> Event {
    Event {
        id: event_id,
        name: fields.name,
        semester: fields.semester,
        type_: fields.type_,
        call_time: fields.call_time,
        release_time: fields.release_time,
        points: fields.points,
        comments: fields.comments,
        location: fields.location,
        gig_count: fields.gig_count,
        default_attend: fields.default_attend,
        section: fields.section,
    }
}

/// The event with ID `event_id`, the given fields and the call and release
/// times `time`.
pub open spec fn spec_created_event(event_id: i32, fields: NewEventFields, time: (i64, Option<i64>)) -> Event {
    spec_event_from_fields(event_id, NewEventFields { call_time: time.0, release_time: time.1, ..fields })
}

/// A gig request once an event was created from it: accepted, and pointing
/// at the first event created.
pub open spec fn spec_accepted_request(request: GigRequest, first_id: i32) -> GigRequest {
    GigRequest { status: GigRequestStatus::Accepted, event: Some(first_id), ..request }
}

/// What storing the events of a creation leaves behind.
#[derive(Debug)]
pub struct StoredEvents {
    /// The ID of the first event created, the one of the earliest times.
    pub first_id: i32,
    /// The events created, in the order of their times.
    pub events: Vec<Event>,
    /// The gig of each event created, in the same order, if they are gigs.
    pub gigs: Vec<Gig>,
    /// The gig request the events came from, once accepted.
    pub accepted_request: Option<GigRequest>,
}

fn copy_new_gig(gig: &NewGig) -> (copy: NewGig)
    ensures
        copy == *gig,
{
    NewGig {
        performance_time: gig.performance_time,
        uniform: gig.uniform,
        contact_name: copy_opt_string(&gig.contact_name),
        contact_email: copy_opt_string(&gig.contact_email),
        contact_phone: copy_opt_string(&gig.contact_phone),
        price: gig.price,
        public: gig.public,
        summary: copy_opt_string(&gig.summary),
        description: copy_opt_string(&gig.description),
    }
}

fn created_event(event_id: i32, fields: &NewEventFields, time: (i64, Option<i64>)) -> (event: Event)
    ensures
        event == spec_created_event(event_id, *fields, time),
{
    Event {
        id: event_id,
        name: fields.name.clone(),
        semester: fields.semester.clone(),
        type_: fields.type_.clone(),
        call_time: time.0,
        release_time: time.1,
        points: fields.points,
        comments: copy_opt_string(&fields.comments),
        location: copy_opt_string(&fields.location),
        gig_count: fields.gig_count,
        default_attend: fields.default_attend,
        section: copy_opt_string(&fields.section),
    }
}

fn accepted_request(request: &GigRequest, first_id: i32) -> (accepted: GigRequest)
    ensures
        accepted == spec_accepted_request(*request, first_id),
{
    GigRequest {
        id: request.id,
        time: request.time,
        name: request.name.clone(),
        organization: request.organization.clone(),
        event: Some(first_id),
        contact_name: request.contact_name.clone(),
        contact_email: request.contact_email.clone(),
        contact_phone: request.contact_phone.clone(),
        start_time: request.start_time,
        location: request.location.clone(),
        comments: copy_opt_string(&request.comments),
        status: GigRequestStatus::Accepted,
    }
}

impl EventCreation {
    /// What the creation leaves behind once its events are stored and got
    /// the IDs `new_ids_newest_first` (the newest IDs, newest first, as the
    /// store hands them back): the events are stored in the order of their
    /// times, so the earliest gets the oldest of the IDs and is the first
    /// event; each event gets its gig if they are gigs; and the request the
    /// events came from is accepted, pointing at the first event. Fails when
    /// fewer IDs than events came back.
    pub fn stored(&self, new_ids_newest_first: &Vec<i32>, from_request: Option<&GigRequest>) -> (result: Result<
        StoredEvents,
        GreaseError,
    >)
        requires
            self.times@.len() > 0,
        ensures
            ({
                let n = self.times@.len() as int;
                let ids = new_ids_newest_first@;
                if ids.len() < n {
                    result matches Err(GreaseError::ServerError(m)) && m@ == "error inserting new event into database"@
                } else {
                    result matches Ok(stored) && stored.first_id == ids[n - 1] && stored.events@.len() == n
                        && (forall|k: int|
                        0 <= k < n ==> (#[trigger] stored.events@[k]) == spec_created_event(
                            ids[n - 1 - k],
                            self.fields,
                            self.times@[k],
                        )) && (match self.gig {
                        None => stored.gigs@.len() == 0,
                        Some(g) => stored.gigs@.len() == n && forall|k: int|
                            0 <= k < n ==> (#[trigger] stored.gigs@[k]) == spec_full_gig(g, ids[n - 1 - k]),
                    }) && stored.accepted_request == (match from_request {
                        Some(r) => Some(spec_accepted_request(*r, ids[n - 1])),
                        None => None,
                    })
                }
            }),
    {
        let n = self.times.len();
        if new_ids_newest_first.len() < n {
            return Err(GreaseError::ServerError(owned("error inserting new event into database")));
        }
        let first_id = new_ids_newest_first[n - 1];
        let mut events: Vec<Event> = Vec::new();
        let mut gigs: Vec<Gig> = Vec::new();
        let mut k: usize = 0;
        while k < n
            invariant
                n == self.times@.len(),
                n <= new_ids_newest_first@.len(),
                0 <= k <= n,
                events@.len() == k,
                forall|q: int|
                    0 <= q < k ==> (#[trigger] events@[q]) == spec_created_event(
                        new_ids_newest_first@[n - 1 - q],
                        self.fields,
                        self.times@[q],
                    ),
                match self.gig {
                    None => gigs@.len() == 0,
                    Some(g) => gigs@.len() == k && forall|q: int|
                        0 <= q < k ==> (#[trigger] gigs@[q]) == spec_full_gig(g, new_ids_newest_first@[n - 1 - q]),
                },
            decreases n - k,
        {
            let event_id = new_ids_newest_first[n - 1 - k];
            events.push(created_event(event_id, &self.fields, self.times[k]));
            match &self.gig {
                Some(g) => gigs.push(copy_new_gig(g).as_full_gig(event_id)),
                None => {},
            }
            k += 1;
        }
        let accepted = match from_request {
            Some(r) => Some(accepted_request(r, first_id)),
            None => None,
        };
        Ok(StoredEvents { first_id, events, gigs, accepted_request: accepted })
    }
}

/// The gig details given with a new event are never lost: they are the
/// gig of the events created, whether or not the event comes from a
/// request; and an event from no request with no details is no gig.
pub proof fn law_given_gig_details_are_kept(
    new_event: NewEvent,
    from_request: Option<GigRequest>,
    default_uniform: Option<Uniform>,
)
    ensures
        new_event.gig is Some ==> spec_creation_gig(new_event, from_request, default_uniform) == new_event.gig,
        from_request is None ==> spec_creation_gig(new_event, from_request, default_uniform) == new_event.gig,
        from_request is Some && new_event.gig is None ==> spec_creation_gig(
            new_event,
            from_request,
            default_uniform,
        ) == Some(
            NewGig {
                performance_time: from_request->0.start_time,
                uniform: default_uniform->0.id,
                contact_name: Some(from_request->0.contact_name),
                contact_email: Some(from_request->0.contact_email),
                contact_phone: Some(from_request->0.contact_phone),
                price: None,
                public: false,
                summary: None,
                description: None,
            },
        ),
{
}

impl Event {
    /// Plans the creation of an event (and its repetitions), possibly from
    /// a gig request: the gig details come from the new event, or from the
    /// request with the default uniform; a release time must follow the call
    /// time; a repeating event needs a day to repeat until.
    pub fn create(
        new_event: NewEvent,
        from_request: Option<&GigRequest>,
        default_uniform: Option<&Uniform>,
    ) -> (result: Result<EventCreation, GreaseError>)
        requires
            valid_new_event(new_event),
        ensures
            ({
                let request = match from_request {
                    Some(r) => Some(*r),
                    None => None,
                };
                let uniform = match default_uniform {
                    Some(u) => Some(*u),
                    None => None,
                };
                let fields = new_event.fields;
                if needs_default_uniform(new_event, request) && uniform is None {
                    result matches Err(GreaseError::ServerError(m)) && m@ == "There are currently no uniforms."@
                } else if fields.release_time matches Some(r) && r <= fields.call_time {
                    result matches Err(GreaseError::BadRequest(m)) && m@
                        == "Release time must be after call time if it is supplied."@
                } else if new_event.repeat != Period::No && new_event.repeat_until is None {
                    result matches Err(GreaseError::BadRequest(m)) && m@
                        == "Must supply a repeat until time if repeat is supplied."@
                } else {
                    result matches Ok(creation) && creation.fields == fields && creation.gig
                        == spec_creation_gig(new_event, request, uniform) && times_view(creation.times@)
                        == spec_repeat_times(
                        fields.call_time as int,
                        release_of(fields),
                        new_event.repeat,
                        spec_until(new_event),
                    )
                }
            }),
    {
        let NewEvent { fields, repeat, repeat_until, gig } = new_event;
        let new_gig = match from_request {
            Some(request) => match gig {
                Some(given) => Some(given),
                None => match request.build_new_gig(default_uniform) {
                    Ok(built) => Some(built),
                    Err(error) => {
                        return Err(error);
                    },
                },
            },
            None => gig,
        };
        if let Some(release_time) = fields.release_time {
            if release_time <= fields.call_time {
                return Err(
                    GreaseError::BadRequest(owned("Release time must be after call time if it is supplied.")),
                );
            }
        }
        let until = if repeat == Period::No {
            let day = if fields.call_time >= 0 {
                fields.call_time / SECONDS_PER_DAY
            } else {
                -((-fields.call_time - 1) / SECONDS_PER_DAY) - 1
            };
            assert(day == day_of(fields.call_time as int));
            day
        } else {
            match repeat_until {
                Some(until) => until,
                None => {
                    return Err(
                        GreaseError::BadRequest(owned("Must supply a repeat until time if repeat is supplied.")),
                    );
                },
            }
        };
        let times = Self::repeat_event_times(fields.call_time, fields.release_time, repeat, until);
        proof {
            lemma_repeat_times_start(fields.call_time as int, release_of(fields), repeat, until as int);
            assert(times_view(times@).len() == times@.len());
        }
        if times.len() == 0 {
            return Err(
                GreaseError::BadRequest(
                    owned("The repeat setting would render no events, please check your repeat settings."),
                ),
            );
        }
        Ok(EventCreation { times, fields, gig: new_gig })
    }

    /// Applies an update to the event with ID `event_id` (`found`, if it
    /// exists): the event takes the new fields, and a gig takes the new gig
    /// details, which a gig's update must carry.
    pub fn update(event_id: i32, found: Option<EventWithGig>, event_update: EventUpdate) -> (result: Result<
        EventWithGig,
        GreaseError,
    >)
        ensures
            match found {
                None => result matches Err(GreaseError::BadRequest(m)) && m@ == "No event with id "@
                    + int_decimal(event_id as int) + "."@,
                Some(f) => if f.gig is Some && event_update.gig is None {
                    result matches Err(GreaseError::BadRequest(m)) && m@
                        == "Gig fields must be present when updating gig events."@
                } else {
                    result == Ok::<EventWithGig, GreaseError>(
                        EventWithGig {
                            event: spec_event_from_fields(event_id, event_update.fields),
                            gig: if f.gig is Some {
                                Some(spec_full_gig(event_update.gig->0, event_id))
                            } else {
                                None
                            },
                        },
                    )
                },
            },
    {
        match found {
            None => Err(GreaseError::BadRequest(concat3("No event with id ", decimal(event_id as i64).as_str(), "."))),
            Some(found_event) => {
                let EventUpdate { fields, gig } = event_update;
                if found_event.gig.is_some() && gig.is_none() {
                    return Err(
                        GreaseError::BadRequest(owned("Gig fields must be present when updating gig events.")),
                    );
                }
                let new_gig = if found_event.gig.is_some() {
                    match gig {
                        Some(g) => Some(g.as_full_gig(event_id)),
                        None => None,
                    }
                } else {
                    None
                };
                Ok(
                    EventWithGig {
                        event: Event {
                            id: event_id,
                            name: fields.name,
                            semester: fields.semester,
                            type_: fields.type_,
                            call_time: fields.call_time,
                            release_time: fields.release_time,
                            points: fields.points,
                            comments: fields.comments,
                            location: fields.location,
                            gig_count: fields.gig_count,
                            default_attend: fields.default_attend,
                            section: fields.section,
                        },
                        gig: new_gig,
                    },
                )
            },
        }
    }
}

// ---------------------------------------------------------------------------
// Public events
// ---------------------------------------------------------------------------

/// A gig as shown on the external website.
#[derive(Debug)]
pub struct PublicEvent {
    /// The ID of the event.
    pub id: i32,
    /// The name of the event.
    pub name: String,
    /// When the performance starts, in milliseconds since the epoch.
    pub time: i64,
    /// Where the event is held.
    pub location: String,
    /// A summary of the gig.
    pub summary: String,
    /// A description of the gig.
    pub description: String,
    /// A `data:` URL of a calendar invite for the gig.
    pub invite: String,
}

/// The base64 encoding (URL-safe alphabet, padded) of a text's UTF-8 bytes,
/// as the `base64` crate computes it.
pub uninterp spec fn spec_base64_url_safe(text: Seq<char>) -> Seq<char>;

/// The URL-safe base64 encoding of `text`.
///
/// Calls `base64::encode_config(text, base64::URL_SAFE)`; trusted to be a
/// function of the text alone.
#[verifier::external_body]
fn base64_url_safe(text: &str) -> (encoded: String)
    ensures
        encoded@ == spec_base64_url_safe(text@),
{
    base64::encode_config(text, base64::URL_SAFE)
}

/// The text of an iCalendar file with one event, as icalendar renders it:
/// the event's summary, description, start and end (UTC), location, and
/// the stamp time and UID that icalendar gives each new event.
pub uninterp spec fn spec_calendar_text(
    summary: Seq<char>,
    description: Seq<char>,
    starts: int,
    ends: int,
    location: Seq<char>,
    stamp: int,
    uid: Seq<char>,
) -> Seq<char>;

/// The text of an iCalendar file with one event.
///
/// Calls icalendar: an `Event` with the given summary, description, start,
/// end (both UTC) and `LOCATION` property, in a `Calendar`, rendered with
/// `to_string`. icalendar stamps a new event with the current time and a
/// random UID, so the text is stated for some stamp and UID; which ones is
/// left unsaid.
#[verifier::external_body]
fn calendar_text(summary: &str, description: &str, starts: i64, ends: i64, location: &str) -> (text: String)
    requires
        valid_time(starts as int),
        -MAX_CALENDAR_TIME <= ends <= MAX_CALENDAR_TIME,
    ensures
        exists|stamp: int, uid: Seq<char>|
            text@ == #[trigger] spec_calendar_text(
                summary@,
                description@,
                starts as int,
                ends as int,
                location@,
                stamp,
                uid,
            ),
{
    let event = icalendar::Event::new().summary(summary).description(description).starts(
        chrono::Utc.timestamp_opt(starts, 0).unwrap(),
    ).ends(chrono::Utc.timestamp_opt(ends, 0).unwrap()).append_property(
        Property::new("LOCATION", location).done(),
    ).done();
    Calendar::from_iter(vec![event]).to_string()
}

/// The furthest point from the epoch an invite's end may lie at: an hour
/// past the latest valid time.
pub const MAX_CALENDAR_TIME: i64 = 8_000_000_003_600;

/// The start of every invite URL.
pub open spec fn invite_prefix() -> Seq<char> {
    "data:text/calendar;base64,"@
}

/// A gig's performance time lies where the calendar can represent it.
pub open spec fn valid_gig(gig: Gig) -> bool {
    valid_time(gig.performance_time as int)
}

/// The text of an optional string, or the empty text.
pub open spec fn or_empty(s: Option<String>) -> Seq<char> {
    match s {
        Some(v) => v@,
        None => Seq::empty(),
    }
}

fn unwrap_or_empty(s: Option<String>) -> (r: String)
    ensures
        r@ == or_empty(s),
{
    match s {
        Some(v) => v,
        None => String::new(),
    }
}

/// When a gig's invite ends: at the event's release time, or an hour after
/// the performance when there is none.
pub open spec fn calendar_end(event: Event, gig: Gig) -> int {
    match event.release_time {
        Some(r) => r as int,
        None => gig.performance_time + 3600,
    }
}

/// Whether `url` is a calendar invite for the gig: the invite prefix and the
/// base64 of the calendar text whose summary is the event's name, whose
/// description is the gig's summary, which runs from the performance time
/// to `calendar_end`, at the event's location, for some stamp and UID.
pub open spec fn is_calendar_url(url: Seq<char>, event: Event, gig: Gig) -> bool {
    exists|stamp: int, uid: Seq<char>|
        url == invite_prefix() + spec_base64_url_safe(
            #[trigger] spec_calendar_text(
                event.name@,
                or_empty(gig.summary),
                gig.performance_time as int,
                calendar_end(event, gig),
                or_empty(event.location),
                stamp,
                uid,
            ),
        )
}

impl EventWithGig {
    /// A `data:` URL holding a calendar invite for the gig: from the
    /// performance time to the release time (or an hour later), at the
    /// event's location.
    pub fn build_calendar_url(event: &Event, gig: &Gig) -> (url: String)
        requires
            valid_event(*event),
            valid_gig(*gig),
        ensures
            is_calendar_url(url@, *event, *gig),
    {
        let end_time = match event.release_time {
            Some(release_time) => release_time,
            None => gig.performance_time + 3600,
        };
        let location = unwrap_or_empty(copy_opt_string(&event.location));
        let summary = unwrap_or_empty(copy_opt_string(&gig.summary));
        let calendar = calendar_text(
            event.name.as_str(),
            summary.as_str(),
            gig.performance_time,
            end_time,
            location.as_str(),
        );
        let ghost (stamp, uid) = choose|stamp: int, uid: Seq<char>|
            calendar@ == spec_calendar_text(
                event.name@,
                or_empty(gig.summary),
                gig.performance_time as int,
                end_time as int,
                or_empty(event.location),
                stamp,
                uid,
            );
        let encoded = base64_url_safe(calendar.as_str());
        let mut url = owned("data:text/calendar;base64,");
        url.append(encoded.as_str());
        assert(url@ == invite_prefix() + spec_base64_url_safe(
            spec_calendar_text(
                event.name@,
                or_empty(gig.summary),
                gig.performance_time as int,
                calendar_end(*event, *gig),
                or_empty(event.location),
                stamp,
                uid,
            ),
        ));
        url
    }

    /// The public face of a gig: refused unless the gig is public; its time
    /// is the performance time in milliseconds, missing texts are empty, and
    /// it carries a calendar invite.
    pub fn to_public(event: Event, gig: Gig) -> (result: Result<PublicEvent, GreaseError>)
        requires
            valid_event(event),
            valid_gig(gig),
        ensures
            !gig.public ==> (result matches Err(GreaseError::BadRequest(m)) && m@ == "Event with id "@
                + int_decimal(event.id as int) + " is not a public event."@),
            gig.public ==> (result matches Ok(public) && public.id == event.id && public.name == event.name
                && public.time == gig.performance_time * 1000 && public.location@ == or_empty(event.location)
                && public.summary@ == or_empty(gig.summary) && public.description@ == or_empty(
                gig.description,
            ) && is_calendar_url(public.invite@, event, gig)),
    {
        if !gig.public {
            return Err(
                GreaseError::BadRequest(
                    concat3("Event with id ", decimal(event.id as i64).as_str(), " is not a public event."),
                ),
            );
        }
        let invite = Self::build_calendar_url(&event, &gig);
        let time = gig.performance_time * 1000;
        let Event { id, name, location, .. } = event;
        let Gig { summary, description, .. } = gig;
        Ok(
            PublicEvent {
                id,
                name,
                time,
                location: unwrap_or_empty(location),
                summary: unwrap_or_empty(summary),
                description: unwrap_or_empty(description),
                invite,
            },
        )
    }
}

/// Whether `other` is a sectional that the week of `event` counts: a
/// sectional of the same semester that calls after the Sunday starting the
/// week and whose release comes after the Sunday ending it.
pub open spec fn is_sectional_the_week_of(event: Event, other: Event) -> bool {
    let last_sunday = sunday_on_or_before(event.call_time as int);
    &&& other.type_@ == SECTIONAL@
    &&& other.semester@ == event.semester@
    &&& other.call_time > last_sunday
    &&& other.release_time matches Some(r) && r > last_sunday + SECONDS_PER_WEEK
}

/// The positions, in order, among the first `n` events, of the sectionals
/// counted for the week of `event`.
pub open spec fn sectional_positions_upto(event: Event, events: Seq<Event>, n: int) -> Seq<usize>
    decreases n,
{
    if n <= 0 {
        Seq::empty()
    } else {
        let earlier = sectional_positions_upto(event, events, n - 1);
        if is_sectional_the_week_of(event, events[n - 1]) {
            earlier.push((n - 1) as usize)
        } else {
            earlier
        }
    }
}

/// The positions, in order, of the sectionals counted for the week of
/// `event`.
pub open spec fn sectional_positions(event: Event, events: Seq<Event>) -> Seq<usize> {
    sectional_positions_upto(event, events, events.len() as int)
}

impl Event {
    /// The positions, in order, of the events of `events` that are
    /// sectionals counted for the week of this event.
    pub fn load_sectionals_the_week_of(&self, events: &Vec<Event>) -> (positions: Vec<usize>)
        requires
            valid_time(self.call_time as int),
        ensures
            positions@ == sectional_positions(*self, events@),
    {
        let last_sunday = last_sunday(self.call_time);
        let next_sunday = last_sunday + SECONDS_PER_WEEK;
        let mut positions: Vec<usize> = Vec::new();
        let mut i: usize = 0;
        while i < events.len()
            invariant
                0 <= i <= events@.len(),
                last_sunday == sunday_on_or_before(self.call_time as int),
                next_sunday == last_sunday + SECONDS_PER_WEEK,
                positions@ == sectional_positions_upto(*self, events@, i as int),
            decreases events@.len() - i,
        {
            let other = &events[i];
            let released_after = match other.release_time {
                Some(r) => r > next_sunday,
                None => false,
            };
            if str_eq(other.type_.as_str(), SECTIONAL) && str_eq(other.semester.as_str(), self.semester.as_str())
                && other.call_time > last_sunday && released_after {
                positions.push(i);
            }
            i += 1;
        }
        positions
    }
}

impl Event {
    /// The event (with its gig) found for `event_id`, or the error for a
    /// missing one.
    pub fn load(event_id: i32, found: Option<(Event, Option<Gig>)>) -> (result: Result<EventWithGig, GreaseError>)
        ensures
            found matches Some(row) ==> result == Ok::<EventWithGig, GreaseError>(
                EventWithGig { event: row.0, gig: row.1 },
            ),
            found is None ==> (result matches Err(GreaseError::BadRequest(m)) && m@ == "No event with id "@
                + int_decimal(event_id as int) + "."@),
    {
        match found {
            Some((event, gig)) => Ok(EventWithGig { event, gig }),
            None => {
                let id_text = decimal(event_id as i64);
                Err(GreaseError::BadRequest(concat3("No event with id ", id_text.as_str(), ".")))
            },
        }
    }
}

impl Event {
    /// Whether the event's times lie where the calendar can represent them.
    pub fn is_valid(&self) -> (valid: bool)
        ensures
            valid == valid_event(*self),
    {
        is_valid_time(self.call_time) && match self.release_time {
            Some(r) => is_valid_time(r),
            None => true,
        }
    }
}

impl Gig {
    /// Whether the gig's performance time lies where the calendar can
    /// represent it.
    pub fn is_valid(&self) -> (valid: bool)
        ensures
            valid == valid_gig(*self),
    {
        is_valid_time(self.performance_time)
    }
}

} // verus!
