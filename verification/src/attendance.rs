//! Members' attendance records, their absence requests, and what both say
//! about whether a member is owed or denied credit for an event.

use crate::datetime::{local_now, EARLIEST_CLOCK_TIME, LATEST_CLOCK_TIME};
use crate::error::GreaseError;
use crate::datetime::valid_time;
use crate::event::{copied, opt_view, spec_rsvp_issue, Event, EventWithGig, Gig};
use crate::member::{ActiveSemester, Member, MemberForSemester};
use crate::text::{concat3, decimal, int_decimal, owned, str_eq};
use vstd::prelude::*;

verus! {

/// Whether a member is expected at, and came to, an event.
#[derive(Debug)]
pub struct Attendance {
    /// The email of the member.
    pub member: String,
    /// The ID of the event.
    pub event: i32,
    /// Whether the member is expected to attend.
    pub should_attend: bool,
    /// Whether the member did attend.
    pub did_attend: bool,
    /// Whether the member confirmed that they would attend.
    pub confirmed: bool,
    /// How late the member was, in minutes.
    pub minutes_late: i32,
}

/// Where an absence request stands.
#[derive(Debug, Clone, Copy, PartialEq, Eq, Structural)]
pub enum AbsenceRequestState {
    /// An officer approved the absence.
    Approved,
    /// An officer denied the absence.
    Denied,
    /// No officer has answered yet.
    Pending,
}

/// The text that stands for each [`AbsenceRequestState`].
pub open spec fn absence_request_state_text(value: AbsenceRequestState) -> Seq<char> {
    match value {
        AbsenceRequestState::Approved => "approved"@,
        AbsenceRequestState::Denied => "denied"@,
        AbsenceRequestState::Pending => "pending"@,
    }
}

impl AbsenceRequestState {
    /// The text that stands for this value.
    pub fn as_str(&self) -> (text: &'static str)
        ensures
            text@ == absence_request_state_text(*self),
    {
        match self {
            AbsenceRequestState::Approved => "approved",
            AbsenceRequestState::Denied => "denied",
            AbsenceRequestState::Pending => "pending",
        }
    }

    /// The value that `text` stands for, if any.
    pub fn parse(text: &str) -> (value: Option<AbsenceRequestState>)
        ensures
            match value {
                Some(v) => absence_request_state_text(v) == text@,
                None => forall|v: AbsenceRequestState| absence_request_state_text(v) != text@,
            },
    {
        if str_eq(text, "approved") {
            return Some(AbsenceRequestState::Approved);
        }
        if str_eq(text, "denied") {
            return Some(AbsenceRequestState::Denied);
        }
        if str_eq(text, "pending") {
            return Some(AbsenceRequestState::Pending);
        }
        proof {
            assert forall|v: AbsenceRequestState| absence_request_state_text(v) != text@ by {
                reveal_strlit("approved");
                reveal_strlit("denied");
                reveal_strlit("pending");
            }
        }
        None
    }
}

/// No two request states share a text, so reading back a state's text gives the state.
pub proof fn law_absence_request_state_text_is_unambiguous(a: AbsenceRequestState, b: AbsenceRequestState)
    ensures
        absence_request_state_text(a) == absence_request_state_text(b) ==> a == b,
{
    reveal_strlit("approved");
    reveal_strlit("denied");
    reveal_strlit("pending");
    assert({
        let text = absence_request_state_text(AbsenceRequestState::Approved);
        text.len() == 8 && text[0] == 'a' && text[1] == 'p' && text[2] == 'p'
    });
    assert({
        let text = absence_request_state_text(AbsenceRequestState::Denied);
        text.len() == 6 && text[0] == 'd' && text[1] == 'e' && text[2] == 'n'
    });
    assert({
        let text = absence_request_state_text(AbsenceRequestState::Pending);
        text.len() == 7 && text[0] == 'p' && text[1] == 'e' && text[2] == 'n'
    });
}

/// A member's request to be excused from an event.
#[derive(Debug)]
pub struct AbsenceRequest {
    /// The email of the member asking.
    pub member: String,
    /// The ID of the event.
    pub event: i32,
    /// When the request was placed.
    pub time: i64,
    /// Why the member asks.
    pub reason: String,
    /// Where the request stands.
    pub state: AbsenceRequestState,
}

/// An event as one member sees it: their attendance, absence request and
/// whether they may still answer it.
#[derive(Debug)]
pub struct MemberAttendance {
    /// The event and its gig.
    pub event: EventWithGig,
    /// The member's attendance record, if they have one.
    pub attendance: Option<Attendance>,
    /// The member's absence request for the event, if any.
    pub absence_request: Option<AbsenceRequest>,
    /// Why the member cannot answer the event, if they cannot.
    pub rsvp_issue: Option<String>,
}

/// The call time of the event a member's attendance refers to.
pub open spec fn call_time_of(ma: MemberAttendance) -> int {
    ma.event.event.call_time as int
}

/// Whether the member is expected to attend (no record means no).
pub open spec fn spec_should_attend(ma: MemberAttendance) -> bool {
    match ma.attendance {
        Some(a) => a.should_attend,
        None => false,
    }
}

/// Whether the member attended (no record means no).
pub open spec fn spec_did_attend(ma: MemberAttendance) -> bool {
    match ma.attendance {
        Some(a) => a.did_attend,
        None => false,
    }
}

/// Whether the member confirmed (no record means no).
pub open spec fn spec_confirmed(ma: MemberAttendance) -> bool {
    match ma.attendance {
        Some(a) => a.confirmed,
        None => false,
    }
}

/// How late the member was (no record means not late).
pub open spec fn spec_minutes_late(ma: MemberAttendance) -> int {
    match ma.attendance {
        Some(a) => a.minutes_late as int,
        None => 0,
    }
}

/// Whether the member's absence request was approved.
pub open spec fn spec_approved_absence(ma: MemberAttendance) -> bool {
    match ma.absence_request {
        Some(r) => r.state == AbsenceRequestState::Approved,
        None => false,
    }
}

/// Whether the member missed an event they were expected at, unexcused.
pub open spec fn spec_deny_credit(ma: MemberAttendance) -> bool {
    spec_should_attend(ma) && !spec_did_attend(ma) && !spec_approved_absence(ma)
}

impl MemberAttendance {
    /// Whether the member missed an event they were expected at, unexcused.
    pub fn deny_credit(&self) -> (r: bool)
        ensures
            r == spec_deny_credit(*self),
    {
        self.should_attend() && !self.did_attend() && !self.approved_absence()
    }

    /// Whether the member's absence request was approved.
    pub fn approved_absence(&self) -> (r: bool)
        ensures
            r == spec_approved_absence(*self),
    {
        match &self.absence_request {
            Some(request) => request.state == AbsenceRequestState::Approved,
            None => false,
        }
    }

    /// Whether the member is expected to attend.
    pub fn should_attend(&self) -> (r: bool)
        ensures
            r == spec_should_attend(*self),
    {
        match &self.attendance {
            Some(a) => a.should_attend,
            None => false,
        }
    }

    /// Whether the member attended.
    pub fn did_attend(&self) -> (r: bool)
        ensures
            r == spec_did_attend(*self),
    {
        match &self.attendance {
            Some(a) => a.did_attend,
            None => false,
        }
    }

    /// Whether the member confirmed their attendance.
    pub fn confirmed(&self) -> (r: bool)
        ensures
            r == spec_confirmed(*self),
    {
        match &self.attendance {
            Some(a) => a.confirmed,
            None => false,
        }
    }

    /// How late the member was, in minutes.
    pub fn minutes_late(&self) -> (r: i32)
        ensures
            r == spec_minutes_late(*self),
    {
        match &self.attendance {
            Some(a) => a.minutes_late,
            None => 0,
        }
    }
}

/// The new values of a member's attendance at an event.
#[derive(Debug, Clone, Copy)]
pub struct AttendanceForm {
    /// Whether the member is expected to attend.
    pub should_attend: bool,
    /// Whether the member did attend.
    pub did_attend: bool,
    /// How late the member was, in minutes.
    pub minutes_late: i32,
    /// Whether the member confirmed.
    pub confirmed: bool,
}

/// A new attendance record.
#[derive(Debug)]
pub struct NewAttendance {
    /// The ID of the event.
    pub event: i32,
    /// Whether the member is expected to attend.
    pub should_attend: bool,
    /// The email of the member.
    pub member: String,
}

/// The message for an attendance record that does not exist.
pub open spec fn no_attendance_message(member: Seq<char>, event_id: int) -> Seq<char> {
    "No attendance exists for member "@ + member + " at event "@ + int_decimal(event_id)
        + ". (Are they inactive?)"@
}

/// Whether a new member is expected at an event: not at events already past,
/// otherwise when the event assumes attendance.
pub open spec fn new_member_should_attend(event: Event, now: int) -> bool {
    if now > event.call_time {
        false
    } else {
        event.default_attend
    }
}

/// Whether `records` are the records of the new member `member` who joins
/// at time `now`, one per event.
pub open spec fn records_for_new_member(
    records: Seq<NewAttendance>,
    events: Seq<EventWithGig>,
    member: Seq<char>,
    now: int,
) -> bool {
    &&& records.len() == events.len()
    &&& forall|i: int|
        0 <= i < records.len() ==> (#[trigger] records[i]).event == events[i].event.id && records[i].member@
            == member && records[i].should_attend == new_member_should_attend(events[i].event, now)
}

/// The record with the form's values.
pub open spec fn spec_apply_form(attendance: Attendance, form: AttendanceForm) -> Attendance {
    Attendance {
        should_attend: form.should_attend,
        did_attend: form.did_attend,
        minutes_late: form.minutes_late,
        confirmed: form.confirmed,
        ..attendance
    }
}

/// The record after unconfirmed members are excused.
pub open spec fn spec_excused(attendance: Attendance) -> Attendance {
    if attendance.confirmed {
        attendance
    } else {
        Attendance { should_attend: false, ..attendance }
    }
}

impl Attendance {
    /// The attendance records a member who joins at time `now` gets: one for
    /// every event of the semester, expected at the future events that
    /// assume attendance.
    pub fn create_for_new_member_at(
        given_member: &String,
        all_events_for_semester: &Vec<EventWithGig>,
        now: i64,
    ) -> (records: Vec<NewAttendance>)
        ensures
            records@.len() == all_events_for_semester@.len(),
            forall|i: int|
                0 <= i < records@.len() ==> (#[trigger] records@[i]).event == all_events_for_semester@[i].event.id
                    && records@[i].member@ == given_member@ && records@[i].should_attend
                    == new_member_should_attend(all_events_for_semester@[i].event, now as int),
    {
        let mut records: Vec<NewAttendance> = Vec::new();
        let mut i: usize = 0;
        while i < all_events_for_semester.len()
            invariant
                0 <= i <= all_events_for_semester@.len(),
                records@.len() == i,
                forall|q: int|
                    0 <= q < i ==> (#[trigger] records@[q]).event == all_events_for_semester@[q].event.id
                        && records@[q].member@ == given_member@ && records@[q].should_attend
                        == new_member_should_attend(all_events_for_semester@[q].event, now as int),
            decreases all_events_for_semester@.len() - i,
        {
            let event = &all_events_for_semester[i].event;
            let should_attend = if now > event.call_time {
                false
            } else {
                event.default_attend
            };
            records.push(NewAttendance { event: event.id, should_attend, member: given_member.clone() });
            i += 1;
        }
        records
    }

    /// The attendance records a member who joins now gets.
    pub fn create_for_new_member(given_member: &String, all_events_for_semester: &Vec<EventWithGig>) -> (records: Vec<
        NewAttendance,
    >)
        ensures
            records@.len() == all_events_for_semester@.len(),
            exists|now: int|
                EARLIEST_CLOCK_TIME <= now <= LATEST_CLOCK_TIME && #[trigger] records_for_new_member(records@, all_events_for_semester@, given_member@, now),
    {
        let now = local_now();
        let records = Self::create_for_new_member_at(given_member, all_events_for_semester, now);
        assert(records_for_new_member(records@, all_events_for_semester@, given_member@, now as int));
        records
    }

    /// The attendance records a new event gets: one for every member of its
    /// semester, expected when the event assumes attendance.
    pub fn create_for_new_event(parent_event: &Event, semester_members: &Vec<MemberForSemester>) -> (records: Vec<
        NewAttendance,
    >)
        ensures
            records@.len() == semester_members@.len(),
            forall|i: int|
                0 <= i < records@.len() ==> (#[trigger] records@[i]).event == parent_event.id
                    && records@[i].member@ == semester_members@[i].member.email@
                    && records@[i].should_attend == parent_event.default_attend,
    {
        let mut records: Vec<NewAttendance> = Vec::new();
        let mut i: usize = 0;
        while i < semester_members.len()
            invariant
                0 <= i <= semester_members@.len(),
                records@.len() == i,
                forall|q: int|
                    0 <= q < i ==> (#[trigger] records@[q]).event == parent_event.id
                        && records@[q].member@ == semester_members@[q].member.email@
                        && records@[q].should_attend == parent_event.default_attend,
            decreases semester_members@.len() - i,
        {
            records.push(
                NewAttendance {
                    event: parent_event.id,
                    should_attend: parent_event.default_attend,
                    member: semester_members[i].member.email.clone(),
                },
            );
            i += 1;
        }
        records
    }

    /// Checks that a member has an attendance record for an event.
    pub fn ensure_exists_for_member_at_event(
        given_member: &String,
        given_event: i32,
        existing: Option<&Attendance>,
    ) -> (result: Result<(), GreaseError>)
        ensures
            existing is Some ==> result is Ok,
            existing is None ==> (result matches Err(GreaseError::BadRequest(m)) && m@
                == no_attendance_message(given_member@, given_event as int)),
    {
        if existing.is_some() {
            Ok(())
        } else {
            let mut m = owned("No attendance exists for member ");
            m.append(given_member.as_str());
            m.append(" at event ");
            m.append(decimal(given_event as i64).as_str());
            m.append(". (Are they inactive?)");
            Err(GreaseError::BadRequest(m))
        }
    }

    /// Sets a member's attendance at an event to the form's values; refused
    /// when the member has no record for the event.
    pub fn update(
        event_id: i32,
        given_member: &String,
        attendance_form: &AttendanceForm,
        existing: Option<Attendance>,
    ) -> (result: Result<Attendance, GreaseError>)
        ensures
            match existing {
                Some(a) => result == Ok::<Attendance, GreaseError>(spec_apply_form(a, *attendance_form)),
                None => result matches Err(GreaseError::BadRequest(m)) && m@ == no_attendance_message(
                    given_member@,
                    event_id as int,
                ),
            },
    {
        match Self::ensure_exists_for_member_at_event(given_member, event_id, existing.as_ref()) {
            Err(error) => Err(error),
            Ok(()) => {
                let a = existing.unwrap();
                Ok(
                    Attendance {
                        should_attend: attendance_form.should_attend,
                        did_attend: attendance_form.did_attend,
                        minutes_late: attendance_form.minutes_late,
                        confirmed: attendance_form.confirmed,
                        ..a
                    },
                )
            },
        }
    }

    /// Excuses everyone who did not confirm: their records no longer expect
    /// them; confirmed records are unchanged.
    pub fn excuse_unconfirmed(records: Vec<Attendance>) -> (excused: Vec<Attendance>)
        ensures
            excused@.len() == records@.len(),
            forall|i: int| 0 <= i < excused@.len() ==> (#[trigger] excused@[i]) == spec_excused(records@[i]),
    {
        let ghost input = records@;
        let mut remaining = records;
        let mut excused: Vec<Attendance> = Vec::new();
        while remaining.len() > 0
            invariant
                excused@.len() + remaining@.len() == input.len(),
                remaining@ == input.subrange(excused@.len() as int, input.len() as int),
                forall|i: int| 0 <= i < excused@.len() ==> (#[trigger] excused@[i]) == spec_excused(input[i]),
            decreases remaining@.len(),
        {
            let a = remaining.remove(0);
            if a.confirmed {
                excused.push(a);
            } else {
                excused.push(Attendance { should_attend: false, ..a });
            }
        }
        excused
    }
}

/// Excusing the unconfirmed leaves no unconfirmed member expected, and
/// changes nothing else.
pub proof fn law_excused_unconfirmed_are_not_expected(attendance: Attendance)
    ensures
        !spec_excused(attendance).confirmed ==> !spec_excused(attendance).should_attend,
        spec_excused(attendance).confirmed == attendance.confirmed,
        spec_excused(attendance).did_attend == attendance.did_attend,
        spec_excused(attendance).minutes_late == attendance.minutes_late,
        attendance.confirmed ==> spec_excused(attendance) == attendance,
{
}

/// Excusing twice is excusing once.
pub proof fn law_excusing_is_idempotent(attendance: Attendance)
    ensures
        spec_excused(spec_excused(attendance)) == spec_excused(attendance),
{
}

/// Whether `ma` is the member's view of an event with its gig, their
/// attendance and their absence request (`row`), at time `now`.
pub open spec fn is_member_attendance_at(
    ma: MemberAttendance,
    row: (Event, Option<Gig>, Option<Attendance>, Option<AbsenceRequest>),
    is_active: bool,
    now: int,
) -> bool {
    &&& ma.event.event == row.0
    &&& ma.event.gig == row.1
    &&& ma.attendance == row.2
    &&& ma.absence_request == row.3
    &&& opt_view(ma.rsvp_issue) == spec_rsvp_issue(row.0, row.2, is_active, now)
}

/// The key that an attendance row of an event is told apart by: the event
/// and the member.
pub open spec fn attendance_key(a: Attendance) -> (i32, Seq<char>) {
    (a.event, a.member@)
}

/// The attendance of the first `n` rows of an event, each member joined
/// with their semester record, keeping only the first of consecutive rows
/// of the same member.
pub open spec fn deduplicated_upto(rows: Seq<(Attendance, (Member, ActiveSemester))>, n: int) -> Seq<
    (Attendance, MemberForSemester),
>
    decreases n,
{
    if n <= 0 {
        Seq::empty()
    } else {
        let earlier = deduplicated_upto(rows, n - 1);
        let row = rows[n - 1];
        if n == 1 || attendance_key(row.0) != attendance_key(rows[n - 2].0) {
            earlier.push((row.0, MemberForSemester { member: row.1.0, active_semester: Some(row.1.1) }))
        } else {
            earlier
        }
    }
}

/// Whether each of `events` is the member's view of the row at its
/// position, at time `now`.
pub open spec fn all_member_attendance_at(
    events: Seq<MemberAttendance>,
    rows: Seq<(Event, Option<Gig>, Option<Attendance>, Option<AbsenceRequest>)>,
    is_active: bool,
    now: int,
) -> bool {
    forall|i: int| 0 <= i < events.len() ==> is_member_attendance_at(#[trigger] events[i], rows[i], is_active, now)
}

/// What looking up a member's view of event `event_id` at time `now` gives:
/// a bad request when no row was found, else the view of the row.
pub open spec fn member_event_outcome(
    event_id: int,
    row: Option<(Event, Option<Gig>, Option<Attendance>, Option<AbsenceRequest>)>,
    is_active: bool,
    now: int,
    result: Result<MemberAttendance, GreaseError>,
) -> bool {
    match row {
        None => result matches Err(GreaseError::BadRequest(m)) && m@ == "No event exists with id "@ + int_decimal(
            event_id,
        ) + "."@,
        Some(r) => result matches Ok(ma) && is_member_attendance_at(ma, r, is_active, now),
    }
}

impl MemberAttendance {
    /// A member's view of an event at time `now`, from the event, its gig,
    /// the member's attendance and their absence request.
    pub fn from_row_at(
        row: (Event, Option<Gig>, Option<Attendance>, Option<AbsenceRequest>),
        is_active: bool,
        now: i64,
    ) -> (ma: MemberAttendance)
        requires
            valid_time(row.0.call_time as int),
        ensures
            is_member_attendance_at(ma, row, is_active, now as int),
    {
        let (event, gig, attendance, absence_request) = row;
        let rsvp_issue = event.rsvp_issue_at(attendance.as_ref(), is_active, now);
        MemberAttendance { event: EventWithGig { event, gig }, attendance, absence_request, rsvp_issue }
    }
}

impl Attendance {
    /// A member's view of every event of a semester at time `now`, in the
    /// order of the rows.
    pub fn load_for_member_at_all_events_at(
        rows: Vec<(Event, Option<Gig>, Option<Attendance>, Option<AbsenceRequest>)>,
        is_active: bool,
        now: i64,
    ) -> (events: Vec<MemberAttendance>)
        requires
            forall|i: int| 0 <= i < rows@.len() ==> valid_time((#[trigger] rows@[i]).0.call_time as int),
        ensures
            events@.len() == rows@.len(),
            forall|i: int|
                0 <= i < events@.len() ==> is_member_attendance_at(
                    #[trigger] events@[i],
                    rows@[i],
                    is_active,
                    now as int,
                ),
    {
        let ghost input = rows@;
        let mut remaining = rows;
        let mut events: Vec<MemberAttendance> = Vec::new();
        while remaining.len() > 0
            invariant
                events@.len() + remaining@.len() == input.len(),
                remaining@ == input.subrange(events@.len() as int, input.len() as int),
                forall|i: int| 0 <= i < input.len() ==> valid_time((#[trigger] input[i]).0.call_time as int),
                forall|i: int|
                    0 <= i < events@.len() ==> is_member_attendance_at(
                        #[trigger] events@[i],
                        input[i],
                        is_active,
                        now as int,
                    ),
            decreases remaining@.len(),
        {
            let row = remaining.remove(0);
            proof {
                assert(row == input[events@.len() as int]);
            }
            events.push(MemberAttendance::from_row_at(row, is_active, now));
        }
        events
    }

    /// A member's view of every event of a semester at the current local
    /// time.
    pub fn load_for_member_at_all_events(
        rows: Vec<(Event, Option<Gig>, Option<Attendance>, Option<AbsenceRequest>)>,
        is_active: bool,
    ) -> (events: Vec<MemberAttendance>)
        requires
            forall|i: int| 0 <= i < rows@.len() ==> valid_time((#[trigger] rows@[i]).0.call_time as int),
        ensures
            events@.len() == rows@.len(),
            exists|now: int| EARLIEST_CLOCK_TIME <= now <= LATEST_CLOCK_TIME && #[trigger] all_member_attendance_at(events@, rows@, is_active, now),
    {
        let now = local_now();
        let events = Self::load_for_member_at_all_events_at(rows, is_active, now);
        assert(all_member_attendance_at(events@, rows@, is_active, now as int));
        events
    }

    /// A member's view of one event at time `now`, from the row found for
    /// it; an error when there is none.
    pub fn load_for_member_at_event_at(
        event_id: i32,
        row: Option<(Event, Option<Gig>, Option<Attendance>, Option<AbsenceRequest>)>,
        is_active: bool,
        now: i64,
    ) -> (result: Result<MemberAttendance, GreaseError>)
        requires
            row matches Some(r) ==> valid_time(r.0.call_time as int),
        ensures
            row is None ==> (result matches Err(GreaseError::BadRequest(m)) && m@ == "No event exists with id "@
                + int_decimal(event_id as int) + "."@),
            row matches Some(r) ==> (result matches Ok(ma) && is_member_attendance_at(ma, r, is_active, now as int)),
    {
        match row {
            None => {
                let id_text = decimal(event_id as i64);
                Err(GreaseError::BadRequest(concat3("No event exists with id ", id_text.as_str(), ".")))
            },
            Some(r) => Ok(MemberAttendance::from_row_at(r, is_active, now)),
        }
    }

    /// A member's view of one event at the current local time, from the row
    /// found for it; an error when there is none.
    pub fn load_for_member_at_event(
        event_id: i32,
        row: Option<(Event, Option<Gig>, Option<Attendance>, Option<AbsenceRequest>)>,
        is_active: bool,
    ) -> (result: Result<MemberAttendance, GreaseError>)
        requires
            row matches Some(r) ==> valid_time(r.0.call_time as int),
        ensures
            exists|now: int| EARLIEST_CLOCK_TIME <= now <= LATEST_CLOCK_TIME && #[trigger] member_event_outcome(event_id as int, row, is_active, now, result),
    {
        let now = local_now();
        let ghost given = row;
        let result = Self::load_for_member_at_event_at(event_id, row, is_active, now);
        assert(member_event_outcome(event_id as int, given, is_active, now as int, result));
        result
    }

    /// The attendance of an event, each member with their semester record,
    /// from rows ordered by member name: of consecutive rows of the same
    /// member only the first is kept.
    pub fn load_for_event(rows: Vec<(Attendance, (Member, ActiveSemester))>) -> (attendance: Vec<
        (Attendance, MemberForSemester),
    >)
        ensures
            attendance@ == deduplicated_upto(rows@, rows@.len() as int),
    {
        let ghost input = rows@;
        let total = rows.len();
        let mut remaining = rows;
        let mut attendance: Vec<(Attendance, MemberForSemester)> = Vec::new();
        let mut previous: Option<(i32, String)> = None;
        let mut taken: usize = 0;
        while remaining.len() > 0
            invariant
                taken + remaining@.len() == input.len(),
                input.len() == total,
                remaining@ == input.subrange(taken as int, input.len() as int),
                attendance@ == deduplicated_upto(input, taken as int),
                taken == 0 <==> previous is None,
                previous matches Some(key) ==> taken > 0 && (key.0, key.1@) == attendance_key(
                    input[taken - 1].0,
                ),
            decreases remaining@.len(),
        {
            let row = remaining.remove(0);
            proof {
                assert(row == input[taken as int]);
            }
            let (record, (member, semester)) = row;
            let repeated = match &previous {
                Some(key) => key.0 == record.event && str_eq(key.1.as_str(), record.member.as_str()),
                None => false,
            };
            let key = (record.event, record.member.clone());
            if !repeated {
                attendance.push((record, MemberForSemester { member, active_semester: Some(semester) }));
            }
            previous = Some(key);
            taken += 1;
        }
        attendance
    }
}

/// The message for an answer to an absence request that does not exist.
pub open spec fn no_absence_request_message(member: Seq<char>, event_id: int) -> Seq<char> {
    "No absence request for member "@ + member + " at event with id "@ + int_decimal(event_id) + "."@
}

impl AbsenceRequest {
    /// Answers the member's absence request for an event (`found`, if they
    /// placed one) with `given_state`.
    pub fn set_request_state(
        given_member: &str,
        event_id: i32,
        given_state: AbsenceRequestState,
        found: Option<AbsenceRequest>,
    ) -> (result: Result<AbsenceRequest, GreaseError>)
        ensures
            found matches Some(r) ==> result == Ok::<AbsenceRequest, GreaseError>(
                AbsenceRequest { state: given_state, ..r },
            ),
            found is None ==> (result matches Err(GreaseError::BadRequest(m)) && m@ == no_absence_request_message(
                given_member@,
                event_id as int,
            )),
    {
        match found {
            Some(r) => Ok(AbsenceRequest { state: given_state, ..r }),
            None => {
                let mut m = owned("No absence request for member ");
                m.append(given_member);
                m.append(" at event with id ");
                m.append(decimal(event_id as i64).as_str());
                m.append(".");
                Err(GreaseError::BadRequest(m))
            },
        }
    }

    /// Approves the member's absence request for an event.
    pub fn approve(given_member: &str, event_id: i32, found: Option<AbsenceRequest>) -> (result: Result<
        AbsenceRequest,
        GreaseError,
    >)
        ensures
            found matches Some(r) ==> result == Ok::<AbsenceRequest, GreaseError>(
                AbsenceRequest { state: AbsenceRequestState::Approved, ..r },
            ),
            found is None ==> (result matches Err(GreaseError::BadRequest(m)) && m@ == no_absence_request_message(
                given_member@,
                event_id as int,
            )),
    {
        Self::set_request_state(given_member, event_id, AbsenceRequestState::Approved, found)
    }

    /// Denies the member's absence request for an event.
    pub fn deny(given_member: &str, event_id: i32, found: Option<AbsenceRequest>) -> (result: Result<
        AbsenceRequest,
        GreaseError,
    >)
        ensures
            found matches Some(r) ==> result == Ok::<AbsenceRequest, GreaseError>(
                AbsenceRequest { state: AbsenceRequestState::Denied, ..r },
            ),
            found is None ==> (result matches Err(GreaseError::BadRequest(m)) && m@ == no_absence_request_message(
                given_member@,
                event_id as int,
            )),
    {
        Self::set_request_state(given_member, event_id, AbsenceRequestState::Denied, found)
    }
}

impl AbsenceRequest {
    /// Whether the member's absence request for an event (`found`, if they
    /// placed one) excuses them: it was approved.
    pub fn excused_for_event(found: &Option<AbsenceRequest>) -> (excused: bool)
        ensures
            excused == (found matches Some(r) && r.state == AbsenceRequestState::Approved),
    {
        match found {
            Some(r) => r.state == AbsenceRequestState::Approved,
            None => false,
        }
    }
}

} // verus!
