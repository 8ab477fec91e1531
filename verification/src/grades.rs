//! How a member's attendance over a semester turns into grade changes.
//!
//! The semester is cut into weeks that run from one Sunday (exclusive) to the
//! next (inclusive), at the time of day of the first event. What happened in
//! a week (a missed rehearsal, a missed or attended sectional) decides which
//! rule applies to each event of that week. This module decides the rule for
//! every event and counts the volunteer gigs that earn credit; turning the
//! rules into points is left to the caller.

use crate::attendance::{
    call_time_of, Attendance, spec_approved_absence, spec_deny_credit, spec_did_attend, spec_minutes_late,
    spec_should_attend, MemberAttendance,
};
use crate::datetime::{
    days_from_sunday, is_valid_time, last_sunday, sunday_on_or_before, valid_time, MAX_TIME, SECONDS_PER_WEEK,
};
use crate::event::{
    lemma_event_types_differ, has_type, spec_is_gig, valid_event, Event, OMBUDS, OTHER, REHEARSAL, SECTIONAL, TUTTI_GIG,
    VOLUNTEER_GIG,
};
use crate::semester::{valid_semester, Semester};
use vstd::prelude::*;

verus! {

/// Which grading rule applies to one event of a member's semester.
#[derive(Debug, Clone, Copy, PartialEq, Eq, Structural)]
pub enum GradeRule {
    /// The event is still to come: no change.
    NotYetHappened,
    /// A volunteer gig was attended, but that week's rehearsal was missed:
    /// the bonus of `points` is denied.
    BonusDeniedForMissedRehearsal { points: i32 },
    /// A tutti gig was attended, but that week's rehearsal was missed: the
    /// full `points` are deducted.
    DeductedForMissedRehearsal { points: i32 },
    /// A bonus event was attended late: the bonus of `points` is reduced by
    /// the share `minutes_late / duration_minutes` of it (and capped at 100%).
    LateToBonusEvent { points: i32, minutes_late: i32, duration_minutes: i64 },
    /// A required event was attended late: the share
    /// `minutes_late / duration_minutes` of `points` is deducted.
    LateToRequiredEvent { points: i32, minutes_late: i32, duration_minutes: i64 },
    /// An optional event was attended late: no change.
    LateButNotRequired,
    /// A bonus event was attended: `points` are added (capped at 100%).
    AttendedBonusEvent { points: i32 },
    /// A required event was attended: no change.
    AttendedRequiredEvent,
    /// An ombuds event was missed: no change.
    OmbudsMissed,
    /// A sectional was missed, but another one that week was attended.
    AttendedOtherSectional,
    /// A sectional was missed after an earlier one that week was already
    /// deducted.
    AlreadyLostSectional,
    /// A sectional was missed while a later one that week is still to come.
    SectionalsPending,
    /// An event was missed with an approved absence request: no change.
    ApprovedAbsence,
    /// An event was missed without excuse: the full `points` are deducted.
    UnexcusedAbsence { points: i32 },
    /// An event was missed that the member was not expected at: no change.
    NotExpected,
}

/// What one week of attendance says about the member.
#[derive(Debug, Clone, Copy)]
pub struct WeeklyAttendanceContext {
    /// Whether a rehearsal that week was missed without excuse.
    pub missed_rehearsal: bool,
    /// The call time of the first sectional that week missed without excuse.
    pub missed_sectional: Option<i64>,
    /// Whether a sectional that week was attended.
    pub attended_sectionals: bool,
    /// The call time of the last sectional that week.
    pub last_sectional: Option<i64>,
}

/// One graded event: where it stands in the attendance list, and its rule.
#[derive(Debug, Clone, Copy)]
pub struct GradeEntry {
    /// The position of the event in the member's attendance list.
    pub index: usize,
    /// The rule that applies to it.
    pub rule: GradeRule,
}

/// The graded events of a semester, week by week, and the count of
/// volunteer gigs that earned credit.
#[derive(Debug)]
pub struct GradeSheet {
    /// The graded events, in the order the grade is computed.
    pub entries: Vec<GradeEntry>,
    /// How many volunteer gigs counted toward the gig requirement.
    pub volunteer_gigs_attended: usize,
}

// ---------------------------------------------------------------------------
// Weeks
// ---------------------------------------------------------------------------

/// Whether `t` falls in the week that starts right after `sunday`.
pub open spec fn in_week(t: int, sunday: int) -> bool {
    sunday < t <= sunday + SECONDS_PER_WEEK
}

/// The positions among the first `n` items whose event falls in the week
/// after `sunday`, in order.
pub open spec fn week_indices_upto(s: Seq<MemberAttendance>, sunday: int, n: int) -> Seq<usize>
    decreases n,
{
    if n <= 0 {
        Seq::empty()
    } else {
        let earlier = week_indices_upto(s, sunday, n - 1);
        if in_week(call_time_of(s[n - 1]), sunday) {
            earlier.push((n - 1) as usize)
        } else {
            earlier
        }
    }
}

/// The positions of the items whose event falls in the week after `sunday`.
pub open spec fn week_indices(s: Seq<MemberAttendance>, sunday: int) -> Seq<usize> {
    week_indices_upto(s, sunday, s.len() as int)
}

/// The Sunday that starts the first week: the one on or before the first
/// event, or before the semester's start if there are no events.
pub open spec fn spec_first_sunday(s: Seq<MemberAttendance>, semester: Semester) -> int {
    if s.len() > 0 {
        sunday_on_or_before(call_time_of(s[0]))
    } else {
        sunday_on_or_before(semester.start_date as int)
    }
}

/// The last point the weeks must reach: the last event, or the semester's
/// end if there are no events.
pub open spec fn spec_end_of_semester(s: Seq<MemberAttendance>, semester: Semester) -> int {
    if s.len() > 0 {
        call_time_of(s[s.len() - 1])
    } else {
        semester.end_date as int
    }
}

/// How many weeks there are: one for the first Sunday, and one for every
/// later Sunday on or before the end.
pub open spec fn spec_week_count(first_sunday: int, end: int) -> int {
    if end >= first_sunday {
        (end - first_sunday) / (SECONDS_PER_WEEK as int) + 1
    } else {
        1
    }
}

/// The Sunday that starts week `k`.
pub open spec fn sunday_of_week(s: Seq<MemberAttendance>, semester: Semester, k: int) -> int {
    spec_first_sunday(s, semester) + k * SECONDS_PER_WEEK
}

/// The positions of the events in week `k`.
pub open spec fn week_of(s: Seq<MemberAttendance>, semester: Semester, k: int) -> Seq<usize> {
    week_indices(s, sunday_of_week(s, semester, k))
}

/// The number of weeks of a member's semester.
pub open spec fn week_count_of(s: Seq<MemberAttendance>, semester: Semester) -> int {
    spec_week_count(spec_first_sunday(s, semester), spec_end_of_semester(s, semester))
}

/// Every event and the semester lie where the calendar can represent them.
pub open spec fn valid_grading_input(s: Seq<MemberAttendance>, semester: Semester) -> bool {
    &&& valid_semester(semester)
    &&& forall|i: int| 0 <= i < s.len() ==> valid_event(#[trigger] s[i].event.event)
}

/// Every position in `w` points into `s`.
pub open spec fn indices_within(w: Seq<usize>, n: int) -> bool {
    forall|j: int| 0 <= j < w.len() ==> (#[trigger] w[j]) < n
}

// ---------------------------------------------------------------------------
// The weekly context
// ---------------------------------------------------------------------------

/// The item at position `j` of the week `w`.
pub open spec fn item(s: Seq<MemberAttendance>, w: Seq<usize>, j: int) -> MemberAttendance {
    s[w[j] as int]
}

/// Whether a rehearsal of the week was missed without excuse.
pub open spec fn spec_missed_rehearsal(s: Seq<MemberAttendance>, w: Seq<usize>) -> bool {
    exists|j: int|
        0 <= j < w.len() && has_type(#[trigger] item(s, w, j).event.event, REHEARSAL)
            && spec_deny_credit(item(s, w, j))
}

/// Whether the item is a sectional missed without excuse.
pub open spec fn is_missed_sectional(ma: MemberAttendance) -> bool {
    has_type(ma.event.event, SECTIONAL) && spec_deny_credit(ma)
}

/// The call time of the first sectional missed without excuse, from
/// position `j` of the week on.
pub open spec fn first_missed_sectional_from(s: Seq<MemberAttendance>, w: Seq<usize>, j: int) -> Option<i64>
    decreases w.len() - j,
{
    if j < 0 || j >= w.len() {
        None
    } else if is_missed_sectional(item(s, w, j)) {
        Some(item(s, w, j).event.event.call_time)
    } else {
        first_missed_sectional_from(s, w, j + 1)
    }
}

/// Whether a sectional of the week was attended.
pub open spec fn spec_attended_sectionals(s: Seq<MemberAttendance>, w: Seq<usize>) -> bool {
    exists|j: int|
        0 <= j < w.len() && has_type(#[trigger] item(s, w, j).event.event, SECTIONAL)
            && spec_did_attend(item(s, w, j))
}

/// The call time of the last sectional among the first `n` items of the week.
pub open spec fn last_sectional_upto(s: Seq<MemberAttendance>, w: Seq<usize>, n: int) -> Option<i64>
    decreases n,
{
    if n <= 0 {
        None
    } else if has_type(item(s, w, n - 1).event.event, SECTIONAL) {
        Some(item(s, w, n - 1).event.event.call_time)
    } else {
        last_sectional_upto(s, w, n - 1)
    }
}

/// What the week `w` says about the member.
pub open spec fn spec_context(s: Seq<MemberAttendance>, w: Seq<usize>) -> WeeklyAttendanceContext {
    WeeklyAttendanceContext {
        missed_rehearsal: spec_missed_rehearsal(s, w),
        missed_sectional: first_missed_sectional_from(s, w, 0),
        attended_sectionals: spec_attended_sectionals(s, w),
        last_sectional: last_sectional_upto(s, w, w.len() as int),
    }
}

// ---------------------------------------------------------------------------
// The rules
// ---------------------------------------------------------------------------

/// Whether attending the event earns a bonus: volunteer gigs, ombuds events,
/// optional "other" events, and sectionals in a week where none was missed.
pub open spec fn spec_is_bonus_event(ma: MemberAttendance, context: WeeklyAttendanceContext) -> bool {
    let event = ma.event.event;
    ||| has_type(event, VOLUNTEER_GIG)
    ||| has_type(event, OMBUDS)
    ||| (has_type(event, OTHER) && !spec_should_attend(ma))
    ||| (has_type(event, SECTIONAL) && context.missed_sectional is None)
}

/// Whether the event is a volunteer gig that counts toward the requirement.
pub open spec fn spec_attended_volunteer_gig(ma: MemberAttendance, context: WeeklyAttendanceContext) -> bool {
    let event = ma.event.event;
    spec_did_attend(ma) && !context.missed_rehearsal && has_type(event, VOLUNTEER_GIG)
        && event.gig_count
}

/// The length of the event in whole minutes for lateness, or an hour when
/// no later release time is known.
pub open spec fn spec_lateness_duration(event: Event) -> int {
    match event.release_time {
        Some(release) => if release <= event.call_time {
            60
        } else {
            (release - event.call_time) / 60
        },
        None => 60,
    }
}

/// The rule for a member's event, given what the week says and the time now.
pub open spec fn spec_grade_rule(ma: MemberAttendance, context: WeeklyAttendanceContext, now: int) -> GradeRule {
    let event = ma.event.event;
    let points = event.points;
    if event.call_time > now {
        GradeRule::NotYetHappened
    } else if spec_did_attend(ma) {
        if context.missed_rehearsal && spec_is_gig(event) {
            if has_type(event, VOLUNTEER_GIG) {
                GradeRule::BonusDeniedForMissedRehearsal { points }
            } else {
                GradeRule::DeductedForMissedRehearsal { points }
            }
        } else if spec_minutes_late(ma) > 0 && !has_type(event, OMBUDS) {
            let minutes_late = spec_minutes_late(ma) as i32;
            let duration_minutes = spec_lateness_duration(event) as i64;
            if spec_is_bonus_event(ma, context) {
                GradeRule::LateToBonusEvent { points, minutes_late, duration_minutes }
            } else if spec_should_attend(ma) {
                GradeRule::LateToRequiredEvent { points, minutes_late, duration_minutes }
            } else {
                GradeRule::LateButNotRequired
            }
        } else if spec_is_bonus_event(ma, context) {
            GradeRule::AttendedBonusEvent { points }
        } else {
            GradeRule::AttendedRequiredEvent
        }
    } else if spec_should_attend(ma) {
        spec_should_have_attended(ma, context, now)
    } else {
        GradeRule::NotExpected
    }
}

/// The rule for an event the member was expected at but missed.
pub open spec fn spec_should_have_attended(ma: MemberAttendance, context: WeeklyAttendanceContext, now: int) -> GradeRule {
    let event = ma.event.event;
    if has_type(event, OMBUDS) {
        GradeRule::OmbudsMissed
    } else if has_type(event, SECTIONAL) && context.attended_sectionals {
        GradeRule::AttendedOtherSectional
    } else if has_type(event, SECTIONAL) && (match context.missed_sectional {
        Some(t) => t < event.call_time,
        None => false,
    }) {
        GradeRule::AlreadyLostSectional
    } else if has_type(event, SECTIONAL) && (match context.last_sectional {
        Some(t) => t > event.call_time && t > now,
        None => false,
    }) {
        GradeRule::SectionalsPending
    } else if spec_approved_absence(ma) {
        GradeRule::ApprovedAbsence
    } else {
        GradeRule::UnexcusedAbsence { points: event.points }
    }
}

/// Whether a rule takes points away whatever the grade is.
pub open spec fn is_deduction(rule: GradeRule) -> bool {
    ||| rule is DeductedForMissedRehearsal
    ||| rule is LateToRequiredEvent
    ||| rule is UnexcusedAbsence
}

// ---------------------------------------------------------------------------
// The sheet
// ---------------------------------------------------------------------------

/// The entries for the first `n` events of the week `w`.
pub open spec fn week_entries_upto(
    s: Seq<MemberAttendance>,
    w: Seq<usize>,
    context: WeeklyAttendanceContext,
    now: int,
    n: int,
) -> Seq<GradeEntry>
    decreases n,
{
    if n <= 0 {
        Seq::empty()
    } else {
        week_entries_upto(s, w, context, now, n - 1).push(
            GradeEntry { index: w[n - 1], rule: spec_grade_rule(item(s, w, n - 1), context, now) },
        )
    }
}

/// How many of the first `n` events of the week `w` are volunteer gigs that
/// count.
pub open spec fn week_gigs_upto(
    s: Seq<MemberAttendance>,
    w: Seq<usize>,
    context: WeeklyAttendanceContext,
    n: int,
) -> int
    decreases n,
{
    if n <= 0 {
        0
    } else {
        week_gigs_upto(s, w, context, n - 1) + if spec_attended_volunteer_gig(item(s, w, n - 1), context) {
            1int
        } else {
            0int
        }
    }
}

/// The entries of the first `k` weeks.
pub open spec fn entries_upto(s: Seq<MemberAttendance>, semester: Semester, now: int, k: int) -> Seq<GradeEntry>
    decreases k,
{
    if k <= 0 {
        Seq::empty()
    } else {
        let w = week_of(s, semester, k - 1);
        entries_upto(s, semester, now, k - 1) + week_entries_upto(
            s,
            w,
            spec_context(s, w),
            now,
            w.len() as int,
        )
    }
}

/// The counted volunteer gigs of the first `k` weeks.
pub open spec fn gigs_upto(s: Seq<MemberAttendance>, semester: Semester, k: int) -> int
    decreases k,
{
    if k <= 0 {
        0
    } else {
        let w = week_of(s, semester, k - 1);
        gigs_upto(s, semester, k - 1) + week_gigs_upto(s, w, spec_context(s, w), w.len() as int)
    }
}

/// The graded events of a member's semester.
pub open spec fn spec_sheet_entries(s: Seq<MemberAttendance>, semester: Semester, now: int) -> Seq<GradeEntry> {
    entries_upto(s, semester, now, week_count_of(s, semester))
}

/// The number of volunteer gigs of a member's semester that count.
pub open spec fn spec_sheet_gigs(s: Seq<MemberAttendance>, semester: Semester) -> int {
    gigs_upto(s, semester, week_count_of(s, semester))
}

/// Every position in a week lies among the first `n` items.
proof fn lemma_week_indices_within(s: Seq<MemberAttendance>, sunday: int, n: int)
    ensures
        indices_within(week_indices_upto(s, sunday, n), if n < 0 { 0 } else { n }),
    decreases n,
{
    if n > 0 {
        lemma_week_indices_within(s, sunday, n - 1);
    }
}

impl WeeklyAttendanceContext {
    /// What the week (the items of `attendance` at the positions `week`) says
    /// about the member.
    pub fn for_week(attendance: &Vec<MemberAttendance>, week: &Vec<usize>) -> (context: Self)
        requires
            indices_within(week@, attendance@.len() as int),
        ensures
            context == spec_context(attendance@, week@),
    {
        let ghost s = attendance@;
        let ghost w = week@;
        let mut missed_rehearsal = false;
        let mut missed_sectional: Option<i64> = None;
        let mut attended_sectionals = false;
        let mut last_sectional: Option<i64> = None;
        let mut j: usize = 0;
        while j < week.len()
            invariant
                s == attendance@,
                w == week@,
                indices_within(w, s.len() as int),
                0 <= j <= w.len(),
                missed_rehearsal == exists|k: int|
                    0 <= k < j && has_type(#[trigger] item(s, w, k).event.event, REHEARSAL)
                        && spec_deny_credit(item(s, w, k)),
                attended_sectionals == exists|k: int|
                    0 <= k < j && has_type(#[trigger] item(s, w, k).event.event, SECTIONAL)
                        && spec_did_attend(item(s, w, k)),
                missed_sectional is None ==> forall|k: int|
                    0 <= k < j ==> !is_missed_sectional(#[trigger] item(s, w, k)),
                missed_sectional is None ==> first_missed_sectional_from(s, w, 0)
                    == first_missed_sectional_from(s, w, j as int),
                missed_sectional is Some ==> missed_sectional == first_missed_sectional_from(s, w, 0),
                last_sectional == last_sectional_upto(s, w, j as int),
            decreases w.len() - j,
        {
            let ma = &attendance[week[j]];
            assert(*ma == item(s, w, j as int));
            let is_rehearsal = ma.event.event.is_type(REHEARSAL);
            let is_sectional = ma.event.event.is_type(SECTIONAL);
            if is_rehearsal && ma.deny_credit() {
                missed_rehearsal = true;
            }
            if is_sectional && ma.did_attend() {
                attended_sectionals = true;
            }
            if missed_sectional.is_none() && is_sectional && ma.deny_credit() {
                missed_sectional = Some(ma.event.event.call_time);
            }
            if is_sectional {
                last_sectional = Some(ma.event.event.call_time);
            }
            j += 1;
        }
        WeeklyAttendanceContext { missed_rehearsal, missed_sectional, attended_sectionals, last_sectional }
    }
}

impl GradeSheet {
    /// The Sunday (at the same time of day) on or before the first event, or
    /// before the semester's start when there are no events.
    pub fn first_sunday_of_semester(first_event: Option<&MemberAttendance>, semester: &Semester) -> (sunday: i64)
        requires
            valid_semester(*semester),
            first_event matches Some(ma) ==> valid_time(call_time_of(*ma)),
        ensures
            sunday == sunday_on_or_before(match first_event {
                Some(ma) => call_time_of(*ma),
                None => semester.start_date as int,
            }),
    {
        let beginning = match first_event {
            Some(ma) => ma.event.event.call_time,
            None => semester.start_date,
        };
        last_sunday(beginning)
    }

    /// The positions of the events that fall in the week after `sunday`.
    fn events_in_week(attendance: &Vec<MemberAttendance>, sunday: i64) -> (week: Vec<usize>)
        requires
            -2 * MAX_TIME <= sunday <= MAX_TIME,
        ensures
            week@ == week_indices(attendance@, sunday as int),
            indices_within(week@, attendance@.len() as int),
    {
        let mut week: Vec<usize> = Vec::new();
        let end = sunday + SECONDS_PER_WEEK;
        let mut i: usize = 0;
        while i < attendance.len()
            invariant
                end == sunday + SECONDS_PER_WEEK,
                0 <= i <= attendance@.len(),
                week@ == week_indices_upto(attendance@, sunday as int, i as int),
                indices_within(week@, i as int),
            decreases attendance@.len() - i,
        {
            let call_time = attendance[i].event.event.call_time;
            if sunday < call_time && call_time <= end {
                week.push(i);
            }
            i += 1;
        }
        week
    }

    /// The positions of the events, week by week, from the first Sunday to
    /// the end of the semester.
    pub fn organize_into_weeks(semester: &Semester, attendance: &Vec<MemberAttendance>) -> (weeks: Vec<Vec<usize>>)
        requires
            valid_grading_input(attendance@, *semester),
        ensures
            weeks@.len() == week_count_of(attendance@, *semester),
            forall|k: int|
                0 <= k < weeks@.len() ==> (#[trigger] weeks@[k])@ == week_of(attendance@, *semester, k),
    {
        let n = attendance.len();
        let first = if n > 0 {
            Some(&attendance[0])
        } else {
            None
        };
        let first_sunday = Self::first_sunday_of_semester(first, semester);
        let end = if n > 0 {
            attendance[n - 1].event.event.call_time
        } else {
            semester.end_date
        };
        assert(first_sunday == spec_first_sunday(attendance@, *semester));
        assert(end == spec_end_of_semester(attendance@, *semester));
        let mut weeks: Vec<Vec<usize>> = Vec::new();
        let mut sunday = first_sunday;
        loop
            invariant_except_break
                sunday == first_sunday + weeks@.len() * SECONDS_PER_WEEK,
                weeks@.len() == 0 || sunday <= end,
            invariant
                first_sunday == spec_first_sunday(attendance@, *semester),
                end == spec_end_of_semester(attendance@, *semester),
                -MAX_TIME <= end <= MAX_TIME,
                -MAX_TIME - SECONDS_PER_WEEK < first_sunday <= MAX_TIME,
                forall|k: int|
                    0 <= k < weeks@.len() ==> (#[trigger] weeks@[k])@ == week_of(attendance@, *semester, k),
            ensures
                weeks@.len() == spec_week_count(first_sunday as int, end as int),
                forall|k: int|
                    0 <= k < weeks@.len() ==> (#[trigger] weeks@[k])@ == week_of(attendance@, *semester, k),
            decreases end - sunday + SECONDS_PER_WEEK,
        {
            let week = Self::events_in_week(attendance, sunday);
            weeks.push(week);
            if sunday + SECONDS_PER_WEEK <= end {
                sunday = sunday + SECONDS_PER_WEEK;
            } else {
                assert(weeks@.len() == spec_week_count(first_sunday as int, end as int)) by (nonlinear_arith)
                    requires
                        sunday == first_sunday + (weeks@.len() - 1) * SECONDS_PER_WEEK,
                        sunday + SECONDS_PER_WEEK > end,
                        weeks@.len() == 1 || sunday <= end,
                        weeks@.len() >= 1,
                ;
                break;
            }
        }
        weeks
    }

    /// Whether attending the event earns a bonus.
    pub fn is_bonus_event(member_attendance: &MemberAttendance, context: &WeeklyAttendanceContext) -> (r: bool)
        ensures
            r == spec_is_bonus_event(*member_attendance, *context),
    {
        let event = &member_attendance.event.event;
        event.is_type(VOLUNTEER_GIG) || event.is_type(OMBUDS) || (event.is_type(OTHER)
            && !member_attendance.should_attend()) || (event.is_type(SECTIONAL)
            && context.missed_sectional.is_none())
    }

    /// Whether the event is a volunteer gig that counts toward the requirement.
    pub fn attended_volunteer_gig(member_attendance: &MemberAttendance, context: &WeeklyAttendanceContext) -> (r: bool)
        ensures
            r == spec_attended_volunteer_gig(*member_attendance, *context),
    {
        let event = &member_attendance.event.event;
        member_attendance.did_attend() && !context.missed_rehearsal && event.is_type(VOLUNTEER_GIG)
            && event.gig_count
    }

    /// The length of the event in whole minutes for lateness, or an hour
    /// when no later release time is known.
    pub fn lateness_duration(event: &Event) -> (minutes: i64)
        requires
            valid_event(*event),
        ensures
            minutes == spec_lateness_duration(*event),
    {
        match event.release_time {
            Some(release_time) => {
                if release_time <= event.call_time {
                    60
                } else {
                    (release_time - event.call_time) / 60
                }
            },
            None => 60,
        }
    }

    /// The rule for an event the member was expected at but missed.
    pub fn should_have_attended(
        member_attendance: &MemberAttendance,
        context: &WeeklyAttendanceContext,
        now: i64,
    ) -> (rule: GradeRule)
        ensures
            rule == spec_should_have_attended(*member_attendance, *context, now as int),
    {
        let event = &member_attendance.event.event;
        let is_sectional = event.is_type(SECTIONAL);
        if event.is_type(OMBUDS) {
            GradeRule::OmbudsMissed
        } else if is_sectional && context.attended_sectionals {
            GradeRule::AttendedOtherSectional
        } else if is_sectional && match context.missed_sectional {
            Some(call_time) => call_time < event.call_time,
            None => false,
        } {
            GradeRule::AlreadyLostSectional
        } else if is_sectional && match context.last_sectional {
            Some(last_call_time) => last_call_time > event.call_time && last_call_time > now,
            None => false,
        } {
            GradeRule::SectionalsPending
        } else if member_attendance.approved_absence() {
            GradeRule::ApprovedAbsence
        } else {
            GradeRule::UnexcusedAbsence { points: event.points }
        }
    }

    /// The rule for one event of the member's semester.
    pub fn grade_rule(member_attendance: &MemberAttendance, context: &WeeklyAttendanceContext, now: i64) -> (rule: GradeRule)
        requires
            valid_event(member_attendance.event.event),
        ensures
            rule == spec_grade_rule(*member_attendance, *context, now as int),
    {
        let event = &member_attendance.event.event;
        let points = event.points;
        if event.call_time > now {
            GradeRule::NotYetHappened
        } else if member_attendance.did_attend() {
            if context.missed_rehearsal && event.is_gig() {
                if event.is_type(VOLUNTEER_GIG) {
                    GradeRule::BonusDeniedForMissedRehearsal { points }
                } else {
                    GradeRule::DeductedForMissedRehearsal { points }
                }
            } else if member_attendance.minutes_late() > 0 && !event.is_type(OMBUDS) {
                let minutes_late = member_attendance.minutes_late();
                let duration_minutes = Self::lateness_duration(event);
                if Self::is_bonus_event(member_attendance, context) {
                    GradeRule::LateToBonusEvent { points, minutes_late, duration_minutes }
                } else if member_attendance.should_attend() {
                    GradeRule::LateToRequiredEvent { points, minutes_late, duration_minutes }
                } else {
                    GradeRule::LateButNotRequired
                }
            } else if Self::is_bonus_event(member_attendance, context) {
                GradeRule::AttendedBonusEvent { points }
            } else {
                GradeRule::AttendedRequiredEvent
            }
        } else if member_attendance.should_attend() {
            Self::should_have_attended(member_attendance, context, now)
        } else {
            GradeRule::NotExpected
        }
    }
}


impl GradeSheet {
    /// Grades a member's semester: every event of every week gets its rule,
    /// and the volunteer gigs that count are tallied.
    ///
    /// `attendance` is the member's events of the semester with their
    /// attendance, and `now` is the current time.
    pub fn for_member(attendance: &Vec<MemberAttendance>, semester: &Semester, now: i64) -> (sheet: GradeSheet)
        requires
            valid_grading_input(attendance@, *semester),
        ensures
            sheet.entries@ == spec_sheet_entries(attendance@, *semester, now as int),
            sheet.volunteer_gigs_attended == spec_sheet_gigs(attendance@, *semester),
    {
        let ghost s = attendance@;
        let weeks = Self::organize_into_weeks(semester, attendance);
        let mut entries: Vec<GradeEntry> = Vec::new();
        let mut gigs: usize = 0;
        let mut k: usize = 0;
        while k < weeks.len()
            invariant
                s == attendance@,
                valid_grading_input(s, *semester),
                weeks@.len() == week_count_of(s, *semester),
                forall|q: int| 0 <= q < weeks@.len() ==> (#[trigger] weeks@[q])@ == week_of(s, *semester, q),
                0 <= k <= weeks@.len(),
                entries@ == entries_upto(s, *semester, now as int, k as int),
                gigs == gigs_upto(s, *semester, k as int),
                gigs <= entries@.len(),
            decreases weeks@.len() - k,
        {
            let week = &weeks[k];
            let ghost w = week@;
            proof {
                lemma_week_indices_within(s, sunday_of_week(s, *semester, k as int), s.len() as int);
            }
            let context = WeeklyAttendanceContext::for_week(attendance, week);
            let mut j: usize = 0;
            while j < week.len()
                invariant
                    s == attendance@,
                    valid_grading_input(s, *semester),
                    w == week@,
                    w == week_of(s, *semester, k as int),
                    indices_within(w, s.len() as int),
                    context == spec_context(s, w),
                    0 <= j <= w.len(),
                    entries@ == entries_upto(s, *semester, now as int, k as int) + week_entries_upto(
                        s,
                        w,
                        context,
                        now as int,
                        j as int,
                    ),
                    gigs == gigs_upto(s, *semester, k as int) + week_gigs_upto(s, w, context, j as int),
                    gigs <= entries@.len(),
                decreases w.len() - j,
            {
                let i = week[j];
                let member_attendance = &attendance[i];
                assert(*member_attendance == item(s, w, j as int));
                let rule = Self::grade_rule(member_attendance, &context, now);
                let counts = Self::attended_volunteer_gig(member_attendance, &context);
                entries.push(GradeEntry { index: i, rule });
                let graded = entries.len();
                if counts {
                    assert(gigs < graded);
                    gigs = gigs + 1;
                }
                j += 1;
            }
            k += 1;
        }
        GradeSheet { entries, volunteer_gigs_attended: gigs }
    }
}

/// An event that has not happened yet never changes the grade.
pub proof fn law_future_events_do_not_count(
    member_attendance: MemberAttendance,
    context: WeeklyAttendanceContext,
    now: int,
)
    requires
        call_time_of(member_attendance) > now,
    ensures
        spec_grade_rule(member_attendance, context, now) == GradeRule::NotYetHappened,
{
}

/// A missed event with an approved absence request never takes points away.
pub proof fn law_approved_absence_is_not_deducted(
    member_attendance: MemberAttendance,
    context: WeeklyAttendanceContext,
    now: int,
)
    requires
        !spec_did_attend(member_attendance),
        spec_approved_absence(member_attendance),
    ensures
        !is_deduction(spec_grade_rule(member_attendance, context, now)),
{
}

/// A member who was not expected at an event and did not come is not
/// graded for it (once it has happened).
pub proof fn law_optional_absence_is_free(
    member_attendance: MemberAttendance,
    context: WeeklyAttendanceContext,
    now: int,
)
    requires
        call_time_of(member_attendance) <= now,
        !spec_did_attend(member_attendance),
        !spec_should_attend(member_attendance),
    ensures
        spec_grade_rule(member_attendance, context, now) == GradeRule::NotExpected,
{
}

/// Attending an event never takes away more than the event is worth: the
/// only deductions for attended events are the lateness share of the points
/// and, for a tutti gig in a week whose rehearsal was missed, the points.
pub proof fn law_attending_never_counts_as_absence(
    member_attendance: MemberAttendance,
    context: WeeklyAttendanceContext,
    now: int,
)
    requires
        spec_did_attend(member_attendance),
    ensures
        !(spec_grade_rule(member_attendance, context, now) is UnexcusedAbsence),
        spec_grade_rule(member_attendance, context, now) is DeductedForMissedRehearsal
            ==> context.missed_rehearsal && has_type(member_attendance.event.event, TUTTI_GIG),
{
}

/// A volunteer gig only counts toward the requirement if it was attended in
/// a week whose rehearsals were all kept (or excused).
pub proof fn law_gig_credit_needs_rehearsal(
    member_attendance: MemberAttendance,
    context: WeeklyAttendanceContext,
)
    requires
        spec_attended_volunteer_gig(member_attendance, context),
    ensures
        spec_did_attend(member_attendance),
        !context.missed_rehearsal,
        member_attendance.event.event.gig_count,
{
}

// ---------------------------------------------------------------------------
// Every event is graded once
// ---------------------------------------------------------------------------

/// Whether some entry grades the `i`-th event.
pub open spec fn grades_event(entries: Seq<GradeEntry>, i: int) -> bool {
    exists|j: int| 0 <= j < entries.len() && (#[trigger] entries[j]).index == i
}

/// The week of the semester that a point in time falls in (counted from 0
/// at the first Sunday; negative before it).
pub open spec fn week_number(s: Seq<MemberAttendance>, semester: Semester, t: int) -> int {
    (t - spec_first_sunday(s, semester) - 1) / (SECONDS_PER_WEEK as int)
}

proof fn lemma_division_range(x: int, k: int, w: int)
    by (nonlinear_arith)
    requires
        w > 0,
    ensures
        (k * w <= x && x < (k + 1) * w) <==> x / w == k,
{
}

proof fn lemma_in_week_is_week_number(s: Seq<MemberAttendance>, semester: Semester, t: int, k: int)
    ensures
        in_week(t, sunday_of_week(s, semester, k)) <==> week_number(s, semester, t) == k,
{
    let first = spec_first_sunday(s, semester);
    lemma_division_range(t - first - 1, k, SECONDS_PER_WEEK as int);
    assert(sunday_of_week(s, semester, k) == first + k * SECONDS_PER_WEEK);
    assert((k + 1) * (SECONDS_PER_WEEK as int) == k * (SECONDS_PER_WEEK as int) + SECONDS_PER_WEEK) by (nonlinear_arith);
}

proof fn lemma_week_indices_upto(s: Seq<MemberAttendance>, sunday: int, n: int)
    requires
        0 <= n <= s.len() <= usize::MAX,
    ensures
        forall|j: int|
            0 <= j < week_indices_upto(s, sunday, n).len() ==> (#[trigger] week_indices_upto(s, sunday, n)[j]) < n
                && in_week(call_time_of(s[week_indices_upto(s, sunday, n)[j] as int]), sunday),
        forall|j1: int, j2: int|
            0 <= j1 < j2 < week_indices_upto(s, sunday, n).len() ==> (#[trigger] week_indices_upto(s, sunday, n)[j1])
                < (#[trigger] week_indices_upto(s, sunday, n)[j2]),
        forall|i: int|
            0 <= i < n && in_week(call_time_of(#[trigger] s[i]), sunday) ==> week_indices_upto(
                s,
                sunday,
                n,
            ).contains(i as usize),
    decreases n,
{
    if n > 0 {
        lemma_week_indices_upto(s, sunday, n - 1);
        let earlier = week_indices_upto(s, sunday, n - 1);
        let w = week_indices_upto(s, sunday, n);
        if in_week(call_time_of(s[n - 1]), sunday) {
            assert(w == earlier.push((n - 1) as usize));
            assert forall|i: int| 0 <= i < n && in_week(call_time_of(#[trigger] s[i]), sunday) implies w.contains(
                i as usize,
            ) by {
                if i < n - 1 {
                    let j = choose|j: int| 0 <= j < earlier.len() && earlier[j] == i as usize;
                    assert(w[j] == i as usize);
                } else {
                    assert(w[earlier.len() as int] == i as usize);
                }
            }
        } else {
            assert forall|i: int| 0 <= i < n && in_week(call_time_of(#[trigger] s[i]), sunday) implies w.contains(
                i as usize,
            ) by {
                assert(i < n - 1);
            }
        }
    }
}

proof fn lemma_week_entries_indices(
    s: Seq<MemberAttendance>,
    w: Seq<usize>,
    context: WeeklyAttendanceContext,
    now: int,
    m: int,
)
    requires
        0 <= m <= w.len(),
    ensures
        week_entries_upto(s, w, context, now, m).len() == m,
        forall|j: int| 0 <= j < m ==> (#[trigger] week_entries_upto(s, w, context, now, m)[j]).index == w[j],
    decreases m,
{
    if m > 0 {
        lemma_week_entries_indices(s, w, context, now, m - 1);
    }
}

/// What the entries of the first `k` weeks grade: events of those weeks,
/// each at most once, and every event of those weeks.
proof fn lemma_entries_upto(s: Seq<MemberAttendance>, semester: Semester, now: int, k: int)
    requires
        k >= 0,
        s.len() <= usize::MAX,
    ensures
        forall|j: int|
            0 <= j < entries_upto(s, semester, now, k).len() ==> (#[trigger] entries_upto(s, semester, now, k)[j]).index
                < s.len() && 0 <= week_number(
                s,
                semester,
                call_time_of(s[entries_upto(s, semester, now, k)[j].index as int]),
            ) < k,
        forall|j1: int, j2: int|
            0 <= j1 < j2 < entries_upto(s, semester, now, k).len() ==> (#[trigger] entries_upto(
                s,
                semester,
                now,
                k,
            )[j1]).index != (#[trigger] entries_upto(s, semester, now, k)[j2]).index,
        forall|i: int|
            0 <= i < s.len() && 0 <= week_number(s, semester, call_time_of(#[trigger] s[i])) < k ==> grades_event(
                entries_upto(s, semester, now, k),
                i,
            ),
        sorted_by_call_time(s) ==> forall|j1: int, j2: int|
            0 <= j1 < j2 < entries_upto(s, semester, now, k).len() ==> (#[trigger] entries_upto(
                s,
                semester,
                now,
                k,
            )[j1]).index < (#[trigger] entries_upto(s, semester, now, k)[j2]).index,
    decreases k,
{
    if k > 0 {
        lemma_entries_upto(s, semester, now, k - 1);
        let earlier = entries_upto(s, semester, now, k - 1);
        let sunday = sunday_of_week(s, semester, k - 1);
        let w = week_of(s, semester, k - 1);
        let context = spec_context(s, w);
        let block = week_entries_upto(s, w, context, now, w.len() as int);
        let all = entries_upto(s, semester, now, k);
        lemma_week_indices_upto(s, sunday, s.len() as int);
        lemma_week_entries_indices(s, w, context, now, w.len() as int);
        assert(all == earlier + block);
        assert forall|j: int| 0 <= j < block.len() implies (#[trigger] block[j]).index < s.len() && week_number(
            s,
            semester,
            call_time_of(s[block[j].index as int]),
        ) == k - 1 by {
            lemma_in_week_is_week_number(s, semester, call_time_of(s[block[j].index as int]), k - 1);
        }
        assert forall|j: int|
            0 <= j < all.len() implies (#[trigger] all[j]).index < s.len() && 0 <= week_number(
                s,
                semester,
                call_time_of(s[all[j].index as int]),
            ) < k by {
            if j >= earlier.len() {
                assert(all[j] == block[j - earlier.len()]);
            }
        }
        assert forall|j1: int, j2: int| 0 <= j1 < j2 < all.len() implies (#[trigger] all[j1]).index
            != (#[trigger] all[j2]).index by {
            if j2 < earlier.len() {
                assert(all[j1] == earlier[j1] && all[j2] == earlier[j2]);
            } else if j1 >= earlier.len() {
                assert(all[j1] == block[j1 - earlier.len()] && all[j2] == block[j2 - earlier.len()]);
                assert(w[j1 - earlier.len()] < w[j2 - earlier.len()]);
            } else {
                assert(all[j1] == earlier[j1] && all[j2] == block[j2 - earlier.len()]);
            }
        }
        assert forall|i: int|
            0 <= i < s.len() && 0 <= week_number(s, semester, call_time_of(#[trigger] s[i])) < k implies grades_event(
            all,
            i,
        ) by {
            if week_number(s, semester, call_time_of(s[i])) < k - 1 {
                let j = choose|j: int| 0 <= j < earlier.len() && (#[trigger] earlier[j]).index == i;
                assert(all[j] == earlier[j]);
                assert(grades_event(all, i));
            } else {
                lemma_in_week_is_week_number(s, semester, call_time_of(s[i]), k - 1);
                assert(w.contains(i as usize));
                let q = choose|q: int| 0 <= q < w.len() && w[q] == i as usize;
                assert(all[earlier.len() + q] == block[q]);
                assert(grades_event(all, i));
            }
        }
        if sorted_by_call_time(s) {
            assert forall|j1: int, j2: int| 0 <= j1 < j2 < all.len() implies (#[trigger] all[j1]).index
                < (#[trigger] all[j2]).index by {
                if j2 < earlier.len() {
                    assert(all[j1] == earlier[j1] && all[j2] == earlier[j2]);
                } else if j1 >= earlier.len() {
                    assert(all[j1] == block[j1 - earlier.len()] && all[j2] == block[j2 - earlier.len()]);
                    assert(w[j1 - earlier.len()] < w[j2 - earlier.len()]);
                } else {
                    assert(all[j1] == earlier[j1] && all[j2] == block[j2 - earlier.len()]);
                    let a = all[j1].index as int;
                    let b = all[j2].index as int;
                    let first = spec_first_sunday(s, semester);
                    if a >= b {
                        assert(call_time_of(s[b]) <= call_time_of(s[a]));
                        lemma_floor_division_monotone(
                            call_time_of(s[b]) - first - 1,
                            call_time_of(s[a]) - first - 1,
                            SECONDS_PER_WEEK as int,
                        );
                        assert(week_number(s, semester, call_time_of(s[b])) <= week_number(
                            s,
                            semester,
                            call_time_of(s[a]),
                        ));
                    }
                }
            }
        }
    }
}

proof fn lemma_floor_division_monotone(x: int, y: int, w: int)
    by (nonlinear_arith)
    requires
        x <= y,
        w > 0,
    ensures
        x / w <= y / w,
{
}

/// Events sorted by call time.
pub open spec fn sorted_by_call_time(s: Seq<MemberAttendance>) -> bool {
    forall|i: int, j: int| 0 <= i <= j < s.len() ==> call_time_of(#[trigger] s[i]) <= call_time_of(#[trigger] s[j])
}

/// Every event of a semester is graded, none twice, and the entries follow
/// the order of the events, when the events come in order of their call
/// times and the first one is not on a Sunday.
/// (An event calling on a Sunday at the time of day of the semester's
/// first event, when that first event is on a Sunday, falls between weeks
/// and is not graded.)
pub proof fn law_every_event_is_graded_once(s: Seq<MemberAttendance>, semester: Semester, now: int)
    requires
        s.len() <= usize::MAX,
        valid_grading_input(s, semester),
        sorted_by_call_time(s),
        s.len() > 0 ==> days_from_sunday(call_time_of(s[0])) != 0,
    ensures
        forall|i: int| 0 <= i < s.len() ==> #[trigger] grades_event(spec_sheet_entries(s, semester, now), i),
        forall|j1: int, j2: int|
            0 <= j1 < j2 < spec_sheet_entries(s, semester, now).len() ==> (#[trigger] spec_sheet_entries(
                s,
                semester,
                now,
            )[j1]).index != (#[trigger] spec_sheet_entries(s, semester, now)[j2]).index,
        forall|j: int|
            0 <= j < spec_sheet_entries(s, semester, now).len() ==> (#[trigger] spec_sheet_entries(
                s,
                semester,
                now,
            )[j]).index < s.len(),
        forall|j1: int, j2: int|
            0 <= j1 < j2 < spec_sheet_entries(s, semester, now).len() ==> (#[trigger] spec_sheet_entries(
                s,
                semester,
                now,
            )[j1]).index < (#[trigger] spec_sheet_entries(s, semester, now)[j2]).index,
{
    let count = week_count_of(s, semester);
    let first = spec_first_sunday(s, semester);
    let end = spec_end_of_semester(s, semester);
    let week = SECONDS_PER_WEEK as int;
    assert(count >= 1);
    lemma_entries_upto(s, semester, now, count);
    assert forall|i: int| 0 <= i < s.len() implies #[trigger] grades_event(spec_sheet_entries(s, semester, now), i) by {
        let t = call_time_of(s[i]);
        assert(call_time_of(s[0]) <= t && t <= end);
        assert(first < call_time_of(s[0]));
        assert(0 <= t - first - 1);
        assert(end >= first);
        assert(count == (end - first) / week + 1);
        lemma_division_monotone(t - first - 1, end - first, week);
        assert(0 <= (t - first - 1) / week) by (nonlinear_arith)
            requires
                0 <= t - first - 1,
                week > 0,
        ;
        assert(0 <= week_number(s, semester, call_time_of(s[i])) < count);
    }
}

proof fn lemma_division_monotone(x: int, y: int, w: int)
    by (nonlinear_arith)
    requires
        0 <= x <= y,
        w > 0,
    ensures
        x / w <= y / w,
{
}

// ---------------------------------------------------------------------------
// The per-event grading of whole semesters (without weekly contexts)
// ---------------------------------------------------------------------------

/// Whether the member kept this week's rehearsal: what was found, or, when
/// no rehearsal counts, whether this event is itself not a rehearsal.
pub open spec fn rehearsal_kept(event: Event, went_to_rehearsal: Option<bool>) -> bool {
    match went_to_rehearsal {
        Some(went) => went,
        None => !has_type(event, REHEARSAL),
    }
}

/// Whether attending the event earns a bonus, given whether the member went
/// to a sectional that week.
pub open spec fn spec_semester_bonus_event(event: Event, attendance: Attendance, went_to_sectionals: Option<bool>) -> bool {
    ||| has_type(event, VOLUNTEER_GIG)
    ||| has_type(event, OMBUDS)
    ||| (has_type(event, OTHER) && !attendance.should_attend)
    ||| (has_type(event, SECTIONAL) && went_to_sectionals == Some(true))
}

/// The rule for one past event of a semester, given what the member did that
/// week and how many sectionals the week holds.
pub open spec fn spec_semester_rule(
    event: Event,
    attendance: Attendance,
    went_to_sectionals: Option<bool>,
    went_to_rehearsal: Option<bool>,
    sectionals_that_week: int,
) -> GradeRule {
    let points = event.points;
    let bonus = spec_semester_bonus_event(event, attendance, went_to_sectionals);
    if attendance.did_attend {
        if !rehearsal_kept(event, went_to_rehearsal) && spec_is_gig(event) {
            if has_type(event, VOLUNTEER_GIG) {
                GradeRule::BonusDeniedForMissedRehearsal { points }
            } else {
                GradeRule::DeductedForMissedRehearsal { points }
            }
        } else if attendance.minutes_late > 0 && !has_type(event, OMBUDS) {
            let minutes_late = attendance.minutes_late;
            let duration_minutes = spec_lateness_duration(event) as i64;
            if bonus {
                GradeRule::LateToBonusEvent { points, minutes_late, duration_minutes }
            } else if attendance.should_attend {
                GradeRule::LateToRequiredEvent { points, minutes_late, duration_minutes }
            } else {
                GradeRule::LateButNotRequired
            }
        } else if bonus {
            GradeRule::AttendedBonusEvent { points }
        } else {
            GradeRule::AttendedRequiredEvent
        }
    } else if attendance.should_attend {
        if has_type(event, OMBUDS) {
            GradeRule::OmbudsMissed
        } else if has_type(event, SECTIONAL) && went_to_sectionals == Some(true) {
            GradeRule::AttendedOtherSectional
        } else if has_type(event, SECTIONAL) && went_to_sectionals is None && sectionals_that_week > 1 {
            GradeRule::SectionalsPending
        } else {
            GradeRule::UnexcusedAbsence { points }
        }
    } else {
        GradeRule::NotExpected
    }
}

/// Whether a past event is a volunteer gig that counts toward the
/// requirement: attended, counted, in a week whose rehearsal was kept.
pub open spec fn spec_semester_gig(event: Event, attendance: Attendance, went_to_rehearsal: Option<bool>) -> bool {
    attendance.did_attend && rehearsal_kept(event, went_to_rehearsal) && has_type(event, VOLUNTEER_GIG)
        && event.gig_count
}

impl GradeSheet {
    /// The rule for one past event of a semester (see [`spec_semester_rule`]).
    pub fn semester_rule(
        event: &Event,
        attendance: &Attendance,
        went_to_sectionals: Option<bool>,
        went_to_rehearsal: Option<bool>,
        sectionals_that_week: usize,
    ) -> (rule: GradeRule)
        requires
            valid_event(*event),
        ensures
            rule == spec_semester_rule(
                *event,
                *attendance,
                went_to_sectionals,
                went_to_rehearsal,
                sectionals_that_week as int,
            ),
    {
        let points = event.points;
        let is_sectional = event.is_type(SECTIONAL);
        let is_ombuds = event.is_type(OMBUDS);
        let bonus = event.is_type(VOLUNTEER_GIG) || is_ombuds || (event.is_type(OTHER)
            && !attendance.should_attend) || (is_sectional && match went_to_sectionals {
            Some(went) => went,
            None => false,
        });
        if attendance.did_attend {
            let kept = match went_to_rehearsal {
                Some(went) => went,
                None => !event.is_type(REHEARSAL),
            };
            if !kept && event.is_gig() {
                if event.is_type(VOLUNTEER_GIG) {
                    GradeRule::BonusDeniedForMissedRehearsal { points }
                } else {
                    GradeRule::DeductedForMissedRehearsal { points }
                }
            } else if attendance.minutes_late > 0 && !is_ombuds {
                let minutes_late = attendance.minutes_late;
                let duration_minutes = Self::lateness_duration(event);
                if bonus {
                    GradeRule::LateToBonusEvent { points, minutes_late, duration_minutes }
                } else if attendance.should_attend {
                    GradeRule::LateToRequiredEvent { points, minutes_late, duration_minutes }
                } else {
                    GradeRule::LateButNotRequired
                }
            } else if bonus {
                GradeRule::AttendedBonusEvent { points }
            } else {
                GradeRule::AttendedRequiredEvent
            }
        } else if attendance.should_attend {
            if is_ombuds {
                GradeRule::OmbudsMissed
            } else if is_sectional && went_to_sectionals == Some(true) {
                GradeRule::AttendedOtherSectional
            } else if is_sectional && went_to_sectionals.is_none() && sectionals_that_week > 1 {
                GradeRule::SectionalsPending
            } else {
                GradeRule::UnexcusedAbsence { points }
            }
        } else {
            GradeRule::NotExpected
        }
    }

    /// Whether a past event is a volunteer gig that counts toward the
    /// requirement.
    pub fn semester_gig(event: &Event, attendance: &Attendance, went_to_rehearsal: Option<bool>) -> (r: bool)
        ensures
            r == spec_semester_gig(*event, *attendance, went_to_rehearsal),
    {
        let kept = match went_to_rehearsal {
            Some(went) => went,
            None => !event.is_type(REHEARSAL),
        };
        attendance.did_attend && kept && event.is_type(VOLUNTEER_GIG) && event.gig_count
    }
}

/// Whether the semester and every event lie where the calendar can
/// represent them, as grading needs.
pub fn is_valid_grading_input(attendance: &Vec<MemberAttendance>, semester: &Semester) -> (valid: bool)
    ensures
        valid == valid_grading_input(attendance@, *semester),
{
    if !is_valid_time(semester.start_date) || !is_valid_time(semester.end_date) {
        return false;
    }
    let mut i: usize = 0;
    while i < attendance.len()
        invariant
            0 <= i <= attendance@.len(),
            forall|q: int| 0 <= q < i ==> valid_event(#[trigger] attendance@[q].event.event),
        decreases attendance@.len() - i,
    {
        if !attendance[i].event.event.is_valid() {
            return false;
        }
        i += 1;
    }
    true
}

// ---------------------------------------------------------------------------
// Laws of the sectional rules
// ---------------------------------------------------------------------------

/// The first sectional of a week that the member missed without excuse is
/// deducted in full when no sectional of the week was attended and no later
/// sectional is still to come: being the first missed one, it is not
/// excused as already lost.
pub proof fn law_first_missed_sectional_is_deducted(ma: MemberAttendance, context: WeeklyAttendanceContext, now: int)
    requires
        has_type(ma.event.event, SECTIONAL),
        spec_should_attend(ma),
        !spec_did_attend(ma),
        !spec_approved_absence(ma),
        ma.event.event.call_time <= now,
        !context.attended_sectionals,
        context.missed_sectional == Some(ma.event.event.call_time),
        context.last_sectional matches Some(t) ==> t <= now,
    ensures
        spec_grade_rule(ma, context, now) == (GradeRule::UnexcusedAbsence { points: ma.event.event.points }),
        is_deduction(spec_grade_rule(ma, context, now)),
{
    lemma_event_types_differ();
}

/// A member who attended a sectional in a week is never deducted for
/// missing another sectional of that week.
pub proof fn law_attended_sectional_excuses_the_others(ma: MemberAttendance, context: WeeklyAttendanceContext, now: int)
    requires
        has_type(ma.event.event, SECTIONAL),
        !spec_did_attend(ma),
        context.attended_sectionals,
    ensures
        !is_deduction(spec_grade_rule(ma, context, now)),
        spec_should_attend(ma) && ma.event.event.call_time <= now ==> spec_grade_rule(ma, context, now)
            == GradeRule::AttendedOtherSectional,
{
    lemma_event_types_differ();
}

proof fn lemma_first_missed_sectional_found(s: Seq<MemberAttendance>, w: Seq<usize>, j: int)
    requires
        0 <= j,
        first_missed_sectional_from(s, w, j) is Some,
    ensures
        exists|k: int|
            j <= k < w.len() && is_missed_sectional(#[trigger] item(s, w, k)) && first_missed_sectional_from(s, w, j)
                == Some(item(s, w, k).event.event.call_time),
    decreases w.len() - j,
{
    if !is_missed_sectional(item(s, w, j)) {
        lemma_first_missed_sectional_found(s, w, j + 1);
    }
}

proof fn lemma_last_sectional_found(s: Seq<MemberAttendance>, w: Seq<usize>, n: int)
    requires
        last_sectional_upto(s, w, n) is Some,
    ensures
        exists|k: int|
            0 <= k < n && last_sectional_upto(s, w, n) == Some((#[trigger] item(s, w, k)).event.event.call_time),
    decreases n,
{
    if !has_type(item(s, w, n - 1).event.event, SECTIONAL) {
        lemma_last_sectional_found(s, w, n - 1);
    }
}

/// A week graded after its events, in which the member missed a sectional
/// without excuse and attended none, costs points: some event of the week
/// is deducted.
pub proof fn law_missed_sectional_week_costs_points(s: Seq<MemberAttendance>, w: Seq<usize>, now: int)
    requires
        indices_within(w, s.len() as int),
        exists|j: int| 0 <= j < w.len() && is_missed_sectional(#[trigger] item(s, w, j)),
        !spec_attended_sectionals(s, w),
        forall|j: int| 0 <= j < w.len() ==> (#[trigger] item(s, w, j)).event.event.call_time <= now,
    ensures
        exists|j: int| 0 <= j < w.len() && is_deduction(#[trigger] spec_grade_rule(item(s, w, j), spec_context(s, w), now)),
{
    let j = choose|j: int| 0 <= j < w.len() && is_missed_sectional(#[trigger] item(s, w, j));
    lemma_first_missed_sectional_not_none(s, w, 0, j);
    lemma_first_missed_sectional_found(s, w, 0);
    let k = choose|k: int|
        0 <= k < w.len() && is_missed_sectional(#[trigger] item(s, w, k)) && first_missed_sectional_from(s, w, 0)
            == Some(item(s, w, k).event.event.call_time);
    let context = spec_context(s, w);
    let ma = item(s, w, k);
    if context.last_sectional is Some {
        lemma_last_sectional_found(s, w, w.len() as int);
        let q = choose|q: int|
            0 <= q < w.len() && last_sectional_upto(s, w, w.len() as int) == Some(
                (#[trigger] item(s, w, q)).event.event.call_time,
            );
        assert(item(s, w, q).event.event.call_time <= now);
    }
    assert(ma.event.event.call_time <= now);
    law_first_missed_sectional_is_deducted(ma, context, now);
    assert(is_deduction(spec_grade_rule(item(s, w, k), spec_context(s, w), now)));
}

proof fn lemma_first_missed_sectional_not_none(s: Seq<MemberAttendance>, w: Seq<usize>, i: int, j: int)
    requires
        0 <= i <= j < w.len(),
        is_missed_sectional(item(s, w, j)),
    ensures
        first_missed_sectional_from(s, w, i) is Some,
    decreases j - i,
{
    if i < j && !is_missed_sectional(item(s, w, i)) {
        lemma_first_missed_sectional_not_none(s, w, i + 1, j);
    }
}

/// In the per-event grading of a semester, a member who attended a
/// sectional in the week is never deducted for missing another sectional of
/// that week: an expected one is excused as attended elsewhere.
pub proof fn law_semester_attended_sectional_excuses_the_others(
    event: Event,
    attendance: Attendance,
    went_to_rehearsal: Option<bool>,
    sectionals_that_week: int,
)
    requires
        has_type(event, SECTIONAL),
        !attendance.did_attend,
    ensures
        !is_deduction(spec_semester_rule(event, attendance, Some(true), went_to_rehearsal, sectionals_that_week)),
        attendance.should_attend ==> spec_semester_rule(
            event,
            attendance,
            Some(true),
            went_to_rehearsal,
            sectionals_that_week,
        ) == GradeRule::AttendedOtherSectional,
{
    lemma_event_types_differ();
}

} // verus!
