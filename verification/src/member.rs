//! Members, the semesters they are active in, and the rules for registering,
//! updating and grading them.

use crate::attendance::{AbsenceRequest, Attendance};
use crate::datetime::{local_now, EARLIEST_CLOCK_TIME, LATEST_CLOCK_TIME};
use crate::event::{sectional_positions, REHEARSAL, SECTIONAL, spec_went_to_event_type, valid_event, Event, EventWithGig};
use crate::grades::{spec_semester_gig, spec_semester_rule, GradeEntry, GradeSheet};
use crate::error::GreaseError;
use crate::semester::Semester;
use crate::text::{concat3, copy_opt_string, owned, str_eq};
use vstd::prelude::*;

verus! {

/// A member of the club.
#[derive(Debug)]
pub struct Member {
    /// The member's email, which must be unique.
    pub email: String,
    /// The member's first name.
    pub first_name: String,
    /// The name the member goes by, if not their first name.
    pub preferred_name: Option<String>,
    /// The member's last name.
    pub last_name: String,
    /// The hash of the member's password.
    pub pass_hash: String,
    /// The member's phone number.
    pub phone_number: String,
    /// A link to a profile picture.
    pub picture: Option<String>,
    /// How many people the member can drive.
    pub passengers: i32,
    /// Where the member lives.
    pub location: String,
    /// Whether the member lives on campus.
    pub on_campus: Option<bool>,
    /// The member's bio.
    pub about: Option<String>,
    /// The member's major.
    pub major: Option<String>,
    /// The member's minor.
    pub minor: Option<String>,
    /// Where the member comes from.
    pub hometown: Option<String>,
    /// The year the member arrived at Tech.
    pub arrived_at_tech: Option<i32>,
    /// What got the member into the club.
    pub gateway_drug: Option<String>,
    /// The member's schedule conflicts.
    pub conflicts: Option<String>,
    /// The member's dietary restrictions.
    pub dietary_restrictions: Option<String>,
}

/// Whether a member sings in the class or only in the club.
#[derive(Debug, Clone, Copy, PartialEq, Eq, Structural)]
pub enum Enrollment {
    /// Enrolled in the class.
    Class,
    /// Only in the club.
    Club,
}

/// The text that stands for each [`Enrollment`].
pub open spec fn enrollment_text(value: Enrollment) -> Seq<char> {
    match value {
        Enrollment::Class => "class"@,
        Enrollment::Club => "club"@,
    }
}

impl Enrollment {
    /// The text that stands for this value.
    pub fn as_str(&self) -> (text: &'static str)
        ensures
            text@ == enrollment_text(*self),
    {
        match self {
            Enrollment::Class => "class",
            Enrollment::Club => "club",
        }
    }

    /// The value that `text` stands for, if any.
    pub fn parse(text: &str) -> (value: Option<Enrollment>)
        ensures
            match value {
                Some(v) => enrollment_text(v) == text@,
                None => forall|v: Enrollment| enrollment_text(v) != text@,
            },
    {
        if str_eq(text, "class") {
            return Some(Enrollment::Class);
        }
        if str_eq(text, "club") {
            return Some(Enrollment::Club);
        }
        proof {
            assert forall|v: Enrollment| enrollment_text(v) != text@ by {
                reveal_strlit("class");
                reveal_strlit("club");
            }
        }
        None
    }
}

/// No two enrollments share a text, so reading back an enrollment's text gives it.
pub proof fn law_enrollment_text_is_unambiguous(a: Enrollment, b: Enrollment)
    ensures
        enrollment_text(a) == enrollment_text(b) ==> a == b,
{
    reveal_strlit("class");
    reveal_strlit("club");
    assert({
        let text = enrollment_text(Enrollment::Class);
        text.len() == 5 && text[0] == 'c' && text[1] == 'l' && text[2] == 'a'
    });
    assert({
        let text = enrollment_text(Enrollment::Club);
        text.len() == 4 && text[0] == 'c' && text[1] == 'l' && text[2] == 'u'
    });
}

/// A semester a member was active in.
#[derive(Debug)]
pub struct ActiveSemester {
    /// The email of the member.
    pub member: String,
    /// The name of the semester.
    pub semester: String,
    /// Whether the member was in the class or the club.
    pub enrollment: Enrollment,
    /// The section the member sang in.
    pub section: Option<String>,
}

/// A member and, if they are active in it, their record for a semester.
#[derive(Debug)]
pub struct MemberForSemester {
    /// The member.
    pub member: Member,
    /// Their record for the semester, if they are active in it.
    pub active_semester: Option<ActiveSemester>,
}

/// The graded past events of a member's semester, with the gig tally.
#[derive(Debug)]
pub struct SemesterGrades {
    /// The graded events, in order.
    pub changes: Vec<GradeEntry>,
    /// How many volunteer gigs counted toward the requirement.
    pub volunteer_gigs_attended: usize,
    /// How many volunteer gigs the semester requires.
    pub gig_requirement: usize,
    /// Whether the semester is over.
    pub semester_is_finished: bool,
}

/// How many events at the start of the list happened before `now`.
pub open spec fn past_prefix_len(pairs: Seq<(EventWithGig, Attendance)>, now: int) -> int {
    choose|m: int|
        0 <= m <= pairs.len() && (forall|i: int| 0 <= i < m ==> (#[trigger] pairs[i]).0.event.call_time < now)
            && (m == pairs.len() || pairs[m].0.event.call_time >= now)
}

/// The rule for the `i`-th event of the member's semester.
pub open spec fn semester_entry(
    pairs: Seq<(EventWithGig, Attendance)>,
    requests: Seq<AbsenceRequest>,
    all_events: Seq<Event>,
    now: int,
    i: int,
) -> GradeEntry {
    let event = pairs[i].0.event;
    GradeEntry {
        index: i as usize,
        rule: spec_semester_rule(
            event,
            pairs[i].1,
            spec_went_to_event_type(event, pairs, requests, SECTIONAL@, now),
            spec_went_to_event_type(event, pairs, requests, REHEARSAL@, now),
            sectional_positions(event, all_events).len() as int,
        ),
    }
}

/// How many of the first `n` events are volunteer gigs that count.
pub open spec fn semester_gigs_upto(
    pairs: Seq<(EventWithGig, Attendance)>,
    requests: Seq<AbsenceRequest>,
    now: int,
    n: int,
) -> int
    decreases n,
{
    if n <= 0 {
        0
    } else {
        let event = pairs[n - 1].0.event;
        semester_gigs_upto(pairs, requests, now, n - 1) + if spec_semester_gig(
            event,
            pairs[n - 1].1,
            spec_went_to_event_type(event, pairs, requests, REHEARSAL@, now),
        ) {
            1int
        } else {
            0int
        }
    }
}

impl Member {
    /// Grades the member's semester as of time `now`: every event from the
    /// start of the list that already happened gets its rule, and the
    /// volunteer gigs that count are tallied.
    ///
    /// `event_attendance_pairs` is the member's events of the semester with
    /// their attendance, `absence_requests` the member's requests for them,
    /// and `all_events` the events of the semester, from which the
    /// sectionals of each week are counted.
    pub fn calc_grades_at(
        &self,
        event_attendance_pairs: &Vec<(EventWithGig, Attendance)>,
        semester: &Semester,
        absence_requests: &Vec<AbsenceRequest>,
        all_events: &Vec<Event>,
        now: i64,
    ) -> (grades: SemesterGrades)
        requires
            forall|i: int|
                0 <= i < event_attendance_pairs@.len() ==> valid_event(
                    (#[trigger] event_attendance_pairs@[i]).0.event,
                ),
        ensures
            grades.changes@.len() == past_prefix_len(event_attendance_pairs@, now as int),
            forall|i: int|
                0 <= i < grades.changes@.len() ==> (#[trigger] grades.changes@[i]) == semester_entry(
                    event_attendance_pairs@,
                    absence_requests@,
                    all_events@,
                    now as int,
                    i,
                ),
            grades.volunteer_gigs_attended == semester_gigs_upto(
                event_attendance_pairs@,
                absence_requests@,
                now as int,
                grades.changes@.len() as int,
            ),
            grades.gig_requirement == semester.gig_requirement as usize,
            grades.semester_is_finished == (semester.end_date < now),
    {
        let ghost pairs = event_attendance_pairs@;
        let ghost requests = absence_requests@;
        let mut changes: Vec<GradeEntry> = Vec::new();
        let mut gigs: usize = 0;
        let mut i: usize = 0;
        while i < event_attendance_pairs.len() && event_attendance_pairs[i].0.event.call_time < now
            invariant
                pairs == event_attendance_pairs@,
                requests == absence_requests@,
                forall|q: int| 0 <= q < pairs.len() ==> valid_event((#[trigger] pairs[q]).0.event),
                0 <= i <= pairs.len(),
                forall|q: int| 0 <= q < i ==> (#[trigger] pairs[q]).0.event.call_time < now,
                changes@.len() == i,
                forall|q: int|
                    0 <= q < i ==> (#[trigger] changes@[q]) == semester_entry(
                        pairs,
                        requests,
                        all_events@,
                        now as int,
                        q,
                    ),
                gigs == semester_gigs_upto(pairs, requests, now as int, i as int),
                gigs <= i,
            decreases pairs.len() - i,
        {
            let (event_with_gig, attendance) = &event_attendance_pairs[i];
            let event = &event_with_gig.event;
            let went_to_sectionals = event.went_to_event_type_during_week_of_at(
                event_attendance_pairs,
                absence_requests,
                SECTIONAL,
                now,
            );
            let went_to_rehearsal = event.went_to_event_type_during_week_of_at(
                event_attendance_pairs,
                absence_requests,
                REHEARSAL,
                now,
            );
            let rule = GradeSheet::semester_rule(
                event,
                attendance,
                went_to_sectionals,
                went_to_rehearsal,
                event.load_sectionals_the_week_of(all_events).len(),
            );
            if GradeSheet::semester_gig(event, attendance, went_to_rehearsal) {
                gigs = gigs + 1;
            }
            changes.push(GradeEntry { index: i, rule });
            i += 1;
        }
        proof {
            let m = i as int;
            assert(0 <= m <= pairs.len() && (forall|q: int| 0 <= q < m ==> (#[trigger] pairs[q]).0.event.call_time < now)
                && (m == pairs.len() || pairs[m].0.event.call_time >= now));
            let c = past_prefix_len(pairs, now as int);
            if c < m {
                assert(pairs[c].0.event.call_time < now);
            } else if c > m {
                assert(pairs[m].0.event.call_time < now);
            }
        }
        SemesterGrades {
            changes,
            volunteer_gigs_attended: gigs,
            gig_requirement: semester.gig_requirement as usize,
            semester_is_finished: semester.end_date < now,
        }
    }

    /// Grades the member's semester as of the current local time.
    pub fn calc_grades(
        &self,
        event_attendance_pairs: &Vec<(EventWithGig, Attendance)>,
        semester: &Semester,
        absence_requests: &Vec<AbsenceRequest>,
        all_events: &Vec<Event>,
    ) -> (grades: SemesterGrades)
        requires
            forall|i: int|
                0 <= i < event_attendance_pairs@.len() ==> valid_event(
                    (#[trigger] event_attendance_pairs@[i]).0.event,
                ),
        ensures
            exists|now: int|
                {
                    &&& EARLIEST_CLOCK_TIME <= now <= LATEST_CLOCK_TIME
                    &&& grades.changes@.len() == past_prefix_len(event_attendance_pairs@, now)
                    &&& forall|i: int|
                        0 <= i < grades.changes@.len() ==> (#[trigger] grades.changes@[i]) == semester_entry(
                            event_attendance_pairs@,
                            absence_requests@,
                            all_events@,
                            now,
                            i,
                        )
                    &&& grades.volunteer_gigs_attended == semester_gigs_upto(
                        event_attendance_pairs@,
                        absence_requests@,
                        now,
                        grades.changes@.len() as int,
                    )
                    &&& grades.semester_is_finished == (semester.end_date < now)
                },
            grades.gig_requirement == semester.gig_requirement as usize,
    {
        let now = local_now();
        self.calc_grades_at(event_attendance_pairs, semester, absence_requests, all_events, now)
    }
}


/// Whether bcrypt accepts `password` against the stored `hash`: the hash is
/// well formed and re-hashing the password with its salt and cost gives it.
pub uninterp spec fn spec_password_matches(password: Seq<char>, hash: Seq<char>) -> bool;

/// Checks a password against a stored bcrypt hash.
///
/// Calls `bcrypt::verify(password, hash)` and reads an error (a malformed
/// hash) as "no match". Trusted to depend on the two texts alone: bcrypt
/// takes the salt and cost from the hash itself.
#[verifier::external_body]
fn password_matches(password: &str, hash: &str) -> (matches: bool)
    ensures
        matches == spec_password_matches(password@, hash@),
{
    bcrypt::verify(password, hash).unwrap_or(false)
}

/// Hashes a password with bcrypt at cost 10.
///
/// Calls `bcrypt::hash(password, 10)`; on failure returns the error's text.
/// The salt is random, so nothing names the hash; what is trusted is that a
/// returned hash verifies against the password, since bcrypt's check
/// re-hashes with the salt and cost that the hash carries.
#[verifier::external_body]
pub(crate) fn hash_password(password: &str) -> (hashed: Result<String, String>)
    ensures
        hashed matches Ok(h) ==> spec_password_matches(password@, h@),
{
    match bcrypt::hash(password, 10) {
        Ok(h) => Ok(h),
        Err(err) => Err(err.to_string()),
    }
}

/// The message for a lookup of an email that no member has.
pub open spec fn no_member_message(email: Seq<char>) -> Seq<char> {
    "No member with the email "@ + email + "."@
}

/// The message for changing one's email to a taken one.
pub open spec fn email_taken_message(email: Seq<char>) -> Seq<char> {
    "Cannot change email to "@ + email + ", as another user has that email."@
}

/// The message for changing someone else's password.
pub open spec fn not_own_password_message() -> Seq<char> {
    "Only members themselves can change their own passwords."@
}

/// The start of the message for a password that could not be hashed.
pub open spec fn hash_failure_prefix() -> Seq<char> {
    "Unable to generate a hash from the given password: "@
}

/// The message for registering a member whose email is taken.
pub open spec fn member_exists_message(email: Seq<char>) -> Seq<char> {
    "A member already exists with the email "@ + email + "."@
}

/// The message for registering without a password hash.
pub open spec fn pass_hash_required_message() -> Seq<char> {
    "The `passHash` field is required for new member registration."@
}

/// The message for registering as inactive.
pub open spec fn inactive_registration_message() -> Seq<char> {
    "New members cannot enroll as inactive."@
}

/// The message for confirming a semester twice.
pub open spec fn already_active_message(email: Seq<char>) -> Seq<char> {
    "Member with email "@ + email + " is already active for the current semester."@
}

/// The fields of a member that a registration form or a profile update
/// carries.
#[derive(Debug)]
pub struct NewMember {
    /// The member's email.
    pub email: String,
    /// The member's first name.
    pub first_name: String,
    /// The name the member goes by.
    pub preferred_name: Option<String>,
    /// The member's last name.
    pub last_name: String,
    /// The password hash, or the new password on an update.
    pub pass_hash: Option<String>,
    /// The member's phone number.
    pub phone_number: String,
    /// A link to a profile picture.
    pub picture: Option<String>,
    /// How many people the member can drive.
    pub passengers: i32,
    /// Where the member lives.
    pub location: String,
    /// Whether the member lives on campus.
    pub on_campus: Option<bool>,
    /// The member's bio.
    pub about: Option<String>,
    /// The member's major.
    pub major: Option<String>,
    /// The member's minor.
    pub minor: Option<String>,
    /// Where the member comes from.
    pub hometown: Option<String>,
    /// The year the member arrived at Tech.
    pub arrived_at_tech: Option<i32>,
    /// What got the member into the club.
    pub gateway_drug: Option<String>,
    /// The member's schedule conflicts.
    pub conflicts: Option<String>,
    /// The member's dietary restrictions.
    pub dietary_restrictions: Option<String>,
    /// The enrollment for the current semester; `None` for inactive.
    pub enrollment: Option<Enrollment>,
    /// The section for the current semester.
    pub section: Option<String>,
}

/// A change to a member's record for a semester.
#[derive(Debug)]
pub struct ActiveSemesterUpdate {
    /// The new enrollment; `None` makes the member inactive.
    pub enrollment: Option<Enrollment>,
    /// The new section; `None` keeps the old one.
    pub section: Option<String>,
}

/// What a member fills in to confirm activity for the current semester.
#[derive(Debug)]
pub struct RegisterForSemesterForm {
    /// Where the member lives.
    pub location: String,
    /// Whether the member lives on campus.
    pub on_campus: Option<bool>,
    /// The member's schedule conflicts.
    pub conflicts: Option<String>,
    /// The member's dietary restrictions.
    pub dietary_restrictions: Option<String>,
    /// Class or club.
    pub enrollment: Enrollment,
    /// The section the member sings in.
    pub section: String,
}

/// A member's profile and current-semester record after an update.
#[derive(Debug)]
pub struct MemberUpdate {
    /// The member's profile as stored afterwards.
    pub member: Member,
    /// The member's record for the current semester afterwards, if any.
    pub active_semester: Option<ActiveSemester>,
}

/// A member's record for a semester after an update: a new enrollment keeps
/// or creates the record (keeping the old section unless a new one is
/// given), and no enrollment removes it.
pub open spec fn spec_active_semester_after(
    member: Seq<char>,
    semester: Seq<char>,
    existing: Option<ActiveSemester>,
    update: ActiveSemesterUpdate,
) -> Option<(Seq<char>, Seq<char>, Enrollment, Option<String>)> {
    match update.enrollment {
        None => None,
        Some(enrollment) => match existing {
            Some(a) => Some(
                (
                    a.member@,
                    a.semester@,
                    enrollment,
                    match update.section {
                        Some(s) => Some(s),
                        None => a.section,
                    },
                ),
            ),
            None => Some((member, semester, enrollment, update.section)),
        },
    }
}

/// The plain values of an optional semester record.
pub open spec fn active_view(a: Option<ActiveSemester>) -> Option<(Seq<char>, Seq<char>, Enrollment, Option<String>)> {
    match a {
        Some(a) => Some((a.member@, a.semester@, a.enrollment, a.section)),
        None => None,
    }
}

/// Whether `member` is `existing` after an update with `update`: every
/// field the update carries, except that the member keeps whether they
/// live on campus, and the password hash `pass_hash`.
pub open spec fn is_updated_member(member: Member, existing: Member, update: NewMember, pass_hash: Seq<char>) -> bool {
    &&& member.email == update.email
    &&& member.first_name == update.first_name
    &&& member.preferred_name == update.preferred_name
    &&& member.last_name == update.last_name
    &&& member.pass_hash@ == pass_hash
    &&& member.phone_number == update.phone_number
    &&& member.picture == update.picture
    &&& member.passengers == update.passengers
    &&& member.location == update.location
    &&& member.on_campus == existing.on_campus
    &&& member.about == update.about
    &&& member.major == update.major
    &&& member.minor == update.minor
    &&& member.hometown == update.hometown
    &&& member.arrived_at_tech == update.arrived_at_tech
    &&& member.gateway_drug == update.gateway_drug
    &&& member.conflicts == update.conflicts
    &&& member.dietary_restrictions == update.dietary_restrictions
}

impl ActiveSemester {
    /// Applies an update to a member's record for a semester, given the
    /// record as it is (`existing`, for member `given_member` in semester
    /// `given_semester`); returns the record afterwards.
    pub fn update(
        given_member: &str,
        given_semester: &str,
        existing: Option<ActiveSemester>,
        updated_semester: ActiveSemesterUpdate,
    ) -> (after: Option<ActiveSemester>)
        ensures
            active_view(after) == spec_active_semester_after(given_member@, given_semester@, existing, updated_semester),
    {
        match updated_semester.enrollment {
            None => None,
            Some(enrollment) => match existing {
                Some(a) => {
                    let section = match updated_semester.section {
                        Some(s) => Some(s),
                        None => a.section,
                    };
                    Some(ActiveSemester { member: a.member, semester: a.semester, enrollment, section })
                },
                None => Some(
                    ActiveSemester {
                        member: owned(given_member),
                        semester: owned(given_semester),
                        enrollment,
                        section: updated_semester.section,
                    },
                ),
            },
        }
    }
}

fn bad_request(message: String) -> (error: GreaseError)
    ensures
        error == GreaseError::BadRequest(message),
{
    GreaseError::BadRequest(message)
}

/// A member's registration for the current semester: the profile fields it
/// changes and the new record.
#[derive(Debug)]
pub struct SemesterRegistration {
    /// Where the member lives now.
    pub location: String,
    /// The member's schedule conflicts now.
    pub conflicts: Option<String>,
    /// The member's dietary restrictions now.
    pub dietary_restrictions: Option<String>,
    /// The member's record for the current semester.
    pub active_semester: ActiveSemester,
}

/// The message for a second record of a member in one semester.
pub open spec fn already_in_semester_message(member: Seq<char>, semester: Seq<char>) -> Seq<char> {
    "The member with email "@ + member + " already is active in semester "@ + semester + "."@
}

/// The message for creating a member whose email is taken.
pub open spec fn member_with_email_exists_message(email: Seq<char>) -> Seq<char> {
    "A member with the email "@ + email + " already exists."@
}

impl Member {
    /// The member found for `given_email`, or the error for a missing one.
    pub fn load(given_email: &str, found: Option<Member>) -> (result: Result<Member, GreaseError>)
        ensures
            found matches Some(m) ==> result == Ok::<Member, GreaseError>(m),
            found is None ==> (result matches Err(GreaseError::BadRequest(m)) && m@ == no_member_message(given_email@)),
    {
        match found {
            Some(m) => Ok(m),
            None => Err(bad_request(concat3("No member with the email ", given_email, "."))),
        }
    }

    /// The member found for an email, kept only if `given_pass_hash` opens
    /// their stored hash.
    pub fn check_login(found: Option<Member>, given_pass_hash: &str) -> (result: Option<Member>)
        ensures
            result == spec_check_login(found, given_pass_hash@),
    {
        match found {
            None => None,
            Some(m) => {
                if password_matches(given_pass_hash, m.pass_hash.as_str()) {
                    Some(m)
                } else {
                    None
                }
            },
        }
    }

    /// The stored profile and current-semester record of the member with
    /// email `given_email` after `update`.
    ///
    /// `member_with_given_email` is the member stored under `given_email`,
    /// `current_semester` the name of the current semester and
    /// `current_record` the member's record for it. A new password is
    /// hashed, and only the member themselves (`as_self`) may set one.
    /// `new_email_taken` says whether a member is stored under the new email;
    /// changing the email to one another member holds is refused. The email
    /// is one of the fields a member update carries, and the refusal says
    /// that another user has the email, so it is the new email that is
    /// looked up: a member whose new email is free may change it.
    pub fn update(
        given_email: &str,
        as_self: bool,
        update: NewMember,
        new_email_taken: bool,
        member_with_given_email: Option<Member>,
        current_semester: &str,
        current_record: Option<ActiveSemester>,
    ) -> (result: Result<MemberUpdate, GreaseError>)
        ensures
            given_email@ != update.email@ && new_email_taken ==> (result matches Err(GreaseError::BadRequest(m))
                && m@ == email_taken_message(update.email@)),
            email_change_allowed(given_email@, update.email@, new_email_taken) && member_with_given_email is None
                ==> (result matches Err(GreaseError::BadRequest(m)) && m@ == no_member_message(given_email@)),
            email_change_allowed(given_email@, update.email@, new_email_taken) && member_with_given_email is Some
                && update.pass_hash is Some && !as_self ==> (result matches Err(GreaseError::BadRequest(m)) && m@
                == not_own_password_message()),
            email_change_allowed(given_email@, update.email@, new_email_taken) && member_with_given_email is Some
                && update.pass_hash is None ==> (result matches Ok(u) && is_updated_member(
                u.member,
                member_with_given_email->0,
                update,
                (member_with_given_email->0).pass_hash@,
            ) && active_view(u.active_semester) == spec_active_semester_after(
                update.email@,
                current_semester@,
                current_record,
                (ActiveSemesterUpdate { enrollment: update.enrollment, section: update.section }),
            )),
            email_change_allowed(given_email@, update.email@, new_email_taken) && member_with_given_email is Some
                && update.pass_hash is Some && as_self ==> (match result {
                Ok(u) => is_updated_member(u.member, member_with_given_email->0, update, u.member.pass_hash@)
                    && spec_password_matches((update.pass_hash->0)@, u.member.pass_hash@) && active_view(
                    u.active_semester,
                ) == spec_active_semester_after(
                    update.email@,
                    current_semester@,
                    current_record,
                    (ActiveSemesterUpdate { enrollment: update.enrollment, section: update.section }),
                ),
                Err(GreaseError::BadRequest(m)) => exists|reason: Seq<char>| m@ == hash_failure_prefix() + reason,
                Err(_) => false,
            }),
    {
        if !str_eq(given_email, update.email.as_str()) && new_email_taken {
            return Err(
                bad_request(concat3("Cannot change email to ", update.email.as_str(), ", as another user has that email.")),
            );
        }
        let existing = match member_with_given_email {
            None => {
                return Err(bad_request(concat3("No member with the email ", given_email, ".")));
            },
            Some(m) => m,
        };
        let NewMember {
            email,
            first_name,
            preferred_name,
            last_name,
            pass_hash,
            phone_number,
            picture,
            passengers,
            location,
            on_campus: _,
            about,
            major,
            minor,
            hometown,
            arrived_at_tech,
            gateway_drug,
            conflicts,
            dietary_restrictions,
            enrollment,
            section,
        } = update;
        let member_pass_hash = match pass_hash {
            Some(password) => {
                if as_self {
                    match hash_password(password.as_str()) {
                        Ok(h) => h,
                        Err(reason) => {
                            let message = concat3(
                                "Unable to generate a hash from the given password: ",
                                reason.as_str(),
                                "",
                            );
                            proof {
                                reveal_strlit("");
                                assert(message@ == hash_failure_prefix() + reason@);
                            }
                            return Err(bad_request(message));
                        },
                    }
                } else {
                    return Err(bad_request(owned("Only members themselves can change their own passwords.")));
                }
            },
            None => existing.pass_hash,
        };
        let record = ActiveSemester::update(
            email.as_str(),
            current_semester,
            current_record,
            ActiveSemesterUpdate { enrollment, section },
        );
        let member = Member {
            email,
            first_name,
            preferred_name,
            last_name,
            pass_hash: member_pass_hash,
            phone_number,
            picture,
            passengers,
            location,
            on_campus: existing.on_campus,
            about,
            major,
            minor,
            hometown,
            arrived_at_tech,
            gateway_drug,
            conflicts,
            dietary_restrictions,
        };
        Ok(MemberUpdate { member, active_semester: record })
    }
}

/// Whether a member's email may change from `given_email` to `new_email`:
/// it stays the same, or no other member holds the new one.
pub open spec fn email_change_allowed(given_email: Seq<char>, new_email: Seq<char>, new_email_taken: bool) -> bool {
    given_email == new_email || !new_email_taken
}

/// What a login check gives back: the member found, if the password opens
/// their stored hash.
pub open spec fn spec_check_login(found: Option<Member>, password: Seq<char>) -> Option<Member> {
    match found {
        Some(m) => if spec_password_matches(password, m.pass_hash@) {
            Some(m)
        } else {
            None
        },
        None => None,
    }
}

/// Whether `member` carries the fields of `new_member`, with `pass_hash`.
pub open spec fn is_new_member(member: Member, new_member: NewMember, pass_hash: String) -> bool {
    &&& member.email == new_member.email
    &&& member.first_name == new_member.first_name
    &&& member.preferred_name == new_member.preferred_name
    &&& member.last_name == new_member.last_name
    &&& member.pass_hash == pass_hash
    &&& member.phone_number == new_member.phone_number
    &&& member.picture == new_member.picture
    &&& member.passengers == new_member.passengers
    &&& member.location == new_member.location
    &&& member.on_campus == new_member.on_campus
    &&& member.about == new_member.about
    &&& member.major == new_member.major
    &&& member.minor == new_member.minor
    &&& member.hometown == new_member.hometown
    &&& member.arrived_at_tech == new_member.arrived_at_tech
    &&& member.gateway_drug == new_member.gateway_drug
    &&& member.conflicts == new_member.conflicts
    &&& member.dietary_restrictions == new_member.dietary_restrictions
}

/// What registering `new_member` in semester `semester` stores: refused
/// without a password hash, then refused without an enrollment.
pub open spec fn registration_outcome(
    new_member: NewMember,
    semester: Seq<char>,
    result: Result<MemberForSemester, GreaseError>,
) -> bool {
    match new_member.pass_hash {
        None => result matches Err(GreaseError::BadRequest(m)) && m@ == pass_hash_required_message(),
        Some(pass_hash) => match new_member.enrollment {
            None => result matches Err(GreaseError::BadRequest(m)) && m@ == inactive_registration_message(),
            Some(enrollment) => result matches Ok(registered) && is_new_member(
                registered.member,
                new_member,
                pass_hash,
            ) && active_view(registered.active_semester) == Some(
                (new_member.email@, semester, enrollment, new_member.section),
            ),
        },
    }
}

impl NewMember {
    /// The member and current-semester record to store for a registration,
    /// in the semester named `current_semester`.
    pub fn for_current_semester(self, current_semester: String) -> (result: Result<MemberForSemester, GreaseError>)
        ensures
            registration_outcome(self, current_semester@, result),
    {
        let NewMember {
            email,
            first_name,
            preferred_name,
            last_name,
            pass_hash,
            phone_number,
            picture,
            passengers,
            location,
            on_campus,
            about,
            major,
            minor,
            hometown,
            arrived_at_tech,
            gateway_drug,
            conflicts,
            dietary_restrictions,
            enrollment,
            section,
        } = self;
        let pass_hash = match pass_hash {
            Some(h) => h,
            None => {
                return Err(bad_request(owned("The `passHash` field is required for new member registration.")));
            },
        };
        let enrollment = match enrollment {
            Some(e) => e,
            None => {
                return Err(bad_request(owned("New members cannot enroll as inactive.")));
            },
        };
        let record = ActiveSemester { member: email.clone(), semester: current_semester, section, enrollment };
        let member = Member {
            email,
            first_name,
            preferred_name,
            last_name,
            pass_hash,
            phone_number,
            picture,
            passengers,
            location,
            on_campus,
            about,
            major,
            minor,
            hometown,
            arrived_at_tech,
            gateway_drug,
            conflicts,
            dietary_restrictions,
        };
        Ok(MemberForSemester { member, active_semester: Some(record) })
    }
}

impl Member {
    /// What registering a new member stores, given whether a member with
    /// that email already exists: refused if one does, else as
    /// [`NewMember::for_current_semester`].
    pub fn create(new_member: NewMember, email_taken: bool, current_semester: String) -> (result: Result<
        MemberForSemester,
        GreaseError,
    >)
        ensures
            email_taken ==> (result matches Err(GreaseError::BadRequest(m)) && m@ == member_exists_message(
                new_member.email@,
            )),
            !email_taken ==> registration_outcome(new_member, current_semester@, result),
    {
        if email_taken {
            return Err(bad_request(concat3("A member already exists with the email ", new_member.email.as_str(), ".")));
        }
        new_member.for_current_semester(current_semester)
    }

    /// What confirming activity for the current semester stores, given the
    /// member's record for it if they have one: refused if they do.
    pub fn register_for_semester(
        given_email: String,
        form: RegisterForSemesterForm,
        current_semester: String,
        current_record: &Option<ActiveSemester>,
    ) -> (result: Result<SemesterRegistration, GreaseError>)
        ensures
            current_record is Some ==> (result matches Err(GreaseError::BadRequest(m)) && m@ == already_active_message(
                given_email@,
            )),
            current_record is None ==> (result matches Ok(r) && r.location == form.location && r.conflicts
                == form.conflicts && r.dietary_restrictions == form.dietary_restrictions && active_view(
                Some(r.active_semester),
            ) == Some((given_email@, current_semester@, form.enrollment, Some(form.section)))),
    {
        if current_record.is_some() {
            return Err(
                bad_request(concat3("Member with email ", given_email.as_str(), " is already active for the current semester.")),
            );
        }
        let RegisterForSemesterForm { location, on_campus: _, conflicts, dietary_restrictions, enrollment, section } =
            form;
        Ok(
            SemesterRegistration {
                location,
                conflicts,
                dietary_restrictions,
                active_semester: ActiveSemester {
                    member: given_email,
                    semester: current_semester,
                    enrollment,
                    section: Some(section),
                },
            },
        )
    }
}

impl MemberForSemester {
    /// What creating a member with a semester record stores, given the
    /// member already stored under that email, if any: refused if there is
    /// one.
    pub fn create(new_member: MemberForSemester, existing: &Option<Member>) -> (result: Result<
        MemberForSemester,
        GreaseError,
    >)
        ensures
            existing matches Some(e) ==> (result matches Err(GreaseError::BadRequest(m)) && m@
                == member_with_email_exists_message(e.email@)),
            existing is None ==> result == Ok::<MemberForSemester, GreaseError>(new_member),
    {
        match existing {
            Some(e) => Err(bad_request(concat3("A member with the email ", e.email.as_str(), " already exists."))),
            None => Ok(new_member),
        }
    }
}

impl ActiveSemester {
    /// The record to store for a member's activity in a semester, given
    /// their record for that semester if they have one: refused if they do.
    pub fn create(new_active_semester: ActiveSemester, existing: &Option<ActiveSemester>) -> (result: Result<
        ActiveSemester,
        GreaseError,
    >)
        ensures
            existing is Some ==> (result matches Err(GreaseError::BadRequest(m)) && m@ == already_in_semester_message(
                new_active_semester.member@,
                new_active_semester.semester@,
            )),
            existing is None ==> result == Ok::<ActiveSemester, GreaseError>(new_active_semester),
    {
        if existing.is_some() {
            let head = concat3(
                "The member with email ",
                new_active_semester.member.as_str(),
                " already is active in semester ",
            );
            return Err(bad_request(concat3(head.as_str(), new_active_semester.semester.as_str(), ".")));
        }
        Ok(new_active_semester)
    }
}

/// A password that a member sets on themselves opens their login
/// afterwards: whatever hash the update stored for it, checking the same
/// password against the updated member finds them.
pub proof fn law_new_password_opens_login(
    given_email: Seq<char>,
    update: NewMember,
    existing: Member,
    updated: MemberUpdate,
)
    requires
        given_email == update.email@,
        update.pass_hash is Some,
        is_updated_member(updated.member, existing, update, updated.member.pass_hash@),
        spec_password_matches((update.pass_hash->0)@, updated.member.pass_hash@),
    ensures
        spec_check_login(Some(updated.member), (update.pass_hash->0)@) == Some(updated.member),
{
}

impl Member {
    /// A copy of this member.
    pub fn copy(&self) -> (member: Member)
        ensures
            member == *self,
    {
        Member {
            email: self.email.clone(),
            first_name: self.first_name.clone(),
            preferred_name: copy_opt_string(&self.preferred_name),
            last_name: self.last_name.clone(),
            pass_hash: self.pass_hash.clone(),
            phone_number: self.phone_number.clone(),
            picture: copy_opt_string(&self.picture),
            passengers: self.passengers,
            location: self.location.clone(),
            on_campus: self.on_campus,
            about: copy_opt_string(&self.about),
            major: copy_opt_string(&self.major),
            minor: copy_opt_string(&self.minor),
            hometown: copy_opt_string(&self.hometown),
            arrived_at_tech: self.arrived_at_tech,
            gateway_drug: copy_opt_string(&self.gateway_drug),
            conflicts: copy_opt_string(&self.conflicts),
            dietary_restrictions: copy_opt_string(&self.dietary_restrictions),
        }
    }
}

/// A member's full name: the preferred name if there is a non-empty one,
/// else the first name, then a space and the last name.
pub open spec fn spec_full_name(member: Member) -> Seq<char> {
    let first = match member.preferred_name {
        Some(p) => if p@.len() > 0 {
            p@
        } else {
            member.first_name@
        },
        None => member.first_name@,
    };
    first + " "@ + member.last_name@
}

impl Member {
    /// The member's full name: their preferred name if they gave a
    /// non-empty one, else their first name, and their last name.
    pub fn full_name(&self) -> (name: String)
        ensures
            name@ == spec_full_name(*self),
    {
        let first: &str = match &self.preferred_name {
            Some(p) => if p.as_str().unicode_len() > 0 {
                p.as_str()
            } else {
                self.first_name.as_str()
            },
            None => self.first_name.as_str(),
        };
        concat3(first, " ", self.last_name.as_str())
    }
}

/// What a form's enrollment field means: no value, `""` or `"inactive"`
/// for inactive, `"class"` or `"club"` for those; any other text is not a
/// valid value (`None`).
pub open spec fn spec_enrollment_field(text: Option<Seq<char>>) -> Option<Option<Enrollment>> {
    match text {
        None => Some(None),
        Some(t) => if t == ""@ || t == "inactive"@ {
            Some(None)
        } else if t == "class"@ {
            Some(Some(Enrollment::Class))
        } else if t == "club"@ {
            Some(Some(Enrollment::Club))
        } else {
            None
        },
    }
}

impl Enrollment {
    /// Reads a form's enrollment field; `None` when its text is not a
    /// valid value.
    pub fn from_form_field(text: Option<&str>) -> (value: Option<Option<Enrollment>>)
        ensures
            value == spec_enrollment_field(match text {
                Some(t) => Some(t@),
                None => None,
            }),
    {
        match text {
            None => Some(None),
            Some(t) => {
                if str_eq(t, "") || str_eq(t, "inactive") {
                    Some(None)
                } else if str_eq(t, "class") {
                    Some(Some(Enrollment::Class))
                } else if str_eq(t, "club") {
                    Some(Some(Enrollment::Club))
                } else {
                    None
                }
            },
        }
    }
}

} // verus!
