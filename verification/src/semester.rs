//! Semesters: when they run, which one is current, and the rules for
//! creating, renaming and deleting them.

use crate::datetime::{local_now, valid_time, EARLIEST_CLOCK_TIME, LATEST_CLOCK_TIME, SECONDS_PER_WEEK};
use crate::error::GreaseError;
use crate::text::{concat3, owned};
use vstd::prelude::*;

verus! {

/// A semester of the club.
#[derive(Debug)]
pub struct Semester {
    /// The name of the semester.
    pub name: String,
    /// When the semester starts (seconds since the epoch).
    pub start_date: i64,
    /// When the semester ends.
    pub end_date: i64,
    /// How many volunteer gigs members must attend.
    pub gig_requirement: i32,
    /// Whether this is the current semester.
    pub current: bool,
}

/// The semester's dates are points in time the calendar can represent.
pub open spec fn valid_semester(semester: Semester) -> bool {
    valid_time(semester.start_date as int) && valid_time(semester.end_date as int)
}

/// A new semester, or the new values of one.
#[derive(Debug)]
pub struct NewSemester {
    /// The name of the semester.
    pub name: String,
    /// When the semester starts.
    pub start_date: i64,
    /// When the semester ends.
    pub end_date: i64,
    /// How many volunteer gigs members must attend.
    pub gig_requirement: i32,
}

/// What deleting a semester leaves current.
#[derive(Debug)]
pub struct SemesterDeletion {
    /// The name of the semester that is current afterwards.
    pub current: String,
    /// Whether that semester had to be made current.
    pub newly_current: bool,
}

/// No two semesters share a name.
pub open spec fn distinct_names(semesters: Seq<Semester>) -> bool {
    forall|i: int, j: int|
        0 <= i < semesters.len() && 0 <= j < semesters.len() && i != j ==> (#[trigger] semesters[i]).name@
            != (#[trigger] semesters[j]).name@
}

/// Whether some semester is named `name`.
pub open spec fn has_semester_named(semesters: Seq<Semester>, name: Seq<char>) -> bool {
    exists|i: int| 0 <= i < semesters.len() && (#[trigger] semesters[i]).name@ == name
}

/// The index of the first semester not named `name`.
pub open spec fn first_other(semesters: Seq<Semester>, name: Seq<char>, i: int) -> bool {
    &&& 0 <= i < semesters.len()
    &&& semesters[i].name@ != name
    &&& forall|j: int| 0 <= j < i ==> (#[trigger] semesters[j]).name@ == name
}

/// The first semester other than `name` that is current.
pub open spec fn first_other_current_at(semesters: Seq<Semester>, name: Seq<char>, i: int) -> bool {
    &&& 0 <= i < semesters.len()
    &&& semesters[i].name@ != name
    &&& semesters[i].current
    &&& forall|j: int| 0 <= j < i ==> !((#[trigger] semesters[j]).name@ != name && semesters[j].current)
}

/// The semesters after the one named `name` is made current: exactly those
/// named `name` are current.
pub open spec fn spec_with_current(semesters: Seq<Semester>, name: Seq<char>) -> Seq<Semester> {
    semesters.map_values(|s: Semester| Semester { current: s.name@ == name, ..s })
}

impl Semester {
    /// Refuses a semester that does not end after it begins.
    pub fn validate_new_semester(new_semester: &NewSemester) -> (result: Result<(), GreaseError>)
        ensures
            new_semester.start_date < new_semester.end_date ==> result is Ok,
            new_semester.start_date >= new_semester.end_date ==> (result matches Err(GreaseError::BadRequest(m))
                && m@ == "The new semester must end after it begins."@),
    {
        if new_semester.start_date >= new_semester.end_date {
            Err(GreaseError::BadRequest(owned("The new semester must end after it begins.")))
        } else {
            Ok(())
        }
    }

    /// The semester to store for a new one: refused unless it ends after it
    /// begins; it is not current.
    pub fn create(new_semester: NewSemester) -> (result: Result<Semester, GreaseError>)
        ensures
            new_semester.start_date < new_semester.end_date ==> result == Ok::<Semester, GreaseError>(
                Semester {
                    name: new_semester.name,
                    start_date: new_semester.start_date,
                    end_date: new_semester.end_date,
                    gig_requirement: new_semester.gig_requirement,
                    current: false,
                },
            ),
            new_semester.start_date >= new_semester.end_date ==> (result matches Err(GreaseError::BadRequest(m))
                && m@ == "The new semester must end after it begins."@),
    {
        match Self::validate_new_semester(&new_semester) {
            Err(error) => Err(error),
            Ok(()) => Ok(
                Semester {
                    name: new_semester.name,
                    start_date: new_semester.start_date,
                    end_date: new_semester.end_date,
                    gig_requirement: new_semester.gig_requirement,
                    current: false,
                },
            ),
        }
    }

    /// The semesters after the one named `given_name` is made current: it
    /// is current and no other one is.
    pub fn set_current(semesters: Vec<Semester>, given_name: &String) -> (updated: Vec<Semester>)
        ensures
            updated@ == spec_with_current(semesters@, given_name@),
    {
        let ghost before = semesters@;
        let mut remaining = semesters;
        let mut updated: Vec<Semester> = Vec::new();
        while remaining.len() > 0
            invariant
                updated@.len() + remaining@.len() == before.len(),
                remaining@ == before.subrange(updated@.len() as int, before.len() as int),
                forall|i: int|
                    0 <= i < updated@.len() ==> (#[trigger] updated@[i]) == (Semester {
                        current: before[i].name@ == given_name@,
                        ..before[i]
                    }),
            decreases remaining@.len(),
        {
            let semester = remaining.remove(0);
            let is_given = semester.name == *given_name;
            updated.push(Semester { current: is_given, ..semester });
        }
        assert(updated@ =~= spec_with_current(before, given_name@));
        updated
    }

    /// Deletes the semester named `given_name` from `all_semesters` (most
    /// recent first): refused for the last semester and for a name that no
    /// semester has. Afterwards the first other current semester stays
    /// current, or else the first other semester becomes current.
    pub fn delete(given_name: &String, all_semesters: &Vec<Semester>) -> (result: Result<SemesterDeletion, GreaseError>)
        requires
            distinct_names(all_semesters@),
        ensures
            all_semesters@.len() == 1 && has_semester_named(all_semesters@, given_name@) ==> (
            result matches Err(GreaseError::BadRequest(m)) && m@ == "You cannot delete the last semester."@),
            !has_semester_named(all_semesters@, given_name@) ==> (result matches Err(GreaseError::BadRequest(m))
                && m@ == "No semester exists with the name \""@ + given_name@ + "\"."@),
            all_semesters@.len() != 1 && has_semester_named(all_semesters@, given_name@) ==> (
            result matches Ok(deletion) && ((exists|i: int|
                first_other_current_at(all_semesters@, given_name@, i) && !deletion.newly_current
                    && deletion.current@ == all_semesters@[i].name@) || ((forall|j: int|
                0 <= j < all_semesters@.len() ==> !((#[trigger] all_semesters@[j]).name@ != given_name@
                    && all_semesters@[j].current)) && deletion.newly_current && exists|i: int|
                first_other(all_semesters@, given_name@, i) && deletion.current@ == all_semesters@[i].name@))),
    {
        let ghost all = all_semesters@;
        let n = all_semesters.len();
        let mut found: Option<usize> = None;
        let mut other: Option<usize> = None;
        let mut other_current: Option<usize> = None;
        let mut i: usize = 0;
        while i < n
            invariant
                n == all.len(),
                all == all_semesters@,
                0 <= i <= n,
                found is None <==> forall|j: int| 0 <= j < i ==> (#[trigger] all[j]).name@ != given_name@,
                found matches Some(f) ==> f < i && all[f as int].name@ == given_name@,
                other is None ==> forall|j: int| 0 <= j < i ==> (#[trigger] all[j]).name@ == given_name@,
                other matches Some(o) ==> first_other(all, given_name@, o as int),
                other_current is None ==> forall|j: int|
                    0 <= j < i ==> !((#[trigger] all[j]).name@ != given_name@ && all[j].current),
                other_current matches Some(c) ==> first_other_current_at(all, given_name@, c as int),
            decreases n - i,
        {
            let semester = &all_semesters[i];
            let is_given = semester.name == *given_name;
            if is_given {
                if found.is_none() {
                    found = Some(i);
                }
            } else {
                if other.is_none() {
                    other = Some(i);
                }
                if other_current.is_none() && semester.current {
                    other_current = Some(i);
                }
            }
            i += 1;
        }
        if n == 1 && found.is_some() {
            return Err(GreaseError::BadRequest(owned("You cannot delete the last semester.")));
        } else if found.is_none() {
            return Err(
                GreaseError::BadRequest(concat3("No semester exists with the name \"", given_name.as_str(), "\".")),
            );
        }
        match other_current {
            Some(c) => {
                let deletion = SemesterDeletion { current: all_semesters[c].name.clone(), newly_current: false };
                assert(first_other_current_at(all, given_name@, c as int));
                Ok(deletion)
            },
            None => {
                let o = match other {
                    Some(o) => o,
                    None => {
                        proof {
                            let f = found->0 as int;
                            let k = if f == 0 { 1int } else { 0int };
                            assert(all[k].name@ == given_name@);
                            assert(all[k].name@ == all[f].name@);
                        }
                        0
                    },
                };
                let deletion = SemesterDeletion { current: all_semesters[o].name.clone(), newly_current: true };
                assert(first_other(all, given_name@, o as int));
                Ok(deletion)
            },
        }
    }

    /// The most recent semester (the first of `semesters_newest_first`), or,
    /// when there is none, a new current semester named "New Semester" from
    /// `now` to twelve weeks later that requires five gigs (and whether it is
    /// new).
    pub fn load_most_recent_at(semesters_newest_first: Vec<Semester>, now: i64) -> (result: (Semester, bool))
        requires
            now <= i64::MAX - 12 * SECONDS_PER_WEEK,
        ensures
            semesters_newest_first@.len() > 0 ==> result.0 == semesters_newest_first@[0] && !result.1,
            semesters_newest_first@.len() == 0 ==> result.1 && result.0.name@ == "New Semester"@
                && result.0.start_date == now && result.0.end_date == now + 12 * SECONDS_PER_WEEK
                && result.0.gig_requirement == 5 && result.0.current,
    {
        let mut semesters = semesters_newest_first;
        if semesters.len() > 0 {
            (semesters.remove(0), false)
        } else {
            (
                Semester {
                    name: owned("New Semester"),
                    start_date: now,
                    end_date: now + 12 * SECONDS_PER_WEEK,
                    gig_requirement: 5,
                    current: true,
                },
                true,
            )
        }
    }
}

impl Semester {
    /// The most recent semester, or, when there is none, a new current
    /// semester as [`Semester::load_most_recent_at`] makes it at the current
    /// local time.
    pub fn load_most_recent(semesters_newest_first: Vec<Semester>) -> (result: (Semester, bool))
        ensures
            semesters_newest_first@.len() > 0 ==> result.0 == semesters_newest_first@[0] && !result.1,
            semesters_newest_first@.len() == 0 ==> result.1 && result.0.name@ == "New Semester"@
                && result.0.end_date == result.0.start_date + 12 * SECONDS_PER_WEEK
                && result.0.gig_requirement == 5 && result.0.current && EARLIEST_CLOCK_TIME <= result.0.start_date
                <= LATEST_CLOCK_TIME,
    {
        let now = local_now();
        Self::load_most_recent_at(semesters_newest_first, now)
    }
}

/// After a semester is made current, at most one semester is current: the
/// named one (every semester with that name).
pub proof fn law_one_current_semester(semesters: Seq<Semester>, name: Seq<char>, i: int)
    requires
        0 <= i < semesters.len(),
    ensures
        spec_with_current(semesters, name)[i].current <==> semesters[i].name@ == name,
        spec_with_current(semesters, name).len() == semesters.len(),
{
}

/// Making a semester current changes nothing but which semester is current.
pub proof fn law_set_current_keeps_semesters(semesters: Seq<Semester>, name: Seq<char>, i: int)
    requires
        0 <= i < semesters.len(),
    ensures
        spec_with_current(semesters, name)[i].name == semesters[i].name,
        spec_with_current(semesters, name)[i].start_date == semesters[i].start_date,
        spec_with_current(semesters, name)[i].end_date == semesters[i].end_date,
        spec_with_current(semesters, name)[i].gig_requirement == semesters[i].gig_requirement,
{
}

} // verus!
