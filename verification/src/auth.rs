//! Who may do what: a logged-in member's permissions, and the checks that
//! guard the actions that need them.

use crate::error::GreaseError;
use crate::member::MemberForSemester;
use crate::text::{copy_opt_string, owned, str_eq};
use vstd::prelude::*;

verus! {

/// A permission a member holds, either for everything (no event type) or
/// for events of one type.
#[derive(Debug)]
pub struct MemberPermission {
    /// The name of the permission.
    pub name: String,
    /// The event type it is limited to, if any.
    pub event_type: Option<String>,
}

/// A logged-in member and their current permissions.
#[derive(Debug)]
pub struct User {
    /// The member and their record for the current semester.
    pub member: MemberForSemester,
    /// The member's current permissions.
    pub permissions: Vec<MemberPermission>,
}

/// Whether a permission grants `name`, for events of type `event_type` when
/// one is given: a permission without an event type grants it for all
/// events, one with an event type only for that type.
pub open spec fn grants(permission: MemberPermission, name: Seq<char>, event_type: Option<Seq<char>>) -> bool {
    &&& permission.name@ == name
    &&& match permission.event_type {
        None => true,
        Some(t) => event_type == Some(t@),
    }
}

/// Whether any of the permissions grants `name` for `event_type`.
pub open spec fn spec_has_permission(
    permissions: Seq<MemberPermission>,
    name: Seq<char>,
    event_type: Option<Seq<char>>,
) -> bool {
    exists|i: int| 0 <= i < permissions.len() && grants(#[trigger] permissions[i], name, event_type)
}

/// The characters of an optional string slice.
pub open spec fn opt_str_view(s: Option<&str>) -> Option<Seq<char>> {
    match s {
        Some(v) => Some(v@),
        None => None,
    }
}

impl MemberPermission {
    /// The permission a `(name, event type)` row describes.
    pub fn from_row(row: (String, Option<String>)) -> (permission: MemberPermission)
        ensures
            permission.name == row.0,
            permission.event_type == row.1,
    {
        MemberPermission { name: row.0, event_type: row.1 }
    }

    /// Whether this permission grants `name` for `event_type`.
    pub fn grants(&self, permission_name: &str, event_type: Option<&str>) -> (r: bool)
        ensures
            r == grants(*self, permission_name@, opt_str_view(event_type)),
    {
        str_eq(self.name.as_str(), permission_name) && match &self.event_type {
            None => true,
            Some(t) => match event_type {
                Some(given) => str_eq(t.as_str(), given),
                None => false,
            },
        }
    }
}

impl User {
    /// Whether the member holds the permission `permission_name`; when an
    /// event type is given, either for all events or for that type.
    pub fn has_permission(&self, permission_name: &str, event_type: Option<&str>) -> (r: bool)
        ensures
            r == spec_has_permission(self.permissions@, permission_name@, opt_str_view(event_type)),
    {
        let mut i: usize = 0;
        while i < self.permissions.len()
            invariant
                0 <= i <= self.permissions@.len(),
                forall|q: int|
                    0 <= q < i ==> !grants(#[trigger] self.permissions@[q], permission_name@, opt_str_view(event_type)),
            decreases self.permissions@.len() - i,
        {
            if self.permissions[i].grants(permission_name, event_type) {
                return true;
            }
            i += 1;
        }
        false
    }

    /// Refuses an action when the member lacks the permission.
    pub fn check_for_permission(&self, permission_name: &str, event_type: Option<&str>) -> (result: Result<
        (),
        GreaseError,
    >)
        ensures
            spec_has_permission(self.permissions@, permission_name@, opt_str_view(event_type)) ==> result is Ok,
            !spec_has_permission(self.permissions@, permission_name@, opt_str_view(event_type)) ==> (
            result matches Err(GreaseError::Forbidden(Some(m))) && m@ == permission_name@),
    {
        if self.has_permission(permission_name, event_type) {
            Ok(())
        } else {
            Err(GreaseError::Forbidden(Some(owned(permission_name))))
        }
    }
}

/// A permission for all events grants it for every event type, and for
/// requests with no event type.
pub proof fn law_general_permission_covers_all_types(
    permissions: Seq<MemberPermission>,
    i: int,
    event_type: Option<Seq<char>>,
)
    requires
        0 <= i < permissions.len(),
        permissions[i].event_type is None,
    ensures
        spec_has_permission(permissions, permissions[i].name@, event_type),
{
    assert(grants(permissions[i], permissions[i].name@, event_type));
}

/// A permission limited to one event type never grants a request that names
/// no event type, nor one that names another type.
pub proof fn law_typed_permission_is_limited(
    permission: MemberPermission,
    name: Seq<char>,
    event_type: Option<Seq<char>>,
)
    requires
        permission.event_type is Some,
        event_type != Some(permission.event_type->0@),
    ensures
        !grants(permission, name, event_type),
{
}

/// Whether two optional section names (of optional records) are equal.
fn same_section(a: &Option<Option<String>>, b: &Option<Option<String>>) -> (r: bool)
    ensures
        r == (a == b || (a matches Some(x) && b matches Some(y) && x matches Some(s) && y matches Some(t)
            && s@ == t@)),
{
    match (a, b) {
        (None, None) => true,
        (Some(None), Some(None)) => true,
        (Some(Some(s)), Some(Some(t))) => {
            let r = *s == *t;
            proof {
                if r {
                    assert(s@ == t@);
                }
            }
            r
        },
        _ => false,
    }
}

/// Whether a member may edit another member's attendance at an event: with
/// the permission to edit attendance for the event's type, or, when both
/// are active in the event's semester and sing in the same section, with
/// the permission to edit their own section's attendance for that type.
///
/// `user_section` and `member_section` are `None` when the member is not
/// active in the semester, and hold the section otherwise.
pub open spec fn spec_may_edit_attendance(
    can_edit_all: bool,
    user_section: Option<Option<Seq<char>>>,
    member_section: Option<Option<Seq<char>>>,
    can_edit_own_section: bool,
) -> bool {
    can_edit_all || (user_section is Some && user_section == member_section && can_edit_own_section)
}

/// The sections of optional records, as text.
pub open spec fn section_view(s: Option<Option<String>>) -> Option<Option<Seq<char>>> {
    match s {
        Some(Some(v)) => Some(Some(v@)),
        Some(None) => Some(None),
        None => None,
    }
}

/// Refuses an edit of a member's attendance unless the editor may make it
/// (see [`spec_may_edit_attendance`]).
pub fn check_attendance_edit(
    can_edit_all: bool,
    user_section: &Option<Option<String>>,
    member_section: &Option<Option<String>>,
    can_edit_own_section: bool,
) -> (result: Result<(), GreaseError>)
    ensures
        spec_may_edit_attendance(
            can_edit_all,
            section_view(*user_section),
            section_view(*member_section),
            can_edit_own_section,
        ) ==> result is Ok,
        !spec_may_edit_attendance(
            can_edit_all,
            section_view(*user_section),
            section_view(*member_section),
            can_edit_own_section,
        ) ==> (result matches Err(GreaseError::BadRequest(m)) && m@ == "Not allowed to edit attendance"@),
{
    if can_edit_all {
        return Ok(());
    }
    let same = same_section(user_section, member_section);
    proof {
        assert(same == (section_view(*user_section) == section_view(*member_section)));
    }
    if user_section.is_none() || !same || !can_edit_own_section {
        Err(GreaseError::BadRequest(owned("Not allowed to edit attendance")))
    } else {
        Ok(())
    }
}

} // verus!
