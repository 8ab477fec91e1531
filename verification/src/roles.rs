//! Which permissions the officer roles carry: the kinds of permission, and
//! the table of grants that officers switch on and off.

use crate::text::{copy_opt_string, owned, str_eq};
use vstd::prelude::*;

verus! {

/// Whether a permission applies to the site as a whole or to events of a
/// given type.
#[derive(Debug, Clone, Copy, PartialEq, Eq, Structural)]
pub enum PermissionType {
    /// A permission for the site as a whole.
    Static,
    /// A permission that can be limited to events of one type.
    Event,
}

/// The text form of a permission type.
pub open spec fn permission_type_text(value: PermissionType) -> Seq<char> {
    match value {
        PermissionType::Static => "static"@,
        PermissionType::Event => "event"@,
    }
}

impl PermissionType {
    /// The text form of this permission type.
    pub fn as_str(&self) -> (text: &'static str)
        ensures
            text@ == permission_type_text(*self),
    {
        match self {
            PermissionType::Static => "static",
            PermissionType::Event => "event",
        }
    }

    /// The permission type with text form `text`, if there is one.
    pub fn parse(text: &str) -> (value: Option<PermissionType>)
        ensures
            value matches Some(v) ==> permission_type_text(v) == text@,
            value is None ==> forall|v: PermissionType| permission_type_text(v) != text@,
    {
        proof {
            reveal_strlit("static");
            reveal_strlit("event");
        }
        if str_eq(text, "static") {
            Some(PermissionType::Static)
        } else if str_eq(text, "event") {
            Some(PermissionType::Event)
        } else {
            proof {
                assert forall|v: PermissionType| permission_type_text(v) != text@ by {
                    match v {
                        PermissionType::Static => assert(text@ != "static"@),
                        PermissionType::Event => assert(text@ != "event"@),
                    }
                }
            }
            None
        }
    }
}

/// Different permission types have different text forms.
pub proof fn law_permission_type_text_is_unambiguous(a: PermissionType, b: PermissionType)
    ensures
        permission_type_text(a) == permission_type_text(b) ==> a == b,
{
    reveal_strlit("static");
    reveal_strlit("event");
    if a != b {
        assert(permission_type_text(a)[0] != permission_type_text(b)[0]);
    }
}

/// A permission that roles can be given.
#[derive(Debug)]
pub struct Permission {
    /// Its name.
    pub name: String,
    /// What it allows, if described.
    pub description: Option<String>,
    /// Whether it can be limited to an event type.
    pub type_: PermissionType,
}

/// A grant of a permission to an officer role, for all events or for events
/// of one type.
#[derive(Debug)]
pub struct RolePermission {
    /// The grant's identifier.
    pub id: i32,
    /// The role it is given to.
    pub role: String,
    /// The permission given.
    pub permission: String,
    /// The event type it is limited to, if any.
    pub event_type: Option<String>,
}

/// The characters of an optional string.
pub open spec fn opt_view(s: Option<String>) -> Option<Seq<char>> {
    match s {
        Some(v) => Some(v@),
        None => None,
    }
}

/// Whether `grant` gives `permission` to `role` for `event_type`.
pub open spec fn is_grant(
    grant: RolePermission,
    role: Seq<char>,
    permission: Seq<char>,
    event_type: Option<Seq<char>>,
) -> bool {
    &&& grant.role@ == role
    &&& grant.permission@ == permission
    &&& opt_view(grant.event_type) == event_type
}

/// Whether the store's lookup of `permission` for `role` and `event_type`
/// finds `grant`: the lookup compares the event type with SQL equality,
/// under which a missing event type (`NULL`) equals nothing, so a lookup
/// without an event type finds no grant.
pub open spec fn is_found_grant(
    grant: RolePermission,
    role: Seq<char>,
    permission: Seq<char>,
    event_type: Option<Seq<char>>,
) -> bool {
    event_type is Some && is_grant(grant, role, permission, event_type)
}

/// Whether the store's lookup of `permission` for `role` and `event_type`
/// finds a grant of `grants`.
pub open spec fn has_found_grant(
    grants: Seq<RolePermission>,
    role: Seq<char>,
    permission: Seq<char>,
    event_type: Option<Seq<char>>,
) -> bool {
    exists|i: int| 0 <= i < grants.len() && is_found_grant(#[trigger] grants[i], role, permission, event_type)
}

/// Whether some grant of `grants` gives `permission` to `role` for
/// `event_type`.
pub open spec fn has_grant(
    grants: Seq<RolePermission>,
    role: Seq<char>,
    permission: Seq<char>,
    event_type: Option<Seq<char>>,
) -> bool {
    exists|i: int| 0 <= i < grants.len() && is_grant(#[trigger] grants[i], role, permission, event_type)
}

/// Whether `after` is `before` once `permission` is given to `role` for
/// `event_type`: the same grants when the store's lookup finds the grant
/// already, else one more grant at the end, with identifier `new_id` (so a
/// grant for all events is added again each time).
pub open spec fn is_enabled(
    before: Seq<RolePermission>,
    after: Seq<RolePermission>,
    new_id: i32,
    role: Seq<char>,
    permission: Seq<char>,
    event_type: Option<Seq<char>>,
) -> bool {
    if has_found_grant(before, role, permission, event_type) {
        after == before
    } else {
        &&& after.len() == before.len() + 1
        &&& after.take(before.len() as int) == before
        &&& after.last().id == new_id
        &&& is_grant(after.last(), role, permission, event_type)
    }
}

/// The grants after `permission` is taken from `role` for `event_type`:
/// every grant the store's lookup finds is removed (none when there is no
/// event type), the others keep their order.
pub open spec fn spec_disabled(
    grants: Seq<RolePermission>,
    role: Seq<char>,
    permission: Seq<char>,
    event_type: Option<Seq<char>>,
) -> Seq<RolePermission>
    decreases grants.len(),
{
    if grants.len() == 0 {
        grants
    } else {
        let earlier = spec_disabled(grants.drop_last(), role, permission, event_type);
        if is_found_grant(grants.last(), role, permission, event_type) {
            earlier
        } else {
            earlier.push(grants.last())
        }
    }
}

/// Whether two optional strings hold the same characters.
fn opt_string_eq(a: &Option<String>, b: &Option<String>) -> (equal: bool)
    ensures
        equal == (opt_view(*a) == opt_view(*b)),
{
    match (a, b) {
        (Some(x), Some(y)) => str_eq(x.as_str(), y.as_str()),
        (None, None) => true,
        _ => false,
    }
}

impl RolePermission {
    /// Whether the store's lookup of `permission` for `role` and
    /// `event_type` finds this grant.
    fn matches(&self, given_role: &str, given_permission: &str, given_event_type: &Option<String>) -> (m: bool)
        ensures
            m == is_found_grant(*self, given_role@, given_permission@, opt_view(*given_event_type)),
    {
        given_event_type.is_some() && str_eq(self.role.as_str(), given_role) && str_eq(
            self.permission.as_str(),
            given_permission,
        ) && opt_string_eq(&self.event_type, given_event_type)
    }

    /// Gives `role` the permission `permission` for `event_type` (for all
    /// events when there is none), unless the store's lookup finds it
    /// already; a new grant gets identifier `new_id`. The lookup compares
    /// event types with SQL equality, so a grant for all events is never
    /// found and is added again.
    pub fn enable(
        grants: &mut Vec<RolePermission>,
        new_id: i32,
        given_role: &str,
        given_permission: &str,
        given_event_type: &Option<String>,
    )
        ensures
            is_enabled(
                old(grants)@,
                final(grants)@,
                new_id,
                given_role@,
                given_permission@,
                opt_view(*given_event_type),
            ),
    {
        let ghost before = grants@;
        let ghost event_type = opt_view(*given_event_type);
        let n = grants.len();
        let mut i: usize = 0;
        while i < n
            invariant
                n == grants@.len(),
                grants@ == before,
                event_type == opt_view(*given_event_type),
                0 <= i <= n,
                forall|k: int|
                    0 <= k < i ==> !is_found_grant(#[trigger] grants@[k], given_role@, given_permission@, event_type),
            decreases n - i,
        {
            if grants[i].matches(given_role, given_permission, given_event_type) {
                assert(has_found_grant(before, given_role@, given_permission@, event_type)) by {
                    assert(is_found_grant(before[i as int], given_role@, given_permission@, event_type));
                }
                return;
            }
            i += 1;
        }
        grants.push(
            RolePermission {
                id: new_id,
                role: owned(given_role),
                permission: owned(given_permission),
                event_type: copy_opt_string(given_event_type),
            },
        );
        assert(grants@.take(before.len() as int) =~= before);
    }

    /// Takes the permission `permission` for `event_type` from `role`:
    /// every grant the store's lookup finds is removed, the other grants
    /// keep their order. The lookup compares event types with SQL equality,
    /// so a grant for all events is never removed.
    pub fn disable(
        grants: &mut Vec<RolePermission>,
        given_role: &str,
        given_permission: &str,
        given_event_type: &Option<String>,
    )
        ensures
            final(grants)@ == spec_disabled(
                old(grants)@,
                given_role@,
                given_permission@,
                opt_view(*given_event_type),
            ),
    {
        let ghost before = grants@;
        let ghost event_type = opt_view(*given_event_type);
        let mut remaining: Vec<RolePermission> = Vec::new();
        std::mem::swap(&mut remaining, grants);
        let total = remaining.len();
        assert(remaining@ == before.subrange(0, total as int));
        let mut kept: Vec<RolePermission> = Vec::new();
        let mut taken: usize = 0;
        while remaining.len() > 0
            invariant
                taken + remaining@.len() == before.len(),
                before.len() <= usize::MAX,
                remaining@ == before.subrange(taken as int, before.len() as int),
                event_type == opt_view(*given_event_type),
                kept@ == spec_disabled(before.take(taken as int), given_role@, given_permission@, event_type),
            decreases remaining@.len(),
        {
            let grant = remaining.remove(0);
            proof {
                assert(grant == before[taken as int]);
                assert(before.take(taken as int + 1).drop_last() =~= before.take(taken as int));
            }
            if !grant.matches(given_role, given_permission, given_event_type) {
                kept.push(grant);
            }
            taken += 1;
        }
        assert(before.take(before.len() as int) =~= before);
        *grants = kept;
    }
}

/// Giving a role a permission for an event type that it was just given
/// changes nothing.
pub proof fn law_enabling_twice_changes_nothing(
    first: Seq<RolePermission>,
    second: Seq<RolePermission>,
    third: Seq<RolePermission>,
    first_id: i32,
    second_id: i32,
    role: Seq<char>,
    permission: Seq<char>,
    event_type: Option<Seq<char>>,
)
    requires
        event_type is Some,
        is_enabled(first, second, first_id, role, permission, event_type),
        is_enabled(second, third, second_id, role, permission, event_type),
    ensures
        third == second,
{
    law_enabled_grant_is_held(first, second, first_id, role, permission, event_type);
    let i = choose|i: int| 0 <= i < second.len() && is_grant(#[trigger] second[i], role, permission, event_type);
    assert(is_found_grant(second[i], role, permission, event_type));
}

/// Once a role is given a permission, it holds it.
pub proof fn law_enabled_grant_is_held(
    before: Seq<RolePermission>,
    after: Seq<RolePermission>,
    new_id: i32,
    role: Seq<char>,
    permission: Seq<char>,
    event_type: Option<Seq<char>>,
)
    requires
        is_enabled(before, after, new_id, role, permission, event_type),
    ensures
        has_grant(after, role, permission, event_type),
{
    if has_found_grant(before, role, permission, event_type) {
        let i = choose|i: int| 0 <= i < before.len() && is_found_grant(#[trigger] before[i], role, permission, event_type);
        assert(is_grant(after[i], role, permission, event_type));
    } else {
        assert(is_grant(after[after.len() - 1], role, permission, event_type));
    }
}

/// Once a permission for an event type is taken from a role, no grant of
/// it is left.
pub proof fn law_disabled_grant_is_gone(
    grants: Seq<RolePermission>,
    role: Seq<char>,
    permission: Seq<char>,
    event_type: Option<Seq<char>>,
)
    requires
        event_type is Some,
    ensures
        !has_grant(spec_disabled(grants, role, permission, event_type), role, permission, event_type),
    decreases grants.len(),
{
    if grants.len() > 0 {
        law_disabled_grant_is_gone(grants.drop_last(), role, permission, event_type);
        let earlier = spec_disabled(grants.drop_last(), role, permission, event_type);
        if !is_found_grant(grants.last(), role, permission, event_type) {
            assert forall|i: int| 0 <= i < earlier.len() + 1 implies !is_grant(
                #[trigger] earlier.push(grants.last())[i],
                role,
                permission,
                event_type,
            ) by {
                if i < earlier.len() {
                    assert(earlier.push(grants.last())[i] == earlier[i]);
                }
            }
        }
    }
}

/// Taking a permission from a role keeps every grant the store's lookup
/// does not find.
pub proof fn law_disabling_keeps_other_grants(
    grants: Seq<RolePermission>,
    role: Seq<char>,
    permission: Seq<char>,
    event_type: Option<Seq<char>>,
    other: RolePermission,
)
    requires
        grants.contains(other),
        !is_found_grant(other, role, permission, event_type),
    ensures
        spec_disabled(grants, role, permission, event_type).contains(other),
    decreases grants.len(),
{
    let earlier = spec_disabled(grants.drop_last(), role, permission, event_type);
    if grants.last() == other {
        assert(earlier.push(other)[earlier.len() as int] == other);
    } else {
        let i = choose|i: int| 0 <= i < grants.len() && grants[i] == other;
        assert(grants.drop_last()[i] == other);
        law_disabling_keeps_other_grants(grants.drop_last(), role, permission, event_type, other);
        if !is_found_grant(grants.last(), role, permission, event_type) {
            let j = choose|j: int| 0 <= j < earlier.len() && earlier[j] == other;
            assert(earlier.push(grants.last())[j] == other);
        }
    }
}

/// Taking a permission from a role without an event type removes nothing:
/// the store's lookup finds no grant for all events.
pub proof fn law_disabling_without_a_type_keeps_every_grant(
    grants: Seq<RolePermission>,
    role: Seq<char>,
    permission: Seq<char>,
)
    ensures
        spec_disabled(grants, role, permission, None) == grants,
    decreases grants.len(),
{
    if grants.len() > 0 {
        law_disabling_without_a_type_keeps_every_grant(grants.drop_last(), role, permission);
        assert(grants.drop_last().push(grants.last()) =~= grants);
    }
}

} // verus!
