//! Role names and the capability checks built on them.

use crate::text::str_eq;
use vstd::prelude::*;

verus! {

pub const ADMIN: &'static str = "Admin";

pub const OPERATOR: &'static str = "Operator";

pub const VIEWER: &'static str = "Viewer";

/// The three roles, ordered by what they may do: Viewer < Operator < Admin.
#[derive(Clone, Copy, Debug, PartialEq, Eq, Structural)]
pub enum Role {
    Viewer,
    Operator,
    Admin,
}

pub open spec fn is_admin_name(role: Seq<char>) -> bool {
    role == "Admin"@
}

pub open spec fn is_operator_name(role: Seq<char>) -> bool {
    role == "Operator"@
}

pub open spec fn is_viewer_name(role: Seq<char>) -> bool {
    role == "Viewer"@
}

pub open spec fn can_operate_name(role: Seq<char>) -> bool {
    is_admin_name(role) || is_operator_name(role)
}

/// The role that a role name stands for, if it is one of the three literals.
pub open spec fn role_of_name(name: Seq<char>) -> Option<Role> {
    if is_admin_name(name) {
        Some(Role::Admin)
    } else if is_operator_name(name) {
        Some(Role::Operator)
    } else if is_viewer_name(name) {
        Some(Role::Viewer)
    } else {
        None
    }
}

pub open spec fn rank_of(role: Role) -> nat {
    match role {
        Role::Viewer => 0,
        Role::Operator => 1,
        Role::Admin => 2,
    }
}

pub fn is_admin(role: &str) -> (yes: bool)
    ensures
        yes == is_admin_name(role@),
{
    str_eq(role, ADMIN)
}

pub fn is_operator(role: &str) -> (yes: bool)
    ensures
        yes == is_operator_name(role@),
{
    str_eq(role, OPERATOR)
}

pub fn can_operate(role: &str) -> (yes: bool)
    ensures
        yes == can_operate_name(role@),
{
    str_eq(role, ADMIN) || str_eq(role, OPERATOR)
}

impl Role {
    /// Position in the order Viewer < Operator < Admin.
    pub fn rank(&self) -> (r: u8)
        ensures
            r == rank_of(*self),
    {
        match self {
            Role::Viewer => 0,
            Role::Operator => 1,
            Role::Admin => 2,
        }
    }

    /// Whether this role may do what `needed` may do.
    pub fn at_least(&self, needed: Role) -> (yes: bool)
        ensures
            yes == (rank_of(*self) >= rank_of(needed)),
    {
        self.rank() >= needed.rank()
    }

    /// The literal that tokens carry for this role.
    pub fn name(&self) -> (s: &'static str)
        ensures
            role_of_name(s@) == Some(*self),
    {
        proof {
            role_names_differ();
        }
        match self {
            Role::Viewer => VIEWER,
            Role::Operator => OPERATOR,
            Role::Admin => ADMIN,
        }
    }

    /// Reads a role name; anything but the three literals is no role.
    pub fn parse(name: &str) -> (r: Option<Role>)
        ensures
            r == role_of_name(name@),
    {
        if str_eq(name, ADMIN) {
            Some(Role::Admin)
        } else if str_eq(name, OPERATOR) {
            Some(Role::Operator)
        } else if str_eq(name, VIEWER) {
            Some(Role::Viewer)
        } else {
            None
        }
    }
}

/// The three role literals are pairwise different, so a name stands for at most
/// one role.
pub proof fn role_names_differ()
    ensures
        "Admin"@ != "Operator"@,
        "Admin"@ != "Viewer"@,
        "Operator"@ != "Viewer"@,
{
    reveal_strlit("Admin");
    reveal_strlit("Operator");
    reveal_strlit("Viewer");
    assert("Admin"@.len() == 5);
    assert("Operator"@.len() == 8);
    assert("Viewer"@.len() == 6);
}

/// Whoever may administer may operate, and a name is never both the
/// administrator's and the operator's.
pub proof fn role_checks_agree(role: Seq<char>)
    ensures
        is_admin_name(role) ==> can_operate_name(role),
        is_operator_name(role) ==> can_operate_name(role),
        !(is_admin_name(role) && is_operator_name(role)),
        can_operate_name(role) <==> (role_of_name(role) matches Some(r) && rank_of(r) >= rank_of(
            Role::Operator,
        )),
{
    role_names_differ();
}

} // verus!
