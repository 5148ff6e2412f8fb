//! The platform roles carried by access tokens.
use vstd::prelude::*;
use vstd::string::*;

use crate::text::str_eq;

verus! {

/// A platform role, as granted by the identity provider.
#[derive(Debug, Clone, Copy, PartialEq, Eq, Hash, Structural)]
pub enum Role {
    Admin,
    Creator,
    Learner,
}

/// The role that a role name in a token denotes, if any.
pub open spec fn role_from_name(name: Seq<char>) -> Option<Role> {
    if name == "learner"@ {
        Some(Role::Learner)
    } else if name == "creator"@ {
        Some(Role::Creator)
    } else if name == "admin"@ {
        Some(Role::Admin)
    } else {
        None
    }
}

/// The lower-case name of a role, as written into identity headers.
pub open spec fn role_name(r: Role) -> Seq<char> {
    match r {
        Role::Admin => "admin"@,
        Role::Creator => "creator"@,
        Role::Learner => "learner"@,
    }
}

/// The names of `roles` joined by commas, in order.
pub open spec fn roles_csv_spec(roles: Seq<Role>) -> Seq<char>
    decreases roles.len(),
{
    if roles.len() == 0 {
        Seq::empty()
    } else if roles.len() == 1 {
        role_name(roles[0])
    } else {
        roles_csv_spec(roles.drop_last()) + ","@ + role_name(roles.last())
    }
}

impl Role {
    /// The role named `role`; names are matched exactly, case included.
    pub fn from_str(role: &str) -> (r: Option<Role>)
        ensures
            r == role_from_name(role@),
    {
        if str_eq(role, "learner") {
            Some(Role::Learner)
        } else if str_eq(role, "creator") {
            Some(Role::Creator)
        } else if str_eq(role, "admin") {
            Some(Role::Admin)
        } else {
            None
        }
    }

    /// The lower-case name of the role.
    pub fn as_str(&self) -> (r: &'static str)
        ensures
            r@ == role_name(*self),
    {
        match self {
            Role::Admin => "admin",
            Role::Creator => "creator",
            Role::Learner => "learner",
        }
    }
}

/// The names of `roles` joined by commas, in order (the `x-altair-roles`
/// header value).
pub fn roles_csv(roles: &Vec<Role>) -> (r: String)
    ensures
        r@ == roles_csv_spec(roles@),
{
    let mut out = String::new();
    let mut i: usize = 0;
    while i < roles.len()
        invariant
            i <= roles@.len(),
            out@ == roles_csv_spec(roles@.take(i as int)),
        decreases roles.len() - i,
    {
        proof {
            assert(roles@.take(i + 1).drop_last() =~= roles@.take(i as int));
            assert(roles@.take(i + 1).last() == roles@[i as int]);
        }
        if i > 0 {
            out.append(",");
        }
        out.append(roles[i].as_str());
        proof {
            if i == 0 {
                assert(roles@.take(1) =~= seq![roles@[0]]);
                assert(out@ =~= role_name(roles@[0]));
            }
        }
        i = i + 1;
    }
    assert(roles@.take(roles.len() as int) =~= roles@);
    out
}

/// Every role is read back from its own name.
pub proof fn role_name_round_trip(r: Role)
    ensures
        role_from_name(role_name(r)) == Some(r),
{
    reveal_strlit("admin");
    reveal_strlit("creator");
    reveal_strlit("learner");
    assert("admin"@.len() != "learner"@.len());
    assert("admin"@.len() != "creator"@.len());
    assert("creator"@[0] != "learner"@[0]);
}

/// A role name is a non-empty run of lower-case ASCII letters.
pub proof fn role_name_is_lower_ascii(r: Role)
    ensures
        role_name(r).len() > 0,
        forall|i: int|
            0 <= i < role_name(r).len() ==> 97 <= (#[trigger] role_name(r)[i] as u32) && (
            role_name(r)[i] as u32) <= 122,
{
    reveal_strlit("admin");
    reveal_strlit("creator");
    reveal_strlit("learner");
}

/// Whether the list holds the role.
pub fn has_role(roles: &Vec<Role>, r: Role) -> (b: bool)
    ensures
        b == roles@.contains(r),
{
    let mut i: usize = 0;
    while i < roles.len()
        invariant
            i <= roles@.len(),
            forall|j: int| 0 <= j < i ==> roles@[j] != r,
        decreases roles.len() - i,
    {
        if roles[i] == r {
            return true;
        }
        i = i + 1;
    }
    false
}

} // verus!
