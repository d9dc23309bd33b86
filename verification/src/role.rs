//! The role model: a closed, ordered set of privilege levels.

use vstd::prelude::*;

verus! {

/// A privilege level from the closed, ordered set { User, Admin },
/// with User < Admin.
#[derive(Clone, Copy, Debug, PartialEq, Eq, Structural)]
pub enum Role {
    User,
    Admin,
}

/// The role a piece of text names: `"Admin"` names `Admin`; any other
/// text (including `"User"`) yields the lowest-privilege role.
pub open spec fn spec_role_of(s: Seq<char>) -> Role {
    if s == "Admin"@ {
        Role::Admin
    } else {
        Role::User
    }
}

/// The canonical name of a role, as embedded in tokens.
pub open spec fn spec_role_name(r: Role) -> Seq<char> {
    match r {
        Role::User => "User"@,
        Role::Admin => "Admin"@,
    }
}

/// `held` satisfies `required` iff `held` equals or outranks `required`
/// in the fixed privilege ordering User < Admin.
pub open spec fn spec_satisfies(held: Role, required: Role) -> bool {
    held == Role::Admin || required == Role::User
}

/// Character-by-character string equality, decided against the views.
fn str_eq(a: &str, b: &str) -> (r: bool)
    ensures
        r == (a@ == b@),
{
    let a_len = a.unicode_len();
    let b_len = b.unicode_len();
    if a_len != b_len {
        return false;
    }
    let mut i: usize = 0;
    while i < a_len
        invariant
            a_len == a@.len(),
            a@.len() == b@.len(),
            i <= a_len,
            forall|k: int| 0 <= k < i ==> a@[k] == b@[k],
        decreases a_len - i,
    {
        if a.get_char(i) != b.get_char(i) {
            return false;
        }
        i = i + 1;
    }
    proof {
        assert(a@ =~= b@);
    }
    true
}

impl Role {
    /// Maps a known role name to its role; any unrecognized text yields
    /// the lowest-privilege role rather than failing.
    pub fn from_str(role: &str) -> (r: Role)
        ensures
            r == spec_role_of(role@),
    {
        if str_eq(role, "Admin") {
            Role::Admin
        } else {
            Role::User
        }
    }

    /// The canonical name of this role.
    pub fn as_str(&self) -> (r: &'static str)
        ensures
            r@ == spec_role_name(*self),
    {
        match self {
            Role::User => "User",
            Role::Admin => "Admin",
        }
    }

    /// True iff this (held) role equals or outranks `required`.
    pub fn satisfies(&self, required: Role) -> (r: bool)
        ensures
            r == spec_satisfies(*self, required),
    {
        match (self, required) {
            (Role::Admin, _) => true,
            (_, Role::User) => true,
            _ => false,
        }
    }
}

/// Parsing a role's canonical name gives the role back: the two names
/// are distinct, and each parses to the role it names.
pub proof fn lemma_role_name_round_trip(r: Role)
    ensures
        spec_role_of(spec_role_name(r)) == r,
{
    reveal_strlit("Admin");
    reveal_strlit("User");
    assert("User"@.len() == 4);
    assert("Admin"@.len() == 5);
}

} // verus!
