//! The role of an account, read from its 16-bit code.
use vstd::prelude::*;

verus! {

#[derive(Debug, Clone, Copy, PartialEq, Eq, Structural, Hash)]
pub enum Role {
    User,
    OrganizationMember,
    OrganizationAdmin,
    ProtonAdmin,
    Unknown(u16),
}

/// The role a 16-bit code stands for.
pub open spec fn role_of(value: u16) -> Role {
    match value {
        0 => Role::User,
        1 => Role::OrganizationMember,
        2 => Role::OrganizationAdmin,
        3 => Role::ProtonAdmin,
        i => Role::Unknown(i),
    }
}

/// The code a role is written with.
pub open spec fn role_code(r: Role) -> u16 {
    match r {
        Role::User => 0,
        Role::OrganizationMember => 1,
        Role::OrganizationAdmin => 2,
        Role::ProtonAdmin => 3,
        Role::Unknown(v) => v,
    }
}

impl Role {
    pub fn from_u16(value: u16) -> (r: Self)
        ensures
            r == role_of(value),
    {
        match value {
            0 => Role::User,
            1 => Role::OrganizationMember,
            2 => Role::OrganizationAdmin,
            3 => Role::ProtonAdmin,
            i => Role::Unknown(i),
        }
    }

    /// The code the role is written with.
    pub fn code(&self) -> (r: u16)
        ensures
            r == role_code(*self),
    {
        match self {
            Role::User => 0,
            Role::OrganizationMember => 1,
            Role::OrganizationAdmin => 2,
            Role::ProtonAdmin => 3,
            Role::Unknown(v) => *v,
        }
    }
}

impl Default for Role {
    fn default() -> (r: Self)
        ensures
            r == Role::User,
    {
        Role::User
    }
}

impl From<u16> for Role {
    fn from(value: u16) -> (r: Self) {
        Role::from_u16(value)
    }
}

impl vstd::std_specs::convert::FromSpecImpl<u16> for Role {
    open spec fn obeys_from_spec() -> bool {
        true
    }

    open spec fn from_spec(v: u16) -> Self {
        role_of(v)
    }
}

/// Reading a role back from the code it is written with gives the same
/// role, for every role whose code does not belong to a named role.
pub proof fn lemma_role_code_round_trip(r: Role)
    requires
        r matches Role::Unknown(v) ==> v > 3,
    ensures
        role_of(role_code(r)) == r,
{
}

/// Every code is read back to itself.
pub proof fn lemma_role_of_code(v: u16)
    ensures
        role_code(role_of(v)) == v,
{
}

} // verus!
