//! The roles a user can hold in a room, and their indices in a policy.
use vstd::prelude::*;
use crate::policy::role::Role;

verus! {

#[derive(Debug, Clone, Copy, PartialEq, Eq, Structural, Hash)]
pub enum UserRole {
    /// User is not a member of the room
    NoRole,
    /// User is not a member of the room anymore, but was banned
    Banned,
    /// A regular member of a room with basic privileges
    Member,
    /// Also known as a room admin, he is almighty on the room
    RoomAdmin,
    /// In charge of enforcing the policy of the room
    PolicyEnforcer,
    /// unknown role, when a room has a role_index that we do not know about
    Unknown,
}

/// The index a role has in a room policy.
pub open spec fn role_index(r: UserRole) -> u32 {
    match r {
        UserRole::NoRole => 0x00,
        UserRole::Banned => 0x01,
        UserRole::Member => 0x03,
        UserRole::RoomAdmin => 0x04,
        UserRole::PolicyEnforcer => 0xF0,
        UserRole::Unknown => 0xFF,
    }
}

/// The role an index stands for.
pub open spec fn role_of_index(index: u32) -> UserRole {
    match index {
        0 => UserRole::NoRole,
        1 => UserRole::Banned,
        3 => UserRole::Member,
        4 => UserRole::RoomAdmin,
        0xF0 => UserRole::PolicyEnforcer,
        _ => UserRole::Unknown,
    }
}

/// The indices of a list of roles.
pub open spec fn role_indices(s: Seq<UserRole>) -> Seq<u32> {
    s.map_values(|r: UserRole| role_index(r))
}

/// The name a role is given in a policy.
pub open spec fn role_name(r: UserRole) -> Seq<char> {
    match r {
        UserRole::NoRole => "no role"@,
        UserRole::Banned => "banned"@,
        UserRole::Member => "member"@,
        UserRole::RoomAdmin => "room admin"@,
        UserRole::PolicyEnforcer => "policy enforcer"@,
        UserRole::Unknown => "unknown"@,
    }
}

/// Every role, in the order in which a policy lists them.
pub open spec fn all_user_roles() -> Seq<UserRole> {
    seq![
        UserRole::NoRole,
        UserRole::Banned,
        UserRole::Member,
        UserRole::RoomAdmin,
        UserRole::PolicyEnforcer,
        UserRole::Unknown,
    ]
}

impl UserRole {
    pub fn from_index(index: u32) -> (r: Self)
        ensures
            r == role_of_index(index),
    {
        match index {
            0 => UserRole::NoRole,
            1 => UserRole::Banned,
            3 => UserRole::Member,
            4 => UserRole::RoomAdmin,
            0xF0 => UserRole::PolicyEnforcer,
            _ => UserRole::Unknown,
        }
    }

    /// The index of the role in a policy.
    pub fn index(self) -> (r: u32)
        ensures
            r == role_index(self),
    {
        match self {
            UserRole::NoRole => 0x00,
            UserRole::Banned => 0x01,
            UserRole::Member => 0x03,
            UserRole::RoomAdmin => 0x04,
            UserRole::PolicyEnforcer => 0xF0,
            UserRole::Unknown => 0xFF,
        }
    }

    /// A role definition with this role's index and name, and nothing else
    /// yet.
    pub fn builder(self) -> (r: Role)
        ensures
            r@ == Role::empty_view(role_index(self), role_name(self)),
            r.well_formed(),
    {
        match self {
            UserRole::NoRole => Role::new(self.index(), "no role", "no role"),
            UserRole::Banned => Role::new(self.index(), "banned", "banned"),
            UserRole::Member => Role::new(self.index(), "member", "member"),
            UserRole::RoomAdmin => Role::new(self.index(), "room admin", "room admin"),
            UserRole::PolicyEnforcer => Role::new(self.index(), "policy enforcer", "policy enforcer"),
            UserRole::Unknown => Role::new(self.index(), "unknown", "unknown"),
        }
    }

    /// Every role, in declaration order.
    pub fn iter() -> (r: Vec<UserRole>)
        ensures
            r@ == all_user_roles(),
    {
        vec![
            UserRole::NoRole,
            UserRole::Banned,
            UserRole::Member,
            UserRole::RoomAdmin,
            UserRole::PolicyEnforcer,
            UserRole::Unknown,
        ]
    }

    /// The roles' indices.
    pub fn indices(roles: &Vec<UserRole>) -> (r: Vec<u32>)
        ensures
            r@ == role_indices(roles@),
    {
        let mut out: Vec<u32> = Vec::new();
        let mut i: usize = 0;
        while i < roles.len()
            invariant
                i <= roles@.len(),
                out@ == role_indices(roles@.take(i as int)),
            decreases roles@.len() - i,
        {
            out.push(roles[i].index());
            i += 1;
            assert(role_indices(roles@.take(i as int)) =~= role_indices(roles@.take(i - 1)).push(
                role_index(roles@[i - 1]),
            ));
        }
        assert(roles@.take(roles@.len() as int) =~= roles@);
        out
    }
}

impl Default for UserRole {
    fn default() -> (r: Self)
        ensures
            r == UserRole::Member,
    {
        UserRole::Member
    }
}

/// The index of every role but `Unknown` reads back to that role.
pub proof fn lemma_role_index_round_trip(r: UserRole)
    ensures
        role_of_index(role_index(r)) == r,
{
}

} // verus!
