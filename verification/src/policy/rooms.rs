//! The policy a room starts with: its role definitions, its first
//! participants, and the claims that grant a role on joining.
use vstd::prelude::*;
use crate::claims::role::Role as AccountRole;
use crate::identifiers::user::UserId;
use crate::policy::capability::StdCapability;
use crate::policy::defaults::{
    accept_knock, accept_knock_vec, add_participant, add_participant_vec, admin_base, admin_base_vec,
    admin_room, admin_room_vec, admin_self_room, admin_self_room_vec, change_role_definitions,
    change_role_definitions_vec, enforcer_base, enforcer_base_vec, enforcer_room, enforcer_room_vec,
    member_base, member_base_vec, member_room, member_room_vec, no_role_base, no_role_base_vec,
    no_role_lobby, no_role_lobby_vec, no_role_open_join, no_role_open_join_vec,
};
use crate::policy::hosted::{
    admin_accepts_knock, admin_can_accept_knock, admin_can_change_role_definitions,
    admin_changes_definitions, is_waiting_room, lobby_access, member_can_add_participant,
    members_add_participants, no_role_has_lobby_access, waiting, RoomKind, RoomKindView, clone_users,
    user_uri, user_uris,
};
use crate::policy::role::{Role, RoleData, RoleView, added};
use crate::policy::user_role::{role_index, role_indices, role_name, all_user_roles, UserRole};

verus! {

/// The capabilities `a` with those of `s` added after them.
pub open spec fn caps(a: Seq<StdCapability>, s: Seq<StdCapability>) -> Seq<StdCapability> {
    added(a, s)
}

/// The capabilities `a` with those of `s` added after them where `b`
/// holds.
pub open spec fn caps_if(a: Seq<StdCapability>, b: bool, s: Seq<StdCapability>) -> Seq<StdCapability> {
    if b {
        added(a, s)
    } else {
        a
    }
}

/// Holders may move users from `from` to any of `to`.
pub open spec fn change(from: UserRole, to: Seq<UserRole>) -> (u32, Seq<u32>) {
    (role_index(from), role_indices(to))
}

/// The definition of role `r` with the given capabilities, limits and role
/// changes.
pub open spec fn role_def(
    r: UserRole,
    capabilities: Seq<StdCapability>,
    min_participants: u32,
    max_participants: Option<u32>,
    max_active: Option<u32>,
    changes: Seq<(u32, Seq<u32>)>,
) -> RoleView {
    RoleView {
        role_index: role_index(r),
        role_name: role_name(r),
        role_description: role_name(r),
        capabilities,
        minimum_participants_constraint: min_participants,
        maximum_participants_constraint: max_participants,
        minimum_active_participants_constraint: 0,
        maximum_active_participants_constraint: max_active,
        authorized_role_changes: changes,
    }
}

/// What members may do in a room other than a self room.
pub open spec fn member_caps(kind: RoomKindView) -> Seq<StdCapability> {
    caps(caps_if(caps(Seq::empty(), member_base()), members_add_participants(kind), add_participant()), member_room())
}

/// The definition of each role in each kind of room; `None` for a role the
/// room does not have.
pub open spec fn role_spec(kind: RoomKindView, r: UserRole) -> Option<RoleView> {
    match r {
        UserRole::NoRole => Some(
            role_def(
                r,
                caps_if(
                    caps_if(caps(Seq::empty(), no_role_base()), !waiting(kind), no_role_open_join()),
                    lobby_access(kind),
                    no_role_lobby(),
                ),
                0,
                None,
                Some(0),
                seq![change(UserRole::NoRole, seq![UserRole::Member])],
            ),
        ),
        UserRole::Banned => Some(role_def(r, Seq::empty(), 0, None, Some(0), Seq::empty())),
        UserRole::Member => if kind is SelfRoom {
            None
        } else {
            Some(
                role_def(
                    r,
                    member_caps(kind),
                    0,
                    None,
                    None,
                    seq![
                        change(UserRole::Member, seq![UserRole::NoRole]),
                        change(UserRole::NoRole, seq![UserRole::Member]),
                    ],
                ),
            )
        },
        UserRole::RoomAdmin => if kind is SelfRoom {
            Some(
                role_def(
                    r,
                    caps(caps(Seq::empty(), admin_base()), admin_self_room()),
                    0,
                    None,
                    None,
                    seq![
                        change(UserRole::NoRole, seq![UserRole::RoomAdmin]),
                        change(UserRole::RoomAdmin, seq![UserRole::NoRole]),
                    ],
                ),
            )
        } else {
            Some(
                role_def(
                    r,
                    caps_if(
                        caps_if(
                            caps(
                                caps(
                                    caps_if(caps(Seq::empty(), admin_base()), !(kind is Dm), add_participant()),
                                    member_caps(kind),
                                ),
                                admin_room(),
                            ),
                            admin_accepts_knock(kind),
                            accept_knock(),
                        ),
                        admin_changes_definitions(kind),
                        change_role_definitions(),
                    ),
                    1,
                    None,
                    None,
                    seq![
                        change(
                            UserRole::NoRole,
                            seq![UserRole::Banned, UserRole::Member, UserRole::RoomAdmin],
                        ),
                        change(
                            UserRole::Banned,
                            seq![UserRole::NoRole, UserRole::Member, UserRole::RoomAdmin],
                        ),
                        change(
                            UserRole::Member,
                            seq![UserRole::NoRole, UserRole::Banned, UserRole::RoomAdmin],
                        ),
                        change(
                            UserRole::RoomAdmin,
                            seq![UserRole::NoRole, UserRole::Banned, UserRole::Member],
                        ),
                    ],
                ),
            )
        },
        UserRole::PolicyEnforcer => Some(
            role_def(
                r,
                caps_if(caps(Seq::empty(), enforcer_base()), !(kind is SelfRoom), enforcer_room()),
                1,
                Some(1),
                Some(0),
                seq![change(UserRole::NoRole, seq![UserRole::Banned])] + if kind is SelfRoom {
                    seq![
                        change(UserRole::Banned, seq![UserRole::NoRole, UserRole::RoomAdmin]),
                        change(UserRole::RoomAdmin, seq![UserRole::NoRole, UserRole::Banned]),
                    ]
                } else {
                    seq![
                        change(UserRole::Banned, seq![UserRole::NoRole]),
                        change(UserRole::Member, seq![UserRole::NoRole, UserRole::Banned]),
                        change(
                            UserRole::RoomAdmin,
                            seq![UserRole::NoRole, UserRole::Banned, UserRole::Member],
                        ),
                        change(
                            UserRole::PolicyEnforcer,
                            seq![
                                UserRole::NoRole,
                                UserRole::Banned,
                                UserRole::Member,
                                UserRole::RoomAdmin,
                            ],
                        ),
                    ]
                },
            ),
        ),
        UserRole::Unknown => None,
    }
}

/// The role returned matches `spec`.
pub open spec fn role_matches(r: Option<Role>, spec: Option<RoleView>) -> bool {
    match spec {
        Some(v) => r matches Some(x) && x@ == v && x.well_formed(),
        None => r is None,
    }
}

/// The member role of a room, where it has one.
fn member_role(kind: &RoomKind) -> (r: Option<Role>)
    ensures
        role_matches(r, role_spec(kind@, UserRole::Member)),
{
    let mut r = UserRole::Member.builder();
    r = r.with_capabilities(member_base_vec()).with_authorized_role_change(
        UserRole::Member,
        vec![UserRole::NoRole],
    ).with_authorized_role_change(UserRole::NoRole, vec![UserRole::Member]);
    match kind {
        RoomKind::SelfRoom => None,
        _ => {
            if member_can_add_participant(kind) {
                r = r.with_capabilities(add_participant_vec());
            }
            let r = r.with_capabilities(member_room_vec());
            proof {
                let v = role_spec(kind@, UserRole::Member).unwrap();
                assert(r@.capabilities =~= v.capabilities);
                assert(r@.authorized_role_changes =~~= v.authorized_role_changes);
                assert(r@ =~= v);
            }
            Some(r)
        },
    }
}

} // verus!

verus! {

/// The policy a room starts with.
#[derive(Debug, Clone, PartialEq, Eq)]
pub struct RoomPolicies {
    pub roles: RoleData,
    pub participant_list: ParticipantListData,
    pub pre_auth: PreAuthData,
}

/// A user and the index of the role they hold.
#[derive(Debug, Clone, PartialEq, Eq)]
pub struct UserRolePair {
    /// The user's URI.
    pub user: String,
    pub role_index: u32,
}

#[derive(Debug, Clone, PartialEq, Eq)]
pub struct ParticipantListData {
    pub participants: Vec<UserRolePair>,
}

/// A condition on one claim of a joining user's credential.
#[derive(Debug, Clone, Copy, PartialEq, Eq, Structural)]
pub enum PreAuthClaim {
    /// The account's role is the given one.
    Role(AccountRole),
    /// The user hosts the meeting, or does not.
    Host(bool),
}

/// Users whose credential meets every claim of `claimset` join with
/// `target_role`.
#[derive(Debug, Clone, PartialEq, Eq)]
pub struct PreAuthRoleEntry {
    pub claimset: Vec<PreAuthClaim>,
    pub target_role: Role,
}

#[derive(Debug, Clone, PartialEq, Eq)]
pub struct PreAuthData {
    pub preauthorized_entries: Vec<PreAuthRoleEntry>,
}

impl RoomPolicies {
    /// The definition of `user_role` in a room of kind `kind`, if the room
    /// has that role.
    pub fn roles(kind: &RoomKind, user_role: UserRole) -> (r: Option<Role>)
        ensures
            role_matches(r, role_spec(kind@, user_role)),
    {
        let mut r = user_role.builder();
        match user_role {
            UserRole::NoRole => {
                r = r.with_capabilities(no_role_base_vec()).with_maximum_active_participants_constraint(
                    0,
                ).with_authorized_role_change(UserRole::NoRole, vec![UserRole::Member]);
                if !is_waiting_room(kind) {
                    r = r.with_capabilities(no_role_open_join_vec());
                    if no_role_has_lobby_access(kind) {
                        r = r.with_capabilities(no_role_lobby_vec());
                    }
                }
                proof {
                    let v = role_spec(kind@, user_role).unwrap();
                    assert(r@.capabilities =~= v.capabilities);
                    assert(r@.authorized_role_changes =~~= v.authorized_role_changes);
                    assert(r@ =~= v);
                }
                Some(r)
            },
            UserRole::Banned => {
                let r = r.with_maximum_active_participants_constraint(0);
                proof {
                    let v = role_spec(kind@, user_role).unwrap();
                    assert(r@ =~= v);
                }
                Some(r)
            },
            UserRole::Member => member_role(kind),
            UserRole::RoomAdmin => {
                r = r.with_capabilities(admin_base_vec());
                match kind {
                    RoomKind::SelfRoom => {
                        let r = r.with_capabilities(admin_self_room_vec()).with_authorized_role_change(
                            UserRole::NoRole,
                            vec![UserRole::RoomAdmin],
                        ).with_authorized_role_change(UserRole::RoomAdmin, vec![UserRole::NoRole]);
                        proof {
                            let v = role_spec(kind@, user_role).unwrap();
                            assert(r@.capabilities =~= v.capabilities);
                            assert(r@.authorized_role_changes =~~= v.authorized_role_changes);
                            assert(r@ =~= v);
                        }
                        Some(r)
                    },
                    _ => {
                        match kind {
                            RoomKind::Dm { .. } => {},
                            _ => {
                                r = r.with_capabilities(add_participant_vec());
                            },
                        }
                        let member = match member_role(kind) {
                            Some(m) => m,
                            None => {
                                return None;
                            },
                        };
                        let mut admin = r.inherit_capabilities(&member).with_capabilities(
                            admin_room_vec(),
                        );
                        if admin_can_accept_knock(kind) {
                            admin = admin.with_capabilities(accept_knock_vec());
                        }
                        if admin_can_change_role_definitions(kind) {
                            admin = admin.with_capabilities(change_role_definitions_vec());
                        }
                        let admin = admin.with_authorized_role_change(
                            UserRole::NoRole,
                            vec![UserRole::Banned, UserRole::Member, UserRole::RoomAdmin],
                        ).with_authorized_role_change(
                            UserRole::Banned,
                            vec![UserRole::NoRole, UserRole::Member, UserRole::RoomAdmin],
                        ).with_authorized_role_change(
                            UserRole::Member,
                            vec![UserRole::NoRole, UserRole::Banned, UserRole::RoomAdmin],
                        ).with_authorized_role_change(
                            UserRole::RoomAdmin,
                            vec![UserRole::NoRole, UserRole::Banned, UserRole::Member],
                        ).with_minimum_participants_constraint(1);
                        proof {
                            let v = role_spec(kind@, user_role).unwrap();
                            assert(admin@.capabilities =~= v.capabilities);
                            assert(admin@.authorized_role_changes =~~= v.authorized_role_changes);
                            assert(admin@ =~= v);
                        }
                        Some(admin)
                    },
                }
            },
            UserRole::PolicyEnforcer => {
                r = r.with_capabilities(enforcer_base_vec()).with_minimum_participants_constraint(
                    1,
                ).with_maximum_participants_constraint(1).with_maximum_active_participants_constraint(
                    0,
                ).with_authorized_role_change(UserRole::NoRole, vec![UserRole::Banned]);
                let r = match kind {
                    RoomKind::SelfRoom => r.with_authorized_role_change(
                        UserRole::Banned,
                        vec![UserRole::NoRole, UserRole::RoomAdmin],
                    ).with_authorized_role_change(
                        UserRole::RoomAdmin,
                        vec![UserRole::NoRole, UserRole::Banned],
                    ),
                    _ => r.with_capabilities(enforcer_room_vec()).with_authorized_role_change(
                        UserRole::Banned,
                        vec![UserRole::NoRole],
                    ).with_authorized_role_change(
                        UserRole::Member,
                        vec![UserRole::NoRole, UserRole::Banned],
                    ).with_authorized_role_change(
                        UserRole::RoomAdmin,
                        vec![UserRole::NoRole, UserRole::Banned, UserRole::Member],
                    ).with_authorized_role_change(
                        UserRole::PolicyEnforcer,
                        vec![UserRole::NoRole, UserRole::Banned, UserRole::Member, UserRole::RoomAdmin],
                    ),
                };
                proof {
                    let v = role_spec(kind@, user_role).unwrap();
                    assert(r@.capabilities =~= v.capabilities);
                    assert(r@.authorized_role_changes =~~= v.authorized_role_changes);
                    assert(r@ =~= v);
                }
                Some(r)
            },
            UserRole::Unknown => None,
        }
    }
}

} // verus!

verus! {

/// Why a policy could not be made.
#[derive(Debug)]
pub enum PolicyError {
    /// No definition of the role exists for this kind of room.
    MissingRole(UserRole, RoomKind),
    ImplementationError(&'static str),
}

pub type PolicyResult<T> = Result<T, PolicyError>;

/// The role the creator of a room holds: admin of self rooms and DMs, and
/// of hosted rooms when hosting them, else member.
pub open spec fn creator_role(kind: RoomKindView, is_host: bool) -> u32 {
    match kind {
        RoomKindView::SelfRoom => role_index(UserRole::RoomAdmin),
        RoomKindView::Dm { .. } => role_index(UserRole::RoomAdmin),
        _ => if is_host {
            role_index(UserRole::RoomAdmin)
        } else {
            role_index(UserRole::Member)
        },
    }
}

/// Each of `users` with role index `role`.
pub open spec fn with_role(users: Seq<Seq<char>>, role: u32) -> Seq<(Seq<char>, u32)> {
    users.map_values(|u: Seq<char>| (u, role))
}

/// The participants a room starts with: the other users, admins in a DM and
/// members elsewhere, then the creator.
pub open spec fn participants_spec(creator: Seq<char>, kind: RoomKindView, is_host: bool) -> Seq<
    (Seq<char>, u32),
> {
    let c = (creator, creator_role(kind, is_host));
    match kind {
        RoomKindView::SelfRoom => seq![c],
        RoomKindView::Dm { other_users } => with_role(other_users, role_index(UserRole::RoomAdmin)).push(c),
        RoomKindView::BasicHostedRoom { other_users, .. } => with_role(
            other_users,
            role_index(UserRole::Member),
        ).push(c),
        RoomKindView::BasicRoomWithWaiting { other_users } => with_role(
            other_users,
            role_index(UserRole::Member),
        ).push(c),
    }
}

pub open spec fn pairs_view(p: Seq<UserRolePair>) -> Seq<(Seq<char>, u32)> {
    p.map_values(|x: UserRolePair| (x.user@, x.role_index))
}

/// The role a claim grants, as defined for the room.
pub open spec fn granted(kind: RoomKindView, r: UserRole) -> RoleView {
    role_spec(kind, r).unwrap()
}

/// The pre-authorizations of a room, in order of precedence: Proton admins
/// enforce the policy; in waiting rooms and open hosted rooms the meeting
/// host and organization admins become room admins; in open hosted rooms
/// anyone else joins as a member.
pub open spec fn preauth_spec(kind: RoomKindView) -> Seq<(Seq<PreAuthClaim>, RoleView)> {
    let enforcer = (
        seq![PreAuthClaim::Role(AccountRole::ProtonAdmin)],
        granted(kind, UserRole::PolicyEnforcer),
    );
    let host = (seq![PreAuthClaim::Host(true)], granted(kind, UserRole::RoomAdmin));
    let org_admin = (
        seq![PreAuthClaim::Role(AccountRole::OrganizationAdmin)],
        granted(kind, UserRole::RoomAdmin),
    );
    match kind {
        RoomKindView::BasicRoomWithWaiting { .. } => seq![enforcer, host, org_admin],
        RoomKindView::BasicHostedRoom { is_open: true, .. } => seq![
            enforcer,
            host,
            org_admin,
            (Seq::empty(), granted(kind, UserRole::Member)),
        ],
        _ => seq![enforcer],
    }
}

pub open spec fn entries_view(e: Seq<PreAuthRoleEntry>) -> Seq<(Seq<PreAuthClaim>, RoleView)> {
    e.map_values(|x: PreAuthRoleEntry| (x.claimset@, x.target_role@))
}

/// The definitions of the roles a room has, in the order of `s`.
pub open spec fn defined_roles_from(kind: RoomKindView, s: Seq<UserRole>) -> Seq<RoleView>
    decreases s.len(),
{
    if s.len() == 0 {
        Seq::empty()
    } else {
        let rest = defined_roles_from(kind, s.drop_last());
        match role_spec(kind, s.last()) {
            Some(v) => rest.push(v),
            None => rest,
        }
    }
}

/// The definitions of the roles a room has, in the order roles are declared.
pub open spec fn defined_roles(kind: RoomKindView) -> Seq<RoleView> {
    defined_roles_from(kind, all_user_roles())
}

pub open spec fn roles_view(r: Seq<Role>) -> Seq<RoleView> {
    r.map_values(|x: Role| x@)
}

impl RoomPolicies {
    /// The policy is the one a room of kind `kind` created by `creator`
    /// starts with.
    pub open spec fn is_initial(&self, creator: Seq<char>, kind: RoomKindView, is_host: bool) -> bool {
        &&& roles_view(self.roles.roles@) == defined_roles(kind)
        &&& forall|i: int| 0 <= i < self.roles.roles@.len() ==> #[trigger] self.roles.roles@[i].well_formed()
        &&& pairs_view(self.participant_list.participants@) == participants_spec(creator, kind, is_host)
        &&& entries_view(self.pre_auth.preauthorized_entries@) == preauth_spec(kind)
    }

    /// The participants a room starts with.
    pub fn participant_list(creator: &UserId, kind: &RoomKind, is_host: bool) -> (r: Vec<UserRolePair>)
        ensures
            pairs_view(r@) == participants_spec(user_uri(*creator), kind@, is_host),
    {
        let creator_uri = creator.to_string();
        let role_index = match kind {
            RoomKind::SelfRoom => UserRole::RoomAdmin.index(),
            RoomKind::Dm { .. } => UserRole::RoomAdmin.index(),
            _ => if is_host {
                UserRole::RoomAdmin.index()
            } else {
                UserRole::Member.index()
            },
        };
        let admin_creator = UserRolePair { user: creator_uri, role_index };
        match kind {
            RoomKind::SelfRoom => {
                let v = vec![admin_creator];
                assert(pairs_view(v@) =~= participants_spec(user_uri(*creator), kind@, is_host));
                v
            },
            RoomKind::Dm { other_users } => {
                let mut others = pairs_with_role(other_users, UserRole::RoomAdmin.index());
                let ghost before = others@;
                others.push(admin_creator);
                assert(pairs_view(others@) =~= pairs_view(before).push((admin_creator.user@, role_index)));
                others
            },
            RoomKind::BasicHostedRoom { other_users, .. } | RoomKind::BasicRoomWithWaiting { other_users } => {
                let mut others = pairs_with_role(other_users, UserRole::Member.index());
                let ghost before = others@;
                others.push(admin_creator);
                assert(pairs_view(others@) =~= pairs_view(before).push((admin_creator.user@, role_index)));
                others
            },
        }
    }

    /// The pre-authorizations of a room, the policy enforcer's first.
    pub fn preauth(kind: &RoomKind) -> (r: PolicyResult<Vec<PreAuthRoleEntry>>)
        ensures
            r matches Ok(v) && entries_view(v@) == preauth_spec(kind@),
    {
        let enforcer = match Self::roles(kind, UserRole::PolicyEnforcer) {
            Some(role) => role,
            None => {
                return Err(PolicyError::MissingRole(UserRole::PolicyEnforcer, kind.clone()));
            },
        };
        let mut preauth = vec![
            PreAuthRoleEntry {
                claimset: vec![PreAuthClaim::Role(AccountRole::ProtonAdmin)],
                target_role: enforcer,
            },
        ];
        let opens = match kind {
            RoomKind::BasicRoomWithWaiting { .. } => true,
            RoomKind::BasicHostedRoom { is_open, .. } => *is_open,
            _ => false,
        };
        if opens {
            let admin = match Self::roles(kind, UserRole::RoomAdmin) {
                Some(role) => role,
                None => {
                    return Err(PolicyError::MissingRole(UserRole::RoomAdmin, kind.clone()));
                },
            };
            let admin2 = match Self::roles(kind, UserRole::RoomAdmin) {
                Some(role) => role,
                None => {
                    return Err(PolicyError::MissingRole(UserRole::RoomAdmin, kind.clone()));
                },
            };
            preauth.push(PreAuthRoleEntry { claimset: vec![PreAuthClaim::Host(true)], target_role: admin });
            preauth.push(
                PreAuthRoleEntry {
                    claimset: vec![PreAuthClaim::Role(AccountRole::OrganizationAdmin)],
                    target_role: admin2,
                },
            );
            if let RoomKind::BasicHostedRoom { .. } = kind {
                let member = match Self::roles(kind, UserRole::Member) {
                    Some(role) => role,
                    None => {
                        return Err(PolicyError::MissingRole(UserRole::Member, kind.clone()));
                    },
                };
                preauth.push(PreAuthRoleEntry { claimset: vec![], target_role: member });
            }
        }
        assert(entries_view(preauth@) =~~= preauth_spec(kind@));
        Ok(preauth)
    }

    /// The policy of a new room of kind `kind`, created by `creator`.
    pub fn new(creator: &UserId, kind: &RoomKind, is_host: bool) -> (r: PolicyResult<Self>)
        ensures
            r matches Ok(p) && p.is_initial(user_uri(*creator), kind@, is_host),
    {
        let all = UserRole::iter();
        let mut roles: Vec<Role> = Vec::new();
        let mut i: usize = 0;
        while i < all.len()
            invariant
                i <= all@.len(),
                all@ == all_user_roles(),
                roles_view(roles@) == defined_roles_from(kind@, all@.take(i as int)),
                forall|j: int| 0 <= j < roles@.len() ==> #[trigger] roles@[j].well_formed(),
            decreases all@.len() - i,
        {
            assert(all@.take(i + 1).drop_last() =~= all@.take(i as int));
            if let Some(role) = Self::roles(kind, all[i]) {
                let ghost before = roles@;
                roles.push(role);
                assert(roles_view(roles@) =~= roles_view(before).push(role@));
            }
            i += 1;
        }
        assert(all@.take(all@.len() as int) =~= all@);
        let participants = Self::participant_list(creator, kind, is_host);
        let entries = match Self::preauth(kind) {
            Ok(e) => e,
            Err(e) => {
                return Err(e);
            },
        };
        Ok(
            RoomPolicies {
                roles: RoleData { roles },
                participant_list: ParticipantListData { participants },
                pre_auth: PreAuthData { preauthorized_entries: entries },
            },
        )
    }

    /// Policy snapshot when waiting room is enabled (strict lobby).
    pub fn waiting_room(creator: &UserId, other_users: &[UserId], is_host: bool) -> (r: PolicyResult<Self>)
        ensures
            r matches Ok(p) && p.is_initial(
                user_uri(*creator),
                RoomKindView::BasicRoomWithWaiting { other_users: user_uris(other_users@) },
                is_host,
            ),
    {
        Self::new(creator, &RoomKind::BasicRoomWithWaiting { other_users: clone_users(other_users) }, is_host)
    }

    /// Policy snapshot when waiting room is disabled — identical to an open
    /// hosted room.
    pub fn open_lobby(creator: &UserId, other_users: &[UserId], is_host: bool) -> (r: PolicyResult<Self>)
        ensures
            r matches Ok(p) && p.is_initial(
                user_uri(*creator),
                RoomKindView::BasicHostedRoom { is_open: true, other_users: user_uris(other_users@) },
                is_host,
            ),
    {
        Self::new(
            creator,
            &RoomKind::BasicHostedRoom { is_open: true, other_users: clone_users(other_users) },
            is_host,
        )
    }
}

/// Each of `users`, by URI, with role index `role`.
fn pairs_with_role(users: &Vec<UserId>, role: u32) -> (r: Vec<UserRolePair>)
    ensures
        pairs_view(r@) == with_role(user_uris(users@), role),
{
    let mut out: Vec<UserRolePair> = Vec::new();
    let mut i: usize = 0;
    while i < users.len()
        invariant
            i <= users@.len(),
            pairs_view(out@) == with_role(user_uris(users@.take(i as int)), role),
        decreases users@.len() - i,
    {
        let ghost before = out@;
        out.push(UserRolePair { user: users[i].to_string(), role_index: role });
        i += 1;
        assert(pairs_view(out@) =~= pairs_view(before).push((user_uri(users@[i - 1]), role)));
        assert(with_role(user_uris(users@.take(i as int)), role) =~= with_role(
            user_uris(users@.take(i - 1)),
            role,
        ).push((user_uri(users@[i - 1]), role)));
    }
    assert(users@.take(users@.len() as int) =~= users@);
    out
}

} // verus!
