use proton_meet::claims::role::Role as AccountRole;
use proton_meet::identifiers::domain::Domain;
use proton_meet::identifiers::user::UserId;
use proton_meet::policy::capability::StdCapability;
use proton_meet::policy::hosted::{
    admin_can_accept_knock, admin_can_change_role_definitions, is_basic_hosted, is_waiting_room,
    member_can_add_participant, no_role_has_lobby_access, RoomKind,
};
use proton_meet::policy::rooms::{PreAuthClaim, RoomPolicies};
use proton_meet::policy::user_role::UserRole;

fn kinds() -> Vec<RoomKind> {
    vec![
        RoomKind::BasicHostedRoom { is_open: true, other_users: vec![] },
        RoomKind::BasicHostedRoom { is_open: false, other_users: vec![] },
        RoomKind::BasicRoomWithWaiting { other_users: vec![] },
        RoomKind::Dm { other_users: vec![] },
        RoomKind::SelfRoom,
    ]
}

fn has(kind: &RoomKind, role: UserRole, cap: StdCapability) -> bool {
    RoomPolicies::roles(kind, role).is_some_and(|r| r.has_capability(cap))
}

#[test]
fn member_adds_participants_only_in_hosted_rooms() {
    for kind in kinds() {
        if let RoomKind::SelfRoom = kind {
            assert!(RoomPolicies::roles(&kind, UserRole::Member).is_none());
            continue;
        }
        assert_eq!(
            has(&kind, UserRole::Member, StdCapability::CanAddParticipant),
            member_can_add_participant(&kind)
        );
    }
}

#[test]
fn admin_capabilities_follow_the_room_kind() {
    for kind in kinds() {
        assert_eq!(
            has(&kind, UserRole::RoomAdmin, StdCapability::CanAddParticipant),
            is_basic_hosted(&kind)
        );
        assert_eq!(
            has(&kind, UserRole::RoomAdmin, StdCapability::CanChangeRoleDefinitions),
            admin_can_change_role_definitions(&kind)
        );
        assert_eq!(
            has(&kind, UserRole::RoomAdmin, StdCapability::CanAcceptKnock),
            admin_can_accept_knock(&kind)
        );
        assert!(!has(&kind, UserRole::PolicyEnforcer, StdCapability::CanAddParticipant));
        assert_eq!(
            has(&kind, UserRole::NoRole, StdCapability::CanKnock),
            no_role_has_lobby_access(&kind)
        );
        assert_eq!(
            has(&kind, UserRole::NoRole, StdCapability::CanOpenJoin),
            !is_waiting_room(&kind)
        );
    }
}

#[test]
fn admin_inherits_member_capabilities() {
    let kind = RoomKind::BasicHostedRoom { is_open: false, other_users: vec![] };
    let member = RoomPolicies::roles(&kind, UserRole::Member).unwrap();
    let admin = RoomPolicies::roles(&kind, UserRole::RoomAdmin).unwrap();
    for cap in &member.role_capabilities {
        assert!(admin.has_capability(*cap));
    }
    assert_eq!(admin.minimum_participants_constraint, 1);
}

#[test]
fn capabilities_are_listed_once() {
    for kind in kinds() {
        for role in UserRole::iter() {
            if let Some(r) = RoomPolicies::roles(&kind, role) {
                let caps = &r.role_capabilities;
                for i in 0..caps.len() {
                    for j in (i + 1)..caps.len() {
                        assert_ne!(caps[i], caps[j]);
                    }
                }
            }
        }
    }
}

#[test]
fn banned_has_nothing_and_unknown_is_undefined() {
    for kind in kinds() {
        let banned = RoomPolicies::roles(&kind, UserRole::Banned).unwrap();
        assert!(banned.role_capabilities.is_empty());
        assert_eq!(banned.maximum_active_participants_constraint, Some(0));
        assert!(RoomPolicies::roles(&kind, UserRole::Unknown).is_none());
    }
}

#[test]
fn policy_enforcer_preauth_comes_first() {
    let creator = UserId::new(&Domain::default());
    for kind in kinds() {
        let policy = RoomPolicies::new(&creator, &kind, false).unwrap();
        let first = &policy.pre_auth.preauthorized_entries[0];
        assert_eq!(first.claimset, vec![PreAuthClaim::Role(AccountRole::ProtonAdmin)]);
        assert_eq!(first.target_role.role_index, 0xF0);
    }
    let open = RoomPolicies::open_lobby(&creator, &[], true).unwrap();
    let entries = &open.pre_auth.preauthorized_entries;
    assert_eq!(entries.len(), 4);
    assert!(entries[3].claimset.is_empty());
    assert_eq!(entries[3].target_role.role_index, UserRole::Member.index());
    assert_eq!(entries[1].claimset, vec![PreAuthClaim::Host(true)]);
}

#[test]
fn participants_of_each_kind() {
    let domain = Domain::default();
    let creator = UserId::new(&domain);
    let other = UserId::new(&domain);
    let dm = RoomPolicies::new(&creator, &RoomKind::Dm { other_users: vec![other.clone()] }, false).unwrap();
    let p = &dm.participant_list.participants;
    assert_eq!(p.len(), 2);
    assert!(p.iter().all(|x| x.role_index == 4));
    assert_eq!(p[0].user, other.to_string());
    assert_eq!(p[1].user, creator.to_string());

    let hosted = RoomPolicies::waiting_room(&creator, &[other.clone()], false).unwrap();
    let p = &hosted.participant_list.participants;
    assert_eq!(p[0].role_index, 3);
    assert_eq!(p[1].role_index, 3);
    let hosted = RoomPolicies::waiting_room(&creator, &[other], true).unwrap();
    assert_eq!(hosted.participant_list.participants[1].role_index, 4);

    let selfroom = RoomPolicies::new(&creator, &RoomKind::SelfRoom, false).unwrap();
    assert_eq!(selfroom.participant_list.participants.len(), 1);
    assert_eq!(selfroom.participant_list.participants[0].role_index, 4);
    assert_eq!(selfroom.roles.roles.len(), 4);
}

#[test]
fn user_role_indices() {
    assert_eq!(UserRole::from_index(0), UserRole::NoRole);
    assert_eq!(UserRole::from_index(1), UserRole::Banned);
    assert_eq!(UserRole::from_index(2), UserRole::Unknown);
    assert_eq!(UserRole::from_index(3), UserRole::Member);
    assert_eq!(UserRole::from_index(4), UserRole::RoomAdmin);
    assert_eq!(UserRole::from_index(0xF0), UserRole::PolicyEnforcer);
    assert_eq!(UserRole::from_index(0xFF), UserRole::Unknown);
    for r in UserRole::iter() {
        if r != UserRole::Unknown {
            assert_eq!(UserRole::from_index(r.index()), r);
        }
    }
    assert_eq!(UserRole::Member.builder().role_name, "member");
    assert_eq!(<UserRole as Default>::default(), UserRole::Member);
}
