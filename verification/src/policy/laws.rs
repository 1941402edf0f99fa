//! What holds of every room policy, whatever its creator, users and host.
use vstd::prelude::*;
use crate::claims::role::Role as AccountRole;
use crate::policy::capability::StdCapability;
use crate::policy::defaults::{
    add_participant, admin_base, admin_room, admin_self_room, enforcer_base, enforcer_room, member_base,
    member_room, no_role_base, accept_knock, change_role_definitions, no_role_lobby, no_role_open_join,
};
use crate::policy::hosted::{
    admin_accepts_knock, admin_changes_definitions, basic_hosted, lobby_access, members_add_participants,
    waiting, RoomKindView,
};
use crate::policy::rooms::{creator_role, entries_view, pairs_view, participants_spec, preauth_spec,
    role_spec, roles_view, PreAuthClaim, RoomPolicies};
use crate::policy::user_role::{role_index, UserRole};

verus! {

broadcast use crate::policy::role::lemma_added_contains;

proof fn lemma_capability_lists()
    ensures
        !member_base().contains(StdCapability::CanAddParticipant),
        !member_room().contains(StdCapability::CanAddParticipant),
        !admin_base().contains(StdCapability::CanAddParticipant),
        !admin_room().contains(StdCapability::CanAddParticipant),
        !admin_self_room().contains(StdCapability::CanAddParticipant),
        !enforcer_base().contains(StdCapability::CanAddParticipant),
        !enforcer_room().contains(StdCapability::CanAddParticipant),
        !member_base().contains(StdCapability::CanAcceptKnock),
        !member_room().contains(StdCapability::CanAcceptKnock),
        !admin_base().contains(StdCapability::CanAcceptKnock),
        !admin_room().contains(StdCapability::CanAcceptKnock),
        !admin_self_room().contains(StdCapability::CanAcceptKnock),
        !member_base().contains(StdCapability::CanChangeRoleDefinitions),
        !member_room().contains(StdCapability::CanChangeRoleDefinitions),
        !admin_base().contains(StdCapability::CanChangeRoleDefinitions),
        !admin_room().contains(StdCapability::CanChangeRoleDefinitions),
        !admin_self_room().contains(StdCapability::CanChangeRoleDefinitions),
        !no_role_base().contains(StdCapability::CanKnock),
        !no_role_base().contains(StdCapability::CanUseJoinCode),
        !no_role_base().contains(StdCapability::CanOpenJoin),
        !no_role_base().contains(StdCapability::CanSendMlsExternalCommit),
        !no_role_open_join().contains(StdCapability::CanKnock),
        !no_role_open_join().contains(StdCapability::CanUseJoinCode),
        no_role_open_join().contains(StdCapability::CanOpenJoin),
        no_role_open_join().contains(StdCapability::CanSendMlsExternalCommit),
        no_role_lobby().contains(StdCapability::CanKnock),
        no_role_lobby().contains(StdCapability::CanUseJoinCode),
        add_participant().contains(StdCapability::CanAddParticipant),
        accept_knock().contains(StdCapability::CanAcceptKnock),
        change_role_definitions().contains(StdCapability::CanChangeRoleDefinitions),
{
    assert(no_role_open_join()[0] == StdCapability::CanOpenJoin);
    assert(no_role_open_join()[1] == StdCapability::CanSendMlsExternalCommit);
    assert(no_role_lobby()[0] == StdCapability::CanUseJoinCode);
    assert(no_role_lobby()[1] == StdCapability::CanKnock);
    assert(add_participant()[0] == StdCapability::CanAddParticipant);
    assert(accept_knock()[0] == StdCapability::CanAcceptKnock);
    assert(change_role_definitions()[0] == StdCapability::CanChangeRoleDefinitions);
}

/// Members may add participants in standard hosted rooms, but not in
/// waiting rooms or DMs (a self room has no members).
pub proof fn lemma_member_adds_participants(kind: RoomKindView)
    requires
        !(kind is SelfRoom),
    ensures
        role_spec(kind, UserRole::Member) is Some,
        role_spec(kind, UserRole::Member).unwrap().capabilities.contains(StdCapability::CanAddParticipant)
            <==> members_add_participants(kind),
{
    lemma_capability_lists();
}

/// Room admins may add participants in hosted rooms, waiting rooms
/// included, and nowhere else.
pub proof fn lemma_admin_adds_participants(kind: RoomKindView)
    ensures
        role_spec(kind, UserRole::RoomAdmin) is Some,
        role_spec(kind, UserRole::RoomAdmin).unwrap().capabilities.contains(
            StdCapability::CanAddParticipant,
        ) <==> basic_hosted(kind),
{
    lemma_capability_lists();
}

/// The policy enforcer never adds participants.
pub proof fn lemma_enforcer_never_adds_participants(kind: RoomKindView)
    ensures
        role_spec(kind, UserRole::PolicyEnforcer) is Some,
        !role_spec(kind, UserRole::PolicyEnforcer).unwrap().capabilities.contains(
            StdCapability::CanAddParticipant,
        ),
{
    lemma_capability_lists();
}

/// Users outside the room may knock and use join codes in hosted rooms and
/// DMs, but not in waiting rooms; they may join on their own everywhere but
/// in waiting rooms.
pub proof fn lemma_no_role_lobby_access(kind: RoomKindView)
    ensures
        ({
            let c = role_spec(kind, UserRole::NoRole).unwrap().capabilities;
            &&& role_spec(kind, UserRole::NoRole) is Some
            &&& c.contains(StdCapability::CanKnock) <==> lobby_access(kind)
            &&& c.contains(StdCapability::CanUseJoinCode) <==> lobby_access(kind)
            &&& c.contains(StdCapability::CanOpenJoin) <==> !waiting(kind)
            &&& c.contains(StdCapability::CanSendMlsExternalCommit) <==> !waiting(kind)
        }),
{
    lemma_capability_lists();
}

/// Room admins may change the role definitions exactly in waiting rooms and
/// open hosted rooms, and accept knocks exactly in hosted rooms that are not
/// waiting rooms.
pub proof fn lemma_admin_definitions_and_knocks(kind: RoomKindView)
    ensures
        ({
            let c = role_spec(kind, UserRole::RoomAdmin).unwrap().capabilities;
            &&& c.contains(StdCapability::CanChangeRoleDefinitions) <==> admin_changes_definitions(kind)
            &&& c.contains(StdCapability::CanAcceptKnock) <==> admin_accepts_knock(kind)
        }),
{
    lemma_capability_lists();
}

/// Outside self rooms, a room admin may do whatever a member may.
pub proof fn lemma_admin_inherits_member(kind: RoomKindView)
    requires
        !(kind is SelfRoom),
    ensures
        forall|c: StdCapability|
            #[trigger] role_spec(kind, UserRole::Member).unwrap().capabilities.contains(c) ==> role_spec(
                kind,
                UserRole::RoomAdmin,
            ).unwrap().capabilities.contains(c),
{
}

/// Banned users can do nothing and may not be active in the room.
pub proof fn lemma_banned_has_nothing(kind: RoomKindView)
    ensures
        role_spec(kind, UserRole::Banned) matches Some(v) && v.capabilities == Seq::<StdCapability>::empty()
            && v.maximum_active_participants_constraint == Some(0u32),
{
}

/// The pre-authorization of Proton admins as policy enforcers comes first,
/// whatever the room; in a waiting room every other entry makes its holder
/// room admin, and every entry asks for some claim.
pub proof fn lemma_preauth_precedence(kind: RoomKindView)
    ensures
        preauth_spec(kind).len() >= 1,
        preauth_spec(kind)[0].0 == seq![PreAuthClaim::Role(AccountRole::ProtonAdmin)],
        preauth_spec(kind)[0].1.role_index == role_index(UserRole::PolicyEnforcer),
        kind is BasicRoomWithWaiting ==> {
            &&& preauth_spec(kind).len() == 3
            &&& forall|i: int|
                1 <= i < 3 ==> #[trigger] preauth_spec(kind)[i].1.role_index == role_index(
                    UserRole::RoomAdmin,
                )
            &&& forall|i: int| 0 <= i < 3 ==> #[trigger] preauth_spec(kind)[i].0.len() > 0
        },
        kind matches RoomKindView::BasicHostedRoom { is_open, .. } && is_open ==> {
            &&& preauth_spec(kind).len() == 4
            &&& preauth_spec(kind)[3].0.len() == 0
            &&& preauth_spec(kind)[3].1.role_index == role_index(UserRole::Member)
        },
{
}

/// Everyone is an admin in a DM; a self room holds its creator alone, as
/// admin; elsewhere the others join as members. The creator comes last.
pub proof fn lemma_initial_participants(creator: Seq<char>, kind: RoomKindView, is_host: bool)
    ensures
        ({
            let p = participants_spec(creator, kind, is_host);
            &&& p.len() >= 1
            &&& p.last() == (creator, creator_role(kind, is_host))
            &&& kind is SelfRoom ==> p.len() == 1 && p[0].1 == role_index(UserRole::RoomAdmin)
            &&& kind is Dm ==> forall|i: int|
                0 <= i < p.len() ==> #[trigger] p[i].1 == role_index(UserRole::RoomAdmin)
            &&& basic_hosted(kind) ==> forall|i: int|
                0 <= i < p.len() - 1 ==> #[trigger] p[i].1 == role_index(UserRole::Member)
        }),
{
}

/// Two policies made for the same creator, kind of room and host flag hold
/// the same roles, participants and pre-authorizations: opening the lobby
/// gives exactly the policy of an open hosted room.
pub proof fn lemma_initial_policy_determined(
    p: RoomPolicies,
    q: RoomPolicies,
    creator: Seq<char>,
    kind: RoomKindView,
    is_host: bool,
)
    requires
        p.is_initial(creator, kind, is_host),
        q.is_initial(creator, kind, is_host),
    ensures
        roles_view(p.roles.roles@) == roles_view(q.roles.roles@),
        pairs_view(p.participant_list.participants@) == pairs_view(q.participant_list.participants@),
        entries_view(p.pre_auth.preauthorized_entries@) == entries_view(q.pre_auth.preauthorized_entries@),
{
}

/// Everything a member of a shared room takes part in: messages, reactions,
/// topics, media, links, calls, shared screens, its own clients and role,
/// and reporting abuse.
pub open spec fn shared_room_participation() -> Seq<StdCapability> {
    seq![
        StdCapability::CanRemoveOwnClient,
        StdCapability::CanRemoveSelf,
        StdCapability::CanSendMessage,
        StdCapability::CanTargetMessage,
        StdCapability::CanReceiveMessage,
        StdCapability::CanCopyMessage,
        StdCapability::CanReplyToMessage,
        StdCapability::CanReactToMessage,
        StdCapability::CanEditReaction,
        StdCapability::CanDeleteOwnReaction,
        StdCapability::CanEditOwnMessage,
        StdCapability::CanReplyInTopic,
        StdCapability::CanEditOwnTopic,
        StdCapability::CanUploadImage,
        StdCapability::CanUploadVideo,
        StdCapability::CanUploadAudio,
        StdCapability::CanUploadAttachment,
        StdCapability::CanDownloadImage,
        StdCapability::CanDownloadAudio,
        StdCapability::CanDownloadVideo,
        StdCapability::CanDownloadAttachment,
        StdCapability::CanSendLink,
        StdCapability::CanSendLinkPreview,
        StdCapability::CanFollowLink,
        StdCapability::CanCopyLink,
        StdCapability::CanJoinCall,
        StdCapability::CanSendAudio,
        StdCapability::CanReceiveAudio,
        StdCapability::CanSendVideo,
        StdCapability::CanReceiveVideo,
        StdCapability::CanShareScreen,
        StdCapability::CanViewSharedScreen,
        StdCapability::CanDeleteOwnMessage,
        StdCapability::CanSendMlsUpdateProposal,
        StdCapability::CanChangeOwnRole,
        StdCapability::CanSendMlsExternalCommit,
        StdCapability::CanSendMlsExternalProposal,
        StdCapability::CanChangePreauthorizedUserList,
        StdCapability::CanUseJoinCode,
        StdCapability::CanJoinIfPreauthorized,
        StdCapability::CanReportAbuse,
        StdCapability::CanStartTopic,
        StdCapability::CanStartCall,
    ]
}

/// Outside self rooms, members and room admins may take part in everything
/// the room offers: among the rest, both may join and start calls and
/// start topics.
pub proof fn lemma_members_take_part(kind: RoomKindView)
    requires
        !(kind is SelfRoom),
    ensures
        role_spec(kind, UserRole::Member) matches Some(m) && role_spec(kind, UserRole::RoomAdmin) matches Some(a) && {
            &&& forall|i: int|
                0 <= i < shared_room_participation().len() ==> m.capabilities.contains(
                    #[trigger] shared_room_participation()[i],
                ) && a.capabilities.contains(shared_room_participation()[i])
            &&& m.capabilities.contains(StdCapability::CanStartCall)
            &&& m.capabilities.contains(StdCapability::CanJoinCall)
            &&& a.capabilities.contains(StdCapability::CanStartCall)
            &&& a.capabilities.contains(StdCapability::CanJoinCall)
        },
{
    assert(member_room() =~= shared_room_participation());
    assert forall|i: int| 0 <= i < shared_room_participation().len() implies member_room().contains(
        #[trigger] shared_room_participation()[i],
    ) by {
        assert(member_room()[i] == shared_room_participation()[i]);
    }
    assert(shared_room_participation()[25] == StdCapability::CanJoinCall);
    assert(shared_room_participation()[42] == StdCapability::CanStartCall);
}

/// What every member does with their own presence in a room: clients,
/// name, presence, mood, avatar, messages, MLS proposals and their role.
pub open spec fn own_presence() -> Seq<StdCapability> {
    seq![
        StdCapability::CanAddOwnClient,
        StdCapability::CanChangeOwnName,
        StdCapability::CanChangeOwnPresence,
        StdCapability::CanChangeOwnMood,
        StdCapability::CanChangeOwnAvatar,
        StdCapability::CanSendMlsPSKProposal,
        StdCapability::CanSendMlsReinitProposal,
        StdCapability::CanSendMlsExternalCommit,
        StdCapability::CanSendMlsExternalProposal,
        StdCapability::CanSendMessage,
        StdCapability::CanSendDirectMessage,
        StdCapability::CanTargetMessage,
        StdCapability::CanJoinIfPreauthorized,
        StdCapability::CanChangeUserRole,
        StdCapability::CanRemoveSelf,
        StdCapability::CanChangePreauthorizedUserList,
    ]
}

/// What every room admin may do to keep the room: leave, rejoin, remove,
/// ban, unban and kick.
pub open spec fn keeping_the_room() -> Seq<StdCapability> {
    seq![
        StdCapability::CanRemoveSelf,
        StdCapability::CanSendMlsExternalCommit,
        StdCapability::CanRemoveParticipant,
        StdCapability::CanBan,
        StdCapability::CanUnBan,
        StdCapability::CanKick,
    ]
}

/// What an admin of a shared room may change of it: its name,
/// description, avatar, subject and mood, its users' roles and
/// pre-authorizations, others' messages, and whether it exists.
pub open spec fn governing_the_room() -> Seq<StdCapability> {
    seq![
        StdCapability::CanChangeRoomName,
        StdCapability::CanChangeRoomDescription,
        StdCapability::CanChangeRoomAvatar,
        StdCapability::CanChangeRoomSubject,
        StdCapability::CanChangeRoomMood,
        StdCapability::CanDestroyRoom,
        StdCapability::CanChangeUserRole,
        StdCapability::CanChangePreauthorizedUserList,
        StdCapability::CanDeleteOtherMessage,
    ]
}

/// What the owner of a self room does there.
pub open spec fn own_room_use() -> Seq<StdCapability> {
    seq![
        StdCapability::CanAddOwnClient,
        StdCapability::CanRemoveOwnClient,
        StdCapability::CanSendMessage,
        StdCapability::CanReceiveMessage,
        StdCapability::CanUploadAttachment,
        StdCapability::CanDownloadAttachment,
        StdCapability::CanSendMlsReinitProposal,
        StdCapability::CanSendMlsPSKProposal,
    ]
}

/// Members hold every capability over their own presence; room admins
/// every capability of keeping the room, and, outside self rooms, of
/// governing it, while the owner of a self room may use it.
pub proof fn lemma_role_capability_lists(kind: RoomKindView)
    ensures
        !(kind is SelfRoom) ==> (role_spec(kind, UserRole::Member) matches Some(m) && forall|i: int|
            0 <= i < own_presence().len() ==> m.capabilities.contains(#[trigger] own_presence()[i])),
        role_spec(kind, UserRole::RoomAdmin) matches Some(a) && {
            &&& forall|i: int|
                0 <= i < keeping_the_room().len() ==> a.capabilities.contains(#[trigger] keeping_the_room()[i])
            &&& !(kind is SelfRoom) ==> forall|i: int|
                0 <= i < governing_the_room().len() ==> a.capabilities.contains(#[trigger] governing_the_room()[i])
            &&& kind is SelfRoom ==> forall|i: int|
                0 <= i < own_room_use().len() ==> a.capabilities.contains(#[trigger] own_room_use()[i])
        },
{
    assert(member_base() =~= own_presence());
    assert(admin_base() =~= keeping_the_room());
    assert(admin_room() =~= governing_the_room());
    assert(admin_self_room() =~= own_room_use());
    assert forall|i: int| 0 <= i < own_presence().len() implies member_base().contains(#[trigger] own_presence()[i]) by {
        assert(member_base()[i] == own_presence()[i]);
    }
    assert forall|i: int| 0 <= i < keeping_the_room().len() implies admin_base().contains(
        #[trigger] keeping_the_room()[i],
    ) by {
        assert(admin_base()[i] == keeping_the_room()[i]);
    }
    assert forall|i: int| 0 <= i < governing_the_room().len() implies admin_room().contains(
        #[trigger] governing_the_room()[i],
    ) by {
        assert(admin_room()[i] == governing_the_room()[i]);
    }
    assert forall|i: int| 0 <= i < own_room_use().len() implies admin_self_room().contains(
        #[trigger] own_room_use()[i],
    ) by {
        assert(admin_self_room()[i] == own_room_use()[i]);
    }
}

} // verus!
