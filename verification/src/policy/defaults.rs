//! The lists of capabilities that the roles of a room are built from.
use vstd::prelude::*;
use crate::policy::capability::StdCapability;

verus! {

/// What a user outside the room keeps: leaving and changing their own role.
pub open spec fn no_role_base() -> Seq<StdCapability> {
    seq![StdCapability::CanRemoveSelf, StdCapability::CanChangeOwnRole]
}

/// Joining an open room on one's own.
pub open spec fn no_role_open_join() -> Seq<StdCapability> {
    seq![StdCapability::CanOpenJoin, StdCapability::CanSendMlsExternalCommit]
}

/// Reaching the lobby: join codes and knocking.
pub open spec fn no_role_lobby() -> Seq<StdCapability> {
    seq![StdCapability::CanUseJoinCode, StdCapability::CanKnock]
}

/// What every member may do to their own presence in the room.
pub open spec fn member_base() -> Seq<StdCapability> {
    seq![
        StdCapability::CanAddOwnClient,
        StdCapability::CanChangeOwnName,
        StdCapability::CanChangeOwnPresence,
        StdCapability::CanChangeOwnMood,
        StdCapability::CanChangeOwnAvatar,
        StdCapability::CanSendMlsPSKProposal,
        StdCapability::CanSendMlsReinitProposal,
        StdCapability::CanSendMlsExternalCommit,
        StdCapability::CanSendMlsExternalProposal,
        StdCapability::CanSendMessage,
        StdCapability::CanSendDirectMessage,
        StdCapability::CanTargetMessage,
        StdCapability::CanJoinIfPreauthorized,
        StdCapability::CanChangeUserRole,
        StdCapability::CanRemoveSelf,
        StdCapability::CanChangePreauthorizedUserList,
    ]
}

/// Adding participants.
pub open spec fn add_participant() -> Seq<StdCapability> {
    seq![StdCapability::CanAddParticipant]
}

/// What a member may do in a shared room: messages, media, calls.
pub open spec fn member_room() -> Seq<StdCapability> {
    seq![
        StdCapability::CanRemoveOwnClient,
        StdCapability::CanRemoveSelf,
        StdCapability::CanSendMessage,
        StdCapability::CanTargetMessage,
        StdCapability::CanReceiveMessage,
        StdCapability::CanCopyMessage,
        StdCapability::CanReplyToMessage,
        StdCapability::CanReactToMessage,
        StdCapability::CanEditReaction,
        StdCapability::CanDeleteOwnReaction,
        StdCapability::CanEditOwnMessage,
        StdCapability::CanReplyInTopic,
        StdCapability::CanEditOwnTopic,
        StdCapability::CanUploadImage,
        StdCapability::CanUploadVideo,
        StdCapability::CanUploadAudio,
        StdCapability::CanUploadAttachment,
        StdCapability::CanDownloadImage,
        StdCapability::CanDownloadAudio,
        StdCapability::CanDownloadVideo,
        StdCapability::CanDownloadAttachment,
        StdCapability::CanSendLink,
        StdCapability::CanSendLinkPreview,
        StdCapability::CanFollowLink,
        StdCapability::CanCopyLink,
        StdCapability::CanJoinCall,
        StdCapability::CanSendAudio,
        StdCapability::CanReceiveAudio,
        StdCapability::CanSendVideo,
        StdCapability::CanReceiveVideo,
        StdCapability::CanShareScreen,
        StdCapability::CanViewSharedScreen,
        StdCapability::CanDeleteOwnMessage,
        StdCapability::CanSendMlsUpdateProposal,
        StdCapability::CanChangeOwnRole,
        StdCapability::CanSendMlsExternalCommit,
        StdCapability::CanSendMlsExternalProposal,
        StdCapability::CanChangePreauthorizedUserList,
        StdCapability::CanUseJoinCode,
        StdCapability::CanJoinIfPreauthorized,
        StdCapability::CanReportAbuse,
        StdCapability::CanStartTopic,
        StdCapability::CanStartCall,
    ]
}

/// What every admin may do: leave, rejoin, and keep others out.
pub open spec fn admin_base() -> Seq<StdCapability> {
    seq![
        StdCapability::CanRemoveSelf,
        StdCapability::CanSendMlsExternalCommit,
        StdCapability::CanRemoveParticipant,
        StdCapability::CanBan,
        StdCapability::CanUnBan,
        StdCapability::CanKick,
    ]
}

/// What an admin of a shared room may change of the room.
pub open spec fn admin_room() -> Seq<StdCapability> {
    seq![
        StdCapability::CanChangeRoomName,
        StdCapability::CanChangeRoomDescription,
        StdCapability::CanChangeRoomAvatar,
        StdCapability::CanChangeRoomSubject,
        StdCapability::CanChangeRoomMood,
        StdCapability::CanDestroyRoom,
        StdCapability::CanChangeUserRole,
        StdCapability::CanChangePreauthorizedUserList,
        StdCapability::CanDeleteOtherMessage,
    ]
}

pub open spec fn accept_knock() -> Seq<StdCapability> {
    seq![StdCapability::CanAcceptKnock]
}

pub open spec fn change_role_definitions() -> Seq<StdCapability> {
    seq![StdCapability::CanChangeRoleDefinitions]
}

/// What the owner of a self room may do there.
pub open spec fn admin_self_room() -> Seq<StdCapability> {
    seq![
        StdCapability::CanAddOwnClient,
        StdCapability::CanRemoveOwnClient,
        StdCapability::CanSendMessage,
        StdCapability::CanReceiveMessage,
        StdCapability::CanUploadAttachment,
        StdCapability::CanDownloadAttachment,
        StdCapability::CanSendMlsReinitProposal,
        StdCapability::CanSendMlsPSKProposal,
    ]
}

/// What the policy enforcer may do in any room.
pub open spec fn enforcer_base() -> Seq<StdCapability> {
    seq![
        StdCapability::CanBan,
        StdCapability::CanUnBan,
        StdCapability::CanKick,
        StdCapability::CanDestroyRoom,
        StdCapability::CanChangeRoleDefinitions,
        StdCapability::CanChangePreauthorizedUserList,
        StdCapability::CanChangeOtherPolicyAttribute,
        StdCapability::CanChangeMlsOperationalPolicies,
        StdCapability::CanSendMlsReinitProposal,
        StdCapability::CanSendMlsExternalProposal,
    ]
}

/// What the policy enforcer may do in a shared room.
pub open spec fn enforcer_room() -> Seq<StdCapability> {
    seq![
        StdCapability::CanRemoveParticipant,
        StdCapability::CanChangeUserRole,
        StdCapability::CanChangeRoomMembershipStyle,
    ]
}

pub fn no_role_base_vec() -> (r: Vec<StdCapability>)
    ensures
        r@ == no_role_base(),
{
    vec![StdCapability::CanRemoveSelf, StdCapability::CanChangeOwnRole]
}

pub fn no_role_open_join_vec() -> (r: Vec<StdCapability>)
    ensures
        r@ == no_role_open_join(),
{
    vec![StdCapability::CanOpenJoin, StdCapability::CanSendMlsExternalCommit]
}

pub fn no_role_lobby_vec() -> (r: Vec<StdCapability>)
    ensures
        r@ == no_role_lobby(),
{
    vec![StdCapability::CanUseJoinCode, StdCapability::CanKnock]
}

pub fn member_base_vec() -> (r: Vec<StdCapability>)
    ensures
        r@ == member_base(),
{
    vec![
        StdCapability::CanAddOwnClient,
        StdCapability::CanChangeOwnName,
        StdCapability::CanChangeOwnPresence,
        StdCapability::CanChangeOwnMood,
        StdCapability::CanChangeOwnAvatar,
        StdCapability::CanSendMlsPSKProposal,
        StdCapability::CanSendMlsReinitProposal,
        StdCapability::CanSendMlsExternalCommit,
        StdCapability::CanSendMlsExternalProposal,
        StdCapability::CanSendMessage,
        StdCapability::CanSendDirectMessage,
        StdCapability::CanTargetMessage,
        StdCapability::CanJoinIfPreauthorized,
        StdCapability::CanChangeUserRole,
        StdCapability::CanRemoveSelf,
        StdCapability::CanChangePreauthorizedUserList,
    ]
}

pub fn add_participant_vec() -> (r: Vec<StdCapability>)
    ensures
        r@ == add_participant(),
{
    vec![StdCapability::CanAddParticipant]
}

pub fn member_room_vec() -> (r: Vec<StdCapability>)
    ensures
        r@ == member_room(),
{
    vec![
        StdCapability::CanRemoveOwnClient,
        StdCapability::CanRemoveSelf,
        StdCapability::CanSendMessage,
        StdCapability::CanTargetMessage,
        StdCapability::CanReceiveMessage,
        StdCapability::CanCopyMessage,
        StdCapability::CanReplyToMessage,
        StdCapability::CanReactToMessage,
        StdCapability::CanEditReaction,
        StdCapability::CanDeleteOwnReaction,
        StdCapability::CanEditOwnMessage,
        StdCapability::CanReplyInTopic,
        StdCapability::CanEditOwnTopic,
        StdCapability::CanUploadImage,
        StdCapability::CanUploadVideo,
        StdCapability::CanUploadAudio,
        StdCapability::CanUploadAttachment,
        StdCapability::CanDownloadImage,
        StdCapability::CanDownloadAudio,
        StdCapability::CanDownloadVideo,
        StdCapability::CanDownloadAttachment,
        StdCapability::CanSendLink,
        StdCapability::CanSendLinkPreview,
        StdCapability::CanFollowLink,
        StdCapability::CanCopyLink,
        StdCapability::CanJoinCall,
        StdCapability::CanSendAudio,
        StdCapability::CanReceiveAudio,
        StdCapability::CanSendVideo,
        StdCapability::CanReceiveVideo,
        StdCapability::CanShareScreen,
        StdCapability::CanViewSharedScreen,
        StdCapability::CanDeleteOwnMessage,
        StdCapability::CanSendMlsUpdateProposal,
        StdCapability::CanChangeOwnRole,
        StdCapability::CanSendMlsExternalCommit,
        StdCapability::CanSendMlsExternalProposal,
        StdCapability::CanChangePreauthorizedUserList,
        StdCapability::CanUseJoinCode,
        StdCapability::CanJoinIfPreauthorized,
        StdCapability::CanReportAbuse,
        StdCapability::CanStartTopic,
        StdCapability::CanStartCall,
    ]
}

pub fn admin_base_vec() -> (r: Vec<StdCapability>)
    ensures
        r@ == admin_base(),
{
    vec![
        StdCapability::CanRemoveSelf,
        StdCapability::CanSendMlsExternalCommit,
        StdCapability::CanRemoveParticipant,
        StdCapability::CanBan,
        StdCapability::CanUnBan,
        StdCapability::CanKick,
    ]
}

pub fn admin_room_vec() -> (r: Vec<StdCapability>)
    ensures
        r@ == admin_room(),
{
    vec![
        StdCapability::CanChangeRoomName,
        StdCapability::CanChangeRoomDescription,
        StdCapability::CanChangeRoomAvatar,
        StdCapability::CanChangeRoomSubject,
        StdCapability::CanChangeRoomMood,
        StdCapability::CanDestroyRoom,
        StdCapability::CanChangeUserRole,
        StdCapability::CanChangePreauthorizedUserList,
        StdCapability::CanDeleteOtherMessage,
    ]
}

pub fn accept_knock_vec() -> (r: Vec<StdCapability>)
    ensures
        r@ == accept_knock(),
{
    vec![StdCapability::CanAcceptKnock]
}

pub fn change_role_definitions_vec() -> (r: Vec<StdCapability>)
    ensures
        r@ == change_role_definitions(),
{
    vec![StdCapability::CanChangeRoleDefinitions]
}

pub fn admin_self_room_vec() -> (r: Vec<StdCapability>)
    ensures
        r@ == admin_self_room(),
{
    vec![
        StdCapability::CanAddOwnClient,
        StdCapability::CanRemoveOwnClient,
        StdCapability::CanSendMessage,
        StdCapability::CanReceiveMessage,
        StdCapability::CanUploadAttachment,
        StdCapability::CanDownloadAttachment,
        StdCapability::CanSendMlsReinitProposal,
        StdCapability::CanSendMlsPSKProposal,
    ]
}

pub fn enforcer_base_vec() -> (r: Vec<StdCapability>)
    ensures
        r@ == enforcer_base(),
{
    vec![
        StdCapability::CanBan,
        StdCapability::CanUnBan,
        StdCapability::CanKick,
        StdCapability::CanDestroyRoom,
        StdCapability::CanChangeRoleDefinitions,
        StdCapability::CanChangePreauthorizedUserList,
        StdCapability::CanChangeOtherPolicyAttribute,
        StdCapability::CanChangeMlsOperationalPolicies,
        StdCapability::CanSendMlsReinitProposal,
        StdCapability::CanSendMlsExternalProposal,
    ]
}

pub fn enforcer_room_vec() -> (r: Vec<StdCapability>)
    ensures
        r@ == enforcer_room(),
{
    vec![
        StdCapability::CanRemoveParticipant,
        StdCapability::CanChangeUserRole,
        StdCapability::CanChangeRoomMembershipStyle,
    ]
}

} // verus!
