//! What a role lets its holders do in a room.
use vstd::prelude::*;

verus! {

/// The standard capabilities of a MIMI room policy.
#[derive(Debug, Clone, Copy, PartialEq, Eq, Structural, Hash)]
pub enum StdCapability {
    CanAcceptKnock,
    CanAddOwnClient,
    CanAddParticipant,
    CanBan,
    CanChangeMlsOperationalPolicies,
    CanChangeOtherPolicyAttribute,
    CanChangeOwnAvatar,
    CanChangeOwnMood,
    CanChangeOwnName,
    CanChangeOwnPresence,
    CanChangeOwnRole,
    CanChangePreauthorizedUserList,
    CanChangeRoleDefinitions,
    CanChangeRoomAvatar,
    CanChangeRoomDescription,
    CanChangeRoomMembershipStyle,
    CanChangeRoomMood,
    CanChangeRoomName,
    CanChangeRoomSubject,
    CanChangeUserRole,
    CanCopyLink,
    CanCopyMessage,
    CanDeleteOtherMessage,
    CanDeleteOwnMessage,
    CanDeleteOwnReaction,
    CanDestroyRoom,
    CanDownloadAttachment,
    CanDownloadAudio,
    CanDownloadImage,
    CanDownloadVideo,
    CanEditOwnMessage,
    CanEditOwnTopic,
    CanEditReaction,
    CanFollowLink,
    CanJoinCall,
    CanJoinIfPreauthorized,
    CanKick,
    CanKnock,
    CanOpenJoin,
    CanReactToMessage,
    CanReceiveAudio,
    CanReceiveMessage,
    CanReceiveVideo,
    CanRemoveOwnClient,
    CanRemoveParticipant,
    CanRemoveSelf,
    CanReplyInTopic,
    CanReplyToMessage,
    CanReportAbuse,
    CanSendAudio,
    CanSendDirectMessage,
    CanSendLink,
    CanSendLinkPreview,
    CanSendMessage,
    CanSendMlsExternalCommit,
    CanSendMlsExternalProposal,
    CanSendMlsPSKProposal,
    CanSendMlsReinitProposal,
    CanSendMlsUpdateProposal,
    CanSendVideo,
    CanShareScreen,
    CanStartCall,
    CanStartTopic,
    CanTargetMessage,
    CanUnBan,
    CanUploadAttachment,
    CanUploadAudio,
    CanUploadImage,
    CanUploadVideo,
    CanUseJoinCode,
    CanViewSharedScreen,
}

/// Capabilities of this deployment, outside the standard range.
#[derive(Debug, Clone, Copy, PartialEq, Eq, Structural, Hash)]
pub enum PrivateCapability {
    CanUpdateSpaceMetadata,
}

impl PrivateCapability {
    /// The capability's code.
    pub fn as_capability_type(&self) -> (r: u16)
        ensures
            r == 0x8001,
    {
        match self {
            PrivateCapability::CanUpdateSpaceMetadata => 0x8001,
        }
    }

    /// The private capability with code `ct`, if any.
    pub fn from_capability_type(ct: u16) -> (r: Option<Self>)
        ensures
            r == (if ct == 0x8001 {
                Some(PrivateCapability::CanUpdateSpaceMetadata)
            } else {
                None
            }),
    {
        if ct == 0x8001 {
            Some(PrivateCapability::CanUpdateSpaceMetadata)
        } else {
            None
        }
    }
}

} // verus!
