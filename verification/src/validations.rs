//! The validation rules of RFC 9420 that a MIMI hub and its clients apply to
//! key packages, leaf nodes, proposal lists and framed content.
use vstd::prelude::*;
use crate::tree_index::TreeNodeIndex;
use crate::tls::VL_MAX;
use vstd::string::StringSliceAdditionalSpecFns;

pub mod proposals;
pub mod key_package;
pub mod leaf_node;
pub mod content;
pub mod group_info;
pub mod tree_hashes;
pub mod parent_hashes;

verus! {

/// What a signature that failed was on.
#[derive(Debug, Clone, Copy, PartialEq, Eq, Structural)]
pub enum InvalidSignatureItem {
    GroupInfo,
    LeafNode,
    KeyPackage,
    AuthenticatedContent,
    GroupInfoRequest,
    KeyMaterialRequest,
}

#[derive(Debug)]
pub enum ValidationError {
    /// The authentication service determined the credential to be invalid.
    InvalidCredential,
    /// Structural validation failed.
    MalformedStructure,
    ExpiredKeyPackage,
    /// The encryption key of the updated leaf node is the same as the
    /// previous one.
    StaleEncryptionKey,
    /// The leaf node has extensions that it doesn't declare as supported.
    InsufficientCapabilities,
    CiphersuiteMismatch,
    NoCiphersuite,
    NoRootInTree,
    /// The protocol is not MLS 1.0.
    WtfIsThisProtocol,
    LeafNodeEncryptionKeyIsKeyPackageInitKey,
    MultipleExternalInit,
    /// The client is already a member of the group.
    DuplicateClient,
    CannotApplySelfUpdate,
    CannotApplySelfRemoval,
    MultipleUpdateOrRemoveOnLeaf,
    PreSharedKeyMultipleAdd,
    InvalidExternalJoinProposal,
    IncorrectTargetLeaf,
    NoSuchLeafNode(u32),
    NoSuchExternalSender(u32),
    NoUpdatePath,
    InvalidUpdatePath,
    MultipleGroupContextExtensions,
    ForbiddenGceAppDataDictUpdate,
    NotAllMembersSupportProposalTypes(Vec<u16>),
    ExternalCommitRemovesUnownedNode,
    NoExternalInit,
    MutipleSelfRemove,
    ReInitWithOtherProposals,
    InvalidProposal(u16),
    InvalidParentHash { idx: TreeNodeIndex },
    InvalidTreeHash,
    InvalidSignature(InvalidSignatureItem),
    UpdateWithDifferentSignatureKeys,
    /// An implementation error that must not happen.
    ApiMisuse(&'static str),
}

/// The label an MLS structure named `name` is signed under in protocol
/// version `version`: `MLS 1.0 {name}` in version 1, `Reserved {name}` in
/// version 0.
pub open spec fn signature_label(version: u16, name: Seq<char>) -> Seq<char> {
    if version == 1 {
        "MLS 1.0 "@ + name
    } else {
        "Reserved "@ + name
    }
}

/// Short ASCII text fits an MLS vector.
proof fn lemma_ascii_label_fits(s: &str)
    requires
        vstd::utf8::is_ascii_chars(s@),
        s@.len() <= 100,
    ensures
        s.spec_bytes().len() <= VL_MAX,
{
    vstd::utf8::is_ascii_chars_encode_utf8(s@);
}

/// The label of a leaf node's signature.
pub fn leaf_node_label(version: u16) -> (r: &'static str)
    requires
        version <= 1,
    ensures
        r@ == signature_label(version, "LeafNodeTBS"@),
        r.spec_bytes().len() <= VL_MAX,
{
    proof {
        reveal_strlit("MLS 1.0 ");
        reveal_strlit("Reserved ");
        reveal_strlit("LeafNodeTBS");
        reveal_strlit("MLS 1.0 LeafNodeTBS");
        reveal_strlit("Reserved LeafNodeTBS");
    }
    let r = if version == 1 {
        "MLS 1.0 LeafNodeTBS"
    } else {
        "Reserved LeafNodeTBS"
    };
    proof {
        assert(r@ =~= signature_label(version, "LeafNodeTBS"@));
        assert(vstd::utf8::is_ascii_chars(r@));
        lemma_ascii_label_fits(r);
    }
    r
}

/// The label of a key package's signature.
pub fn key_package_label(version: u16) -> (r: &'static str)
    requires
        version <= 1,
    ensures
        r@ == signature_label(version, "KeyPackageTBS"@),
        r.spec_bytes().len() <= VL_MAX,
{
    proof {
        reveal_strlit("MLS 1.0 ");
        reveal_strlit("Reserved ");
        reveal_strlit("KeyPackageTBS");
        reveal_strlit("MLS 1.0 KeyPackageTBS");
        reveal_strlit("Reserved KeyPackageTBS");
    }
    let r = if version == 1 {
        "MLS 1.0 KeyPackageTBS"
    } else {
        "Reserved KeyPackageTBS"
    };
    proof {
        assert(r@ =~= signature_label(version, "KeyPackageTBS"@));
        assert(vstd::utf8::is_ascii_chars(r@));
        lemma_ascii_label_fits(r);
    }
    r
}

/// The label of a framed content's signature.
pub fn framed_content_label(version: u16) -> (r: &'static str)
    requires
        version <= 1,
    ensures
        r@ == signature_label(version, "FramedContentTBS"@),
        r.spec_bytes().len() <= VL_MAX,
{
    proof {
        reveal_strlit("MLS 1.0 ");
        reveal_strlit("Reserved ");
        reveal_strlit("FramedContentTBS");
        reveal_strlit("MLS 1.0 FramedContentTBS");
        reveal_strlit("Reserved FramedContentTBS");
    }
    let r = if version == 1 {
        "MLS 1.0 FramedContentTBS"
    } else {
        "Reserved FramedContentTBS"
    };
    proof {
        assert(r@ =~= signature_label(version, "FramedContentTBS"@));
        assert(vstd::utf8::is_ascii_chars(r@));
        lemma_ascii_label_fits(r);
    }
    r
}

/// The label of a group information's signature.
pub fn group_info_label(version: u16) -> (r: &'static str)
    requires
        version <= 1,
    ensures
        r@ == signature_label(version, "GroupInfoTBS"@),
        r.spec_bytes().len() <= VL_MAX,
{
    proof {
        reveal_strlit("MLS 1.0 ");
        reveal_strlit("Reserved ");
        reveal_strlit("GroupInfoTBS");
        reveal_strlit("MLS 1.0 GroupInfoTBS");
        reveal_strlit("Reserved GroupInfoTBS");
    }
    let r = if version == 1 {
        "MLS 1.0 GroupInfoTBS"
    } else {
        "Reserved GroupInfoTBS"
    };
    proof {
        assert(r@ =~= signature_label(version, "GroupInfoTBS"@));
        assert(vstd::utf8::is_ascii_chars(r@));
        lemma_ascii_label_fits(r);
    }
    r
}

} // verus!
