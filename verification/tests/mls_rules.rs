use proton_meet::mls::{extract_group_id_epoch_from_mls_message, MlsMessage};
use proton_meet::signatures::{generate_signature_keypair, sign_with_label};
use proton_meet::suites::UtilError;
use proton_meet::mls::ExtensionsExt;
use proton_meet::mls::{
    Extension, GroupContext, KeyPackage, Proposal, RequiredCapabilities, Sender, UpdatePath,
    PROPOSAL_ADD, PROPOSAL_REMOVE, PROPOSAL_UPDATE,
};
use proton_meet::ratchet_tree::{Capabilities, LeafNode, LeafNodeSource, RatchetTree, TreeNode};
use proton_meet::validations::content::{AuthenticatedContent, Commit, ContentTypeInner, ContentValidationContext, FramedContent, ProposalOrRef};
use proton_meet::validations::key_package::KeyPackageValidationContext;
use proton_meet::validations::leaf_node::{GroupMemberValidationContext, LeafNodeValidationContext};
use proton_meet::validations::proposals::{ProposalSignatures,
    MutationSource, ProposalEvidence, ProposalListValidationContext, ProposalSenderPair,
};
use proton_meet::validations::{InvalidSignatureItem, ValidationError};

fn leaf(sig: u8, enc: u8, source: LeafNodeSource) -> LeafNode {
    LeafNode {
        encryption_key: vec![enc],
        signature_key: vec![sig],
        credential: vec![sig, sig],
        capabilities: Capabilities { extensions: vec![], proposals: vec![], credentials: vec![1] },
        source,
        extensions: vec![],
        encoded: vec![],
    }
}

fn tree_of_two() -> RatchetTree {
    RatchetTree(vec![
        Some(TreeNode::LeafNode(leaf(1, 11, LeafNodeSource::Update))),
        None,
        Some(TreeNode::LeafNode(leaf(2, 12, LeafNodeSource::Update))),
    ])
}

fn group() -> GroupContext {
    GroupContext { version: 1, cipher_suite: 1, group_id: vec![9], extensions: vec![], encoded: vec![] }
}

const ALL_GOOD: ProposalEvidence = ProposalEvidence { credential_valid: true, leaf_signature_valid: true, signature_valid: true };

#[test]
fn regular_commit_records_removals_and_updates() {
    let rt = tree_of_two();
    let gc = group();
    let own = 0u32;
    let committer = Sender::Member(0);
    let other = Sender::Member(1);
    let path = UpdatePath { leaf_node: leaf(1, 21, LeafNodeSource::Commit { parent_hash: vec![] }) };
    let ctx = ProposalListValidationContext {
        ratchet_tree: &rt,
        group_context: &gc,
        sender: &committer,
        update_path: Some(&path),
        own_leaf_index: Some(&own),
    };
    let update = Proposal::Update { leaf_node: leaf(2, 13, LeafNodeSource::Update) };
    let remove = Proposal::Remove { removed: 1 };
    let pairs = [
        ProposalSenderPair { proposal: &update, sender: &other },
        ProposalSenderPair { proposal: &remove, sender: &committer },
    ];
    // an Update and a Remove of the same leaf
    assert!(matches!(ctx.validate_commit(&pairs), Err(ValidationError::MultipleUpdateOrRemoveOnLeaf)));
    let pairs = [
        ProposalSenderPair { proposal: &remove, sender: &committer },
        ProposalSenderPair { proposal: &update, sender: &other },
    ];
    assert!(matches!(ctx.validate_commit(&pairs), Err(ValidationError::MultipleUpdateOrRemoveOnLeaf)));
    // two Updates from the same leaf
    let pairs = [
        ProposalSenderPair { proposal: &update, sender: &other },
        ProposalSenderPair { proposal: &update, sender: &other },
    ];
    assert!(matches!(ctx.validate_commit(&pairs), Err(ValidationError::MultipleUpdateOrRemoveOnLeaf)));

    let pairs = [ProposalSenderPair { proposal: &update, sender: &other }];
    let summary = ctx.validate_commit(&pairs).unwrap();
    assert!(summary.needs_update_path);
    assert!(!summary.reinit_pending);
    assert_eq!(summary.mutated_leaves.get(&1).unwrap(), &vec![MutationSource::Proposal(PROPOSAL_UPDATE)]);
    let pairs = [ProposalSenderPair { proposal: &remove, sender: &committer }];
    let summary = ctx.validate_commit(&pairs).unwrap();
    assert_eq!(summary.mutated_leaves.get(&1).unwrap(), &vec![MutationSource::Proposal(PROPOSAL_REMOVE)]);

    // the same leaf removed twice
    let pairs = [
        ProposalSenderPair { proposal: &remove, sender: &committer },
        ProposalSenderPair { proposal: &remove, sender: &committer },
    ];
    assert!(matches!(ctx.validate_commit(&pairs), Err(ValidationError::MultipleUpdateOrRemoveOnLeaf)));

    // removing oneself in one's own commit
    let remove_self = Proposal::Remove { removed: 0 };
    let pairs = [ProposalSenderPair { proposal: &remove_self, sender: &committer }];
    assert!(matches!(ctx.validate_commit(&pairs), Err(ValidationError::CannotApplySelfRemoval)));

    // one's own update
    let pairs = [ProposalSenderPair { proposal: &update, sender: &committer }];
    assert!(matches!(ctx.validate_commit(&pairs), Err(ValidationError::CannotApplySelfUpdate)));
}

#[test]
fn regular_commit_rejects_duplicates_and_reinit_after_others() {
    let rt = tree_of_two();
    let gc = group();
    let own = 0u32;
    let committer = Sender::Member(0);
    let ctx = ProposalListValidationContext {
        ratchet_tree: &rt,
        group_context: &gc,
        sender: &committer,
        update_path: None,
        own_leaf_index: Some(&own),
    };
    let kp = |sig: u8| KeyPackage { version: 1, cipher_suite: 1, init_key: vec![50], leaf_node: leaf(sig, 30, LeafNodeSource::KeyPackage { not_before: 0, not_after: 10 }), encoded: vec![] };
    let add_member = Proposal::Add { key_package: kp(2) };
    let pairs = [ProposalSenderPair { proposal: &add_member, sender: &committer }];
    assert!(matches!(ctx.validate_commit(&pairs), Err(ValidationError::DuplicateClient)));
    let add_new = Proposal::Add { key_package: kp(5) };
    let pairs = [
        ProposalSenderPair { proposal: &add_new, sender: &committer },
        ProposalSenderPair { proposal: &add_new, sender: &committer },
    ];
    assert!(matches!(ctx.validate_commit(&pairs), Err(ValidationError::DuplicateClient)));
    let pairs = [ProposalSenderPair { proposal: &add_new, sender: &committer }];
    let summary = ctx.validate_commit(&pairs).unwrap();
    assert!(!summary.needs_update_path);
    assert!(summary.mutated_leaves.is_empty());

    let psk = Proposal::PreSharedKey { psk: vec![1, 2] };
    let pairs = [
        ProposalSenderPair { proposal: &psk, sender: &committer },
        ProposalSenderPair { proposal: &psk, sender: &committer },
    ];
    assert!(matches!(ctx.validate_commit(&pairs), Err(ValidationError::PreSharedKeyMultipleAdd)));

    let reinit = Proposal::ReInit;
    let pairs = [
        ProposalSenderPair { proposal: &psk, sender: &committer },
        ProposalSenderPair { proposal: &reinit, sender: &committer },
    ];
    assert!(matches!(ctx.validate_commit(&pairs), Err(ValidationError::ReInitWithOtherProposals)));
    let pairs = [ProposalSenderPair { proposal: &reinit, sender: &committer }];
    assert!(ctx.validate_commit(&pairs).unwrap().reinit_pending);

    let gce = Proposal::GroupContextExtensions { extensions: vec![] };
    let pairs = [
        ProposalSenderPair { proposal: &gce, sender: &committer },
        ProposalSenderPair { proposal: &gce, sender: &committer },
    ];
    assert!(matches!(ctx.validate_commit(&pairs), Err(ValidationError::MultipleGroupContextExtensions)));
    // a group context extensions proposal needs a path, and there is none
    let pairs = [ProposalSenderPair { proposal: &gce, sender: &committer }];
    assert!(matches!(ctx.validate_commit(&pairs), Err(ValidationError::NoUpdatePath)));
    let ei = Proposal::ExternalInit;
    let pairs = [ProposalSenderPair { proposal: &ei, sender: &committer }];
    assert!(matches!(ctx.validate_commit(&pairs), Err(ValidationError::InvalidProposal(6))));
}

#[test]
fn gce_may_not_touch_the_app_data_dictionary() {
    let rt = tree_of_two();
    let gc = GroupContext { version: 1, cipher_suite: 1, group_id: vec![9], extensions: vec![Extension::Other(6)], encoded: vec![] };
    let own = 0u32;
    let committer = Sender::Member(0);
    let path = UpdatePath { leaf_node: leaf(1, 21, LeafNodeSource::Commit { parent_hash: vec![] }) };
    let ctx = ProposalListValidationContext {
        ratchet_tree: &rt,
        group_context: &gc,
        sender: &committer,
        update_path: Some(&path),
        own_leaf_index: Some(&own),
    };
    let gce = Proposal::GroupContextExtensions { extensions: vec![Extension::Other(6)] };
    let pairs = [ProposalSenderPair { proposal: &gce, sender: &committer }];
    assert!(matches!(ctx.validate_commit(&pairs), Err(ValidationError::ForbiddenGceAppDataDictUpdate)));
    let gce = Proposal::GroupContextExtensions { extensions: vec![Extension::Other(2)] };
    let pairs = [ProposalSenderPair { proposal: &gce, sender: &committer }];
    assert!(ctx.validate_commit(&pairs).is_ok());
}

#[test]
fn external_commits() {
    let rt = tree_of_two();
    let gc = group();
    let joiner = Sender::NewMemberCommit;
    let path = UpdatePath { leaf_node: leaf(2, 40, LeafNodeSource::Commit { parent_hash: vec![] }) };
    let ctx = ProposalListValidationContext {
        ratchet_tree: &rt,
        group_context: &gc,
        sender: &joiner,
        update_path: Some(&path),
        own_leaf_index: None,
    };
    let ei = Proposal::ExternalInit;
    let remove_own_old = Proposal::Remove { removed: 1 };
    let pairs = [
        ProposalSenderPair { proposal: &ei, sender: &joiner },
        ProposalSenderPair { proposal: &remove_own_old, sender: &joiner },
    ];
    let summary = ctx.validate_commit(&pairs).unwrap();
    assert!(summary.needs_update_path);
    assert_eq!(summary.mutated_leaves.get(&1).unwrap(), &vec![MutationSource::Proposal(PROPOSAL_REMOVE)]);

    let remove_other = Proposal::Remove { removed: 0 };
    let pairs = [
        ProposalSenderPair { proposal: &ei, sender: &joiner },
        ProposalSenderPair { proposal: &remove_other, sender: &joiner },
    ];
    assert!(matches!(ctx.validate_commit(&pairs), Err(ValidationError::ExternalCommitRemovesUnownedNode)));
    let remove_none = Proposal::Remove { removed: 7 };
    let pairs = [ProposalSenderPair { proposal: &remove_none, sender: &joiner }];
    assert!(matches!(ctx.validate_commit(&pairs), Err(ValidationError::NoSuchLeafNode(7))));
    let pairs = [
        ProposalSenderPair { proposal: &ei, sender: &joiner },
        ProposalSenderPair { proposal: &ei, sender: &joiner },
    ];
    assert!(matches!(ctx.validate_commit(&pairs), Err(ValidationError::MultipleExternalInit)));
    let pairs: [ProposalSenderPair; 0] = [];
    assert!(matches!(ctx.validate_commit(&pairs), Err(ValidationError::NoExternalInit)));
    let member = Sender::Member(0);
    let pairs = [ProposalSenderPair { proposal: &ei, sender: &member }];
    assert!(matches!(ctx.validate_commit(&pairs), Err(ValidationError::MalformedStructure)));
    let add = Proposal::ReInit;
    let pairs = [ProposalSenderPair { proposal: &add, sender: &joiner }];
    assert!(matches!(ctx.validate_commit(&pairs), Err(ValidationError::InvalidProposal(5))));
    let no_path = ProposalListValidationContext { update_path: None, ..ctx };
    assert!(matches!(no_path.validate_commit(&[]), Err(ValidationError::NoUpdatePath)));
}

#[test]
fn sorting_order() {
    let order: Vec<usize> = [7u16, 2, 10, 3, 1, 4, 6, 5, 9, 8, 11]
        .iter()
        .map(|t| ProposalListValidationContext::sorting_order_for_proposal_type(*t))
        .collect();
    assert_eq!(order, vec![0, 1, 2, 3, 4, 5, 6, 7, 8, 9, usize::MAX]);
}

#[test]
fn key_package_lifetimes() {
    let ctx = KeyPackageValidationContext::at(100_000);
    let source = LeafNodeSource::KeyPackage { not_before: 120_000, not_after: 200_000 };
    // within the 14-hour leeway
    assert!(ctx.validate_keypackage_lifetime(&source));
    let source = LeafNodeSource::KeyPackage { not_before: 160_000, not_after: 200_000 };
    assert!(!ctx.validate_keypackage_lifetime(&source));
    let source = LeafNodeSource::KeyPackage { not_before: 10, not_after: 5 };
    assert!(!ctx.validate_keypackage_lifetime(&source));
    assert!(!ctx.validate_keypackage_lifetime(&LeafNodeSource::Update));
    let no_time = KeyPackageValidationContext::default();
    assert!(no_time.validate_keypackage_lifetime(&LeafNodeSource::KeyPackage { not_before: 0, not_after: u64::MAX }));
    let ranged = KeyPackageValidationContext { time: None, acceptable_range: Some(10), cipher_suite: None };
    assert!(!ranged.validate_keypackage_lifetime(&LeafNodeSource::KeyPackage { not_before: 0, not_after: 11 }));
}

#[test]
fn key_packages() {
    let ctx = KeyPackageValidationContext::default().with_ciphersuite(1);
    let good = KeyPackage {
        version: 1,
        cipher_suite: 1,
        init_key: vec![1],
        leaf_node: leaf(3, 4, LeafNodeSource::KeyPackage { not_before: 0, not_after: 10 }),
        encoded: vec![],
    };
    assert!(ctx.validate(&good, true, true, true).is_ok());
    assert!(matches!(ctx.validate(&good, false, true, true), Err(ValidationError::InvalidCredential)));
    assert!(matches!(
        ctx.validate(&good, true, false, true),
        Err(ValidationError::InvalidSignature(InvalidSignatureItem::LeafNode))
    ));
    assert!(matches!(
        ctx.validate(&good, true, true, false),
        Err(ValidationError::InvalidSignature(InvalidSignatureItem::KeyPackage))
    ));
    let same_keys = KeyPackage { init_key: vec![4], ..good };
    assert!(matches!(
        ctx.validate(&same_keys, true, true, true),
        Err(ValidationError::LeafNodeEncryptionKeyIsKeyPackageInitKey)
    ));
    let other_suite = KeyPackage { cipher_suite: 2, ..same_keys };
    assert!(matches!(ctx.validate(&other_suite, true, true, true), Err(ValidationError::CiphersuiteMismatch)));
    let other_version = KeyPackage { version: 2, ..other_suite };
    assert!(matches!(ctx.validate(&other_version, true, true, true), Err(ValidationError::WtfIsThisProtocol)));
    assert!(matches!(
        KeyPackageValidationContext::default().validate(&other_version, true, true, true),
        Err(ValidationError::WtfIsThisProtocol)
    ));
}

#[test]
fn leaf_nodes() {
    let gc = GroupContext {
        version: 1,
        cipher_suite: 1,
        group_id: vec![9],
        extensions: vec![Extension::RequiredCapabilities(RequiredCapabilities {
            extension_types: vec![0x0A0A, 3, 0x1234],
            proposal_types: vec![],
            credential_types: vec![1],
        })],
        encoded: vec![],
    };
    let index = 0u32;
    let member = GroupMemberValidationContext { group_context: &gc, leaf_index: &index };
    let mut node = leaf(1, 2, LeafNodeSource::Commit { parent_hash: vec![] });
    let commit = LeafNodeValidationContext::Commit(member);
    // 0x1234 is required but not supported
    assert!(matches!(commit.validate_leaf_node(&node, true, true), Err(ValidationError::InsufficientCapabilities)));
    node.capabilities.extensions.push(0x1234);
    assert!(commit.validate_leaf_node(&node, true, true).is_ok());
    assert!(commit.validate_leaf_node_internal(&node, true, false, true).is_ok());
    node.extensions.push(0x4321);
    assert!(matches!(commit.validate_leaf_node(&node, true, true), Err(ValidationError::InsufficientCapabilities)));
    node.extensions.pop();

    let update = LeafNodeValidationContext::Update { ctx: member, previous_encryption_key: &[2], previous_signature_key: &[1] };
    assert!(matches!(update.validate_leaf_node(&node, true, true), Err(ValidationError::MalformedStructure)));
    node.source = LeafNodeSource::Update;
    assert!(matches!(update.validate_leaf_node(&node, true, true), Err(ValidationError::StaleEncryptionKey)));
    node.encryption_key = vec![3];
    assert!(update.validate_leaf_node(&node, true, true).is_ok());
    node.signature_key = vec![5];
    assert!(matches!(update.validate_leaf_node(&node, true, true), Err(ValidationError::UpdateWithDifferentSignatureKeys)));
    let kp_ctx = KeyPackageValidationContext::default();
    let in_kp = LeafNodeValidationContext::KeyPackage(&kp_ctx);
    assert!(matches!(in_kp.validate_leaf_node(&node, true, true), Err(ValidationError::NoCiphersuite)));
    assert_eq!(commit.member_info().unwrap().1, 0);
    assert!(in_kp.member_info().is_none());
}

#[test]
fn standalone_proposals() {
    let rt = tree_of_two();
    let gc = group();
    let member = Sender::Member(1);
    let ctx = ProposalListValidationContext {
        ratchet_tree: &rt,
        group_context: &gc,
        sender: &member,
        update_path: None,
        own_leaf_index: None,
    };
    let update = Proposal::Update { leaf_node: leaf(2, 99, LeafNodeSource::Update) };
    let remove = Proposal::Remove { removed: 0 };
    assert!(ctx.validate_standalone_proposals(&[&update, &remove], &[ALL_GOOD, ALL_GOOD]).is_ok());
    let stale = Proposal::Update { leaf_node: leaf(2, 12, LeafNodeSource::Update) };
    assert!(matches!(
        ctx.validate_standalone_proposals(&[&stale], &[ALL_GOOD]),
        Err(ValidationError::InvalidProposal(2))
    ));
    let gone = Proposal::Remove { removed: 5 };
    assert!(matches!(
        ctx.validate_standalone_proposals(&[&gone], &[ALL_GOOD]),
        Err(ValidationError::InvalidProposal(3))
    ));
    let joiner = Sender::NewMemberProposal;
    let join_ctx = ProposalListValidationContext { sender: &joiner, ..ctx };
    let add = Proposal::Add {
        key_package: KeyPackage {
            version: 1,
            cipher_suite: 1,
            init_key: vec![1],
            leaf_node: leaf(8, 9, LeafNodeSource::KeyPackage { not_before: 0, not_after: 10 }),
            encoded: vec![],
        },
    };
    assert!(join_ctx.validate_standalone_proposals(&[&add], &[ALL_GOOD]).is_ok());
    assert!(matches!(
        join_ctx.validate_standalone_proposals(&[&add, &add], &[ALL_GOOD, ALL_GOOD]),
        Err(ValidationError::InvalidExternalJoinProposal)
    ));
    let bad = ProposalEvidence { credential_valid: false, ..ALL_GOOD };
    assert!(matches!(
        join_ctx.validate_standalone_proposals(&[&add], &[bad]),
        Err(ValidationError::InvalidExternalJoinProposal)
    ));
    let _ = PROPOSAL_ADD;
}

#[test]
fn content_signature_keys() {
    let rt = tree_of_two();
    let gc = GroupContext {
        version: 1,
        cipher_suite: 1,
        group_id: vec![9],
        extensions: vec![Extension::ExternalSenders(vec![vec![77]])],
        encoded: vec![],
    };
    let ctx = ContentValidationContext { group_context: &gc, ratchet_tree: &rt };
    let from_member = FramedContent { sender: Sender::Member(1), content: ContentTypeInner::Application(vec![]) };
    assert_eq!(ctx.signature_public_key(&from_member).unwrap(), &vec![2u8]);
    assert!(ctx.validate_authenticated_content(&from_member, true).is_ok());
    assert!(matches!(
        ctx.validate_authenticated_content(&from_member, false),
        Err(ValidationError::InvalidSignature(InvalidSignatureItem::AuthenticatedContent))
    ));
    let unknown = FramedContent { sender: Sender::Member(4), content: ContentTypeInner::Application(vec![]) };
    assert!(matches!(ctx.signature_public_key(&unknown), Err(ValidationError::NoSuchLeafNode(4))));
    let external = FramedContent { sender: Sender::External(0), content: ContentTypeInner::Proposal(Proposal::Remove { removed: 0 }) };
    assert_eq!(ctx.signature_public_key(&external).unwrap(), &vec![77u8]);
    let external = FramedContent { sender: Sender::External(1), content: ContentTypeInner::Proposal(Proposal::Remove { removed: 0 }) };
    assert!(matches!(ctx.signature_public_key(&external), Err(ValidationError::NoSuchExternalSender(1))));
    let external = FramedContent { sender: Sender::External(0), content: ContentTypeInner::Proposal(Proposal::ExternalInit) };
    assert!(matches!(ctx.signature_public_key(&external), Err(ValidationError::MalformedStructure)));
    let path = UpdatePath { leaf_node: leaf(2, 40, LeafNodeSource::Commit { parent_hash: vec![] }) };
    let commit = FramedContent {
        sender: Sender::NewMemberCommit,
        content: ContentTypeInner::Commit(Commit {
            proposals: vec![ProposalOrRef::Proposal(Proposal::ExternalInit)],
            path: Some(path),
        }),
    };
    assert_eq!(ctx.signature_public_key(&commit).unwrap(), &vec![2u8]);
    let by_ref = FramedContent {
        sender: Sender::NewMemberCommit,
        content: ContentTypeInner::Commit(Commit { proposals: vec![ProposalOrRef::Reference(vec![1])], path: None }),
    };
    assert!(matches!(ctx.signature_public_key(&by_ref), Err(ValidationError::MalformedStructure)));
}

#[test]
fn extension_lookups() {
    let exts = vec![
        Extension::Other(9),
        Extension::ApplicationData(vec![(0x22, vec![1, 2])]),
        Extension::ExternalSenders(vec![vec![5], vec![6]]),
        Extension::ApplicationData(vec![]),
    ];
    assert_eq!(exts.app_data(), Some(&vec![(0x22u16, vec![1u8, 2])]));
    assert_eq!(exts.external_senders(), Some(&[vec![5u8], vec![6u8]][..]));
    let none: Vec<Extension> = vec![Extension::Other(1)];
    assert!(none.app_data().is_none());
    assert!(none.external_senders().is_none());
    assert_eq!(Extension::ApplicationData(vec![]).ext_type(), 6);
}

/// `b` as an MLS variable-length vector.
fn vl(b: &[u8]) -> Vec<u8> {
    let mut out = if b.len() <= 63 {
        vec![b.len() as u8]
    } else {
        vec![0x40 | (b.len() >> 8) as u8, (b.len() & 0xff) as u8]
    };
    out.extend_from_slice(b);
    out
}

/// A leaf node's fields as MLS encodes them, up to its signature: the keys,
/// a basic credential, empty capabilities, the source and no extensions.
fn leaf_fields(encryption_key: &[u8], signature_key: &[u8], source: &[u8]) -> Vec<u8> {
    let mut out = vl(encryption_key);
    out.extend(vl(signature_key));
    out.extend([0, 1]);
    out.extend(vl(b"alice"));
    out.extend([0, 0, 0, 0, 0]);
    out.extend_from_slice(source);
    out.push(0);
    out
}

/// The source of a key package's leaf, valid from 0 to 10.
fn key_package_source() -> Vec<u8> {
    let mut out = vec![1u8];
    out.extend(0u64.to_be_bytes());
    out.extend(10u64.to_be_bytes());
    out
}

fn concat(parts: &[&[u8]]) -> Vec<u8> {
    parts.concat()
}

/// A key package of version 1 and ciphersuite 1 whose leaf node is
/// `leaf_encoded`, up to its signature.
fn key_package_tbs(leaf_encoded: &[u8]) -> Vec<u8> {
    concat(&[&[0, 1, 0, 1], &vl(&[1]), leaf_encoded, &[0]])
}

/// A leaf under `signature_key` with encryption key `[enc]`, as encoded.
fn signed_leaf(signature_key: &[u8], enc: u8, source: LeafNodeSource, encoded: Vec<u8>) -> LeafNode {
    let mut l = leaf(0, enc, source);
    l.signature_key = signature_key.to_vec();
    l.encoded = encoded;
    l
}

fn kp_source() -> LeafNodeSource {
    LeafNodeSource::KeyPackage { not_before: 0, not_after: 10 }
}

#[test]
fn signed_validations() {
    let keys = generate_signature_keypair(1).unwrap();
    let sign = |m: &[u8], label: &str| sign_with_label(&keys.sk, 1, m, label).unwrap();

    // a key package and its leaf, each signed over its own encoding
    let kp_fields = leaf_fields(&[4], &keys.pk, &key_package_source());
    let leaf_sig = sign(&kp_fields, "MLS 1.0 LeafNodeTBS");
    let kp_encoded = concat(&[&kp_fields, &vl(&leaf_sig)]);
    let kp_leaf = || signed_leaf(&keys.pk, 4, kp_source(), kp_encoded.clone());
    let tbs = key_package_tbs(&kp_encoded);
    let kp_sig = sign(&tbs, "MLS 1.0 KeyPackageTBS");
    let package = KeyPackage {
        version: 1,
        cipher_suite: 1,
        init_key: vec![1],
        leaf_node: kp_leaf(),
        encoded: concat(&[&tbs, &vl(&kp_sig)]),
    };
    let ctx = KeyPackageValidationContext::default().with_ciphersuite(1);
    assert!(ctx.validate_signed(&package, true).is_ok());
    // the leaf carries the package's signature in place of its own
    let forged_leaf = signed_leaf(&keys.pk, 4, kp_source(), concat(&[&kp_fields, &vl(&kp_sig)]));
    let forged_tbs = key_package_tbs(&forged_leaf.encoded);
    let forged = KeyPackage {
        version: 1,
        cipher_suite: 1,
        init_key: vec![1],
        leaf_node: forged_leaf,
        encoded: concat(&[&forged_tbs, &vl(&sign(&forged_tbs, "MLS 1.0 KeyPackageTBS"))]),
    };
    assert!(matches!(
        ctx.validate_signed(&forged, true),
        Err(ValidationError::InvalidSignature(InvalidSignatureItem::LeafNode))
    ));
    // the package carries its leaf's signature in place of its own
    let unsigned = KeyPackage {
        version: 1,
        cipher_suite: 1,
        init_key: vec![1],
        leaf_node: kp_leaf(),
        encoded: concat(&[&tbs, &vl(&leaf_sig)]),
    };
    assert!(matches!(
        ctx.validate_signed(&unsigned, true),
        Err(ValidationError::InvalidSignature(InvalidSignatureItem::KeyPackage))
    ));
    // bytes that are no key package do not verify
    let garbled = KeyPackage { version: 1, cipher_suite: 1, init_key: vec![1], leaf_node: kp_leaf(), encoded: vec![0, 1] };
    assert!(matches!(
        ctx.validate_signed(&garbled, true),
        Err(ValidationError::InvalidSignature(InvalidSignatureItem::KeyPackage))
    ));

    // an update is signed together with its group and leaf index
    let gc = GroupContext { version: 1, cipher_suite: 1, group_id: vec![9, 9], extensions: vec![], encoded: vec![] };
    let index = 3u32;
    let member = GroupMemberValidationContext { group_context: &gc, leaf_index: &index };
    let upd_fields = leaf_fields(&[7], &keys.pk, &[2]);
    let covered = concat(&[&upd_fields, &[2, 9, 9, 0, 0, 0, 3]]);
    let upd = signed_leaf(&keys.pk, 7, LeafNodeSource::Update, concat(&[&upd_fields, &vl(&sign(&covered, "MLS 1.0 LeafNodeTBS"))]));
    let update = LeafNodeValidationContext::Update {
        ctx: member,
        previous_encryption_key: &[6],
        previous_signature_key: &keys.pk,
    };
    assert!(update.validate_leaf_node_signed(&upd, true).is_ok());
    let bare = signed_leaf(&keys.pk, 7, LeafNodeSource::Update, concat(&[&upd_fields, &vl(&sign(&upd_fields, "MLS 1.0 LeafNodeTBS"))]));
    assert!(matches!(
        update.validate_leaf_node_signed(&bare, true),
        Err(ValidationError::InvalidSignature(InvalidSignatureItem::LeafNode))
    ));
    // the signed leaf of another member's position does not verify here
    let elsewhere = GroupMemberValidationContext { group_context: &gc, leaf_index: &4 };
    assert!(matches!(
        LeafNodeValidationContext::Commit(elsewhere).leaf_signature_valid(&upd),
        false
    ));
    // a leaf from an update cannot stand in a key package
    let kp_ctx = KeyPackageValidationContext::default().with_ciphersuite(1);
    assert!(matches!(
        LeafNodeValidationContext::KeyPackage(&kp_ctx).validate_leaf_node_signed(&upd, true),
        Err(ValidationError::MalformedStructure)
    ));

    // framed content is checked under the sender's key, within its group
    let gc_encoded = concat(&[&[0, 1, 0, 1], &vl(&[9, 9]), &[0; 8], &[0, 0, 0]]);
    let gc = GroupContext { version: 1, cipher_suite: 1, group_id: vec![9, 9], extensions: vec![], encoded: gc_encoded.clone() };
    let rt = RatchetTree(vec![Some(TreeNode::LeafNode(upd))]);
    let cctx = ContentValidationContext { group_context: &gc, ratchet_tree: &rt };
    // group [9, 9], epoch 0, member 0, no authenticated data, empty application data
    let framed_bytes = concat(&[&vl(&[9, 9]), &[0; 8], &[1, 0, 0, 0, 0], &[0], &[1], &[0]]);
    let framed_tbs = concat(&[&[0, 1, 0, 1], &framed_bytes, &gc_encoded]);
    let framed_sig = sign(&framed_tbs, "MLS 1.0 FramedContentTBS");
    let content = || FramedContent { sender: Sender::Member(0), content: ContentTypeInner::Application(vec![]) };
    let signed = AuthenticatedContent { content: content(), encoded: concat(&[&[0, 1], &framed_bytes, &vl(&framed_sig)]) };
    assert!(cctx.validate_authenticated_content_signed(&signed).is_ok());
    let alone = sign(&concat(&[&[0, 1, 0, 1], &framed_bytes]), "MLS 1.0 FramedContentTBS");
    let outside = AuthenticatedContent { content: content(), encoded: concat(&[&[0, 1], &framed_bytes, &vl(&alone)]) };
    assert!(matches!(
        cctx.validate_authenticated_content_signed(&outside),
        Err(ValidationError::InvalidSignature(InvalidSignatureItem::AuthenticatedContent))
    ));
}

#[test]
fn standalone_proposals_signed() {
    let keys = generate_signature_keypair(1).unwrap();
    let sign = |m: &[u8], label: &str| sign_with_label(&keys.sk, 1, m, label).unwrap();
    let mut prev = leaf(0, 12, LeafNodeSource::Update);
    prev.signature_key = keys.pk.clone();
    let rt = RatchetTree(vec![Some(TreeNode::LeafNode(leaf(1, 11, LeafNodeSource::Update))), None, Some(TreeNode::LeafNode(prev))]);
    let gc = group();
    let member = Sender::Member(1);
    let ctx = ProposalListValidationContext {
        ratchet_tree: &rt,
        group_context: &gc,
        sender: &member,
        update_path: None,
        own_leaf_index: None,
    };
    let fields = leaf_fields(&[99], &keys.pk, &[2]);
    // the leaf is signed with the group (vector [9]) and the sender's leaf index 1
    let covered = concat(&[&fields, &[1, 9, 0, 0, 0, 1]]);
    let next = signed_leaf(&keys.pk, 99, LeafNodeSource::Update, concat(&[&fields, &vl(&sign(&covered, "MLS 1.0 LeafNodeTBS"))]));
    let update = Proposal::Update { leaf_node: next };
    let checked = ProposalSignatures { credential_valid: true };
    assert!(ctx.validate_standalone_proposals_signed(&[&update], &[checked]).is_ok());
    let bare = signed_leaf(&keys.pk, 99, LeafNodeSource::Update, concat(&[&fields, &vl(&sign(&fields, "MLS 1.0 LeafNodeTBS"))]));
    let forged = Proposal::Update { leaf_node: bare };
    assert!(matches!(
        ctx.validate_standalone_proposals_signed(&[&forged], &[ProposalSignatures { credential_valid: true }]),
        Err(ValidationError::InvalidProposal(2))
    ));

    let joiner = Sender::NewMemberProposal;
    let join_ctx = ProposalListValidationContext { sender: &joiner, ..ctx };
    let kp_fields = leaf_fields(&[9], &keys.pk, &key_package_source());
    let kp_encoded = concat(&[&kp_fields, &vl(&sign(&kp_fields, "MLS 1.0 LeafNodeTBS"))]);
    let kp_leaf = || signed_leaf(&keys.pk, 9, kp_source(), kp_encoded.clone());
    let tbs = key_package_tbs(&kp_encoded);
    let add = Proposal::Add {
        key_package: KeyPackage {
            version: 1,
            cipher_suite: 1,
            init_key: vec![1],
            leaf_node: kp_leaf(),
            encoded: concat(&[&tbs, &vl(&sign(&tbs, "MLS 1.0 KeyPackageTBS"))]),
        },
    };
    assert!(join_ctx.validate_standalone_proposals_signed(&[&add], &[ProposalSignatures { credential_valid: true }]).is_ok());
    let unsigned = Proposal::Add {
        key_package: KeyPackage {
            version: 1,
            cipher_suite: 1,
            init_key: vec![1],
            leaf_node: kp_leaf(),
            encoded: concat(&[&tbs, &vl(&[0; 64])]),
        },
    };
    assert!(matches!(
        join_ctx.validate_standalone_proposals_signed(&[&unsigned], &[ProposalSignatures { credential_valid: true }]),
        Err(ValidationError::InvalidExternalJoinProposal)
    ));
    assert!(matches!(
        join_ctx.validate_standalone_proposals_signed(&[&add], &[ProposalSignatures { credential_valid: false }]),
        Err(ValidationError::InvalidExternalJoinProposal)
    ));
}

#[test]
fn group_and_epoch_of_messages() {
    let public = MlsMessage::PublicMessage { group_id: vec![1, 2], epoch: 7 };
    assert_eq!(extract_group_id_epoch_from_mls_message(&public), Some((&[1u8, 2][..], &7u64)));
    let info = MlsMessage::GroupInfo { group_id: vec![3], epoch: 0 };
    assert_eq!(extract_group_id_epoch_from_mls_message(&info), Some((&[3u8][..], &0u64)));
    assert_eq!(extract_group_id_epoch_from_mls_message(&MlsMessage::Welcome), None);
    assert_eq!(extract_group_id_epoch_from_mls_message(&MlsMessage::KeyPackage), None);
}

#[test]
fn regular_commit_needs_support_for_non_default_proposal_types() {
    let gc = group();
    let own = 0u32;
    let committer = Sender::Member(0);
    let app = Proposal::AppEphemeral;
    let pairs = [ProposalSenderPair { proposal: &app, sender: &committer }];
    // neither member lists the type
    let rt = tree_of_two();
    let ctx = ProposalListValidationContext {
        ratchet_tree: &rt,
        group_context: &gc,
        sender: &committer,
        update_path: None,
        own_leaf_index: Some(&own),
    };
    match ctx.validate_commit(&pairs) {
        Err(ValidationError::NotAllMembersSupportProposalTypes(v)) => assert_eq!(v, vec![0x0009]),
        other => panic!("unexpected {:?}", other.is_ok()),
    }
    // both members list it
    let mut a = leaf(1, 11, LeafNodeSource::Update);
    a.capabilities.proposals = vec![0x0009];
    let mut b = leaf(2, 12, LeafNodeSource::Update);
    b.capabilities.proposals = vec![0x0009];
    let rt = RatchetTree(vec![Some(TreeNode::LeafNode(a)), None, Some(TreeNode::LeafNode(b))]);
    let ctx = ProposalListValidationContext {
        ratchet_tree: &rt,
        group_context: &gc,
        sender: &committer,
        update_path: None,
        own_leaf_index: Some(&own),
    };
    assert!(ctx.validate_commit(&pairs).is_ok());
}

#[test]
fn leaf_nodes_read_from_their_encoding() {
    let keys = generate_signature_keypair(1).unwrap();
    let mut source = key_package_source();
    source[16] = 9;
    let fields = leaf_fields(&[7, 7], &keys.pk, &source);
    let sig = sign_with_label(&keys.sk, 1, &fields, "MLS 1.0 LeafNodeTBS").unwrap();
    let encoded = concat(&[&fields, &vl(&sig)]);
    let l = LeafNode::from_encoded(&encoded).unwrap();
    assert_eq!(l.encryption_key, vec![7, 7]);
    assert_eq!(l.signature_key, keys.pk);
    assert_eq!(l.credential, concat(&[&[0, 1], &vl(b"alice")]));
    assert!(l.capabilities.extensions.is_empty() && l.capabilities.proposals.is_empty());
    assert!(l.capabilities.credentials.is_empty() && l.extensions.is_empty());
    assert!(matches!(l.source, LeafNodeSource::KeyPackage { not_before: 0, not_after: 9 }));
    assert_eq!(l.encoded, encoded);
    let ctx = KeyPackageValidationContext::default().with_ciphersuite(1);
    assert!(LeafNodeValidationContext::KeyPackage(&ctx).leaf_signature_valid(&l));

    let commit = concat(&[&leaf_fields(&[1], &[2], &concat(&[&[3], &vl(&[4, 5])])), &vl(&[])]);
    let c = LeafNode::from_encoded(&commit).unwrap();
    assert!(matches!(c.source, LeafNodeSource::Commit { ref parent_hash } if parent_hash == &vec![4u8, 5]));
    assert!(matches!(LeafNode::from_encoded(&[3, 1]), Err(UtilError::MlsSpecError(_))));
}

#[test]
fn key_packages_read_from_their_encoding() {
    let keys = generate_signature_keypair(1).unwrap();
    let fields = leaf_fields(&[4], &keys.pk, &key_package_source());
    let leaf_encoded = concat(&[&fields, &vl(&sign_with_label(&keys.sk, 1, &fields, "MLS 1.0 LeafNodeTBS").unwrap())]);
    let tbs = key_package_tbs(&leaf_encoded);
    let encoded = concat(&[&tbs, &vl(&sign_with_label(&keys.sk, 1, &tbs, "MLS 1.0 KeyPackageTBS").unwrap())]);
    let kp = KeyPackage::from_encoded(&encoded).unwrap();
    assert_eq!((kp.version, kp.cipher_suite), (1, 1));
    assert_eq!(kp.init_key, vec![1]);
    assert_eq!(kp.leaf_node.encoded, leaf_encoded);
    assert_eq!(kp.leaf_node.signature_key, keys.pk);
    assert_eq!(kp.encoded, encoded);
    let ctx = KeyPackageValidationContext::default().with_ciphersuite(1);
    assert!(ctx.validate_signed(&kp, true).is_ok());
    assert!(matches!(KeyPackage::from_encoded(&tbs[..3]), Err(UtilError::MlsSpecError(_))));
}
