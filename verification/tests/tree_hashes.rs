use proton_meet::ratchet_tree::{Capabilities, LeafNode, LeafNodeSource, ParentNode, RatchetTree, TreeNode};
use proton_meet::suites::{make_keypackage_ref, make_proposal_ref, HashAlg, UtilError};
use proton_meet::transcript::{compute_confirmed_transcript_hash_from_commit_message, TranscriptMessage};
use proton_meet::tree_index::{TreeLeafIndex, TreeNodeIndex};
use proton_meet::tree_reader::RatchetTreeReader;
use proton_meet::validations::ValidationError;
use proton_meet::validations::parent_hashes::verify_parent_hashes;
use proton_meet::validations::tree_hashes::{compute_tree_hash, compute_tree_hash_at_idx_with_alg, verify_tree_hash};

fn unhex(s: &str) -> Vec<u8> {
    (0..s.len()).step_by(2).map(|i| u8::from_str_radix(&s[i..i + 2], 16).unwrap()).collect()
}

fn hashed_leaf(encoded: Vec<u8>, source: LeafNodeSource) -> Option<TreeNode> {
    Some(TreeNode::LeafNode(LeafNode {
        encryption_key: vec![1],
        signature_key: vec![2],
        credential: vec![3],
        capabilities: Capabilities { extensions: vec![], proposals: vec![], credentials: vec![1] },
        source,
        extensions: vec![],
        encoded,
    }))
}

fn parent_node(encryption_key: Vec<u8>, parent_hash: Vec<u8>, unmerged_leaves: Vec<u32>) -> Option<TreeNode> {
    Some(TreeNode::ParentNode(ParentNode { encryption_key, parent_hash, unmerged_leaves }))
}

#[test]
fn tree_hash_of_one_leaf() {
    let tree = RatchetTree(vec![hashed_leaf(vec![0xaa, 0xbb], LeafNodeSource::Update)]);
    let expected = unhex("5d744f336cdbb203fbb33acb23e46c7b221bccce194fc6f5cdb658bb1fab2bba");
    assert_eq!(compute_tree_hash(&tree, 1).unwrap(), expected);
    assert!(verify_tree_hash(&tree, 1, &expected).is_ok());
    assert!(matches!(
        verify_tree_hash(&tree, 1, &[0u8; 32]),
        Err(UtilError::ValidationError(ValidationError::InvalidTreeHash))
    ));
    assert!(matches!(compute_tree_hash(&tree, 0xffff), Err(UtilError::UnsupportedHashAlg(_))));
}

#[test]
fn tree_hash_of_two_leaves() {
    let with_parent = RatchetTree(vec![
        hashed_leaf(vec![0x10], LeafNodeSource::Update),
        parent_node(vec![5], vec![], vec![1]),
        hashed_leaf(vec![0x11], LeafNodeSource::Update),
    ]);
    assert_eq!(
        compute_tree_hash(&with_parent, 1).unwrap(),
        unhex("ae7e6c56600802f76eda2e0689a37a61bfc292226b024300e790c231218fd943")
    );
    let blank_parent = RatchetTree(vec![
        hashed_leaf(vec![0x10], LeafNodeSource::Update),
        None,
        hashed_leaf(vec![0x11], LeafNodeSource::Update),
    ]);
    assert_eq!(
        compute_tree_hash(&blank_parent, 1).unwrap(),
        unhex("6ec6caaa0a846ee212b412da63bf912693a1666a4a69a0b50cade4f681e4a5c4")
    );
    // Leaving out leaf 1 hashes it as a blank leaf.
    let reader = RatchetTreeReader::new(&with_parent).with_computed_leaf_count();
    let excluded = [TreeLeafIndex(1)];
    assert_eq!(
        compute_tree_hash_at_idx_with_alg(&reader, TreeNodeIndex(1), &excluded, &HashAlg::Sha256).unwrap(),
        unhex("7d2a7e1255286fdd6f9c235fb047d44c4d473d3ef293c4a28fb8dc809a909c84")
    );
    // The SHA-384 suite gives a 48-byte hash.
    assert_eq!(compute_tree_hash(&with_parent, 7).unwrap().len(), 48);
}

#[test]
fn parent_hash_chain() {
    let left_ph = unhex("aeb5f3d21545847ec129d640b885570fccad635c98b1e7a8e5ca657074fba60a");
    let tree = RatchetTree(vec![
        hashed_leaf(vec![0x10], LeafNodeSource::Commit { parent_hash: left_ph.clone() }),
        parent_node(vec![5], vec![], vec![]),
        hashed_leaf(vec![0x11], LeafNodeSource::KeyPackage { not_before: 0, not_after: 10 }),
    ]);
    assert!(verify_parent_hashes(&tree, 1).is_ok());

    let wrong = RatchetTree(vec![
        hashed_leaf(vec![0x10], LeafNodeSource::Commit { parent_hash: vec![0u8; 32] }),
        parent_node(vec![5], vec![], vec![]),
        hashed_leaf(vec![0x11], LeafNodeSource::KeyPackage { not_before: 0, not_after: 10 }),
    ]);
    assert!(matches!(
        verify_parent_hashes(&wrong, 1),
        Err(UtilError::ValidationError(ValidationError::InvalidParentHash { idx: TreeNodeIndex(1) }))
    ));
    assert!(matches!(verify_parent_hashes(&tree, 0xffff), Err(UtilError::UnsupportedHashAlg(_))));

    // A tree without parent nodes has nothing to check.
    let single = RatchetTree(vec![hashed_leaf(vec![0x10], LeafNodeSource::Update)]);
    assert!(verify_parent_hashes(&single, 1).is_ok());
}

#[test]
fn parent_hash_leaves_out_unmerged_leaves() {
    let left_ph = unhex("e4eacadd86f07d83414037b3fb7101f99867219a028d6f850c5e0e2fe386eb27");
    let tree = RatchetTree(vec![
        hashed_leaf(vec![0x10], LeafNodeSource::Commit { parent_hash: left_ph }),
        parent_node(vec![5], vec![], vec![1]),
        hashed_leaf(vec![0x11], LeafNodeSource::KeyPackage { not_before: 0, not_after: 10 }),
    ]);
    assert!(verify_parent_hashes(&tree, 1).is_ok());
}

#[test]
fn parent_hash_through_blank_parents() {
    let left_ph = unhex("be966d0b54094fa2825955c1a67daba60bb0830512d2082234655e0ffc7cfc9a");
    let tree = RatchetTree(vec![
        hashed_leaf(vec![0x10], LeafNodeSource::Commit { parent_hash: left_ph }),
        None,
        hashed_leaf(vec![0x11], LeafNodeSource::KeyPackage { not_before: 0, not_after: 10 }),
        parent_node(vec![7], vec![1, 2], vec![]),
        hashed_leaf(vec![0x12], LeafNodeSource::KeyPackage { not_before: 0, not_after: 10 }),
        None,
        hashed_leaf(vec![0x13], LeafNodeSource::KeyPackage { not_before: 0, not_after: 10 }),
    ]);
    assert!(verify_parent_hashes(&tree, 1).is_ok());
    let no_link = RatchetTree(vec![
        hashed_leaf(vec![0x10], LeafNodeSource::Update),
        None,
        hashed_leaf(vec![0x11], LeafNodeSource::KeyPackage { not_before: 0, not_after: 10 }),
        parent_node(vec![7], vec![1, 2], vec![]),
        hashed_leaf(vec![0x12], LeafNodeSource::KeyPackage { not_before: 0, not_after: 10 }),
        None,
        hashed_leaf(vec![0x13], LeafNodeSource::KeyPackage { not_before: 0, not_after: 10 }),
    ]);
    assert!(matches!(
        verify_parent_hashes(&no_link, 1),
        Err(UtilError::ValidationError(ValidationError::InvalidParentHash { idx: TreeNodeIndex(3) }))
    ));
}

#[test]
fn proposal_and_key_package_references() {
    assert_eq!(
        make_proposal_ref(&[1, 2, 3], 1).unwrap(),
        unhex("60c31fb50db8a46de6725d8e1376129b294a989699ea393462fc533fc5d1b9ca")
    );
    assert_eq!(
        make_keypackage_ref(&[9], 1).unwrap(),
        unhex("69f6ffcd3ca5a0b1d8b34ec36b497216c89a901f8fc80461d0da1306e211a122")
    );
    assert!(matches!(make_proposal_ref(&[1], 0x0042), Err(UtilError::UnsupportedHashAlg(_))));
}

#[test]
fn transcript_hash_from_commit_message() {
    let commit = TranscriptMessage::Public { is_commit: true, content: vec![0xc0, 0xff, 0xee], signature: vec![0x51, 0x52] };
    assert_eq!(
        compute_confirmed_transcript_hash_from_commit_message(b"prev", &commit, 4, 1).unwrap(),
        unhex("49aed040bd56d12e6797bb12e7eb9c8b70d53f61f7ad48679c99bb3af5bfd7f1")
    );
    assert_eq!(compute_confirmed_transcript_hash_from_commit_message(b"prev", &commit, 0, 1).unwrap(), Vec::<u8>::new());
    let proposal = TranscriptMessage::Public { is_commit: false, content: vec![1], signature: vec![] };
    assert!(matches!(
        compute_confirmed_transcript_hash_from_commit_message(b"prev", &proposal, 4, 1),
        Err(UtilError::InvalidOrMissingContentType)
    ));
    assert!(matches!(
        compute_confirmed_transcript_hash_from_commit_message(b"prev", &TranscriptMessage::SemiPrivate { is_commit: true }, 4, 1),
        Err(UtilError::UnsupportedWireFormat(0xFAFE))
    ));
    assert!(matches!(
        compute_confirmed_transcript_hash_from_commit_message(b"prev", &TranscriptMessage::Private { is_commit: true }, 4, 1),
        Err(UtilError::InvalidOrMissingContentType)
    ));
    assert!(matches!(
        compute_confirmed_transcript_hash_from_commit_message(b"prev", &TranscriptMessage::Untyped, 4, 1),
        Err(UtilError::InvalidOrMissingContentType)
    ));
}
