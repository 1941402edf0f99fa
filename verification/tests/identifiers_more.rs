use proton_meet::identifiers::room::RoomId;
use proton_meet::identifiers::user::UserId;
use proton_meet::naming::capitalize;
use proton_meet::tree_index::range_from_leafcount;
use proton_meet::identifiers::error::ProtonMeetIdError;
use proton_meet::identifiers::message::MessageId;
use proton_meet::meet::{MeetComponentId, RatchetTreeExt};
use proton_meet::ratchet_tree::{Capabilities, LeafNode, LeafNodeSource, RatchetTree, TreeNode};
use proton_meet::tree_index::TreeLeafIndex;

#[test]
fn message_id_text_round_trip() {
    let id = MessageId::from_bytes([7u8; 32]);
    let text = id.to_string();
    assert_eq!(text.len(), 43);
    assert_eq!(MessageId::from_str(&text).unwrap(), id);
    assert!(matches!(MessageId::from_str("AAAA"), Err(ProtonMeetIdError::InvalidMessageId("Expected 32 bytes"))));
    assert!(matches!(MessageId::from_str("***"), Err(ProtonMeetIdError::Base64DecodeError)));
    assert_eq!(id.as_bytes(), &[7u8; 32]);
}

#[test]
fn component_ids() {
    assert_eq!(MeetComponentId::AppComponents.code(), 0x0001);
    assert_eq!(MeetComponentId::PreAuthListTmp.code(), 0xFE26);
    assert_eq!(MeetComponentId::MessageIdAad.code(), 0x0040);
    assert_eq!(MeetComponentId::from_code(0x0022), Some(MeetComponentId::ParticipantList));
    assert_eq!(MeetComponentId::from_code(0x0029), None);
    let all = MeetComponentId::all();
    assert_eq!(all.len(), 25);
    for c in all {
        assert_eq!(MeetComponentId::from_code(c.code()), Some(c));
    }
}

fn leaf(credential: u8) -> LeafNode {
    LeafNode {
        encryption_key: vec![1],
        signature_key: vec![2],
        credential: vec![credential],
        capabilities: Capabilities { extensions: vec![], proposals: vec![], credentials: vec![1] },
        source: LeafNodeSource::Update,
        extensions: vec![],
        encoded: vec![],
    }
}

#[test]
fn credential_at_index() {
    let tree = RatchetTree(vec![Some(TreeNode::LeafNode(leaf(9))), None, None]);
    assert_eq!(tree.credential_at_index(TreeLeafIndex(0)), Some(&vec![9u8]));
    assert_eq!(tree.credential_at_index(TreeLeafIndex(1)), None);
    assert_eq!(tree.credential_at_index(TreeLeafIndex(5)), None);
}

#[test]
fn capitalize_drops_underscores() {
    assert_eq!(capitalize("snake_case".to_string()), "Snakecase");
    assert_eq!(capitalize("_room_metadata".to_string()), "Roommetadata");
    assert_eq!(capitalize("éa".to_string()), "Éa");
}

#[test]
fn leaf_ranges() {
    assert_eq!(range_from_leafcount(4), 0..=3);
    assert_eq!(range_from_leafcount(1), 0..=0);
}

#[test]
fn try_new_random_reads_the_domain() {
    let user = UserId::try_new_random([0u8; 16], "proton.me").unwrap();
    assert_eq!(user.domain.as_str(), "proton.me");
    assert_eq!(user.id.as_str(), "AAAAAAAAAAAAAAAAAAAAAA");
    let room = RoomId::try_new_random([0xffu8; 16], "proton.me").unwrap();
    assert_eq!(room.domain.as_str(), "proton.me");
    assert_eq!(room.id.as_str(), "_____________________w");
    assert!(UserId::try_new_random([0u8; 16], "bad domain").is_err());
    assert!(RoomId::try_new_random([0u8; 16], "a/b").is_err());
}
