use proton_meet::ratchet_tree::{Capabilities, LeafNode, LeafNodeSource, ParentNode, RatchetTree, TreeNode};
use proton_meet::tree_index::{TreeLeafIndex, TreeNodeIndex};
use proton_meet::tree_reader::{compute_nw, leaf_count, root_idx_from_nw, RatchetTreeReader};
use proton_meet::tree_writer::{RatchetTreeContainer, RatchetTreeWriter};

fn leaf(sig: u8) -> LeafNode {
    LeafNode {
        encryption_key: vec![sig, 1],
        signature_key: vec![sig],
        credential: vec![sig, 2],
        capabilities: Capabilities { extensions: vec![], proposals: vec![], credentials: vec![] },
        source: LeafNodeSource::Update,
        extensions: vec![],
        encoded: vec![],
    }
}

fn parent(ph: u8, unmerged: Vec<u32>) -> ParentNode {
    ParentNode { encryption_key: vec![ph], parent_hash: vec![ph], unmerged_leaves: unmerged }
}

#[test]
fn node_index_arithmetic() {
    // RFC 9420 appendix C, a tree of 8 leaves
    let n = TreeNodeIndex(3);
    assert_eq!(n.level(), 2);
    assert_eq!(n.left(), Some(TreeNodeIndex(1)));
    assert_eq!(n.right(), Some(TreeNodeIndex(5)));
    assert_eq!(n.children(), Some((TreeNodeIndex(1), TreeNodeIndex(5))));
    assert_eq!(TreeNodeIndex(1).parent(&TreeNodeIndex(7)), Some(TreeNodeIndex(3)));
    assert_eq!(TreeNodeIndex(5).parent(&TreeNodeIndex(7)), Some(TreeNodeIndex(3)));
    assert_eq!(TreeNodeIndex(3).parent(&TreeNodeIndex(7)), Some(TreeNodeIndex(7)));
    assert_eq!(TreeNodeIndex(7).parent(&TreeNodeIndex(7)), None);
    assert_eq!(TreeNodeIndex(2).sibling(), Some(TreeNodeIndex(0)));
    assert_eq!(TreeNodeIndex(0).sibling(), Some(TreeNodeIndex(2)));
    assert_eq!(TreeNodeIndex(11).sibling(), Some(TreeNodeIndex(3)));
    assert_eq!(TreeNodeIndex(4).left(), None);
    assert!(TreeNodeIndex(6).is_leaf());
    assert_eq!(TreeNodeIndex(6).to_tree_leaf_idx(), Some(TreeLeafIndex(3)));
    assert_eq!(TreeNodeIndex(5).to_tree_leaf_idx(), None);
    assert_eq!(TreeNodeIndex::from_leaf(TreeLeafIndex(5)), TreeNodeIndex(10));
    // children and parent undo each other
    for i in (1..64usize).step_by(2) {
        let (l, r) = TreeNodeIndex(i).children().unwrap();
        assert_eq!(l.parent(&TreeNodeIndex(usize::MAX / 2)), Some(TreeNodeIndex(i)));
        assert_eq!(r.parent(&TreeNodeIndex(usize::MAX / 2)), Some(TreeNodeIndex(i)));
        assert_eq!(l.sibling(), Some(r));
        assert_eq!(r.sibling(), Some(l));
        assert_eq!(l.level() + 1, TreeNodeIndex(i).level());
    }
}

#[test]
fn widths_and_roots() {
    assert_eq!(compute_nw(0), 0);
    assert_eq!(compute_nw(1), 1);
    assert_eq!(compute_nw(8), 15);
    assert_eq!(compute_nw(5), 9);
    assert_eq!(root_idx_from_nw(1), TreeNodeIndex(0));
    assert_eq!(root_idx_from_nw(3), TreeNodeIndex(1));
    assert_eq!(root_idx_from_nw(15), TreeNodeIndex(7));
    assert_eq!(root_idx_from_nw(9), TreeNodeIndex(7));
    let nodes = vec![Some(TreeNode::LeafNode(leaf(1))), None, Some(TreeNode::LeafNode(leaf(2))), None, None];
    assert_eq!(leaf_count(&nodes), 2);
}

#[test]
fn reader_queries() {
    let rt = RatchetTree(vec![
        Some(TreeNode::LeafNode(leaf(1))),
        Some(TreeNode::ParentNode(parent(9, vec![]))),
        Some(TreeNode::LeafNode(leaf(2))),
        None,
        None,
        None,
        Some(TreeNode::LeafNode(leaf(4))),
    ]);
    let reader = RatchetTreeReader::new(&rt).with_computed_leaf_count();
    assert_eq!(reader.leaf_count(), 4);
    assert_eq!(reader.node_width(), 7);
    assert_eq!(reader.root_idx(), TreeNodeIndex(3));
    assert!(reader.root_node().is_none());
    assert_eq!(reader.find_leafnode_at_idx(TreeLeafIndex(1)).unwrap().signature_key, vec![2]);
    assert!(reader.find_leafnode_at_idx(TreeLeafIndex(2)).is_none());
    assert_eq!(reader.leftmost_blank_leafnode_idx(), TreeLeafIndex(2));
    assert_eq!(reader.find_idx_for_leafnode(&leaf(4)), Some(TreeLeafIndex(3)));
    assert_eq!(reader.find_leafnode_by_credential(&[2, 2]).unwrap().0, TreeLeafIndex(1));
    assert_eq!(reader.rightmost_non_blank_leafnode_idx(), Some(TreeLeafIndex(3)));
    let path: Vec<usize> = reader.direct_path(TreeLeafIndex(0)).unwrap().iter().map(|(i, _)| i.0).collect();
    assert_eq!(path, vec![1, 3]);
    let copath: Vec<usize> = reader.copath(TreeLeafIndex(0)).unwrap().iter().map(|(i, _)| i.0).collect();
    // the sibling of the root comes last, as the direct path holds the root
    assert_eq!(copath, vec![2, 5, 11]);
    // the resolution of a blank parent is that of its children
    let res: Vec<usize> = reader.node_resolution(TreeNodeIndex(5), &[]).unwrap().iter().map(|(i, _)| i.0).collect();
    assert_eq!(res, vec![6]);
    let res: Vec<usize> = reader.node_resolution(TreeNodeIndex(3), &[]).unwrap().iter().map(|(i, _)| i.0).collect();
    assert_eq!(res, vec![1, 6]);
    let res: Vec<usize> = reader.node_resolution(TreeNodeIndex(5), &[TreeLeafIndex(3)]).unwrap().iter().map(|(i, _)| i.0).collect();
    assert!(res.is_empty());
    assert_eq!(reader.parent_hash_at_idx(TreeNodeIndex(1)), Some(&vec![9u8]));
}

#[test]
fn writer_adds_and_removes_members() {
    let mut rt = RatchetTree(vec![Some(TreeNode::LeafNode(leaf(1)))]);
    {
        let mut writer = RatchetTreeWriter::new(&mut rt);
        assert!(writer.add_member(&leaf(2)).is_none());
    }
    assert_eq!(rt.0.len(), 3);
    {
        let reader = RatchetTreeReader::new(&rt).with_computed_leaf_count();
        assert_eq!(reader.find_leafnode_at_idx(TreeLeafIndex(1)).unwrap().signature_key, vec![2]);
    }
    {
        let mut writer = RatchetTreeWriter::new(&mut rt);
        assert!(writer.add_member(&leaf(3)).is_none());
    }
    assert_eq!(rt.0.len(), 7);
    assert_eq!(rt.0[4].as_ref().and_then(|n| n.as_leaf_node()).unwrap().signature_key, vec![3]);
    {
        let mut writer = RatchetTreeWriter::new(&mut rt);
        assert!(writer.remove_member(TreeLeafIndex(2)));
    }
    // leaves remain past the root: no shrinking
    assert_eq!(rt.0.len(), 7);
    {
        let mut writer = RatchetTreeWriter::new(&mut rt);
        assert!(writer.remove_member(TreeLeafIndex(1)));
        assert!(!writer.remove_member(TreeLeafIndex(1)));
    }
    assert_eq!(rt.0.len(), 7);
    {
        let mut writer = RatchetTreeWriter::new(&mut rt);
        assert!(writer.remove_member(TreeLeafIndex(0)));
    }
    // no member is left: the tree shrinks to a single blank node
    assert_eq!(rt.0.len(), 1);
    assert!(rt.0[0].is_none());
}

#[test]
fn container_grows_and_shrinks() {
    let mut c = RatchetTreeContainer(vec![Some(TreeNode::LeafNode(leaf(1)))]);
    c.grow_if_needed(TreeNodeIndex(0));
    assert_eq!(c.0.len(), 1);
    c.grow_if_needed(TreeNodeIndex(2));
    assert_eq!(c.0.len(), 3);
    assert!(c.0[1].is_none() && c.0[2].is_none());
    c.shrink_if_needed();
    assert_eq!(c.0.len(), 3);
    let mut c = RatchetTreeContainer(vec![None, None, None]);
    c.shrink_if_needed();
    assert_eq!(c.0.len(), 1);
}
