//! The tree hash of a ratchet tree (RFC 9420, Section 7.8): the hash of a
//! leaf covers its index and its leaf node, that of a parent position covers
//! the parent node and the hashes of its two subtrees.
use vstd::prelude::*;
use crate::ratchet_tree::{ParentNodeView, TreeNodeView, RatchetTree};
use crate::suites::{HashAlg, NamedCiphersuite, UtilError, hash_with, named_ciphersuite, suite_hash};
use crate::tls::{be32, optional_bytes, parent_fits, parent_tree_hash_input, parent_tree_hash_input_bytes};
use crate::tree_index::{TreeLeafIndex, TreeNodeIndex, level_of, left_of, right_of, lemma_children_parent};
use crate::tree_reader::{
    RatchetTreeReader, leaf_at, leaf_count_of, leaf_indices_contain, node_at, node_width_of, root_of_width,
    lemma_root_below_width,
};
use crate::validations::ValidationError;
use crate::bytes::bytes_eq;

verus! {

/// The tree hash input of a leaf position: node type 1, the leaf index,
/// then the encoded leaf node if there is one.
pub open spec fn leaf_tree_hash_input(index: u32, leaf: Option<Seq<u8>>) -> Seq<u8> {
    seq![1u8] + be32(index) + optional_bytes(leaf)
}

/// The parent node at position `i`, if there is one.
pub open spec fn parent_at(s: Seq<Option<TreeNodeView>>, i: int) -> Option<ParentNodeView> {
    match node_at(s, i) {
        Some(TreeNodeView::ParentNode(p)) => Some(p),
        _ => None,
    }
}

/// The node, if it is a parent node, has fields that the MLS encoding can
/// hold.
pub open spec fn node_fits(n: Option<TreeNodeView>) -> bool {
    match n {
        Some(TreeNodeView::ParentNode(p)) => parent_fits(p),
        _ => true,
    }
}

/// Every parent node of the tree has fields that the MLS encoding can hold.
pub open spec fn parents_fit(s: Seq<Option<TreeNodeView>>) -> bool {
    forall|i: int| 0 <= i < s.len() ==> node_fits(#[trigger] s[i])
}

/// What the leaf position `idx` holds for the tree hash: its encoded leaf
/// node, or nothing when it is blank or excluded.
pub open spec fn hashed_leaf(s: Seq<Option<TreeNodeView>>, idx: nat, excluded: Seq<TreeLeafIndex>) -> Option<
    Seq<u8>,
> {
    let li = (idx / 2) as u32;
    if excluded.contains(TreeLeafIndex(li)) {
        None
    } else {
        match leaf_at(s, li * 2) {
            Some(l) => Some(l.encoded),
            None => None,
        }
    }
}

/// The tree hash of the subtree under `idx`, the excluded leaves taken as
/// blank.
pub open spec fn tree_hash(s: Seq<Option<TreeNodeView>>, idx: nat, excluded: Seq<TreeLeafIndex>, h: HashAlg) -> Seq<
    u8,
>
    decreases level_of(idx),
    when idx < usize::MAX
    via tree_hash_decreases
{
    if idx % 2 == 0 {
        hash_with(h, leaf_tree_hash_input((idx / 2) as u32, hashed_leaf(s, idx, excluded)))
    } else {
        hash_with(
            h,
            parent_tree_hash_input(
                parent_at(s, idx as int),
                tree_hash(s, left_of(idx), excluded, h),
                tree_hash(s, right_of(idx), excluded, h),
            ),
        )
    }
}

#[via_fn]
proof fn tree_hash_decreases(s: Seq<Option<TreeNodeView>>, idx: nat, excluded: Seq<TreeLeafIndex>, h: HashAlg) {
    if idx < usize::MAX && idx % 2 == 1 {
        lemma_children_parent(idx as usize);
    }
}

/// The root of the tree over `s`'s leaves.
pub open spec fn tree_root(s: Seq<Option<TreeNodeView>>) -> nat {
    root_of_width(node_width_of(leaf_count_of(s)))
}

/// The tree hash of the whole tree, hashed with the hash of cipher suite
/// `cs`, or why not.
pub open spec fn tree_hash_of(s: Seq<Option<TreeNodeView>>, cs: u16) -> Result<Seq<u8>, UtilError> {
    match suite_hash(named_ciphersuite(cs)) {
        None => Err(UtilError::UnsupportedHashAlg(named_ciphersuite(cs))),
        Some(h) => Ok(tree_hash(s, tree_root(s), Seq::empty(), h)),
    }
}

fn leaf_tree_hash_input_bytes(index: u32, leaf: Option<&[u8]>) -> (r: Vec<u8>)
    ensures
        r@ == leaf_tree_hash_input(
            index,
            match leaf {
                Some(b) => Some(b@),
                None => None,
            },
        ),
{
    let mut out: Vec<u8> = Vec::new();
    out.push(1u8);
    out.push((index / 0x100_0000) as u8);
    out.push(((index / 0x1_0000) % 0x100) as u8);
    out.push(((index / 0x100) % 0x100) as u8);
    out.push((index % 0x100) as u8);
    match leaf {
        None => {
            out.push(0u8);
        },
        Some(b) => {
            out.push(1u8);
            let mut rest = vstd::slice::slice_to_vec(b);
            out.append(&mut rest);
        },
    }
    proof {
        let l = match leaf {
            Some(b) => Some(b@),
            None => None,
        };
        assert(out@ =~= leaf_tree_hash_input(index, l));
    }
    out
}

/// The tree hash of the subtree under `idx`, the excluded leaves taken as
/// blank.
pub fn compute_tree_hash_at_idx_with_alg(
    finder: &RatchetTreeReader,
    idx: TreeNodeIndex,
    excluded_leaves: &[TreeLeafIndex],
    hash_alg: &HashAlg,
) -> (r: Result<Vec<u8>, UtilError>)
    requires
        idx.0 < usize::MAX,
        parents_fit(finder.rt@),
    ensures
        r matches Ok(h) && h@ == tree_hash(finder.rt@, idx.0 as nat, excluded_leaves@, *hash_alg) && h@.len()
            <= 64,
    decreases level_of(idx.0 as nat),
{
    let ghost s = finder.rt@;
    let hash_input = match idx.to_tree_leaf_idx() {
        Some(leaf_idx) => {
            let leaf = if leaf_indices_contain(excluded_leaves, leaf_idx) {
                None
            } else {
                match finder.find_leafnode_at_idx(leaf_idx) {
                    Some(l) => Some(l.encoded.as_slice()),
                    None => None,
                }
            };
            let b = leaf_tree_hash_input_bytes(leaf_idx.0, leaf);
            assert(b@ == leaf_tree_hash_input(leaf_idx.0, hashed_leaf(s, idx.0 as nat, excluded_leaves@)));
            b
        },
        None => {
            proof {
                lemma_children_parent(idx.0);
            }
            let (left_idx, right_idx) = match idx.children() {
                Some(c) => c,
                None => {
                    assert(false);
                    return Err(UtilError::ApiMisuse("a parent position has children"));
                },
            };
            let left_hash = match compute_tree_hash_at_idx_with_alg(finder, left_idx, excluded_leaves, hash_alg) {
                Ok(h) => h,
                Err(e) => {
                    return Err(e);
                },
            };
            let right_hash = match compute_tree_hash_at_idx_with_alg(
                finder,
                right_idx,
                excluded_leaves,
                hash_alg,
            ) {
                Ok(h) => h,
                Err(e) => {
                    return Err(e);
                },
            };
            let parent = finder.find_parent_node_at_idx(idx);
            proof {
                if let Some(p) = parent {
                    assert(node_fits(s[idx.0 as int]));
                }
            }
            match parent_tree_hash_input_bytes(parent, left_hash.as_slice(), right_hash.as_slice()) {
                Ok(b) => {
                    assert(b@ == parent_tree_hash_input(
                        parent_at(s, idx.0 as int),
                        tree_hash(s, left_of(idx.0 as nat), excluded_leaves@, *hash_alg),
                        tree_hash(s, right_of(idx.0 as nat), excluded_leaves@, *hash_alg),
                    ));
                    b
                },
                Err(e) => {
                    return Err(UtilError::MlsSpecError(e));
                },
            }
        },
    };
    Ok(hash_alg.digest(hash_input.as_slice()))
}

/// The tree hash of the subtree under `idx`, hashed with the hash of the
/// cipher suite `cs`.
pub fn compute_tree_hash_at_idx(
    finder: &RatchetTreeReader,
    idx: TreeNodeIndex,
    excluded_leaves: &[TreeLeafIndex],
    cs: u16,
) -> (r: Result<Vec<u8>, UtilError>)
    requires
        idx.0 < usize::MAX,
        parents_fit(finder.rt@),
    ensures
        match suite_hash(named_ciphersuite(cs)) {
            None => r == Err::<Vec<u8>, UtilError>(UtilError::UnsupportedHashAlg(named_ciphersuite(cs))),
            Some(h) => r matches Ok(x) && x@ == tree_hash(finder.rt@, idx.0 as nat, excluded_leaves@, h),
        },
{
    let hash_alg = match NamedCiphersuite::from_code(cs).hash_alg() {
        Ok(h) => h,
        Err(e) => {
            return Err(e);
        },
    };
    compute_tree_hash_at_idx_with_alg(finder, idx, excluded_leaves, &hash_alg)
}

/// The tree hash of the whole tree, hashed with the hash of the group's
/// cipher suite `cs`.
pub fn compute_tree_hash(rt: &RatchetTree, cs: u16) -> (r: Result<Vec<u8>, UtilError>)
    requires
        rt@.len() > 0,
        parents_fit(rt@),
    ensures
        match tree_hash_of(rt@, cs) {
            Ok(h) => r matches Ok(x) && x@ == h,
            Err(e) => r == Err::<Vec<u8>, UtilError>(e),
        },
{
    let finder = RatchetTreeReader::new(rt).with_computed_leaf_count();
    proof {
        lemma_root_below_width(rt@);
    }
    let none: Vec<TreeLeafIndex> = Vec::new();
    let r = compute_tree_hash_at_idx(&finder, finder.root_idx(), none.as_slice(), cs);
    assert(none@ =~= Seq::<TreeLeafIndex>::empty());
    r
}

/// The group's tree hash `tree_hash` is the hash of its tree `rt`.
pub fn verify_tree_hash(rt: &RatchetTree, cs: u16, tree_hash: &[u8]) -> (r: Result<(), UtilError>)
    requires
        rt@.len() > 0,
        parents_fit(rt@),
    ensures
        match tree_hash_of(rt@, cs) {
            Ok(h) => if h == tree_hash@ {
                r is Ok
            } else {
                r == Err::<(), UtilError>(UtilError::ValidationError(ValidationError::InvalidTreeHash))
            },
            Err(e) => r == Err::<(), UtilError>(e),
        },
{
    let computed_tree_hash = match compute_tree_hash(rt, cs) {
        Ok(h) => h,
        Err(e) => {
            return Err(e);
        },
    };
    if !bytes_eq(computed_tree_hash.as_slice(), tree_hash) {
        return Err(UtilError::ValidationError(ValidationError::InvalidTreeHash));
    }
    Ok(())
}

} // verus!
