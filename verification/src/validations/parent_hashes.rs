//! Parent hash verification (RFC 9420, Section 7.9.2): below each parent
//! node, exactly one child subtree must carry, somewhere in its resolution,
//! the parent hash that the node gives it, and that chain must go on down
//! that side.
use vstd::prelude::*;
use crate::ratchet_tree::{ParentNode, ParentNodeView, TreeNodeView, RatchetTree, well_formed};
use crate::suites::{HashAlg, NamedCiphersuite, UtilError, hash_with, named_ciphersuite, suite_hash};
use crate::tls::{VL_MAX, parent_fits, vl_bytes, parent_hash_input_bytes};
use crate::tree_index::{TreeLeafIndex, TreeNodeIndex, level_of, left_of, right_of, lemma_children_parent};
use crate::tree_reader::{RatchetTreeReader, holds_parent_hash, resolution, unmerged_in_range, lemma_root_below_width};
use crate::validations::ValidationError;
use crate::validations::tree_hashes::{
    compute_tree_hash_at_idx_with_alg, parent_at, parents_fit, tree_hash, tree_root, node_fits,
};

verus! {

/// The parent hash that parent node `p` gives to the child whose sibling
/// subtree has tree hash `sibling_hash`.
pub open spec fn parent_hash_for(h: HashAlg, p: ParentNodeView, sibling_hash: Seq<u8>) -> Seq<u8> {
    hash_with(h, vl_bytes(p.encryption_key) + vl_bytes(p.parent_hash) + vl_bytes(sibling_hash))
}

/// The unmerged leaves of a parent node, as leaf indices.
pub open spec fn unmerged_excluded(p: ParentNodeView) -> Seq<TreeLeafIndex> {
    p.unmerged_leaves.map_values(|u: u32| TreeLeafIndex(u))
}

/// Some node in the resolution of `idx`, leaving out the excluded leaves,
/// carries the parent hash `ph`.
pub open spec fn resolution_holds(
    s: Seq<Option<TreeNodeView>>,
    idx: nat,
    excluded: Seq<TreeLeafIndex>,
    ph: Seq<u8>,
) -> bool {
    exists|i: int|
        0 <= i < resolution(s, idx, excluded).len() && holds_parent_hash(
            #[trigger] resolution(s, idx, excluded)[i].1,
            ph,
        )
}

/// The parent hashes below position `idx` are sound: a blank or leaf
/// position has nothing to check; below a parent node exactly one child
/// carries the parent hash the node gives it (its tree hashes taken without
/// the node's unmerged leaves), and above the leaves that child's own
/// subtree must be sound too.
pub open spec fn parent_hashes_hold(s: Seq<Option<TreeNodeView>>, idx: nat, h: HashAlg) -> bool
    decreases level_of(idx),
    when idx < usize::MAX
    via parent_hashes_decreases
{
    match parent_at(s, idx as int) {
        None => true,
        Some(p) => if idx % 2 == 0 {
            true
        } else {
            let ex = unmerged_excluded(p);
            let l = left_of(idx);
            let r = right_of(idx);
            let left_valid = resolution_holds(s, l, ex, parent_hash_for(h, p, tree_hash(s, r, ex, h)));
            let right_valid = resolution_holds(s, r, ex, parent_hash_for(h, p, tree_hash(s, l, ex, h)));
            if l % 2 == 0 {
                left_valid != right_valid
            } else {
                (left_valid && parent_hashes_hold(s, l, h)) != (right_valid && parent_hashes_hold(s, r, h))
            }
        },
    }
}

#[via_fn]
proof fn parent_hashes_decreases(s: Seq<Option<TreeNodeView>>, idx: nat, h: HashAlg) {
    if idx < usize::MAX && idx % 2 == 1 {
        lemma_children_parent(idx as usize);
    }
}

/// What checking the parent hashes of the tree over `s` gives with the hash
/// of cipher suite `cs`.
pub open spec fn parent_hashes_outcome(s: Seq<Option<TreeNodeView>>, cs: u16) -> Result<(), UtilError> {
    match suite_hash(named_ciphersuite(cs)) {
        None => Err(UtilError::UnsupportedHashAlg(named_ciphersuite(cs))),
        Some(h) => if parent_hashes_hold(s, tree_root(s), h) {
            Ok(())
        } else {
            Err(
                UtilError::ValidationError(
                    ValidationError::InvalidParentHash { idx: TreeNodeIndex(tree_root(s) as usize) },
                ),
            )
        },
    }
}

fn compute_parent_hash_for_parent_node(
    parent_node: &ParentNode,
    original_sibling_tree_hash: &[u8],
    hash_alg: &HashAlg,
) -> (r: Result<Vec<u8>, UtilError>)
    requires
        parent_fits(parent_node@),
        original_sibling_tree_hash@.len() <= VL_MAX,
    ensures
        r matches Ok(x) && x@ == parent_hash_for(*hash_alg, parent_node@, original_sibling_tree_hash@),
{
    match parent_hash_input_bytes(
        parent_node.encryption_key.as_slice(),
        parent_node.parent_hash.as_slice(),
        original_sibling_tree_hash,
    ) {
        Ok(input) => Ok(hash_alg.digest(input.as_slice())),
        Err(e) => Err(UtilError::MlsSpecError(e)),
    }
}

fn unmerged_leaf_indices(p: &ParentNode) -> (r: Vec<TreeLeafIndex>)
    ensures
        r@ == unmerged_excluded(p@),
{
    let mut out: Vec<TreeLeafIndex> = Vec::new();
    let mut i: usize = 0;
    while i < p.unmerged_leaves.len()
        invariant
            i <= p.unmerged_leaves@.len(),
            out@ == p.unmerged_leaves@.take(i as int).map_values(|u: u32| TreeLeafIndex(u)),
        decreases p.unmerged_leaves@.len() - i,
    {
        out.push(TreeLeafIndex(p.unmerged_leaves[i]));
        i += 1;
        assert(out@ =~= p.unmerged_leaves@.take(i as int).map_values(|u: u32| TreeLeafIndex(u)));
    }
    assert(p.unmerged_leaves@.take(i as int) =~= p.unmerged_leaves@);
    out
}

fn verify_parent_hash_internal_dig(
    finder: &RatchetTreeReader,
    subroot_idx: TreeNodeIndex,
    hash_alg: &HashAlg,
) -> (r: Result<(), UtilError>)
    requires
        subroot_idx.0 < usize::MAX,
        well_formed(finder.rt@),
        unmerged_in_range(finder.rt@),
        parents_fit(finder.rt@),
    ensures
        if parent_hashes_hold(finder.rt@, subroot_idx.0 as nat, *hash_alg) {
            r is Ok
        } else {
            r == Err::<(), UtilError>(
                UtilError::ValidationError(ValidationError::InvalidParentHash { idx: subroot_idx }),
            )
        },
    decreases level_of(subroot_idx.0 as nat),
{
    let ghost s = finder.rt@;
    let ghost h = *hash_alg;
    let ghost i = subroot_idx.0 as nat;
    // A blank or leaf position has nothing to check.
    let node = match finder.find_parent_node_at_idx(subroot_idx) {
        Some(n) => n,
        None => {
            return Ok(());
        },
    };
    proof {
        assert(s[i as int] is Some);
        assert(node_fits(s[i as int]));
        lemma_children_parent(subroot_idx.0);
    }
    let excluded_leaves = unmerged_leaf_indices(node);
    let ghost ex = excluded_leaves@;
    let (left_idx, right_idx) = match subroot_idx.children() {
        Some(c) => c,
        None => {
            assert(false);
            return Ok(());
        },
    };
    let left_oth = match compute_tree_hash_at_idx_with_alg(finder, left_idx, excluded_leaves.as_slice(), hash_alg) {
        Ok(x) => x,
        Err(e) => {
            return Err(e);
        },
    };
    let right_oth = match compute_tree_hash_at_idx_with_alg(
        finder,
        right_idx,
        excluded_leaves.as_slice(),
        hash_alg,
    ) {
        Ok(x) => x,
        Err(e) => {
            return Err(e);
        },
    };
    let left_ph = match compute_parent_hash_for_parent_node(node, right_oth.as_slice(), hash_alg) {
        Ok(x) => x,
        Err(e) => {
            return Err(e);
        },
    };
    let right_ph = match compute_parent_hash_for_parent_node(node, left_oth.as_slice(), hash_alg) {
        Ok(x) => x,
        Err(e) => {
            return Err(e);
        },
    };
    let left_ph_valid = finder.find_parent_hash_in_resolution(left_idx, left_ph.as_slice(), excluded_leaves.as_slice());
    let right_ph_valid = finder.find_parent_hash_in_resolution(
        right_idx,
        right_ph.as_slice(),
        excluded_leaves.as_slice(),
    );
    assert(left_ph_valid == resolution_holds(s, left_of(i), ex, left_ph@));
    assert(right_ph_valid == resolution_holds(s, right_of(i), ex, right_ph@));
    // Above the leaves, the check stops here.
    if left_idx.is_leaf() {
        return if left_ph_valid != right_ph_valid {
            Ok(())
        } else {
            Err(UtilError::ValidationError(ValidationError::InvalidParentHash { idx: subroot_idx }))
        };
    }
    let left_is_ph_valid = left_ph_valid && verify_parent_hash_internal_dig(finder, left_idx, hash_alg).is_ok();
    let right_is_ph_valid = right_ph_valid && verify_parent_hash_internal_dig(
        finder,
        right_idx,
        hash_alg,
    ).is_ok();
    if left_is_ph_valid != right_is_ph_valid {
        Ok(())
    } else {
        Err(UtilError::ValidationError(ValidationError::InvalidParentHash { idx: subroot_idx }))
    }
}

/// Checks the parent hashes of the whole tree `rt` with the hash of the
/// group's cipher suite `cs`.
pub fn verify_parent_hashes(rt: &RatchetTree, cs: u16) -> (r: Result<(), UtilError>)
    requires
        rt@.len() > 0,
        well_formed(rt@),
        unmerged_in_range(rt@),
        parents_fit(rt@),
    ensures
        r == parent_hashes_outcome(rt@, cs),
{
    let hash_alg = match NamedCiphersuite::from_code(cs).hash_alg() {
        Ok(h) => h,
        Err(e) => {
            return Err(e);
        },
    };
    let finder = RatchetTreeReader::new(rt).with_computed_leaf_count();
    proof {
        lemma_root_below_width(rt@);
    }
    let root = finder.root_idx();
    assert(root == TreeNodeIndex(tree_root(rt@) as usize));
    match verify_parent_hash_internal_dig(&finder, root, &hash_alg) {
        Ok(()) => Ok(()),
        Err(e) => Err(e),
    }
}

} // verus!
