//! Read-only queries on a ratchet tree: widths, the root, paths and
//! resolutions.
use vstd::prelude::*;
use vstd::arithmetic::power2::pow2;
use crate::bytes::{bytes_eq, codes_eq};
use crate::ratchet_tree::{last_occupied_leaf, node_view, well_formed, LeafNode, LeafNodeSource, LeafNodeView,
    LeafNodeSourceView, ParentNode, RatchetTree, TreeNode, TreeNodeView};
use crate::tree_index::{in_subtree, lemma_children_parent, lemma_parent_in_subtree,
    lemma_sibling_parent, left_of, level_of, path_to_root, right_of, sibling_of,
    TreeLeafIndex, TreeNodeIndex};

verus! {

/// Index of the rightmost non-blank leaf.
pub open spec fn rightmost_leaf(s: Seq<Option<TreeNodeView>>) -> Option<TreeLeafIndex> {
    match last_occupied_leaf(s, s.len() as int) {
        Some(i) => Some(TreeLeafIndex((i / 2) as u32)),
        None => None,
    }
}

/// Number of leaves up to the rightmost non-blank one (at least one for a
/// tree with nodes).
pub open spec fn leaf_count_of(s: Seq<Option<TreeNodeView>>) -> nat {
    if s.len() == 0 {
        0
    } else {
        let l: nat = match rightmost_leaf(s) {
            Some(x) => x.0 as nat,
            None => 0,
        };
        if l + 1 > usize::MAX {
            usize::MAX as nat
        } else {
            l + 1
        }
    }
}

/// Number of nodes of a complete tree over `lc` leaves, saturated at
/// `usize::MAX`.
pub open spec fn node_width_of(lc: nat) -> nat {
    if lc == 0 {
        0
    } else if 2 * (lc - 1) > usize::MAX {
        usize::MAX as nat
    } else {
        (2 * (lc - 1) + 1) as nat
    }
}

/// Base-2 logarithm, rounded down.
pub open spec fn floor_log2(n: nat) -> nat
    decreases n,
{
    if n <= 1 {
        0
    } else {
        1 + floor_log2(n / 2)
    }
}

/// Index of the root of a tree `nw` nodes wide.
pub open spec fn root_of_width(nw: nat) -> nat {
    (pow2(floor_log2(nw)) - 1) as nat
}

/// Index of the rightmost non-blank leaf.
pub fn rightmost_nonblank_leafnode_idx(rt: &[Option<TreeNode>]) -> (r: Option<TreeLeafIndex>)
    ensures
        r == rightmost_leaf(rt@.map_values(|n: Option<TreeNode>| node_view(n))),
{
    let ghost s = rt@.map_values(|n: Option<TreeNode>| node_view(n));
    let mut i: usize = rt.len();
    while i > 0
        invariant
            i <= rt@.len(),
            s.len() == rt@.len(),
            s == rt@.map_values(|n: Option<TreeNode>| node_view(n)),
            last_occupied_leaf(s, s.len() as int) == last_occupied_leaf(s, i as int),
        decreases i,
    {
        let j = i - 1;
        assert(s[j as int] is Some <==> rt@[j as int] is Some);
        if j % 2 == 0 && rt[j].is_some() {
            return Some(TreeLeafIndex((j / 2) as u32));
        }
        i = j;
    }
    None
}

/// Number of leaves of the tree.
pub fn leaf_count(rt: &[Option<TreeNode>]) -> (r: usize)
    ensures
        r as nat == leaf_count_of(rt@.map_values(|n: Option<TreeNode>| node_view(n))),
{
    if rt.len() == 0 {
        return 0;
    }
    let leaf_idx = match rightmost_nonblank_leafnode_idx(rt) {
        Some(l) => l,
        None => TreeLeafIndex(0),
    };
    (leaf_idx.0 as usize).saturating_add(1)
}

/// The product, saturated at `usize::MAX`.
pub(crate) fn usize_saturating_mul(a: usize, b: usize) -> (r: usize)
    ensures
        r as nat == (if a * b > usize::MAX {
            usize::MAX as nat
        } else {
            (a * b) as nat
        }),
{
    match a.checked_mul(b) {
        Some(p) => p,
        None => usize::MAX,
    }
}

/// Node width of a tree with `lc` leaves.
pub fn compute_nw(lc: usize) -> (r: usize)
    ensures
        r as nat == node_width_of(lc as nat),
{
    if lc == 0 {
        return 0;
    }
    usize_saturating_mul(lc.saturating_sub(1), 2).saturating_add(1)
}

/// The base-2 logarithm of `n`, rounded down: how often `n` halves before
/// it reaches 1.
fn usize_ilog2(n: usize) -> (r: u32)
    requires
        n > 0,
    ensures
        r as nat == floor_log2(n as nat),
{
    proof {
        lemma_floor_log2_bounds(n as nat);
        lemma_floor_log2_below_64(n as nat);
    }
    let mut m: usize = n;
    let mut r: u32 = 0;
    while m > 1
        invariant
            m >= 1,
            r as nat + floor_log2(m as nat) == floor_log2(n as nat),
            floor_log2(n as nat) < 64,
        decreases m,
    {
        m = m / 2;
        r = r + 1;
    }
    r
}

proof fn lemma_floor_log2_below_64(n: nat)
    requires
        1 <= n <= usize::MAX,
    ensures
        floor_log2(n) < 64,
{
    lemma_floor_log2_bounds(n);
    vstd::arithmetic::power2::lemma2_to64();
    if floor_log2(n) >= 64 {
        if floor_log2(n) > 64 {
            vstd::arithmetic::power2::lemma_pow2_strictly_increases(64, floor_log2(n));
        }
    }
}

proof fn lemma_floor_log2_bounds(n: nat)
    requires
        n >= 1,
    ensures
        pow2(floor_log2(n)) <= n < pow2(floor_log2(n) + 1),
    decreases n,
{
    vstd::arithmetic::power2::lemma2_to64();
    if n > 1 {
        lemma_floor_log2_bounds(n / 2);
        vstd::arithmetic::power2::lemma_pow2_unfold(floor_log2(n));
        vstd::arithmetic::power2::lemma_pow2_unfold(floor_log2(n) + 1);
    }
}

/// A tree with nodes has leaves, and its root lies below `usize::MAX`.
pub proof fn lemma_root_below_width(s: Seq<Option<TreeNodeView>>)
    requires
        s.len() > 0,
    ensures
        leaf_count_of(s) > 0,
        root_of_width(node_width_of(leaf_count_of(s))) < usize::MAX,
{
    let nw = node_width_of(leaf_count_of(s));
    assert(1 <= nw <= usize::MAX);
    lemma_floor_log2_bounds(nw);
    vstd::arithmetic::power2::lemma_pow2_pos(floor_log2(nw));
    assert(root_of_width(nw) == pow2(floor_log2(nw)) - 1);
}

/// Index of the root of a tree `nw` nodes wide.
pub fn root_idx_from_nw(nw: usize) -> (r: TreeNodeIndex)
    requires
        nw > 0,
    ensures
        r.0 as nat == root_of_width(nw as nat),
{
    let k = usize_ilog2(nw);
    proof {
        lemma_floor_log2_bounds(nw as nat);
        if k as nat >= usize::BITS {
            vstd::arithmetic::power2::lemma2_to64();
            if k as nat > usize::BITS {
                vstd::arithmetic::power2::lemma_pow2_strictly_increases(
                    usize::BITS as nat,
                    k as nat,
                );
            }
            assert(pow2(usize::BITS as nat) > usize::MAX);
            assert(false);
        }
        vstd::bits::lemma_usize_pow2_no_overflow(k as nat);
        vstd::bits::lemma_usize_shl_is_mul(1, k as usize);
    }
    TreeNodeIndex((1usize << (k as usize)).saturating_sub(1))
}

} // verus!

verus! {

/// The node at position `i`, blank when `i` is past the end.
pub open spec fn node_at(s: Seq<Option<TreeNodeView>>, i: int) -> Option<TreeNodeView> {
    if 0 <= i < s.len() {
        s[i]
    } else {
        None
    }
}

/// The view of a borrowed, possibly blank node.
pub open spec fn ref_node_view(n: Option<&TreeNode>) -> Option<TreeNodeView> {
    match n {
        Some(t) => Some(t@),
        None => None,
    }
}

/// The leaf at position `i`, if one is there.
pub open spec fn leaf_at(s: Seq<Option<TreeNodeView>>, i: int) -> Option<LeafNodeView> {
    match node_at(s, i) {
        Some(TreeNodeView::LeafNode(l)) => Some(l),
        _ => None,
    }
}

/// The view of a borrowed, possibly absent leaf.
pub open spec fn ref_leaf_view(n: Option<&LeafNode>) -> Option<LeafNodeView> {
    match n {
        Some(l) => Some(l@),
        None => None,
    }
}

/// `(index, node)` pairs as views.
pub open spec fn pairs_view(v: Seq<(TreeNodeIndex, Option<&TreeNode>)>) -> Seq<(nat, Option<TreeNodeView>)> {
    v.map_values(|e: (TreeNodeIndex, Option<&TreeNode>)| (e.0.0 as nat, ref_node_view(e.1)))
}

/// The nodes of `path` paired with what the tree holds there.
pub open spec fn path_nodes(s: Seq<Option<TreeNodeView>>, path: Seq<nat>) -> Seq<(nat, Option<TreeNodeView>)> {
    path.map_values(|i: nat| (i, node_at(s, i as int)))
}

/// The first non-blank node of `path`, or `fallback`.
pub open spec fn first_nonblank(s: Seq<Option<TreeNodeView>>, path: Seq<nat>, fallback: nat) -> nat
    decreases path.len(),
{
    if path.len() == 0 {
        fallback
    } else if node_at(s, path[0] as int) is Some {
        path[0]
    } else {
        first_nonblank(s, path.drop_first(), fallback)
    }
}

/// The leaf node of leaf `k`, if one is there.
pub open spec fn leaf_slot(s: Seq<Option<TreeNodeView>>, k: int) -> Option<LeafNodeView> {
    leaf_at(s, 2 * k)
}

/// Leaf `k` holds a leaf node with this credential.
pub open spec fn has_credential(s: Seq<Option<TreeNodeView>>, k: int, credential: Seq<u8>) -> bool {
    leaf_slot(s, k) matches Some(l) && l.credential == credential
}

/// The first blank leaf position from `i` on.
pub open spec fn first_blank_leaf(s: Seq<Option<TreeNodeView>>, i: int) -> Option<int>
    decreases s.len() - i,
{
    if i < 0 || i >= s.len() {
        None
    } else if i % 2 == 0 && s[i] is None {
        Some(i)
    } else {
        first_blank_leaf(s, i + 1)
    }
}

proof fn lemma_node_width_odd(lc: nat)
    requires
        lc > 0,
        node_width_of(lc) < usize::MAX,
    ensures
        (node_width_of(lc) + 1) % 2 == 0,
{
}

/// Two leaf nodes are equal.
pub fn leaf_node_eq(a: &LeafNode, b: &LeafNode) -> (r: bool)
    ensures
        r == (a@ == b@),
{
    let sources_eq = match (&a.source, &b.source) {
        (
            LeafNodeSource::KeyPackage { not_before: nb1, not_after: na1 },
            LeafNodeSource::KeyPackage { not_before: nb2, not_after: na2 },
        ) => *nb1 == *nb2 && *na1 == *na2,
        (LeafNodeSource::Update, LeafNodeSource::Update) => true,
        (LeafNodeSource::Commit { parent_hash: h1 }, LeafNodeSource::Commit { parent_hash: h2 }) => {
            bytes_eq(h1.as_slice(), h2.as_slice())
        },
        _ => false,
    };
    let r = sources_eq && bytes_eq(a.encryption_key.as_slice(), b.encryption_key.as_slice())
        && bytes_eq(a.signature_key.as_slice(), b.signature_key.as_slice()) && bytes_eq(
        a.credential.as_slice(),
        b.credential.as_slice(),
    ) && codes_eq(a.capabilities.extensions.as_slice(), b.capabilities.extensions.as_slice())
        && codes_eq(a.capabilities.proposals.as_slice(), b.capabilities.proposals.as_slice())
        && codes_eq(a.capabilities.credentials.as_slice(), b.capabilities.credentials.as_slice())
        && codes_eq(a.extensions.as_slice(), b.extensions.as_slice()) && bytes_eq(
        a.encoded.as_slice(),
        b.encoded.as_slice(),
    );
    proof {
        if r {
            assert(a@.source == b@.source);
            assert(a@.capabilities == b@.capabilities);
            assert(a@ == b@);
        }
    }
    r
}

/// The leaf index of each leaf of `rt` up to the rightmost non-blank one,
/// with the leaf node found there.
pub fn leaf_entries(rt: &RatchetTree) -> (r: Vec<(TreeLeafIndex, Option<&LeafNode>)>)
    requires
        rt@.len() > 0,
        leaf_count_of(rt@) <= u32::MAX,
    ensures
        r@.len() == leaf_count_of(rt@),
        forall|k: int|
            0 <= k < r@.len() ==> (#[trigger] r@[k]).0 == TreeLeafIndex(k as u32) && ref_leaf_view(
                r@[k].1,
            ) == leaf_slot(rt@, k),
{
    let reader = RatchetTreeReader::new(rt).with_computed_leaf_count();
    let lc = reader.leaf_count();
    proof {
        lemma_leaf_count_in_tree(rt@);
    }
    let n = rt.0.len();
    let mut out: Vec<(TreeLeafIndex, Option<&LeafNode>)> = Vec::new();
    let mut i: u32 = 0;
    while (i as usize) < lc
        invariant
            lc as nat == leaf_count_of(rt@),
            lc <= u32::MAX,
            2 * (lc - 1) < rt@.len(),
            rt.0@.len() == rt@.len(),
            n == rt.0@.len(),
            i <= lc,
            out@.len() == i,
            forall|k: int|
                0 <= k < i ==> (#[trigger] out@[k]).0 == TreeLeafIndex(k as u32) && ref_leaf_view(
                    out@[k].1,
                ) == leaf_slot(rt@, k),
        decreases lc - i,
    {
        assert(2 * i <= 2 * (lc - 1));
        let node_idx = (i as usize) * 2;
        let ln = match &rt.0[node_idx] {
            Some(tn) => tn.as_leaf_node(),
            None => None,
        };
        out.push((TreeLeafIndex(i), ln));
        i += 1;
    }
    out
}

proof fn lemma_leaf_count_in_tree(s: Seq<Option<TreeNodeView>>)
    requires
        s.len() > 0,
        leaf_count_of(s) <= u32::MAX,
    ensures
        2 * (leaf_count_of(s) - 1) < s.len(),
        leaf_count_of(s) >= 1,
{
    crate::ratchet_tree::lemma_last_occupied_leaf(s, s.len() as int);
}

/// Every parent node lists unmerged leaves whose node positions fit a
/// `usize`.
pub open spec fn unmerged_in_range(s: Seq<Option<TreeNodeView>>) -> bool {
    forall|i: int| 0 <= i < s.len() ==> unmerged_fit(#[trigger] s[i])
}

/// The unmerged leaves of a parent node have node positions that fit a
/// `usize`.
pub open spec fn unmerged_fit(n: Option<TreeNodeView>) -> bool {
    match n {
        Some(TreeNodeView::ParentNode(p)) => leaves_fit(p.unmerged_leaves),
        _ => true,
    }
}

/// Twice each leaf index fits a `usize`.
pub open spec fn leaves_fit(leaves: Seq<u32>) -> bool {
    forall|j: int| 0 <= j < leaves.len() ==> #[trigger] leaves[j] as nat * 2 <= usize::MAX
}

/// The unmerged leaves of a parent node that are not excluded, with what
/// the tree holds at their positions.
pub open spec fn unmerged_part(
    s: Seq<Option<TreeNodeView>>,
    leaves: Seq<u32>,
    excluded: Seq<TreeLeafIndex>,
) -> Seq<(nat, Option<TreeNodeView>)>
    decreases leaves.len(),
{
    if leaves.len() == 0 {
        Seq::empty()
    } else {
        let rest = unmerged_part(s, leaves.drop_last(), excluded);
        let u = leaves.last();
        if excluded.contains(TreeLeafIndex(u)) {
            rest
        } else {
            rest.push((2 * u as nat, node_at(s, 2 * u)))
        }
    }
}

/// The resolution of a node (RFC 9420, Section 4.1.1): the non-blank nodes
/// that cover its subtree, leaving out the excluded leaves.
pub open spec fn resolution(
    s: Seq<Option<TreeNodeView>>,
    idx: nat,
    excluded: Seq<TreeLeafIndex>,
) -> Seq<(nat, Option<TreeNodeView>)>
    decreases level_of(idx),
    when idx < usize::MAX
    via resolution_decreases
{
    if idx % 2 == 0 {
        if node_at(s, idx as int) is None || excluded.contains(TreeLeafIndex((idx / 2) as u32)) {
            Seq::empty()
        } else {
            seq![(idx, node_at(s, idx as int))]
        }
    } else {
        match node_at(s, idx as int) {
            None => resolution(s, left_of(idx), excluded) + resolution(s, right_of(idx), excluded),
            Some(TreeNodeView::ParentNode(p)) => seq![(idx, node_at(s, idx as int))] + unmerged_part(
                s,
                p.unmerged_leaves,
                excluded,
            ),
            Some(TreeNodeView::LeafNode(_)) => seq![(idx, node_at(s, idx as int))],
        }
    }
}

#[via_fn]
proof fn resolution_decreases(s: Seq<Option<TreeNodeView>>, idx: nat, excluded: Seq<TreeLeafIndex>) {
    if idx < usize::MAX && idx % 2 == 1 {
        lemma_children_parent(idx as usize);
    }
}

/// Each node of `chain` replaced by its sibling, with what the tree holds
/// there.
pub open spec fn sibling_nodes(s: Seq<Option<TreeNodeView>>, chain: Seq<nat>) -> Seq<(nat, Option<TreeNodeView>)> {
    chain.map_values(|x: nat| (sibling_of(x), node_at(s, sibling_of(x) as int)))
}

/// The siblings of a leaf and of the nodes above it up to `root`.
pub open spec fn sibling_chain(leaf: nat, root: nat) -> Seq<nat> {
    (seq![leaf] + path_to_root(leaf, root)).map_values(|x: nat| sibling_of(x))
}

/// Resolutions as views.
pub open spec fn resolutions_view(v: Seq<(TreeNodeIndex, Vec<(TreeNodeIndex, Option<&TreeNode>)>)>) -> Seq<
    (nat, Seq<(nat, Option<TreeNodeView>)>),
> {
    v.map_values(
        |e: (TreeNodeIndex, Vec<(TreeNodeIndex, Option<&TreeNode>)>)| (e.0.0 as nat, pairs_view(e.1@)),
    )
}

/// Each node paired with its resolution, excluding no leaf.
pub open spec fn with_resolutions(s: Seq<Option<TreeNodeView>>, nodes: Seq<nat>) -> Seq<
    (nat, Seq<(nat, Option<TreeNodeView>)>),
> {
    nodes.map_values(|x: nat| (x, resolution(s, x, Seq::empty())))
}

/// The nodes of a direct path whose copath node has a non-empty
/// resolution, with that copath node and its resolution (first `k` nodes).
pub open spec fn filtered_path(
    s: Seq<Option<TreeNodeView>>,
    path: Seq<nat>,
    sibs: Seq<nat>,
    k: int,
) -> Seq<(nat, nat, Seq<(nat, Option<TreeNodeView>)>)>
    decreases k,
{
    if k <= 0 {
        Seq::empty()
    } else {
        let rest = filtered_path(s, path, sibs, k - 1);
        let res = resolution(s, sibs[k - 1], Seq::empty());
        if res.len() == 0 {
            rest
        } else {
            rest.push((path[k - 1], sibs[k - 1], res))
        }
    }
}

/// A node of the filtered direct path, its copath node and that node's
/// resolution.
pub struct FilteredDirectPathItem<'a> {
    pub node_idx: TreeNodeIndex,
    pub sibling_idx: TreeNodeIndex,
    pub copath_resolution: Vec<(TreeNodeIndex, Option<&'a TreeNode>)>,
}

/// Items as views.
pub open spec fn items_view(v: Seq<FilteredDirectPathItem>) -> Seq<(nat, nat, Seq<(nat, Option<TreeNodeView>)>)> {
    v.map_values(
        |e: FilteredDirectPathItem| (e.node_idx.0 as nat, e.sibling_idx.0 as nat, pairs_view(e.copath_resolution@)),
    )
}

/// The node has this parent hash.
pub open spec fn holds_parent_hash(n: Option<TreeNodeView>, ph: Seq<u8>) -> bool {
    match n {
        Some(TreeNodeView::LeafNode(l)) => l.source matches LeafNodeSourceView::Commit { parent_hash }
            && parent_hash == ph,
        Some(TreeNodeView::ParentNode(p)) => p.parent_hash == ph,
        None => false,
    }
}

/// `excluded` holds `x`.
pub fn leaf_indices_contain(excluded: &[TreeLeafIndex], x: TreeLeafIndex) -> (r: bool)
    ensures
        r == excluded@.contains(x),
{
    let mut i: usize = 0;
    while i < excluded.len()
        invariant
            i <= excluded@.len(),
            forall|j: int| 0 <= j < i ==> excluded@[j] != x,
        decreases excluded@.len() - i,
    {
        if excluded[i].0 == x.0 {
            assert(excluded@[i as int] == x);
            return true;
        }
        i += 1;
    }
    false
}

/// A view over a ratchet tree with its leaf count.
pub struct RatchetTreeReader<'a> {
    pub rt: &'a RatchetTree,
    /// Zero until computed by `with_computed_leaf_count`.
    pub leaf_count: usize,
}

impl<'a> RatchetTreeReader<'a> {
    /// A reader whose leaf count is not computed yet.
    pub fn new(rt: &'a RatchetTree) -> (r: Self)
        ensures
            r.rt == rt,
            r.leaf_count == 0,
    {
        RatchetTreeReader { rt, leaf_count: 0 }
    }

    /// The leaf count can be read: computed, or the tree is empty.
    pub open spec fn counted(&self) -> bool {
        self.rt@.len() == 0 || self.leaf_count != 0
    }

    /// The same reader with its leaf count computed from the tree.
    pub fn with_computed_leaf_count(self) -> (r: Self)
        ensures
            r.rt == self.rt,
            r.leaf_count as nat == leaf_count_of(self.rt@),
            r.counted(),
    {
        let lc = leaf_count(self.rt.0.as_slice());
        RatchetTreeReader { rt: self.rt, leaf_count: lc }
    }

    /// The leaf count computed earlier.
    pub fn leaf_count(&self) -> (r: usize)
        requires
            self.counted(),
        ensures
            r == self.leaf_count,
    {
        self.leaf_count
    }

    /// Number of nodes of the complete tree over the leaves.
    pub fn node_width(&self) -> (r: usize)
        requires
            self.counted(),
        ensures
            r as nat == node_width_of(self.leaf_count as nat),
    {
        compute_nw(self.leaf_count())
    }

    pub fn ratchet_tree(&self) -> (r: &RatchetTree)
        ensures
            r == self.rt,
    {
        self.rt
    }

    fn find_treenode_at_idx(&self, node_idx: TreeNodeIndex) -> (r: Option<&'a TreeNode>)
        ensures
            ref_node_view(r) == node_at(self.rt@, node_idx.0 as int),
    {
        if node_idx.0 < self.rt.0.len() {
            match &self.rt.0[node_idx.0] {
                Some(n) => Some(n),
                None => None,
            }
        } else {
            None
        }
    }

    /// The leaf node at a leaf index, if non-blank.
    pub fn find_leafnode_at_idx(&self, leaf_idx: TreeLeafIndex) -> (r: Option<&'a LeafNode>)
        requires
            leaf_idx.0 as nat * 2 <= usize::MAX,
        ensures
            ref_leaf_view(r) == leaf_at(self.rt@, leaf_idx.0 * 2),
    {
        match self.find_treenode_at_idx(TreeNodeIndex::from_leaf(leaf_idx)) {
            Some(tn) => tn.as_leaf_node(),
            None => None,
        }
    }

    /// The parent node at a node index, if non-blank.
    pub fn find_parent_node_at_idx(&self, node_idx: TreeNodeIndex) -> (r: Option<&'a ParentNode>)
        ensures
            match r {
                Some(p) => node_at(self.rt@, node_idx.0 as int) == Some(TreeNodeView::ParentNode(p@)),
                None => !(node_at(self.rt@, node_idx.0 as int) matches Some(TreeNodeView::ParentNode(_))),
            },
    {
        match self.find_treenode_at_idx(node_idx) {
            Some(tn) => tn.as_parent_node(),
            None => None,
        }
    }

    /// The parent hash held at a node: that of a parent node, or that of a
    /// leaf last set by a commit.
    pub fn parent_hash_at_idx(&self, node_idx: TreeNodeIndex) -> (r: Option<&'a Vec<u8>>)
        ensures
            match node_at(self.rt@, node_idx.0 as int) {
                Some(TreeNodeView::ParentNode(p)) => r matches Some(h) && h@ == p.parent_hash,
                Some(TreeNodeView::LeafNode(l)) => match l.source {
                    LeafNodeSourceView::Commit { parent_hash } => r matches Some(h) && h@ == parent_hash,
                    _ => r is None,
                },
                None => r is None,
            },
    {
        match self.find_treenode_at_idx(node_idx) {
            Some(TreeNode::LeafNode(ln)) => match &ln.source {
                LeafNodeSource::Commit { parent_hash } => Some(parent_hash),
                _ => None,
            },
            Some(TreeNode::ParentNode(p)) => Some(&p.parent_hash),
            None => None,
        }
    }

    /// Index of the root node.
    pub fn root_idx(&self) -> (r: TreeNodeIndex)
        requires
            self.counted(),
            self.leaf_count > 0,
        ensures
            r.0 as nat == root_of_width(node_width_of(self.leaf_count as nat)),
    {
        root_idx_from_nw(self.node_width())
    }

    /// The root node, if non-blank.
    pub fn root_node(&self) -> (r: Option<&'a TreeNode>)
        requires
            self.counted(),
            self.leaf_count > 0,
        ensures
            ref_node_view(r) == node_at(
                self.rt@,
                root_of_width(node_width_of(self.leaf_count as nat)) as int,
            ),
    {
        self.find_treenode_at_idx(self.root_idx())
    }

    /// Index of the rightmost non-blank leaf.
    pub fn rightmost_non_blank_leafnode_idx(&self) -> (r: Option<TreeLeafIndex>)
        ensures
            r == rightmost_leaf(self.rt@),
    {
        proof {
            assert(self.rt.0@.map_values(|n: Option<TreeNode>| node_view(n)) == self.rt@);
        }
        rightmost_nonblank_leafnode_idx(self.rt.0.as_slice())
    }

    /// The first non-blank node above `node_idx`, climbing to `root_idx`
    /// (which is returned when every node above is blank).
    pub fn next_non_blank_parent(&self, node_idx: TreeNodeIndex, root_idx: TreeNodeIndex) -> (r:
        TreeNodeIndex)
        requires
            root_idx.0 < usize::MAX / 2,
            node_idx.0 < usize::MAX,
            in_subtree(root_idx.0 as nat, node_idx.0 as nat),
        ensures
            r.0 as nat == first_nonblank(
                self.rt@,
                path_to_root(node_idx.0 as nat, root_idx.0 as nat),
                root_idx.0 as nat,
            ),
    {
        if node_idx.0 == root_idx.0 {
            return node_idx;
        }
        let mut cur = node_idx;
        let ghost s = self.rt@;
        let ghost target = first_nonblank(
            s,
            path_to_root(cur.0 as nat, root_idx.0 as nat),
            root_idx.0 as nat,
        );
        loop
            invariant
                s == self.rt@,
                target == first_nonblank(
                    s,
                    path_to_root(node_idx.0 as nat, root_idx.0 as nat),
                    root_idx.0 as nat,
                ),
                root_idx.0 < usize::MAX / 2,
                cur.0 < usize::MAX,
                in_subtree(root_idx.0 as nat, cur.0 as nat),
                target == first_nonblank(
                    s,
                    path_to_root(cur.0 as nat, root_idx.0 as nat),
                    root_idx.0 as nat,
                ),
            decreases level_of(root_idx.0 as nat) - level_of(cur.0 as nat),
        {
            proof {
                lemma_parent_in_subtree(root_idx.0, cur.0);
            }
            let ghost path = path_to_root(cur.0 as nat, root_idx.0 as nat);
            let parent_idx = match cur.parent(&root_idx) {
                Some(p) => p,
                None => {
                    assert(path.len() == 0);
                    return cur;
                },
            };
            let ghost rest = path_to_root(parent_idx.0 as nat, root_idx.0 as nat);
            assert(path == seq![parent_idx.0 as nat] + rest);
            assert(path[0] == parent_idx.0 as nat);
            assert(path.drop_first() =~= rest);
            if self.find_treenode_at_idx(parent_idx).is_some() {
                return parent_idx;
            }
            cur = parent_idx;
        }
    }

    /// The leaf index of each leaf up to the rightmost non-blank one, with
    /// the leaf node found there.
    pub fn iter_leafnodes(&self) -> (r: Vec<(TreeLeafIndex, Option<&'a LeafNode>)>)
        requires
            self.rt@.len() > 0,
            leaf_count_of(self.rt@) <= u32::MAX,
        ensures
            r@.len() == leaf_count_of(self.rt@),
            forall|k: int|
                0 <= k < r@.len() ==> (#[trigger] r@[k]).0 == TreeLeafIndex(k as u32)
                    && ref_leaf_view(r@[k].1) == leaf_slot(self.rt@, k),
    {
        leaf_entries(self.rt)
    }

    /// The first leaf whose credential is `credential`.
    pub fn find_leafnode_by_credential(&self, credential: &[u8]) -> (r: Option<(TreeLeafIndex, &'a LeafNode)>)
        requires
            self.rt@.len() > 0,
            leaf_count_of(self.rt@) <= u32::MAX,
        ensures
            match r {
                Some((l, ln)) => {
                    &&& l.0 < leaf_count_of(self.rt@)
                    &&& leaf_slot(self.rt@, l.0 as int) == Some(ln@)
                    &&& ln@.credential == credential@
                    &&& forall|k: int| 0 <= k < l.0 ==> !#[trigger] has_credential(self.rt@, k, credential@)
                },
                None => forall|k: int|
                    0 <= k < leaf_count_of(self.rt@) ==> !#[trigger] has_credential(self.rt@, k, credential@),
            },
    {
        let leaves = self.iter_leafnodes();
        let mut i: usize = 0;
        while i < leaves.len()
            invariant
                i <= leaves@.len(),
                leaves@.len() == leaf_count_of(self.rt@),
                forall|k: int|
                    0 <= k < leaves@.len() ==> (#[trigger] leaves@[k]).0 == TreeLeafIndex(k as u32)
                        && ref_leaf_view(leaves@[k].1) == leaf_slot(self.rt@, k),
                forall|k: int| 0 <= k < i ==> !#[trigger] has_credential(self.rt@, k, credential@),
            decreases leaves@.len() - i,
        {
            let (idx, ln) = leaves[i];
            assert(leaves@[i as int].0 == TreeLeafIndex(i as u32));
            if let Some(ln) = ln {
                if bytes_eq(ln.credential.as_slice(), credential) {
                    return Some((idx, ln));
                }
            }
            i += 1;
        }
        None
    }

    /// The index of the first leaf equal to `leaf_node`.
    pub fn find_idx_for_leafnode(&self, leaf_node: &LeafNode) -> (r: Option<TreeLeafIndex>)
        requires
            self.rt@.len() > 0,
            leaf_count_of(self.rt@) <= u32::MAX,
        ensures
            match r {
                Some(l) => {
                    &&& l.0 < leaf_count_of(self.rt@)
                    &&& leaf_slot(self.rt@, l.0 as int) == Some(leaf_node@)
                    &&& forall|k: int| 0 <= k < l.0 ==> #[trigger] leaf_slot(self.rt@, k) != Some(leaf_node@)
                },
                None => forall|k: int|
                    0 <= k < leaf_count_of(self.rt@) ==> #[trigger] leaf_slot(self.rt@, k) != Some(leaf_node@),
            },
    {
        let leaves = self.iter_leafnodes();
        let mut i: usize = 0;
        while i < leaves.len()
            invariant
                i <= leaves@.len(),
                leaves@.len() == leaf_count_of(self.rt@),
                forall|k: int|
                    0 <= k < leaves@.len() ==> (#[trigger] leaves@[k]).0 == TreeLeafIndex(k as u32)
                        && ref_leaf_view(leaves@[k].1) == leaf_slot(self.rt@, k),
                forall|k: int| 0 <= k < i ==> #[trigger] leaf_slot(self.rt@, k) != Some(leaf_node@),
            decreases leaves@.len() - i,
        {
            let (idx, ln) = leaves[i];
            assert(leaves@[i as int].0 == TreeLeafIndex(i as u32));
            if let Some(ln) = ln {
                if leaf_node_eq(ln, leaf_node) {
                    return Some(idx);
                }
            }
            i += 1;
        }
        None
    }

    /// The leftmost blank leaf, or, when there is none, the first leaf past
    /// the tree once it is extended.
    pub fn leftmost_blank_leafnode_idx(&self) -> (r: TreeLeafIndex)
        requires
            self.counted(),
            first_blank_leaf(self.rt@, 0) is None ==> self.leaf_count > 0 && node_width_of(
                self.leaf_count as nat,
            ) < usize::MAX,
        ensures
            r == match first_blank_leaf(self.rt@, 0) {
                Some(i) => TreeLeafIndex((i / 2) as u32),
                None => TreeLeafIndex(((node_width_of(self.leaf_count as nat) + 1) / 2) as u32),
            },
    {
        let mut i: usize = 0;
        while i < self.rt.0.len()
            invariant
                i <= self.rt@.len(),
                self.rt@.len() == self.rt.0@.len(),
                first_blank_leaf(self.rt@, 0) == first_blank_leaf(self.rt@, i as int),
            decreases self.rt@.len() - i,
        {
            assert(self.rt@[i as int] is None <==> self.rt.0@[i as int] is None);
            if i % 2 == 0 && self.rt.0[i].is_none() {
                return TreeLeafIndex((i / 2) as u32);
            }
            i += 1;
        }
        let expanded_tree_root_idx = self.node_width();
        let leaf_node_idx = TreeNodeIndex(expanded_tree_root_idx.saturating_add(1));
        match leaf_node_idx.to_tree_leaf_idx() {
            Some(l) => l,
            None => {
                proof {
                    lemma_node_width_odd(self.leaf_count as nat);
                }
                assert(false);
                TreeLeafIndex(0)
            },
        }
    }

    /// Index of the root of the tree, as a spec value.
    pub open spec fn spec_root(&self) -> nat {
        root_of_width(node_width_of(self.leaf_count as nat))
    }

    /// The nodes above a leaf up to the root, `None` when the leaf is the
    /// root.
    pub fn direct_path(&self, idx: TreeLeafIndex) -> (r: Option<Vec<(TreeNodeIndex, Option<&'a TreeNode>)>>)
        requires
            self.counted(),
            self.leaf_count > 0,
            self.spec_root() < usize::MAX / 2,
            idx.0 as nat * 2 < usize::MAX,
            in_subtree(self.spec_root(), idx.0 as nat * 2),
        ensures
            match r {
                None => idx.0 as nat * 2 == self.spec_root(),
                Some(v) => idx.0 as nat * 2 != self.spec_root() && pairs_view(v@) == path_nodes(
                    self.rt@,
                    path_to_root(idx.0 as nat * 2, self.spec_root()),
                ),
            },
    {
        let root = self.root_idx();
        let leaf = TreeNodeIndex::from_leaf(idx);
        if root.0 == leaf.0 {
            return None;
        }
        let ghost s = self.rt@;
        let ghost full = path_to_root(leaf.0 as nat, root.0 as nat);
        let mut out: Vec<(TreeNodeIndex, Option<&'a TreeNode>)> = Vec::new();
        let mut cur = leaf;
        loop
            invariant
                s == self.rt@,
                root.0 < usize::MAX / 2,
                cur.0 < usize::MAX,
                in_subtree(root.0 as nat, cur.0 as nat),
                full == path_to_root(leaf.0 as nat, root.0 as nat),
                pairs_view(out@) + path_nodes(s, path_to_root(cur.0 as nat, root.0 as nat))
                    == path_nodes(s, full),
            ensures
                pairs_view(out@) == path_nodes(s, full),
            decreases level_of(root.0 as nat) - level_of(cur.0 as nat),
        {
            proof {
                lemma_parent_in_subtree(root.0, cur.0);
            }
            let ghost path = path_to_root(cur.0 as nat, root.0 as nat);
            match cur.parent(&root) {
                None => {
                    assert(path.len() == 0);
                    assert(path_nodes(s, path) =~= Seq::empty());
                    assert(pairs_view(out@) =~= pairs_view(out@) + path_nodes(s, path));
                    break;
                },
                Some(p) => {
                    let ghost rest = path_to_root(p.0 as nat, root.0 as nat);
                    assert(path == seq![p.0 as nat] + rest);
                    let node = self.find_treenode_at_idx(p);
                    let ghost before = pairs_view(out@);
                    out.push((p, node));
                    assert(pairs_view(out@) =~= before.push((p.0 as nat, node_at(s, p.0 as int))));
                    assert(path_nodes(s, path) =~= seq![(p.0 as nat, node_at(s, p.0 as int))]
                        + path_nodes(s, rest));
                    assert(pairs_view(out@) + path_nodes(s, rest) =~= before + path_nodes(s, path));
                    cur = p;
                },
            }
        }
        Some(out)
    }

    /// The siblings of a leaf and of the nodes above it up to the root,
    /// `None` when the leaf is the root.
    pub fn copath(&self, idx: TreeLeafIndex) -> (r: Option<Vec<(TreeNodeIndex, Option<&'a TreeNode>)>>)
        requires
            self.counted(),
            self.leaf_count > 0,
            self.spec_root() < usize::MAX / 2,
            idx.0 as nat * 2 < usize::MAX,
            in_subtree(self.spec_root(), idx.0 as nat * 2),
        ensures
            match r {
                None => idx.0 as nat * 2 == self.spec_root(),
                Some(v) => {
                    &&& idx.0 as nat * 2 != self.spec_root()
                    &&& pairs_view(v@) == sibling_nodes(
                        self.rt@,
                        seq![idx.0 as nat * 2] + path_to_root(idx.0 as nat * 2, self.spec_root()),
                    )
                    &&& forall|i: int| 0 <= i < v@.len() ==> (#[trigger] v@[i]).0.0 < usize::MAX
                },
            },
    {
        let root = self.root_idx();
        let leaf = TreeNodeIndex::from_leaf(idx);
        if root.0 == leaf.0 {
            return None;
        }
        let ghost s = self.rt@;
        let ghost full = seq![leaf.0 as nat] + path_to_root(leaf.0 as nat, root.0 as nat);
        let mut out: Vec<(TreeNodeIndex, Option<&'a TreeNode>)> = Vec::new();
        let mut cur = leaf;
        let ghost mut seen: Seq<nat> = Seq::empty();
        loop
            invariant_except_break
                seen + seq![cur.0 as nat] + path_to_root(cur.0 as nat, root.0 as nat) == full,
            invariant
                s == self.rt@,
                root.0 < usize::MAX / 2,
                cur.0 < usize::MAX,
                in_subtree(root.0 as nat, cur.0 as nat),
                leaf.0 < usize::MAX,
                in_subtree(root.0 as nat, leaf.0 as nat),
                full == seq![leaf.0 as nat] + path_to_root(leaf.0 as nat, root.0 as nat),
                pairs_view(out@) == sibling_nodes(s, seen),
                forall|i: int| 0 <= i < out@.len() ==> (#[trigger] out@[i]).0.0 < usize::MAX,
            ensures
                pairs_view(out@) == sibling_nodes(s, full),
                forall|i: int| 0 <= i < out@.len() ==> (#[trigger] out@[i]).0.0 < usize::MAX,
            decreases level_of(root.0 as nat) - level_of(cur.0 as nat),
        {
            proof {
                lemma_parent_in_subtree(root.0, cur.0);
                lemma_sibling_parent(cur.0);
            }
            let ghost path = path_to_root(cur.0 as nat, root.0 as nat);
            let sib = match cur.sibling() {
                Some(sb) => sb,
                None => {
                    assert(false);
                    cur
                },
            };
            let node = self.find_treenode_at_idx(sib);
            let ghost before = pairs_view(out@);
            out.push((sib, node));
            assert(pairs_view(out@) =~= before.push((sib.0 as nat, node_at(s, sib.0 as int))));
            assert(sibling_nodes(s, seen.push(cur.0 as nat)) =~= sibling_nodes(s, seen).push(
                (sib.0 as nat, node_at(s, sib.0 as int)),
            ));
            proof {
                seen = seen.push(cur.0 as nat);
            }
            match cur.parent(&root) {
                None => {
                    assert(path.len() == 0);
                    assert(seen =~= full);
                    break;
                },
                Some(p) => {
                    let ghost rest = path_to_root(p.0 as nat, root.0 as nat);
                    assert(path == seq![p.0 as nat] + rest);
                    assert(seen + seq![p.0 as nat] + rest =~= full);
                    cur = p;
                },
            }
        }
        Some(out)
    }

    /// The resolution of a node, leaving out the excluded leaves.
    pub fn node_resolution(&self, idx: TreeNodeIndex, excluded_leaves: &[TreeLeafIndex]) -> (r: Option<
        Vec<(TreeNodeIndex, Option<&'a TreeNode>)>,
    >)
        requires
            idx.0 < usize::MAX,
            well_formed(self.rt@),
            unmerged_in_range(self.rt@),
        ensures
            r matches Some(v) && pairs_view(v@) == resolution(self.rt@, idx.0 as nat, excluded_leaves@),
        decreases level_of(idx.0 as nat),
    {
        let ghost s = self.rt@;
        let node = self.find_treenode_at_idx(idx);
        let is_leaf = idx.is_leaf();
        let is_blank = node.is_none();
        if is_leaf {
            let leaf_idx = match idx.to_tree_leaf_idx() {
                Some(l) => l,
                None => {
                    return None;
                },
            };
            let excluded = leaf_indices_contain(excluded_leaves, leaf_idx);
            if is_blank || excluded {
                let v: Vec<(TreeNodeIndex, Option<&'a TreeNode>)> = Vec::new();
                assert(pairs_view(v@) =~= Seq::empty());
                return Some(v);
            } else {
                let mut v: Vec<(TreeNodeIndex, Option<&'a TreeNode>)> = Vec::new();
                v.push((idx, node));
                assert(pairs_view(v@) =~= seq![(idx.0 as nat, node_at(s, idx.0 as int))]);
                return Some(v);
            }
        }
        proof {
            lemma_children_parent(idx.0);
        }
        let mut found: Vec<(TreeNodeIndex, Option<&'a TreeNode>)> = Vec::new();
        if is_blank {
            let ghost mut lres: Seq<(nat, Option<TreeNodeView>)> = Seq::empty();
            if let Some(left_idx) = idx.left() {
                if let Some(mut left_resolution) = self.node_resolution(left_idx, excluded_leaves) {
                    proof {
                        lres = pairs_view(left_resolution@);
                    }
                    found.append(&mut left_resolution);
                    assert(pairs_view(found@) =~= lres);
                }
            }
            if let Some(right_idx) = idx.right() {
                if let Some(mut right_resolution) = self.node_resolution(right_idx, excluded_leaves) {
                    let ghost rres = pairs_view(right_resolution@);
                    found.append(&mut right_resolution);
                    assert(pairs_view(found@) =~= lres + rres);
                }
            }
        } else {
            found.push((idx, node));
            let p = match node {
                Some(TreeNode::ParentNode(p)) => p,
                _ => {
                    proof {
                        let i = idx.0 as int;
                        assert(s[i] is Some);
                    }
                    assert(false);
                    return None;
                },
            };
            let ghost head = pairs_view(found@);
            assert(head =~= seq![(idx.0 as nat, node_at(s, idx.0 as int))]);
            let mut j: usize = 0;
            while j < p.unmerged_leaves.len()
                invariant
                    s == self.rt@,
                    unmerged_in_range(s),
                    0 <= idx.0 < s.len(),
                    s[idx.0 as int] == Some(TreeNodeView::ParentNode(p@)),
                    j <= p.unmerged_leaves@.len(),
                    pairs_view(found@) == head + unmerged_part(
                        s,
                        p.unmerged_leaves@.take(j as int),
                        excluded_leaves@,
                    ),
                decreases p.unmerged_leaves@.len() - j,
            {
                let u = p.unmerged_leaves[j];
                let leaf_idx = TreeLeafIndex(u);
                assert(p.unmerged_leaves@.take(j + 1).drop_last() =~= p.unmerged_leaves@.take(j as int));
                assert(p.unmerged_leaves@.take(j + 1).last() == u);
                if !leaf_indices_contain(excluded_leaves, leaf_idx) {
                    proof {
                        let i = idx.0 as int;
                        let pv = p@;
                        assert(s[i] == Some(TreeNodeView::ParentNode(pv)));
                        assert(unmerged_fit(s[i]));
                        assert(leaves_fit(pv.unmerged_leaves));
                        assert(pv.unmerged_leaves[j as int] as nat * 2 <= usize::MAX);
                    }
                    let leaf_node_idx = TreeNodeIndex::from_leaf(leaf_idx);
                    let node_ref = self.find_treenode_at_idx(leaf_node_idx);
                    let ghost before = pairs_view(found@);
                    found.push((leaf_node_idx, node_ref));
                    assert(pairs_view(found@) =~= before.push(
                        (leaf_node_idx.0 as nat, node_at(s, leaf_node_idx.0 as int)),
                    ));
                }
                j += 1;
            }
            assert(p.unmerged_leaves@.take(j as int) =~= p.unmerged_leaves@);
        }
        Some(found)
    }

    /// Some node of the resolution of `node_idx` carries `parent_hash`.
    pub fn find_parent_hash_in_resolution(
        &self,
        node_idx: TreeNodeIndex,
        parent_hash: &[u8],
        excluded_leaves: &[TreeLeafIndex],
    ) -> (r: bool)
        requires
            node_idx.0 < usize::MAX,
            well_formed(self.rt@),
            unmerged_in_range(self.rt@),
        ensures
            r == exists|i: int|
                0 <= i < resolution(self.rt@, node_idx.0 as nat, excluded_leaves@).len()
                    && holds_parent_hash(
                    #[trigger] resolution(self.rt@, node_idx.0 as nat, excluded_leaves@)[i].1,
                    parent_hash@,
                ),
    {
        let found_nodes = match self.node_resolution(node_idx, excluded_leaves) {
            Some(r) => r,
            None => {
                return false;
            },
        };
        let ghost res = pairs_view(found_nodes@);
        let mut i: usize = 0;
        while i < found_nodes.len()
            invariant
                i <= found_nodes@.len(),
                res == pairs_view(found_nodes@),
                res == resolution(self.rt@, node_idx.0 as nat, excluded_leaves@),
                forall|k: int| 0 <= k < i ==> !holds_parent_hash(#[trigger] res[k].1, parent_hash@),
            decreases found_nodes@.len() - i,
        {
            let (_, node) = found_nodes[i];
            assert(res[i as int].1 == ref_node_view(node));
            let found = match node {
                Some(TreeNode::LeafNode(ln)) => match &ln.source {
                    LeafNodeSource::Commit { parent_hash: h } => bytes_eq(h.as_slice(), parent_hash),
                    _ => false,
                },
                Some(TreeNode::ParentNode(p)) => bytes_eq(p.parent_hash.as_slice(), parent_hash),
                None => false,
            };
            if found {
                return true;
            }
            i += 1;
        }
        false
    }

    /// Each copath node of a leaf with its resolution; `None` for a tree of
    /// at most one leaf or when the leaf is the root.
    pub fn copath_resolutions(&self, idx: TreeLeafIndex) -> (r: Option<
        Vec<(TreeNodeIndex, Vec<(TreeNodeIndex, Option<&'a TreeNode>)>)>,
    >)
        requires
            self.counted(),
            self.leaf_count > 0,
            self.spec_root() < usize::MAX / 2,
            idx.0 as nat * 2 < usize::MAX,
            in_subtree(self.spec_root(), idx.0 as nat * 2),
            well_formed(self.rt@),
            unmerged_in_range(self.rt@),
        ensures
            match r {
                None => self.leaf_count <= 1 || idx.0 as nat * 2 == self.spec_root(),
                Some(v) => {
                    &&& self.leaf_count > 1
                    &&& idx.0 as nat * 2 != self.spec_root()
                    &&& resolutions_view(v@) == with_resolutions(
                        self.rt@,
                        sibling_chain(idx.0 as nat * 2, self.spec_root()),
                    )
                },
            },
    {
        if self.leaf_count() <= 1 {
            return None;
        }
        let copath = match self.copath(idx) {
            Some(c) => c,
            None => {
                return None;
            },
        };
        let ghost s = self.rt@;
        let ghost chain = sibling_chain(idx.0 as nat * 2, self.spec_root());
        let ghost full = seq![idx.0 as nat * 2] + path_to_root(idx.0 as nat * 2, self.spec_root());
        assert(pairs_view(copath@).len() == copath@.len());
        assert(sibling_nodes(s, full).len() == full.len());
        assert(chain.len() == full.len());
        assert(chain.len() == copath@.len());
        let mut out: Vec<(TreeNodeIndex, Vec<(TreeNodeIndex, Option<&'a TreeNode>)>)> = Vec::new();
        let mut i: usize = 0;
        while i < copath.len()
            invariant
                s == self.rt@,
                well_formed(s),
                unmerged_in_range(s),
                chain.len() == copath@.len(),
                pairs_view(copath@) == sibling_nodes(
                    s,
                    seq![idx.0 as nat * 2] + path_to_root(idx.0 as nat * 2, self.spec_root()),
                ),
                chain == sibling_chain(idx.0 as nat * 2, self.spec_root()),
                forall|j: int| 0 <= j < copath@.len() ==> (#[trigger] copath@[j]).0.0 < usize::MAX,
                i <= copath@.len(),
                resolutions_view(out@) == with_resolutions(s, chain.take(i as int)),
            decreases copath@.len() - i,
        {
            let (c, _) = copath[i];
            assert(pairs_view(copath@)[i as int].0 == c.0 as nat);
            assert(chain[i as int] == c.0 as nat);
            let no_leaves: Vec<TreeLeafIndex> = Vec::new();
            assert(no_leaves@ =~= Seq::<TreeLeafIndex>::empty());
            let res = match self.node_resolution(c, no_leaves.as_slice()) {
                Some(res) => res,
                None => {
                    assert(false);
                    Vec::new()
                },
            };
            let ghost before = resolutions_view(out@);
            assert(with_resolutions(s, chain.take(i as int)).len() == i);
            assert(pairs_view(res@) == resolution(s, c.0 as nat, Seq::empty()));
            let ghost entry = (c.0 as nat, resolution(s, c.0 as nat, Seq::empty()));
            out.push((c, res));
            assert(resolutions_view(out@) =~= before.push(entry));
            assert(chain.take(i + 1) =~= chain.take(i as int).push(c.0 as nat));
            assert(with_resolutions(s, chain.take(i + 1)) =~= with_resolutions(s, chain.take(i as int)).push(
                entry,
            ));
            assert(resolutions_view(out@) =~= with_resolutions(s, chain.take(i + 1)));
            i += 1;
        }
        assert(chain.take(i as int) =~= chain);
        Some(out)
    }

    /// The direct path of a leaf, keeping the nodes whose copath node has a
    /// non-empty resolution.
    pub fn filtered_direct_path(&self, idx: TreeLeafIndex) -> (r: Option<Vec<FilteredDirectPathItem<'a>>>)
        requires
            self.counted(),
            self.leaf_count > 0,
            self.spec_root() < usize::MAX / 2,
            idx.0 as nat * 2 < usize::MAX,
            in_subtree(self.spec_root(), idx.0 as nat * 2),
            well_formed(self.rt@),
            unmerged_in_range(self.rt@),
        ensures
            match r {
                None => self.leaf_count <= 1 || idx.0 as nat * 2 == self.spec_root(),
                Some(v) => items_view(v@) == filtered_path(
                    self.rt@,
                    path_to_root(idx.0 as nat * 2, self.spec_root()),
                    sibling_chain(idx.0 as nat * 2, self.spec_root()),
                    path_to_root(idx.0 as nat * 2, self.spec_root()).len() as int,
                ),
            },
    {
        let dp = match self.direct_path(idx) {
            Some(d) => d,
            None => {
                return None;
            },
        };
        let cr = match self.copath_resolutions(idx) {
            Some(c) => c,
            None => {
                return None;
            },
        };
        let ghost s = self.rt@;
        let ghost path = path_to_root(idx.0 as nat * 2, self.spec_root());
        let ghost sibs = sibling_chain(idx.0 as nat * 2, self.spec_root());
        assert(pairs_view(dp@).len() == dp@.len());
        assert(path_nodes(s, path).len() == path.len());
        assert(dp@.len() == path.len());
        assert(resolutions_view(cr@).len() == cr@.len());
        assert(with_resolutions(s, sibs).len() == sibs.len());
        assert(cr@.len() == sibs.len());
        assert(sibs.len() == path.len() + 1);
        let mut out: Vec<FilteredDirectPathItem<'a>> = Vec::new();
        let mut rest = cr;
        let ghost crv = resolutions_view(rest@);
        let mut i: usize = 0;
        while i < dp.len()
            invariant
                s == self.rt@,
                dp@.len() == path.len(),
                crv.len() == sibs.len(),
                sibs.len() == path.len() + 1,
                pairs_view(dp@) == path_nodes(s, path),
                crv == with_resolutions(s, sibs),
                i <= dp@.len(),
                resolutions_view(rest@) == crv.skip(i as int),
                items_view(out@) == filtered_path(s, path, sibs, i as int),
            decreases dp@.len() - i,
        {
            let (node_idx, _) = dp[i];
            assert(pairs_view(dp@)[i as int].0 == node_idx.0 as nat);
            assert(resolutions_view(rest@).len() > 0);
            let ghost rv = resolutions_view(rest@);
            assert(rv[0] == crv[i as int]);
            let (sibling_idx, copath_resolution) = rest.remove(0);
            assert(crv[i as int] == (sibling_idx.0 as nat, pairs_view(copath_resolution@)));
            assert(resolutions_view(rest@) =~= rv.skip(1));
            assert(rv.skip(1) =~= crv.skip(i + 1));
            let ghost before = items_view(out@);
            if copath_resolution.len() != 0 {
                out.push(FilteredDirectPathItem { node_idx, sibling_idx, copath_resolution });
                assert(items_view(out@) =~= before.push(
                    (path[i as int], sibs[i as int], resolution(s, sibs[i as int], Seq::empty())),
                ));
            }
            i += 1;
        }
        Some(out)
    }
}

} // verus!
