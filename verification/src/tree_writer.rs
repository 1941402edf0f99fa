//! Adding and removing members of a ratchet tree, growing and shrinking the
//! array of nodes as needed.
use vstd::prelude::*;
use crate::ratchet_tree::{
    lemma_last_occupied_leaf, node_view, LeafNode, LeafNodeView, RatchetTree, TreeNode,
    TreeNodeView, well_formed,
};
use crate::tree_index::{TreeLeafIndex, TreeNodeIndex};
use crate::tree_reader::{compute_nw, first_blank_leaf, leaf_count, leaf_count_of, node_width_of,
    rightmost_leaf, rightmost_nonblank_leafnode_idx, root_idx_from_nw, root_of_width, usize_saturating_mul,
    RatchetTreeReader};

verus! {

/// `s` cut or extended with blank nodes to `n` nodes.
pub open spec fn resized(s: Seq<Option<TreeNodeView>>, n: nat) -> Seq<Option<TreeNodeView>> {
    if n <= s.len() {
        s.take(n as int)
    } else {
        s + Seq::new((n - s.len()) as nat, |i: int| None)
    }
}

/// The length a tree grows to: twice its node width plus one, saturated.
pub open spec fn grown_len(s: Seq<Option<TreeNodeView>>) -> nat {
    let w = node_width_of(leaf_count_of(s));
    if 2 * w + 1 > usize::MAX {
        usize::MAX as nat
    } else {
        2 * w + 1
    }
}

/// The tree once grown, when needed, to reach position `target`.
pub open spec fn grown(s: Seq<Option<TreeNodeView>>, target: nat) -> Seq<Option<TreeNodeView>> {
    if s.len() <= target {
        resized(s, grown_len(s))
    } else {
        s
    }
}

/// The tree has trailing nodes past the subtree of its rightmost leaf.
pub open spec fn needs_shrink(s: Seq<Option<TreeNodeView>>) -> bool {
    s.len() > 1 && match rightmost_leaf(s) {
        Some(l) => 2 * (l.0 as nat) < root_of_width(node_width_of(leaf_count_of(s))),
        None => true,
    }
}

/// The length a tree is cut to by one shrinking step: `ceil((len + 1) / 2) - 1`.
pub open spec fn shrink_len(n: nat) -> nat {
    let x: nat = if n + 1 > usize::MAX {
        usize::MAX as nat
    } else {
        n + 1
    };
    ((x / 2 + x % 2) - 1) as nat
}

/// The tree once shrunk as long as it has trailing nodes.
pub open spec fn shrunk(s: Seq<Option<TreeNodeView>>) -> Seq<Option<TreeNodeView>>
    decreases s.len(),
{
    if needs_shrink(s) && shrink_len(s.len()) < s.len() {
        shrunk(s.take(shrink_len(s.len()) as int))
    } else {
        s
    }
}

/// `Vec::shrink_to_fit`: frees spare capacity, keeping the elements.
#[verifier::external_body]
fn vec_shrink_to_fit(v: &mut Vec<Option<TreeNode>>)
    ensures
        final(v)@ == old(v)@,
{
    v.shrink_to_fit()
}

/// The raw array of nodes of a tree being modified.
pub struct RatchetTreeContainer(pub Vec<Option<TreeNode>>);

impl RatchetTreeContainer {
    pub open spec fn nodes(&self) -> Seq<Option<TreeNodeView>> {
        self.0@.map_values(|n: Option<TreeNode>| node_view(n))
    }

    fn needs_to_grow(&self, target_idx: TreeNodeIndex) -> (r: bool)
        ensures
            r == (self.nodes().len() <= target_idx.0),
    {
        self.0.len() <= target_idx.0
    }

    fn needs_to_shrink(&self) -> (r: bool)
        ensures
            r == needs_shrink(self.nodes()),
    {
        if self.0.len() <= 1 {
            return false;
        }
        proof {
            assert(self.0@.map_values(|n: Option<TreeNode>| node_view(n)) == self.nodes());
        }
        if let Some(leaf) = rightmost_nonblank_leafnode_idx(self.0.as_slice()) {
            proof {
                lemma_rightmost_leaf_fits(self.nodes());
            }
            let idx = TreeNodeIndex::from_leaf(leaf);
            let lc = leaf_count(self.0.as_slice());
            proof {
                lemma_last_occupied_leaf(self.nodes(), self.nodes().len() as int);
            }
            let root_idx = root_idx_from_nw(compute_nw(lc));
            if idx.0 >= root_idx.0 {
                return false;
            }
        }
        true
    }

    /// Grows the array to twice the node width plus one when `target_idx`
    /// lies past its end.
    pub fn grow_if_needed(&mut self, target_idx: TreeNodeIndex)
        ensures
            final(self).nodes() == grown(old(self).nodes(), target_idx.0 as nat),
    {
        if self.needs_to_grow(target_idx) {
            proof {
                assert(self.0@.map_values(|n: Option<TreeNode>| node_view(n)) == self.nodes());
            }
            let new_len = usize_saturating_mul(compute_nw(leaf_count(self.0.as_slice())), 2).saturating_add(1);
            resize_blank(&mut self.0, new_len);
        }
    }

    /// Cuts trailing nodes past the subtree of the rightmost leaf.
    pub fn shrink_if_needed(&mut self)
        ensures
            final(self).nodes() == shrunk(old(self).nodes()),
    {
        let ghost target = shrunk(self.nodes());
        while self.needs_to_shrink()
            invariant
                shrunk(self.nodes()) == target,
            decreases self.0@.len(),
        {
            let x = self.0.len().saturating_add(1);
            let target_len = (x / 2 + x % 2).saturating_sub(1);
            let ghost before = self.nodes();
            self.0.truncate(target_len);
            vec_shrink_to_fit(&mut self.0);
            assert(self.nodes() =~= before.take(target_len as int));
        }
    }
}

proof fn lemma_rightmost_leaf_fits(s: Seq<Option<TreeNodeView>>)
    requires
        s.len() <= usize::MAX,
    ensures
        rightmost_leaf(s) matches Some(l) ==> l.0 as nat * 2 <= usize::MAX,
{
    lemma_last_occupied_leaf(s, s.len() as int);
}

/// Cuts `v` or extends it with blank nodes to `n` nodes.
fn resize_blank(v: &mut Vec<Option<TreeNode>>, n: usize)
    ensures
        final(v)@.map_values(|x: Option<TreeNode>| node_view(x)) == resized(
            old(v)@.map_values(|x: Option<TreeNode>| node_view(x)),
            n as nat,
        ),
{
    let ghost s = v@.map_values(|x: Option<TreeNode>| node_view(x));
    if n <= v.len() {
        v.truncate(n);
        assert(v@.map_values(|x: Option<TreeNode>| node_view(x)) =~= resized(s, n as nat));
        return;
    }
    let start = v.len();
    while v.len() < n
        invariant
            start <= v@.len() <= n,
            v@.map_values(|x: Option<TreeNode>| node_view(x)) =~= s + Seq::new(
                (v@.len() - start) as nat,
                |i: int| None,
            ),
            s.len() == start,
        decreases n - v@.len(),
    {
        let ghost before = v@;
        let ghost k = (v@.len() - start) as nat;
        v.push(None);
        assert(v@ == before.push(None));
        assert(v@.map_values(|x: Option<TreeNode>| node_view(x)) =~= before.map_values(
            |x: Option<TreeNode>| node_view(x),
        ).push(None));
        assert(Seq::new(k + 1, |i: int| None::<TreeNodeView>) =~= Seq::new(k, |i: int| None::<TreeNodeView>).push(None));
        assert(v@.map_values(|x: Option<TreeNode>| node_view(x)) =~= s + Seq::new(
            (v@.len() - start) as nat,
            |i: int| None,
        ));
    }
}

} // verus!

verus! {

/// The leaf where a new member goes: the leftmost blank one, or the first
/// past the tree once extended.
pub open spec fn add_leaf(s: Seq<Option<TreeNodeView>>, lc: nat) -> TreeLeafIndex {
    match first_blank_leaf(s, 0) {
        Some(i) => TreeLeafIndex((i / 2) as u32),
        None => TreeLeafIndex(((node_width_of(lc) + 1) / 2) as u32),
    }
}

proof fn lemma_grown_len(s: Seq<Option<TreeNodeView>>, t: nat)
    ensures
        grown(s, t).len() == (if s.len() <= t {
            grown_len(s)
        } else {
            s.len()
        }),
{
}

/// Adds and removes members of a tree.
pub struct RatchetTreeWriter<'a> {
    pub rt: &'a mut RatchetTree,
    /// The leaf count computed when the writer was made.
    pub leaf_count: usize,
}

impl<'a> RatchetTreeWriter<'a> {
    /// The nodes of the tree being written.
    pub open spec fn tree(&self) -> Seq<Option<TreeNodeView>> {
        self.rt@
    }

    pub fn new(rt: &'a mut RatchetTree) -> (r: Self)
        ensures
            r.rt@ == old(rt)@,
            r.leaf_count as nat == leaf_count_of(old(rt)@),
            *final(rt) == *final(r.rt),
    {
        let lc = RatchetTreeReader::new(&*rt).with_computed_leaf_count().leaf_count();
        RatchetTreeWriter { rt, leaf_count: lc }
    }

    /// A reader over the tree with the writer's leaf count.
    pub fn reader(&self) -> (r: RatchetTreeReader<'_>)
        ensures
            r.rt@ == self.tree(),
            r.leaf_count == self.leaf_count,
    {
        RatchetTreeReader { rt: &*self.rt, leaf_count: self.leaf_count }
    }

    /// Puts a new member at the leftmost blank leaf, growing the tree when
    /// there is none, and hands back what was there.
    pub fn add_member(&mut self, ln: &LeafNode) -> (r: Option<LeafNode>)
        requires
            well_formed(old(self).rt@),
            old(self).rt@.len() == 0 || old(self).leaf_count != 0,
            first_blank_leaf(old(self).rt@, 0) is None ==> old(self).leaf_count > 0 && node_width_of(
                old(self).leaf_count as nat,
            ) < usize::MAX,
            add_leaf(old(self).rt@, old(self).leaf_count as nat).0 as nat * 2 < grown(
                old(self).rt@,
                add_leaf(old(self).rt@, old(self).leaf_count as nat).0 as nat * 2,
            ).len(),
        ensures
            ({
                let t = add_leaf(old(self).rt@, old(self).leaf_count as nat).0 as nat * 2;
                let g = grown(old(self).rt@, t);
                &&& final(self).rt@ == g.update(t as int, Some(TreeNodeView::LeafNode(ln@)))
                &&& match g[t as int] {
                    Some(TreeNodeView::LeafNode(l)) => r matches Some(x) && x@ == l,
                    _ => r is None,
                }
            }),
            final(self).leaf_count == old(self).leaf_count,
    {
        let leaf = self.reader().leftmost_blank_leafnode_idx();
        let ghost n = self.rt.0.len();
        proof {
            lemma_grown_len(self.rt@, leaf.0 as nat * 2);
            assert(self.rt@.len() == n);
        }
        let target_idx = TreeNodeIndex::from_leaf(leaf);
        let ghost g = grown(self.rt@, target_idx.0 as nat);
        let mut nodes: Vec<Option<TreeNode>> = Vec::new();
        core::mem::swap(&mut nodes, &mut self.rt.0);
        let mut raw = RatchetTreeContainer(nodes);
        raw.grow_if_needed(target_idx);
        assert(raw.nodes() == g);
        let mut slot = Some(TreeNode::LeafNode(ln.clone()));
        core::mem::swap(&mut raw.0[target_idx.0], &mut slot);
        assert(raw.nodes() =~= g.update(target_idx.0 as int, Some(TreeNodeView::LeafNode(ln@))));
        let old = match slot {
            Some(TreeNode::LeafNode(leaf_node)) => Some(leaf_node),
            Some(TreeNode::ParentNode(_)) => {
                proof {
                    assert(g[target_idx.0 as int] is Some);
                }
                assert(false);
                None
            },
            None => None,
        };
        self.rt.0 = raw.0;
        old
    }

    /// Blanks the leaf of a member, shrinks the tree, and tells whether the
    /// leaf held a member.
    pub fn remove_member(&mut self, idx: TreeLeafIndex) -> (r: bool)
        requires
            idx.0 as nat * 2 < old(self).rt@.len(),
        ensures
            final(self).rt@ == shrunk(old(self).rt@.update(idx.0 as int * 2, None)),
            r == old(self).rt@[idx.0 as int * 2] is Some,
            final(self).leaf_count == old(self).leaf_count,
    {
        let n = self.rt.0.len();
        assert(self.rt@.len() == n);
        let target_idx = TreeNodeIndex::from_leaf(idx);
        let ghost s = self.rt@;
        let mut nodes: Vec<Option<TreeNode>> = Vec::new();
        core::mem::swap(&mut nodes, &mut self.rt.0);
        let mut raw = RatchetTreeContainer(nodes);
        assert(raw.nodes() == s);
        let mut slot: Option<TreeNode> = None;
        core::mem::swap(&mut raw.0[target_idx.0], &mut slot);
        let removed = slot.is_some();
        assert(raw.nodes() =~= s.update(target_idx.0 as int, None));
        raw.shrink_if_needed();
        self.rt.0 = raw.0;
        removed
    }
}

} // verus!

verus! {

/// Shrinking only cuts trailing nodes: what is left is a prefix.
proof fn lemma_shrunk_prefix(s: Seq<Option<TreeNodeView>>)
    ensures
        shrunk(s).len() <= s.len(),
        shrunk(s) == s.take(shrunk(s).len() as int),
    decreases s.len(),
{
    if needs_shrink(s) && shrink_len(s.len()) < s.len() {
        let t = s.take(shrink_len(s.len()) as int);
        lemma_shrunk_prefix(t);
        assert(shrunk(s) =~= s.take(shrunk(s).len() as int));
    } else {
        assert(s.take(s.len() as int) =~= s);
    }
}

/// Adding a member writes its leaf at the chosen leaf position and changes
/// no other node: growing the tree only appends blank nodes, and leaves stay
/// at even positions.
pub proof fn lemma_add_member_places_leaf(
    s: Seq<Option<TreeNodeView>>,
    lc: nat,
    ln: LeafNodeView,
)
    requires
        well_formed(s),
        add_leaf(s, lc).0 as nat * 2 < grown(s, add_leaf(s, lc).0 as nat * 2).len(),
    ensures
        ({
            let t = add_leaf(s, lc).0 as int * 2;
            let after = grown(s, t as nat).update(t, Some(TreeNodeView::LeafNode(ln)));
            &&& after[t] == Some(TreeNodeView::LeafNode(ln))
            &&& well_formed(after)
            &&& s.len() <= after.len()
            &&& forall|j: int| 0 <= j < s.len() && j != t ==> after[j] == s[j]
            &&& forall|j: int| s.len() <= j < after.len() && j != t ==> after[j] is None
        }),
{
    let t = add_leaf(s, lc).0 as int * 2;
    let g = grown(s, t as nat);
    assert forall|j: int| 0 <= j < s.len() implies g[j] == s[j] by {}
    assert forall|j: int| s.len() <= j < g.len() implies g[j] is None by {}
}

/// Removing a member blanks its leaf and keeps every other node that is
/// left; the tree only loses trailing nodes, and stays well formed.
pub proof fn lemma_remove_member_blanks_leaf(s: Seq<Option<TreeNodeView>>, idx: TreeLeafIndex)
    requires
        well_formed(s),
        idx.0 as int * 2 < s.len(),
    ensures
        ({
            let after = shrunk(s.update(idx.0 as int * 2, None));
            &&& well_formed(after)
            &&& after.len() <= s.len()
            &&& idx.0 as int * 2 < after.len() ==> after[idx.0 as int * 2] is None
            &&& forall|j: int| 0 <= j < after.len() && j != idx.0 as int * 2 ==> after[j] == s[j]
        }),
{
    let u = s.update(idx.0 as int * 2, None);
    lemma_shrunk_prefix(u);
    let after = shrunk(u);
    assert forall|j: int| 0 <= j < after.len() implies after[j] == u[j] by {
        assert(after[j] == u.take(after.len() as int)[j]);
    }
}

} // verus!
