//! Index arithmetic on the array representation of an MLS ratchet tree
//! (RFC 9420, Appendix C): leaves sit at even indices, a parent at level `k`
//! sits between the two subtrees of level `k - 1` that it joins.
use vstd::prelude::*;
use vstd::arithmetic::power2::{pow2, lemma_pow2_pos};
use vstd::bits::{lemma_usize_shl_is_mul, lemma_usize_shr_is_div, lemma_usize_pow2_no_overflow};

verus! {

/// Number of trailing one bits of `n`: the level of node `n` in the tree.
pub open spec fn level_of(n: nat) -> nat
    decreases n,
{
    if n % 2 == 1 {
        1 + level_of(n / 2)
    } else {
        0
    }
}

/// Left child of the parent node `n`: `n - 2^(level - 1)`.
pub open spec fn left_of(n: nat) -> nat {
    (n - pow2((level_of(n) - 1) as nat)) as nat
}

/// Right child of the parent node `n`: `n + 2^(level - 1)`.
pub open spec fn right_of(n: nat) -> nat {
    n + pow2((level_of(n) - 1) as nat)
}

/// Parent of node `n` in the infinite tree: the node one level up whose
/// subtree holds `n`. Bit `level + 1` of `n` tells on which side `n` lies.
pub open spec fn parent_of(n: nat) -> nat {
    let k = level_of(n);
    if (n / pow2(k + 1)) % 2 == 0 {
        n + pow2(k)
    } else {
        (n - pow2(k)) as nat
    }
}

/// The other child of the parent of `n`.
pub open spec fn sibling_of(n: nat) -> nat {
    let k = level_of(n);
    if (n / pow2(k + 1)) % 2 == 0 {
        n + pow2(k + 1)
    } else {
        (n - pow2(k + 1)) as nat
    }
}

/// The low `k` bits of `n` are ones and bit `k` is zero.
spec fn low_ones(n: usize, k: usize) -> bool {
    &&& k < usize::BITS
    &&& n & !((!0usize) << k) == !((!0usize) << k)
    &&& (n >> k) & 1usize == 0usize
}

proof fn lemma_low_ones_zero(n: usize)
    requires
        n % 2 == 0,
    ensures
        low_ones(n, 0),
{
    assert(n % 2 == 0 ==> (n & !((!0usize) << 0usize) == !((!0usize) << 0usize) && (n >> 0usize)
        & 1usize == 0usize)) by (bit_vector);
}

proof fn lemma_not_all_ones(n: usize)
    requires
        n < usize::MAX,
    ensures
        n != !0usize,
{
    assert(((n + 1) as usize) == n + 1);
    assert(((n + 1) as usize) == n + 1 ==> n != !0usize) by (bit_vector);
}

proof fn lemma_low_ones_step(n: usize, j: usize)
    requires
        n < usize::MAX,
        n % 2 == 1,
        low_ones(n >> 1usize, j),
    ensures
        j + 1 < usize::BITS,
        low_ones(n, (j + 1) as usize),
{
    lemma_not_all_ones(n);
    assert(n != !0usize && n % 2 == 1 && j < usize::BITS && (n >> 1usize) & !((!0usize) << j) == !((
    !0usize) << j) && ((n >> 1usize) >> j) & 1usize == 0usize ==> j + 1 < usize::BITS) by (bit_vector);
    let k = (j + 1) as usize;
    assert(n % 2 == 1 && j < usize::BITS && k == j + 1 && k < usize::BITS && (n >> 1usize) & !(
    (!0usize) << j) == !((!0usize) << j) && ((n >> 1usize) >> j) & 1usize == 0usize ==> n & !(
    (!0usize) << k) == !((!0usize) << k) && (n >> k) & 1usize == 0usize) by (bit_vector);
}

/// The level of `n` is characterised by its bits: `level_of(n)` trailing
/// ones followed by a zero.
proof fn lemma_level_bits(n: usize)
    requires
        n < usize::MAX,
    ensures
        level_of(n as nat) < usize::BITS,
        low_ones(n, level_of(n as nat) as usize),
    decreases n,
{
    if n % 2 == 0 {
        lemma_low_ones_zero(n);
    } else {
        let m = n >> 1usize;
        assert((n >> 1usize) == n / 2) by (bit_vector);
        assert(n < (!0usize) ==> (n >> 1usize) < (!0usize)) by (bit_vector);
        lemma_level_bits(m);
        lemma_low_ones_step(n, level_of(m as nat) as usize);
    }
}

/// `low_ones` pins down the level.
proof fn lemma_low_ones_unique(n: usize, k: usize)
    requires
        low_ones(n, k),
    ensures
        level_of(n as nat) == k,
    decreases k,
{
    if k == 0 {
        assert((n >> 0usize) & 1usize == 0usize ==> n % 2 == 0) by (bit_vector);
    } else {
        let j = (k - 1) as usize;
        assert(k >= 1 && k < usize::BITS && j == k - 1 && n & !((!0usize) << k) == !((!0usize) << k)
            && (n >> k) & 1usize == 0usize ==> n % 2 == 1 && (n >> 1usize) & !((!0usize) << j) == !(
        (!0usize) << j) && ((n >> 1usize) >> j) & 1usize == 0usize) by (bit_vector);
        assert((n >> 1usize) == n / 2) by (bit_vector);
        lemma_low_ones_unique(n >> 1usize, j);
    }
}

/// `1 << k` is `2^k`.
proof fn lemma_shl_pow2(k: usize)
    requires
        k < usize::BITS,
    ensures
        (1usize << k) as nat == pow2(k as nat),
{
    lemma_usize_pow2_no_overflow(k as nat);
    lemma_usize_shl_is_mul(1, k);
}

/// Bit `k` of `n` is the parity of `n / 2^k`.
proof fn lemma_bit_parity(n: usize, k: usize)
    requires
        k < usize::BITS,
    ensures
        ((n >> k) & 1usize == 0usize) == ((n as nat / pow2(k as nat)) % 2 == 0),
{
    lemma_usize_shr_is_div(n, k);
    let s = n >> k;
    assert((s & 1usize == 0usize) == (s % 2 == 0)) by (bit_vector);
}

/// Index of a leaf inside the list of leaves.
#[derive(Debug, Clone, Copy, PartialEq, Eq)]
pub struct TreeLeafIndex(pub u32);

/// Index of a node inside the array representation of the tree.
#[derive(Debug, Clone, Copy, PartialEq, Eq)]
pub struct TreeNodeIndex(pub usize);

/// Lowest set bit of `n` (zero when `n` is zero).
fn last_set_bit(n: usize) -> (r: usize)
    ensures
        r == n - (n.wrapping_sub(1) & n),
{
    let m = n.wrapping_sub(1);
    assert(m & n <= n) by (bit_vector);
    n.wrapping_sub(m & n)
}

/// Lowest zero bit of `n`, as a power of two: `2^level`.
fn last_zero_bit(n: usize) -> (r: usize)
    requires
        n < usize::MAX,
    ensures
        r == 1usize << level_of(n as nat) as usize,
        r as nat == pow2(level_of(n as nat)),
{
    proof {
        lemma_level_bits(n);
        let k = level_of(n as nat) as usize;
        let x = (n + 1) as usize;
        assert(x.wrapping_sub(1) == n);
        assert(low_ones(n, k) ==> x == n + 1 ==> x - (n & x) == 1usize << k) by (bit_vector);
        lemma_shl_pow2(k);
    }
    last_set_bit(n + 1)
}

/// The number of trailing one bits of `n`: how often it halves while odd.
fn usize_trailing_ones(n: usize) -> (r: u32)
    ensures
        r as nat == level_of(n as nat),
{
    proof {
        lemma_level_below_64(n as nat);
    }
    let mut m: usize = n;
    let mut r: u32 = 0;
    while m % 2 == 1
        invariant
            r as nat + level_of(m as nat) == level_of(n as nat),
            level_of(n as nat) <= 64,
        decreases m,
    {
        m = m / 2;
        r = r + 1;
    }
    r
}

proof fn lemma_pow2_level(x: nat)
    ensures
        pow2(level_of(x)) <= x + 1,
    decreases x,
{
    if x % 2 == 1 {
        lemma_pow2_level(x / 2);
        vstd::arithmetic::power2::lemma_pow2_unfold(level_of(x));
    } else {
        vstd::arithmetic::power2::lemma2_to64();
    }
}

proof fn lemma_level_below_64(n: nat)
    requires
        n <= usize::MAX,
    ensures
        level_of(n) <= 64,
{
    lemma_pow2_level(n);
    vstd::arithmetic::power2::lemma2_to64();
    if level_of(n) > 64 {
        vstd::arithmetic::power2::lemma_pow2_strictly_increases(64, level_of(n));
    }
}

impl TreeNodeIndex {
    /// The node at the position of a leaf: twice its index.
    pub fn from_leaf(leaf: TreeLeafIndex) -> (r: Self)
        requires
            leaf.0 as nat * 2 <= usize::MAX,
        ensures
            r.0 == leaf.0 as nat * 2,
    {
        Self((leaf.0 as usize) * 2)
    }

    /// Leaves are the nodes at even indices.
    pub fn is_leaf(&self) -> (b: bool)
        ensures
            b == (self.0 % 2 == 0),
    {
        self.0.is_multiple_of(2)
    }

    /// The position of a leaf among the leaves, `None` for a parent node.
    pub fn to_tree_leaf_idx(&self) -> (r: Option<TreeLeafIndex>)
        ensures
            r == (if self.0 % 2 == 0 {
                Some(TreeLeafIndex((self.0 / 2) as u32))
            } else {
                None
            }),
    {
        if !self.is_leaf() {
            return None;
        }
        Some(TreeLeafIndex((self.0 / 2) as u32))
    }

    /// Left child of a parent node, `None` for a leaf.
    pub fn left(&self) -> (r: Option<Self>)
        requires
            self.0 < usize::MAX,
        ensures
            r == (if self.0 % 2 == 0 {
                None
            } else {
                Some(TreeNodeIndex(left_of(self.0 as nat) as usize))
            }),
    {
        if self.is_leaf() {
            return None;
        }
        let lzb = last_zero_bit(self.0);
        proof {
            lemma_left_bits(self.0);
        }
        assert(lzb.wrapping_shr(1) == lzb >> 1usize);
        let left = self.0 & !lzb.wrapping_shr(1);
        Some(Self(left))
    }

    /// Right child of a parent node, `None` for a leaf.
    pub fn right(&self) -> (r: Option<Self>)
        requires
            self.0 < usize::MAX,
        ensures
            r == (if self.0 % 2 == 0 {
                None
            } else {
                Some(TreeNodeIndex(right_of(self.0 as nat) as usize))
            }),
    {
        if self.is_leaf() {
            return None;
        }
        let lzb = last_zero_bit(self.0);
        proof {
            lemma_right_bits(self.0);
        }
        assert(lzb.wrapping_shr(1) == lzb >> 1usize);
        let right = (self.0 | lzb) & !lzb.wrapping_shr(1);
        Some(Self(right))
    }

    /// Both children `(left, right)` of a parent node, `None` for a leaf.
    pub fn children(&self) -> (r: Option<(Self, Self)>)
        requires
            self.0 < usize::MAX,
        ensures
            r == (if self.0 % 2 == 0 {
                None
            } else {
                Some(
                    (
                        TreeNodeIndex(left_of(self.0 as nat) as usize),
                        TreeNodeIndex(right_of(self.0 as nat) as usize),
                    ),
                )
            }),
            r matches Some((l, rt)) ==> {
                &&& l.0 + pow2((level_of(self.0 as nat) - 1) as nat) == self.0
                &&& rt.0 == self.0 + pow2((level_of(self.0 as nat) - 1) as nat)
                &&& level_of(l.0 as nat) + 1 == level_of(self.0 as nat)
                &&& level_of(rt.0 as nat) + 1 == level_of(self.0 as nat)
            },
    {
        if self.is_leaf() {
            return None;
        }
        let lzb = last_zero_bit(self.0);
        proof {
            lemma_left_bits(self.0);
            lemma_right_bits(self.0);
            lemma_children_parent(self.0);
        }
        assert(lzb.wrapping_shr(1) == lzb >> 1usize);
        let lzb_shr = !lzb.wrapping_shr(1);
        let left = self.0 & lzb_shr;
        let right = (self.0 | lzb) & lzb_shr;
        Some((Self(left), Self(right)))
    }

    /// Height of the node above the leaves: its number of trailing one bits.
    pub fn level(&self) -> (r: u32)
        ensures
            r as nat == level_of(self.0 as nat),
    {
        usize_trailing_ones(self.0)
    }

    /// The other child of this node's parent.
    pub fn sibling(&self) -> (r: Option<Self>)
        requires
            self.0 < usize::MAX,
            self.0 != usize::MAX / 2,
        ensures
            r == Some(TreeNodeIndex(sibling_of(self.0 as nat) as usize)),
    {
        let parent = self.parent_naive();
        proof {
            lemma_parent_level(self.0);
            lemma_sibling_through_parent(self.0);
        }
        if self.0 < parent.0 {
            parent.right()
        } else {
            parent.left()
        }
    }

    /// Parent of this node, `None` for the root of the tree.
    pub fn parent(&self, root_idx: &TreeNodeIndex) -> (r: Option<Self>)
        requires
            self.0 < usize::MAX || self.0 == root_idx.0,
        ensures
            r == (if self.0 == root_idx.0 {
                None
            } else {
                Some(TreeNodeIndex(parent_of(self.0 as nat) as usize))
            }),
    {
        if self.0 != root_idx.0 {
            Some(self.parent_naive())
        } else {
            None
        }
    }

    /// Parent of this node in the infinite tree.
    fn parent_naive(&self) -> (r: Self)
        requires
            self.0 < usize::MAX,
        ensures
            r.0 as nat == parent_of(self.0 as nat),
    {
        let lzb = last_zero_bit(self.0);
        proof {
            lemma_parent_bits(self.0);
        }
        assert(lzb.wrapping_shl(1) == lzb << 1usize);
        Self((lzb | self.0) & !lzb.wrapping_shl(1))
    }
}

/// A node on the right of its parent lies past `2^(level + 1)`.
proof fn lemma_right_side_bound(n: nat, k: nat)
    requires
        (n / pow2(k + 1)) % 2 != 0,
    ensures
        n >= pow2(k + 1),
        pow2(k + 1) == 2 * pow2(k),
        pow2(k) > 0,
{
    lemma_pow2_pos(k + 1);
    lemma_pow2_pos(k);
    vstd::arithmetic::power2::lemma_pow2_unfold(k + 1);
    if n < pow2(k + 1) {
        vstd::arithmetic::div_mod::lemma_basic_div(n as int, pow2(k + 1) as int);
    }
}

/// `!0usize` is the largest `usize`.
proof fn lemma_all_ones_max()
    ensures
        (!0usize) as int == usize::MAX,
{
    let m = usize::MAX;
    assert(m <= !0usize) by (bit_vector);
}

/// The parent of a node sits one level higher, and is below `usize::MAX`
/// unless the node is `usize::MAX / 2`.
pub proof fn lemma_parent_level(n: usize)
    requires
        n < usize::MAX,
        n != usize::MAX / 2,
    ensures
        level_of(n as nat) + 1 < usize::BITS,
        parent_of(n as nat) < usize::MAX,
        level_of(parent_of(n as nat)) == level_of(n as nat) + 1,
        n < parent_of(n as nat) <==> (n as nat / pow2(level_of(n as nat) + 1)) % 2 == 0,
{
    lemma_level_bits(n);
    lemma_all_ones_max();
    lemma_parent_bits(n);
    let k = level_of(n as nat) as usize;
    assert(low_ones(n, k) ==> k + 1 == usize::BITS ==> n == (!0usize) >> 1usize) by (bit_vector);
    vstd::bits::lemma_usize_shr_is_div(!0usize, 1);
    assert(pow2(1) == 2) by {
        vstd::arithmetic::power2::lemma2_to64();
    }
    let k1 = (k + 1) as usize;
    let p = ((1usize << k) | n) & !((1usize << k) << 1usize);
    assert(low_ones(n, k) ==> k1 == k + 1 ==> k1 < usize::BITS ==> low_ones(
        ((1usize << k) | n) & !((1usize << k) << 1usize),
        k1,
    )) by (bit_vector);
    assert(low_ones(p, k1) ==> p != !0usize) by (bit_vector);
    lemma_low_ones_unique(p, k1);
    lemma_shl_pow2(k);
    lemma_pow2_pos(k as nat);
    if (n as nat / pow2(k as nat + 1)) % 2 != 0 {
        lemma_right_side_bound(n as nat, k as nat);
    }
}

/// The sibling is the parent's other child.
proof fn lemma_sibling_through_parent(n: usize)
    requires
        n < usize::MAX,
        n != usize::MAX / 2,
    ensures
        ({
            let p = parent_of(n as nat);
            &&& p % 2 == 1
            &&& n < p ==> right_of(p) == sibling_of(n as nat)
            &&& !(n < p) ==> left_of(p) == sibling_of(n as nat)
        }),
{
    lemma_parent_level(n);
    let k = level_of(n as nat);
    let p = parent_of(n as nat);
    assert(level_of(p) >= 1);
    assert(p % 2 == 1);
    assert((level_of(p) - 1) as nat == k);
    vstd::arithmetic::power2::lemma_pow2_unfold(k + 1);
    lemma_pow2_pos(k);
    if n < p {
        assert((n as nat / pow2(k + 1)) % 2 == 0);
        assert(right_of(p) == sibling_of(n as nat));
    } else {
        assert((n as nat / pow2(k + 1)) % 2 != 0);
        lemma_right_side_bound(n as nat, k);
        assert(left_of(p) == sibling_of(n as nat));
    }
}

proof fn lemma_left_bits(n: usize)
    requires
        n < usize::MAX,
        n % 2 == 1,
    ensures
        level_of(n as nat) >= 1,
        pow2((level_of(n as nat) - 1) as nat) <= n,
        n & !((1usize << level_of(n as nat) as usize)>> 1usize) == left_of(n as nat),
{
    lemma_level_bits(n);
    let k = level_of(n as nat) as usize;
    assert(level_of(n as nat) == 1 + level_of((n / 2) as nat));
    let j = (k - 1) as usize;
    lemma_shl_pow2(j);
    assert(low_ones(n, k) ==> k >= 1 ==> j == k - 1 ==> (1usize << k) >> 1usize == 1usize << j)
        by (bit_vector);
    assert(low_ones(n, k) ==> k >= 1 ==> j == k - 1 ==> (1usize << j) <= n && n & !(1usize << j) == n
        - (1usize << j)) by (bit_vector);
}

proof fn lemma_right_bits(n: usize)
    requires
        n < usize::MAX,
        n % 2 == 1,
    ensures
        level_of(n as nat) >= 1,
        n + pow2((level_of(n as nat) - 1) as nat) <= usize::MAX,
        (n | (1usize << level_of(n as nat) as usize)) & !((1usize << level_of(
            n as nat,
        ) as usize)>> 1usize) == right_of(n as nat),
{
    lemma_level_bits(n);
    let k = level_of(n as nat) as usize;
    assert(level_of(n as nat) == 1 + level_of((n / 2) as nat));
    let j = (k - 1) as usize;
    lemma_shl_pow2(j);
    assert(low_ones(n, k) ==> k >= 1 ==> j == k - 1 ==> (1usize << k) >> 1usize == 1usize << j)
        by (bit_vector);
    assert(low_ones(n, k) ==> k >= 1 ==> j == k - 1 ==> n + (1usize << j) <= (!0usize) && (n | (1usize
        << k)) & !(1usize << j) == n + (1usize << j)) by (bit_vector);
}

proof fn lemma_parent_bits(n: usize)
    requires
        n < usize::MAX,
    ensures
        ((1usize << level_of(n as nat) as usize) | n) & !((1usize << level_of(
            n as nat,
        ) as usize)<< 1usize) == parent_of(n as nat),
{
    lemma_level_bits(n);
    let k = level_of(n as nat) as usize;
    lemma_shl_pow2(k);
    if k + 1 < usize::BITS {
        let k1 = (k + 1) as usize;
        lemma_bit_parity(n, k1);
        assert(low_ones(n, k) ==> k1 == k + 1 ==> k1 < usize::BITS ==> (1usize << k) << 1usize
            == 1usize << k1) by (bit_vector);
        assert(low_ones(n, k) ==> k1 == k + 1 ==> k1 < usize::BITS ==> (n >> k1) & 1usize == 0usize
            ==> n + (1usize << k) <= (!0usize) && ((1usize << k) | n) & !(1usize << k1) == n + (1usize
            << k)) by (bit_vector);
        assert(low_ones(n, k) ==> k1 == k + 1 ==> k1 < usize::BITS ==> (n >> k1) & 1usize == 1usize
            ==> (1usize << k) <= n && ((1usize << k) | n) & !(1usize << k1) == n - (1usize << k))
            by (bit_vector);
        assert(((n >> k1) & 1usize == 0usize) || ((n >> k1) & 1usize == 1usize)) by (bit_vector);
    } else {
        // `n` is `2^(BITS-1) - 1`: its parent is the all-ones index.
        assert(low_ones(n, k) ==> k + 1 == usize::BITS ==> (1usize << k) << 1usize == 0usize
            && ((1usize << k) | n) & !0usize == n + (1usize << k) && n < (1usize << k)) by (bit_vector);
        vstd::arithmetic::power2::lemma_pow2_strictly_increases(k as nat, (k + 1) as nat);
        vstd::arithmetic::div_mod::lemma_basic_div(n as int, pow2((k + 1) as nat) as int);
    }
}

} // verus!

verus! {

/// The children of a parent node sit one level lower, on either side of it,
/// and both have it as their parent.
pub proof fn lemma_children_parent(n: usize)
    requires
        n < usize::MAX,
        n % 2 == 1,
    ensures
        level_of(left_of(n as nat)) == level_of(n as nat) - 1,
        level_of(right_of(n as nat)) == level_of(n as nat) - 1,
        left_of(n as nat) < n < right_of(n as nat) < usize::MAX,
        parent_of(left_of(n as nat)) == n,
        parent_of(right_of(n as nat)) == n,
{
    lemma_level_bits(n);
    lemma_left_bits(n);
    lemma_right_bits(n);
    let k = level_of(n as nat) as usize;
    let j = (k - 1) as usize;
    lemma_shl_pow2(j);
    lemma_pow2_pos(j as nat);
    let l = n & !(1usize << j);
    let r = (n | (1usize << k)) & !(1usize << j);
    assert(low_ones(n, k) ==> k >= 1 ==> j == k - 1 ==> (1usize << k) >> 1usize == 1usize << j)
        by (bit_vector);
    assert(l == left_of(n as nat));
    assert(low_ones(n, k) ==> k >= 1 ==> j == k - 1 ==> low_ones(n & !(1usize << j), j) && ((n & !(
    1usize << j)) >> k) & 1usize == 0usize) by (bit_vector);
    assert(low_ones(n, k) ==> k >= 1 ==> j == k - 1 ==> low_ones((n | (1usize << k)) & !(1usize << j), j)
        && (((n | (1usize << k)) & !(1usize << j)) >> k) & 1usize == 1usize && (1usize << j) <= ((n | (
    1usize << k)) & !(1usize << j))) by (bit_vector);
    assert(low_ones(n, k) ==> k >= 1 ==> j == k - 1 ==> (n | (1usize << k)) & !(1usize << j) == n + (1usize
        << j)) by (bit_vector);
    assert(low_ones(r, j) ==> r != !0usize) by (bit_vector);
    lemma_all_ones_max();
    lemma_low_ones_unique(l, j);
    lemma_low_ones_unique(r, j);
    lemma_bit_parity(l, k);
    lemma_bit_parity(r, k);
    assert(j as nat + 1 == k as nat);
}

/// The two children of a parent node are each other's siblings.
pub proof fn lemma_children_are_siblings(n: usize)
    requires
        n < usize::MAX,
        n % 2 == 1,
    ensures
        sibling_of(left_of(n as nat)) == right_of(n as nat),
        sibling_of(right_of(n as nat)) == left_of(n as nat),
{
    lemma_children_parent(n);
    let k = level_of(n as nat);
    let j = (k - 1) as nat;
    lemma_pow2_pos(j);
    vstd::arithmetic::power2::lemma_pow2_unfold(k);
    let r = right_of(n as nat);
    if (r / pow2(j + 1)) % 2 != 0 {
        lemma_right_side_bound(r, j);
    }
    let l = left_of(n as nat);
    if (l / pow2(j + 1)) % 2 != 0 {
        lemma_right_side_bound(l, j);
    }
}

/// The node of a leaf is a leaf position, and it reads back as that leaf.
pub proof fn lemma_leaf_index_round_trip(l: TreeLeafIndex)
    requires
        l.0 as nat * 2 <= usize::MAX,
    ensures
        (l.0 as nat * 2) % 2 == 0,
        ((l.0 as nat * 2) / 2) as u32 == l.0,
        level_of(l.0 as nat * 2) == 0,
{
}

/// A node and its sibling share their parent and their level, and each is
/// the other's sibling.
pub proof fn lemma_sibling_parent(n: usize)
    requires
        n < usize::MAX,
        n != usize::MAX / 2,
    ensures
        sibling_of(n as nat) < usize::MAX,
        sibling_of(n as nat) != n,
        parent_of(sibling_of(n as nat)) == parent_of(n as nat),
        sibling_of(sibling_of(n as nat)) == n,
        level_of(sibling_of(n as nat)) == level_of(n as nat),
{
    lemma_parent_level(n);
    lemma_sibling_through_parent(n);
    let p = parent_of(n as nat) as usize;
    lemma_children_parent(p);
    lemma_children_are_siblings(p);
    let k = level_of(n as nat);
    lemma_pow2_pos(k);
    vstd::arithmetic::power2::lemma_pow2_unfold(k + 1);
    if (n as nat / pow2(k + 1)) % 2 != 0 {
        lemma_right_side_bound(n as nat, k);
    }
}

} // verus!

verus! {

/// `n` lies in the subtree rooted at `root`: it sits at most at the root's
/// level and shares the bits above the root's level.
pub open spec fn in_subtree(root: nat, n: nat) -> bool {
    &&& level_of(n) <= level_of(root)
    &&& n / pow2(level_of(root) + 1) == root / pow2(level_of(root) + 1)
}

/// Climbing from a node of a subtree stays in the subtree and gains a level
/// at each step; the only node of the subtree at the root's level is the
/// root itself.
pub proof fn lemma_parent_in_subtree(root: usize, n: usize)
    requires
        root < usize::MAX / 2,
        n < usize::MAX,
        in_subtree(root as nat, n as nat),
    ensures
        n != usize::MAX / 2,
        level_of(n as nat) == level_of(root as nat) ==> n == root,
        n != root ==> {
            &&& parent_of(n as nat) < usize::MAX
            &&& level_of(parent_of(n as nat)) == level_of(n as nat) + 1
            &&& in_subtree(root as nat, parent_of(n as nat))
        },
{
    lemma_all_ones_max();
    lemma_level_bits(root);
    lemma_level_bits(n);
    let kr = level_of(root as nat) as usize;
    let k = level_of(n as nat) as usize;
    assert(low_ones(root, kr) ==> root < (!0usize) >> 1usize ==> kr + 1 < usize::BITS) by (bit_vector);
    vstd::bits::lemma_usize_shr_is_div(!0usize, 1);
    assert(pow2(1) == 2) by {
        vstd::arithmetic::power2::lemma2_to64();
    }
    let kr1 = (kr + 1) as usize;
    lemma_usize_shr_is_div(root, kr1);
    lemma_usize_shr_is_div(n, kr1);
    assert(low_ones(root, kr) ==> low_ones(n, kr) ==> kr1 == kr + 1 ==> kr1 < usize::BITS ==> (n >> kr1)
        == (root >> kr1) ==> n == root) by (bit_vector);
    if n == root {
    } else {
        assert(n != usize::MAX / 2) by {
            assert(low_ones(n, k) ==> low_ones(root, kr) ==> k <= kr ==> kr1 == kr + 1 ==> kr1 < usize::BITS
                ==> (n >> kr1) == (root >> kr1) ==> root < (!0usize) >> 1usize ==> n != (!0usize) >> 1usize)
                by (bit_vector);
        }
        lemma_parent_level(n);
        lemma_parent_bits(n);
        let p = ((1usize << k) | n) & !((1usize << k) << 1usize);
        assert(p == parent_of(n as nat));
        lemma_usize_shr_is_div(p, kr1);
        assert(low_ones(n, k) ==> k < kr ==> kr1 == kr + 1 ==> kr1 < usize::BITS ==> (((1usize << k) | n)
            & !((1usize << k) << 1usize)) >> kr1 == n >> kr1) by (bit_vector);
        assert(k < kr) by {
            if k == kr {
                assert(false);
            }
        }
    }
}

} // verus!

verus! {

/// The nodes strictly above `n` up to and including `root`, bottom up.
pub open spec fn path_to_root(n: nat, root: nat) -> Seq<nat>
    decreases level_of(root) - level_of(n),
    when in_subtree(root, n) && root < usize::MAX / 2 && n < usize::MAX
    via path_to_root_decreases
{
    if n == root {
        Seq::empty()
    } else {
        seq![parent_of(n)] + path_to_root(parent_of(n), root)
    }
}

#[via_fn]
proof fn path_to_root_decreases(n: nat, root: nat) {
    if in_subtree(root, n) && root < usize::MAX / 2 && n < usize::MAX && n != root {
        lemma_parent_in_subtree(root as usize, n as usize);
    }
}

} // verus!

verus! {

/// The leaf indices of a tree with `leaf_count` leaves: `0` up to
/// `leaf_count - 1`, the count taken as 32 bits.
pub fn range_from_leafcount(leaf_count: usize) -> (r: std::ops::RangeInclusive<u32>)
    requires
        1 <= leaf_count as u32,
    ensures
        r@.start == 0,
        r@.end == (leaf_count as u32) - 1,
        !r@.exhausted,
{
    std::ops::RangeInclusive::new(0, leaf_count as u32 - 1)
}

} // verus!
