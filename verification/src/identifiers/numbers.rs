//! Epochs and leaf indices, read from their decimal form.
use vstd::prelude::*;
use vstd::std_specs::iter::IteratorSpec;
use crate::identifiers::error::ProtonMeetIdError;

verus! {

/// The value of a string of decimal digits.
pub open spec fn digits_value(d: Seq<char>) -> nat
    decreases d.len(),
{
    if d.len() == 0 {
        0
    } else {
        digits_value(d.drop_last()) * 10 + ((d.last() as int) - ('0' as int)) as nat
    }
}

pub open spec fn all_digits(d: Seq<char>) -> bool {
    forall|i: int| 0 <= i < d.len() ==> '0' <= #[trigger] d[i] && d[i] <= '9'
}

/// What a decimal integer written as an optional `+` and one or more
/// digits stands for; `None` for any other text.
pub open spec fn decimal(s: Seq<char>) -> Option<nat> {
    let d = if s.len() > 0 && s[0] == '+' {
        s.drop_first()
    } else {
        s
    };
    if d.len() > 0 && all_digits(d) {
        Some(digits_value(d))
    } else {
        None
    }
}

/// The text's characters, in order.
fn str_chars(s: &str) -> (v: Vec<char>)
    ensures
        v@ == s@,
{
    broadcast use vstd::string::axiom_spec_iter;
    let mut out: Vec<char> = Vec::new();
    let iter = s.chars();
    let ghost items = iter.remaining();
    for c in it: iter
        invariant
            it.seq() == items,
            items == s@,
            out@ == items.take(it.index()),
    {
        out.push(c);
    }
    out
}

/// A longer run of digits is worth at least as much as its prefix.
proof fn lemma_digits_prefix(d: Seq<char>, i: int, j: int)
    requires
        0 <= i <= j <= d.len(),
        all_digits(d),
    ensures
        digits_value(d.take(i)) <= digits_value(d.take(j)),
    decreases j - i,
{
    if i < j {
        lemma_digits_prefix(d, i, j - 1);
        assert(d.take(j).drop_last() =~= d.take(j - 1));
        assert('0' <= d[j - 1] <= '9');
    }
}

/// The value of an optional `+` and one or more decimal digits, where it is
/// at most `max`, as the unsigned `from_str` of std reads it; `None` for any
/// other text or a larger value.
fn parse_decimal(s: &str, max: u64) -> (r: Option<u64>)
    ensures
        r == (match decimal(s@) {
            Some(v) => if v <= max {
                Some(v as u64)
            } else {
                None
            },
            None => None,
        }),
{
    let cs = str_chars(s);
    let n: usize = cs.len();
    let start: usize = if n > 0 && cs[0] == '+' { 1 } else { 0 };
    let ghost d = cs@.subrange(start as int, n as int);
    assert(d =~= (if s@.len() > 0 && s@[0] == '+' { s@.drop_first() } else { s@ }));
    if start >= n {
        return None;
    }
    let mut acc: u64 = 0;
    let mut i: usize = start;
    while i < n
        invariant
            n == cs@.len(),
            start <= i <= n,
            d == cs@.subrange(start as int, n as int),
            d == (if s@.len() > 0 && s@[0] == '+' { s@.drop_first() } else { s@ }),
            d.len() > 0,
            acc as nat == digits_value(d.take(i - start)),
            acc <= max,
            all_digits(d.take(i - start)),
        decreases n - i,
    {
        let c = cs[i];
        if c < '0' || c > '9' {
            proof {
                assert(d[i - start] == c);
                assert(!all_digits(d));
            }
            return None;
        }
        let dv: u64 = ((c as u32) - ('0' as u32)) as u64;
        let ghost k: int = i - start;
        proof {
            assert(d.take(k + 1).drop_last() =~= d.take(k));
            assert(d.take(k + 1).last() == c);
            assert(all_digits(d.take(k + 1)));
        }
        let next: Option<u64> = match acc.checked_mul(10) {
            Some(t) => t.checked_add(dv),
            None => None,
        };
        match next {
            Some(v) => {
                if v > max {
                    proof {
                        if all_digits(d) {
                            lemma_digits_prefix(d, k + 1, d.len() as int);
                            assert(d.take(d.len() as int) =~= d);
                        }
                    }
                    return None;
                }
                acc = v;
            },
            None => {
                proof {
                    if all_digits(d) {
                        lemma_digits_prefix(d, k + 1, d.len() as int);
                        assert(d.take(d.len() as int) =~= d);
                    }
                }
                return None;
            },
        }
        i = i + 1;
    }
    proof {
        assert(d.take(n - start) =~= d);
    }
    Some(acc)
}

/// `u64::from_str` of std: an optional `+` and one or more decimal digits,
/// within range.
pub(crate) fn parse_u64(s: &str) -> (r: Option<u64>)
    ensures
        r == (match decimal(s@) {
            Some(v) => if v <= u64::MAX {
                Some(v as u64)
            } else {
                None
            },
            None => None,
        }),
{
    parse_decimal(s, u64::MAX)
}

/// `u32::from_str` of std: an optional `+` and one or more decimal digits,
/// within range.
pub(crate) fn parse_u32(s: &str) -> (r: Option<u32>)
    ensures
        r == (match decimal(s@) {
            Some(v) => if v <= u32::MAX {
                Some(v as u32)
            } else {
                None
            },
            None => None,
        }),
{
    match parse_decimal(s, u32::MAX as u64) {
        Some(v) => Some(v as u32),
        None => None,
    }
}

/// A MLS epoch.
#[derive(Debug, Default, Clone, Copy, PartialEq, Eq, Structural, PartialOrd, Ord, Hash)]
pub struct Epoch(pub u64);

impl Epoch {
    pub fn from(value: u64) -> (r: Self)
        ensures
            r.0 == value,
    {
        Epoch(value)
    }

    pub fn value(&self) -> (r: u64)
        ensures
            r == self.0,
    {
        self.0
    }

    /// Reads an epoch from its decimal form.
    pub fn from_str(s: &str) -> (r: Result<Self, ProtonMeetIdError>)
        ensures
            match decimal(s@) {
                Some(v) => if v <= u64::MAX {
                    r matches Ok(e) && e.0 == v
                } else {
                    r == Err::<Self, ProtonMeetIdError>(ProtonMeetIdError::InvalidEpoch("Epoch must be a 'uint64'"))
                },
                None => r == Err::<Self, ProtonMeetIdError>(ProtonMeetIdError::InvalidEpoch("Epoch must be a 'uint64'")),
            },
    {
        match parse_u64(s) {
            Some(v) => Ok(Epoch(v)),
            None => Err(ProtonMeetIdError::InvalidEpoch("Epoch must be a 'uint64'")),
        }
    }
}

/// The largest leaf index: `2^31 - 2`.
pub const LEAF_INDEX_MAX: u32 = 2147483646;

/// The index of a member's leaf in a ratchet tree.
#[derive(Debug, Clone, Copy, PartialEq, Eq, Structural, PartialOrd, Ord, Hash)]
pub struct LeafIndex(u32);

impl LeafIndex {
    pub closed spec fn value(&self) -> u32 {
        self.0
    }

    /// The largest leaf index, `(2^32 / 2) - 1` less one.
    pub fn max() -> (r: Self)
        ensures
            r.value() == LEAF_INDEX_MAX,
            LEAF_INDEX_MAX == (u32::MAX >> 1u32) - 1,
    {
        assert((0xFFFF_FFFFu32 >> 1u32) == 0x7FFF_FFFFu32) by (bit_vector);
        LeafIndex(LEAF_INDEX_MAX)
    }

    /// A leaf index, if `i` is not above the largest.
    pub fn try_from(i: u32) -> (r: Result<Self, ProtonMeetIdError>)
        ensures
            i <= LEAF_INDEX_MAX ==> (r matches Ok(l) && l.value() == i),
            i > LEAF_INDEX_MAX ==> r == Err::<Self, ProtonMeetIdError>(ProtonMeetIdError::InvalidLeafIndex("LeafIndex too large")),
    {
        if i > LEAF_INDEX_MAX {
            return Err(ProtonMeetIdError::InvalidLeafIndex("LeafIndex too large"));
        }
        Ok(LeafIndex(i))
    }

    /// Reads a leaf index from its decimal form.
    pub fn from_str(s: &str) -> (r: Result<Self, ProtonMeetIdError>)
        ensures
            match decimal(s@) {
                Some(v) => if v <= LEAF_INDEX_MAX {
                    r matches Ok(l) && l.value() == v
                } else if v <= u32::MAX {
                    r == Err::<Self, ProtonMeetIdError>(ProtonMeetIdError::InvalidLeafIndex("LeafIndex too large"))
                } else {
                    r == Err::<Self, ProtonMeetIdError>(ProtonMeetIdError::InvalidLeafIndex("Epoch must be a 'uint32'"))
                },
                None => r == Err::<Self, ProtonMeetIdError>(ProtonMeetIdError::InvalidLeafIndex("Epoch must be a 'uint32'")),
            },
    {
        match parse_u32(s) {
            Some(v) => Self::try_from(v),
            None => Err(ProtonMeetIdError::InvalidLeafIndex("Epoch must be a 'uint32'")),
        }
    }

    pub fn get(&self) -> (r: u32)
        ensures
            r == self.value(),
    {
        self.0
    }
}

} // verus!
