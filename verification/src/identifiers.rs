//! MIMI identifiers of users, devices and rooms, and the plain values that
//! travel with them.
use vstd::prelude::*;
use vstd::string::StrSliceExecFns;

pub mod error;
pub mod uri;
pub mod id;
pub mod domain;
pub mod user;
pub mod room;
pub mod device;
pub mod numbers;
pub mod account;
pub mod email;
pub mod message;
pub mod laws;
pub mod time;

verus! {

/// A value that lends a borrowed form of itself.
pub trait ByRef {
    type Target<'a> where Self: 'a;

    fn as_ref(&self) -> Self::Target<'_>;
}

/// An identifier written as a MIMI URI, whose path starts with a one-letter
/// code.
pub trait Identifier {
    const URI_PATH_SHORT: &'static str;
}

/// A borrowed value that can be copied into its owned form.
pub trait AsOwned {
    type Target;

    fn as_owned(&self) -> Self::Target;
}

} // verus!

verus! {

/// How many characters of an `len`-character text obfuscation hides.
pub open spec fn hidden_count(len: nat, min_hidden_chars: nat, max_displayed_chars: nat) -> nat {
    let shown_limit: nat = if len >= max_displayed_chars { (len - max_displayed_chars) as nat } else { 0 };
    let at_least: nat = if shown_limit >= min_hidden_chars { shown_limit } else { min_hidden_chars };
    if at_least <= len { at_least } else { len }
}

/// `s` with its middle characters replaced by `*`: at least
/// `min_hidden_chars` of them, and enough that at most
/// `max_displayed_chars` stay visible.
pub open spec fn obfuscated(s: Seq<char>, min_hidden_chars: nat, max_displayed_chars: nat) -> Seq<char> {
    let hidden = hidden_count(s.len(), min_hidden_chars, max_displayed_chars);
    let start = (s.len() - hidden) / 2;
    s.take(start) + Seq::new(hidden, |i: int| '*') + s.skip(start + hidden)
}

/// Hides the middle of an ASCII text, as debug output of identifiers does.
pub fn obfuscate(s: &str, min_hidden_chars: usize, max_displayed_chars: usize) -> (r: String)
    requires
        s.is_ascii(),
    ensures
        r@ == obfuscated(s@, min_hidden_chars as nat, max_displayed_chars as nat),
{
    let len = s.unicode_len();
    let hidden_chars = usize_min(usize_max(len.saturating_sub(max_displayed_chars), min_hidden_chars), len);
    let hidden_index_start = (len - hidden_chars) / 2;
    let hidden_index_end = hidden_index_start + hidden_chars;
    let mut out = s.substring_ascii(0, hidden_index_start).to_owned();
    let mut k: usize = 0;
    while k < hidden_chars
        invariant
            k <= hidden_chars,
            out@ == s@.take(hidden_index_start as int) + Seq::new(k as nat, |i: int| '*'),
        decreases hidden_chars - k,
    {
        let ghost before = out@;
        crate::identifiers::uri::string_push(&mut out, '*');
        k += 1;
        assert(out@ =~= s@.take(hidden_index_start as int) + Seq::new(k as nat, |i: int| '*'));
    }
    crate::identifiers::uri::string_push_str(&mut out, s.substring_ascii(hidden_index_end, len));
    assert(out@ =~= obfuscated(s@, min_hidden_chars as nat, max_displayed_chars as nat));
    out
}

fn usize_min(a: usize, b: usize) -> (r: usize)
    ensures
        r == if a <= b { a } else { b },
{
    if a <= b { a } else { b }
}

fn usize_max(a: usize, b: usize) -> (r: usize)
    ensures
        r == if a >= b { a } else { b },
{
    if a >= b { a } else { b }
}

} // verus!
