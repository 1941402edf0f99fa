//! The names that the component derive gives to types and fields.
use vstd::prelude::*;
use vstd::string::StrSliceExecFns;
use crate::identifiers::uri::string_push;

verus! {

/// What `char::to_uppercase` of std makes of `c`: one or more characters.
pub uninterp spec fn uppercase_of(c: char) -> Seq<char>;

/// `char::to_uppercase` of std, collected into a string; its result is
/// named by `uppercase_of`.
#[verifier::external_body]
fn char_to_uppercase(c: char) -> (r: String)
    ensures
        r@ == uppercase_of(c),
{
    c.to_uppercase().to_string()
}

/// The characters of `s` other than underscores, in order.
pub open spec fn without_underscores(s: Seq<char>) -> Seq<char>
    decreases s.len(),
{
    if s.len() == 0 {
        Seq::empty()
    } else if s.last() == '_' {
        without_underscores(s.drop_last())
    } else {
        without_underscores(s.drop_last()).push(s.last())
    }
}

/// `s` without underscores, its first character upper-cased.
pub open spec fn capitalized(s: Seq<char>) -> Seq<char> {
    let c = without_underscores(s);
    uppercase_of(c[0]) + c.subrange(1, c.len() as int)
}

/// Drops the underscores of `s` and upper-cases its first character:
/// `snake_case` becomes `Snakecase`. `s` must hold a character other than
/// an underscore.
pub fn capitalize(s: String) -> (r: String)
    requires
        without_underscores(s@).len() > 0,
    ensures
        r@ == capitalized(s@),
{
    let n = s.as_str().unicode_len();
    let mut chars: Vec<char> = Vec::new();
    let mut i: usize = 0;
    while i < n
        invariant
            n == s@.len(),
            i <= n,
            chars@ == without_underscores(s@.take(i as int)),
        decreases n - i,
    {
        let c = s.as_str().get_char(i);
        proof {
            assert(s@.take(i + 1).drop_last() == s@.take(i as int));
            assert(s@.take(i + 1).last() == c);
        }
        if c != '_' {
            chars.push(c);
        }
        i += 1;
    }
    proof {
        assert(s@.take(n as int) == s@);
    }
    let mut out = char_to_uppercase(chars[0]);
    let mut k: usize = 1;
    while k < chars.len()
        invariant
            1 <= k <= chars@.len(),
            out@ == uppercase_of(chars@[0]) + chars@.subrange(1, k as int),
        decreases chars@.len() - k,
    {
        string_push(&mut out, chars[k]);
        k += 1;
        assert(out@ =~= uppercase_of(chars@[0]) + chars@.subrange(1, k as int));
    }
    out
}

} // verus!
