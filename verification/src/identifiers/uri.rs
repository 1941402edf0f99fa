//! The parts of a MIMI URI that identifiers are read from: the host of the
//! authority, checked as a registered name, and the segments of the path.
use vstd::prelude::*;
use vstd::string::StrSliceExecFns;
use crate::identifiers::id::unreserved_char;

verus! {

/// A character allowed unencoded in a registered name (RFC 3986): an
/// unreserved character or a sub-delimiter.
pub open spec fn reg_name_char(c: char) -> bool {
    ||| ('a' <= c && c <= 'z')
    ||| ('A' <= c && c <= 'Z')
    ||| ('0' <= c && c <= '9')
    ||| c == '-' || c == '.' || c == '_' || c == '~'
    ||| c == '!' || c == '$' || c == '&' || c == '\'' || c == '(' || c == ')'
    ||| c == '*' || c == '+' || c == ',' || c == ';' || c == '='
}

pub open spec fn hex_digit(c: char) -> bool {
    ('0' <= c && c <= '9') || ('a' <= c && c <= 'f') || ('A' <= c && c <= 'F')
}

/// From position `i` on, `s` is made of allowed characters and
/// percent-encoded octets.
pub open spec fn reg_name_from(s: Seq<char>, i: int) -> bool
    decreases s.len() - i,
{
    if i < 0 || i >= s.len() {
        true
    } else if s[i] == '%' {
        &&& i + 2 < s.len()
        &&& hex_digit(s[i + 1])
        &&& hex_digit(s[i + 2])
        &&& reg_name_from(s, i + 3)
    } else {
        reg_name_char(s[i]) && reg_name_from(s, i + 1)
    }
}

/// `s` is a registered name, percent-encoded where needed.
pub open spec fn is_reg_name(s: Seq<char>) -> bool {
    reg_name_from(s, 0)
}

/// `EStr::<RegName>::new` from fluent-uri: it accepts exactly the strings
/// that its `REG_NAME` table validates, unreserved characters,
/// sub-delimiters and `%` followed by two hexadecimal digits.
#[verifier::external_body]
pub(crate) fn estr_reg_name_new(s: &str) -> (r: bool)
    ensures
        r == is_reg_name(s@),
{
    fluent_uri::encoding::EStr::<fluent_uri::encoding::encoder::RegName>::new(s).is_some()
}

/// What `UriRef::parse` makes of a string: `None` where it is no URI
/// reference, else the host of its authority, if it has one, and its path.
pub uninterp spec fn uri_ref_parse(s: Seq<char>) -> Option<(Option<Seq<char>>, Seq<char>)>;

/// The host and path of a parsed URI reference, borrowed from its text.
pub struct UriParts<'a> {
    pub host: Option<&'a str>,
    pub path: &'a str,
}

impl<'a> UriParts<'a> {
    pub open spec fn parts(&self) -> (Option<Seq<char>>, Seq<char>) {
        (
            match self.host {
                Some(h) => Some(h@),
                None => None,
            },
            self.path@,
        )
    }
}

/// `mimi://`, the start of every identifier's URI.
pub open spec fn mimi_prefix() -> Seq<char> {
    seq!['m', 'i', 'm', 'i', ':', '/', '/']
}

/// A path of unreserved URI characters and slashes that starts with a
/// slash: the paths identifiers are written with.
pub open spec fn plain_path(p: Seq<char>) -> bool {
    &&& p.len() > 0
    &&& p[0] == '/'
    &&& forall|i: int| 0 <= i < p.len() ==> (p[i] == '/' || unreserved_char(#[trigger] p[i]))
}

/// `fluent_uri::UriRef::parse`, read back through `authority().host()` and
/// `path()`. Its result is named by `uri_ref_parse`: RFC 3986 parsing is not
/// restated here, but for the one shape identifiers are written in: a
/// `mimi://` URI whose authority is a registered name and whose path is
/// plain parses, as the parser's source reads it (`parse_from_authority`
/// and `parse_from_path`), to that host and that path. The parse error is
/// handed back as the text its `Display` writes (its type holds a private
/// one of the crate, which cannot be named here); nothing is claimed of that
/// text.
#[verifier::external_body]
pub(crate) fn parse_uri_ref<'a>(s: &'a str) -> (r: Result<UriParts<'a>, String>)
    ensures
        match r {
            Ok(x) => {
                &&& uri_ref_parse(s@) == Some(x.parts())
                &&& forall|h: Seq<char>, p: Seq<char>|
                    #![trigger is_reg_name(h), plain_path(p)]
                    s@ == mimi_prefix() + h + p && is_reg_name(h) && plain_path(p) ==> x.parts() == (Some(h), p)
            },
            Err(_) => {
                &&& uri_ref_parse(s@) is None
                &&& forall|h: Seq<char>, p: Seq<char>|
                    #![trigger is_reg_name(h), plain_path(p)]
                    !(s@ == mimi_prefix() + h + p && is_reg_name(h) && plain_path(p))
            },
        },
{
    match fluent_uri::UriRef::parse(s) {
        Ok(uri) => Ok(UriParts { host: uri.authority().map(|a| a.host()), path: uri.path().as_str() }),
        Err(e) => Err(format!("{e}")),
    }
}

/// `s` split at every `/`; an empty string is one empty segment.
pub open spec fn split_slash(s: Seq<char>) -> Seq<Seq<char>>
    decreases s.len(),
{
    if s.len() == 0 {
        seq![Seq::empty()]
    } else {
        let p = split_slash(s.drop_last());
        if s.last() == '/' {
            p.push(Seq::empty())
        } else {
            p.update(p.len() - 1, p.last().push(s.last()))
        }
    }
}

pub proof fn lemma_split_slash_nonempty(s: Seq<char>)
    ensures
        split_slash(s).len() >= 1,
    decreases s.len(),
{
    if s.len() > 0 {
        lemma_split_slash_nonempty(s.drop_last());
    }
}

/// The segments of an absolute path: what follows the leading `/`, split at
/// every `/`; `None` for a path that does not start with `/`.
pub open spec fn path_segments(path: Seq<char>) -> Option<Seq<Seq<char>>> {
    if path.len() > 0 && path[0] == '/' {
        Some(split_slash(path.drop_first()))
    } else {
        None
    }
}

pub open spec fn str_views(v: Seq<&str>) -> Seq<Seq<char>> {
    v.map_values(|x: &str| x@)
}

/// `EStr::segments_if_absolute` of fluent-uri, on the path's text: the
/// segments after the leading `/`, or `None` for a rootless path.
pub fn segments_if_absolute<'a>(path: &'a str) -> (r: Option<Vec<&'a str>>)
    ensures
        match r {
            Some(v) => path_segments(path@) == Some(str_views(v@)),
            None => path_segments(path@) is None,
        },
{
    let n = path.unicode_len();
    if n == 0 || path.get_char(0) != '/' {
        return None;
    }
    let ghost p = path@;
    let mut segs: Vec<&'a str> = Vec::new();
    let mut start: usize = 1;
    let mut i: usize = 1;
    assert(p.subrange(1, 1) =~= Seq::<char>::empty());
    assert(str_views(segs@).push(Seq::<char>::empty()) =~= seq![Seq::<char>::empty()]);
    while i < n
        invariant
            1 <= start <= i <= n,
            n == p.len(),
            p == path@,
            p[0] == '/',
            split_slash(p.subrange(1, i as int)) == str_views(segs@).push(
                p.subrange(start as int, i as int),
            ),
        decreases n - i,
    {
        let c = path.get_char(i);
        let ghost before = str_views(segs@);
        assert(p.subrange(1, i + 1).drop_last() =~= p.subrange(1, i as int));
        assert(p.subrange(1, i + 1).last() == c);
        if c == '/' {
            let seg = path.substring_char(start, i);
            segs.push(seg);
            start = i + 1;
            assert(str_views(segs@) =~= before.push(seg@));
            assert(p.subrange(start as int, i + 1) =~= Seq::<char>::empty());
        } else {
            assert(p.subrange(start as int, i + 1) =~= p.subrange(start as int, i as int).push(c));
            let ghost q = str_views(segs@).push(p.subrange(start as int, i as int));
            assert(q.update(q.len() - 1, q.last().push(c)) =~= str_views(segs@).push(
                p.subrange(start as int, i + 1),
            ));
        }
        i += 1;
    }
    let last = path.substring_char(start, n);
    let ghost before = str_views(segs@);
    segs.push(last);
    assert(str_views(segs@) =~= before.push(last@));
    assert(p.drop_first() =~= p.subrange(1, n as int));
    Some(segs)
}

} // verus!

verus! {

/// `s` is the one character `c`.
pub fn is_code(s: &str, c: char) -> (r: bool)
    ensures
        r == (s@ == seq![c]),
{
    let n = s.unicode_len();
    if n != 1 {
        return false;
    }
    let r = s.get_char(0) == c;
    assert(r ==> s@ =~= seq![c]);
    r
}

/// The text of a MIMI URI: `mimi://{domain}/{code}/{parts}`.
pub open spec fn mimi_uri(domain: Seq<char>, code: char, parts: Seq<char>) -> Seq<char> {
    seq!['m', 'i', 'm', 'i', ':', '/', '/'] + domain + seq!['/', code, '/'] + parts
}

/// Writes `mimi://{domain}/{code}/{parts}`.
pub fn write_mimi_uri(domain: &str, code: char, parts: &str) -> (r: String)
    ensures
        r@ == mimi_uri(domain@, code, parts@),
{
    let mut out = "mimi://".to_owned();
    proof {
        reveal_strlit("mimi://");
    }
    string_push_str(&mut out, domain);
    string_push(&mut out, '/');
    string_push(&mut out, code);
    string_push(&mut out, '/');
    string_push_str(&mut out, parts);
    assert(out@ =~= mimi_uri(domain@, code, parts@));
    out
}

/// `String::push_str` of std: appends `s`.
#[verifier::external_body]
pub(crate) fn string_push_str(out: &mut String, s: &str)
    ensures
        final(out)@ == old(out)@ + s@,
{
    out.push_str(s)
}

/// `String::push` of std: appends `c`.
#[verifier::external_body]
pub(crate) fn string_push(out: &mut String, c: char)
    ensures
        final(out)@ == old(out)@.push(c),
{
    out.push(c)
}

} // verus!

verus! {

/// `mimi://{domain}/u/{user}/d/{device}`: a device under its user's URI.
pub open spec fn device_uri(domain: Seq<char>, user: Seq<char>, device: Seq<char>) -> Seq<char> {
    mimi_uri(domain, 'u', user + seq!['/', 'd', '/'] + device)
}

/// Writes `mimi://{domain}/u/{user}/d/{device}`.
pub fn write_device_uri(domain: &str, user: &str, device: &str) -> (r: String)
    ensures
        r@ == device_uri(domain@, user@, device@),
{
    let mut out = write_mimi_uri(domain, 'u', user);
    string_push(&mut out, '/');
    string_push(&mut out, 'd');
    string_push(&mut out, '/');
    string_push_str(&mut out, device);
    assert(out@ =~= device_uri(domain@, user@, device@));
    out
}

} // verus!
