//! Random opaque identifiers, written in unpadded URL-safe base64.
use vstd::prelude::*;
use crate::identifiers::error::ProtonMeetIdError;
use crate::identifiers::{AsOwned, ByRef};

verus! {

/// Unpadded URL-safe base64 of `b`, as the base64 crate writes it.
pub uninterp spec fn base64_url_nopad(b: Seq<u8>) -> Seq<char>;

/// What unpadded URL-safe base64 decoding makes of `s`: the bytes, or
/// `None` where `s` is no such encoding.
pub uninterp spec fn base64_url_nopad_decoded(s: Seq<char>) -> Option<Seq<u8>>;

/// A character of the URL-safe base64 alphabet: a letter, a digit, `-` or
/// `_`.
pub open spec fn url_safe_char(c: char) -> bool {
    ('A' <= c <= 'Z') || ('a' <= c <= 'z') || ('0' <= c <= '9') || c == '-' || c == '_'
}

/// Every character of `s` is of the URL-safe base64 alphabet.
pub open spec fn url_safe_text(s: Seq<char>) -> bool {
    forall|i: int| 0 <= i < s.len() ==> url_safe_char(#[trigger] s[i])
}

/// A character a URI leaves unreserved: a letter, a digit, `-`, `.`, `_`
/// or `~`.
pub open spec fn unreserved_char(c: char) -> bool {
    url_safe_char(c) || c == '.' || c == '~'
}

/// Every character of `s` is unreserved in a URI.
pub open spec fn unreserved_text(s: Seq<char>) -> bool {
    forall|i: int| 0 <= i < s.len() ==> unreserved_char(#[trigger] s[i])
}

/// `Engine::encode` of base64 with `URL_SAFE_NO_PAD`; its result is named
/// by `base64_url_nopad`, decoding it with the same engine gives the bytes
/// back, and, as the crate documents of the unpadded engine, it holds
/// `ceil(4n / 3)` characters of the URL-safe alphabet for `n` bytes.
#[verifier::external_body]
pub(crate) fn base64_url_nopad_encode(b: &[u8]) -> (r: String)
    ensures
        r@ == base64_url_nopad(b@),
        base64_url_nopad_decoded(r@) == Some(b@),
        r@.len() == (4 * b@.len() + 2) / 3,
        url_safe_text(r@),
{
    base64::Engine::encode(&base64::engine::general_purpose::URL_SAFE_NO_PAD, b)
}

/// `Engine::decode` of base64 with `URL_SAFE_NO_PAD`; its result is named
/// by `base64_url_nopad_decoded`.
#[verifier::external_body]
pub(crate) fn base64_url_nopad_decode(s: &str) -> (r: Option<Vec<u8>>)
    ensures
        match r {
            Some(v) => base64_url_nopad_decoded(s@) == Some(v@),
            None => base64_url_nopad_decoded(s@) is None,
        },
{
    base64::Engine::decode(&base64::engine::general_purpose::URL_SAFE_NO_PAD, s).ok()
}

/// `OsRng::fill_bytes` of rand on 16 bytes: what the operating system's
/// generator gives. Nothing is claimed of the values.
#[verifier::external_body]
fn os_random_16() -> (r: [u8; 16]) {
    let mut b = [0u8; 16];
    rand::RngCore::fill_bytes(&mut rand::rngs::OsRng, &mut b);
    b
}

/// An opaque identifier.
#[derive(Debug, PartialEq, Eq, PartialOrd, Ord, Hash)]
pub struct Id(pub String);

impl Clone for Id {
    fn clone(&self) -> (r: Self)
        ensures
            r@ == self@,
    {
        Id(self.0.clone())
    }
}

impl View for Id {
    type V = Seq<char>;

    open spec fn view(&self) -> Seq<char> {
        self.0@
    }
}

impl Id {
    /// A fresh identifier: 16 random bytes in unpadded URL-safe base64.
    #[allow(clippy::new_without_default)]
    pub fn new() -> (r: Self)
        ensures
            exists|b: Seq<u8>| b.len() == 16 && r@ == base64_url_nopad(b),
            r@.len() == 22,
            url_safe_text(r@),
    {
        let bytes = os_random_16();
        let r = Self::new_random(bytes);
        assert(bytes@.len() == 16);
        r
    }

    /// The identifier written from 16 random bytes.
    pub fn new_random(bytes: [u8; 16]) -> (r: Self)
        ensures
            r@ == base64_url_nopad(bytes@),
            r@.len() == 22,
            url_safe_text(r@),
    {
        Id(base64_url_nopad_encode(bytes.as_slice()))
    }

    /// Any text is an identifier.
    pub fn from_str(s: &str) -> (r: Result<Self, ProtonMeetIdError>)
        ensures
            r matches Ok(id) && id@ == s@,
    {
        Ok(Id(s.to_owned()))
    }

    pub fn as_str(&self) -> (r: &str)
        ensures
            r@ == self@,
    {
        self.0.as_str()
    }

    /// The identifier as written.
    pub fn to_string(&self) -> (r: String)
        ensures
            r@ == self@,
    {
        self.0.clone()
    }
}

/// A borrowed identifier.
#[derive(Clone, Copy, Debug, PartialEq, Eq, PartialOrd, Ord, Hash)]
pub struct IdRef<'a>(pub &'a str);

impl<'a> View for IdRef<'a> {
    type V = Seq<char>;

    open spec fn view(&self) -> Seq<char> {
        self.0@
    }
}

impl<'a> IdRef<'a> {
    pub fn from(s: &'a str) -> (r: Self)
        ensures
            r@ == s@,
    {
        IdRef(s)
    }

    pub fn as_str(&self) -> (r: &'a str)
        ensures
            r@ == self@,
    {
        self.0
    }

    pub fn to_string(&self) -> (r: String)
        ensures
            r@ == self@,
    {
        self.0.to_owned()
    }
}

impl ByRef for Id {
    type Target<'a> = IdRef<'a>;

    fn as_ref(&self) -> (r: IdRef<'_>)
        ensures
            r@ == self@,
    {
        IdRef(self.0.as_str())
    }
}

impl<'a> AsOwned for IdRef<'a> {
    type Target = Id;

    fn as_owned(&self) -> (r: Id)
        ensures
            r@ == self@,
    {
        Id(self.0.to_owned())
    }
}

} // verus!
