//! Identifiers of Proton accounts and organizations: 512 bits, written in
//! padded URL-safe base64.
use vstd::prelude::*;
use crate::identifiers::error::ProtonMeetIdError;

verus! {

/// Padded URL-safe base64 of `b`, as the base64 crate writes it.
pub uninterp spec fn base64_url(b: Seq<u8>) -> Seq<char>;

/// What padded URL-safe base64 decoding makes of `s`: the bytes, or `None`
/// where `s` is no such encoding.
pub uninterp spec fn base64_url_decoded(s: Seq<char>) -> Option<Seq<u8>>;

/// `Engine::encode` of base64 with `URL_SAFE`; its result is named by
/// `base64_url`.
#[verifier::external_body]
pub(crate) fn base64_url_encode(b: &[u8]) -> (r: String)
    ensures
        r@ == base64_url(b@),
{
    base64::Engine::encode(&base64::engine::general_purpose::URL_SAFE, b)
}

/// `Engine::decode` of base64 with `URL_SAFE`; its result is named by
/// `base64_url_decoded`.
#[verifier::external_body]
pub(crate) fn base64_url_decode(s: &str) -> (r: Option<Vec<u8>>)
    ensures
        match r {
            Some(v) => base64_url_decoded(s@) == Some(v@),
            None => base64_url_decoded(s@) is None,
        },
{
    base64::Engine::decode(&base64::engine::general_purpose::URL_SAFE, s).ok()
}

/// The bytes as an array, when there are 64 of them.
fn array64_from_slice(b: &[u8]) -> (r: Option<[u8; 64]>)
    ensures
        match r {
            Some(a) => b@.len() == 64 && a@ == b@,
            None => b@.len() != 64,
        },
{
    if b.len() != 64 {
        return None;
    }
    let mut a = [0u8; 64];
    let mut i: usize = 0;
    while i < 64
        invariant
            b@.len() == 64,
            i <= 64,
            forall|j: int| 0 <= j < i ==> a@[j] == b@[j],
        decreases 64 - i,
    {
        a[i] = b[i];
        i += 1;
    }
    assert(a@ =~= b@);
    Some(a)
}

/// What reading text as 512 bits in padded URL-safe base64 gives.
pub open spec fn id512_from_text(s: Seq<char>, bad_text: ProtonMeetIdError, bad_length: ProtonMeetIdError) -> Result<
    Seq<u8>,
    ProtonMeetIdError,
> {
    match base64_url_decoded(s) {
        None => Err(bad_text),
        Some(b) => if b.len() == 64 {
            Ok(b)
        } else {
            Err(bad_length)
        },
    }
}

/// The identifier of an organization.
#[derive(Debug, Clone, Copy, PartialEq, Eq, PartialOrd, Ord, Hash)]
pub struct OrgId(pub [u8; 64]);

impl OrgId {
    /// Reads an organization's identifier from padded URL-safe base64.
    pub fn from_str(v: &str) -> (r: Result<Self, ProtonMeetIdError>)
        ensures
            match id512_from_text(
                v@,
                ProtonMeetIdError::InvalidOrgId("Failed to decode from base 64"),
                ProtonMeetIdError::InvalidOrgId("Should be 512 bits long"),
            ) {
                Ok(b) => r matches Ok(o) && o.0@ == b,
                Err(e) => r == Err::<Self, ProtonMeetIdError>(e),
            },
    {
        let id = match base64_url_decode(v) {
            Some(id) => id,
            None => {
                return Err(ProtonMeetIdError::InvalidOrgId("Failed to decode from base 64"));
            },
        };
        Self::try_from(id.as_slice())
    }

    /// An organization's identifier from its 64 bytes.
    pub fn try_from(bytes: &[u8]) -> (r: Result<Self, ProtonMeetIdError>)
        ensures
            bytes@.len() == 64 ==> (r matches Ok(o) && o.0@ == bytes@),
            bytes@.len() != 64 ==> r == Err::<Self, ProtonMeetIdError>(
                ProtonMeetIdError::InvalidOrgId("Should be 512 bits long"),
            ),
    {
        match array64_from_slice(bytes) {
            Some(a) => Ok(OrgId(a)),
            None => Err(ProtonMeetIdError::InvalidOrgId("Should be 512 bits long")),
        }
    }

    /// The identifier in padded URL-safe base64.
    pub fn to_string(&self) -> (r: String)
        ensures
            r@ == base64_url(self.0@),
    {
        base64_url_encode(self.0.as_slice())
    }
}

/// The identifier Proton Account assigns to every account.
#[derive(Debug, Clone, Copy, PartialEq, Eq, PartialOrd, Ord, Hash)]
pub enum ProtonUserId {
    Legacy([u8; 64]),
}

impl ProtonUserId {
    /// The identifier made of zero bytes.
    pub fn empty() -> (r: Self)
        ensures
            r matches ProtonUserId::Legacy(a) && a@ == Seq::new(64, |i: int| 0u8),
    {
        let a = vstd::array::array_fill_for_copy_types::<u8, 64>(0u8);
        assert(a@ =~= Seq::new(64, |i: int| 0u8));
        ProtonUserId::Legacy(a)
    }

    /// Reads an account's identifier from padded URL-safe base64.
    pub fn from_str(v: &str) -> (r: Result<Self, ProtonMeetIdError>)
        ensures
            match id512_from_text(
                v@,
                ProtonMeetIdError::InvalidProtonUserId("Failed to decode from base 64"),
                ProtonMeetIdError::InvalidProtonUserId("Should be 512 bits long"),
            ) {
                Ok(b) => r matches Ok(ProtonUserId::Legacy(a)) && a@ == b,
                Err(e) => r == Err::<Self, ProtonMeetIdError>(e),
            },
    {
        let id = match base64_url_decode(v) {
            Some(id) => id,
            None => {
                return Err(ProtonMeetIdError::InvalidProtonUserId("Failed to decode from base 64"));
            },
        };
        match array64_from_slice(id.as_slice()) {
            Some(a) => Ok(ProtonUserId::Legacy(a)),
            None => Err(ProtonMeetIdError::InvalidProtonUserId("Should be 512 bits long")),
        }
    }

    /// The identifier in padded URL-safe base64.
    pub fn to_string(&self) -> (r: String)
        ensures
            r@ == base64_url(match *self {
                ProtonUserId::Legacy(a) => a@,
            }),
    {
        match self {
            ProtonUserId::Legacy(a) => base64_url_encode(a.as_slice()),
        }
    }
}

} // verus!
