//! Identifiers of messages: 32 bytes, written in unpadded URL-safe base64.
use vstd::prelude::*;
use crate::identifiers::error::ProtonMeetIdError;
use crate::identifiers::id::{base64_url_nopad, base64_url_nopad_decoded, base64_url_nopad_encode, base64_url_nopad_decode};

verus! {

/// The unique identifier of a message.
#[derive(Debug, Clone, Copy, PartialEq, Eq, Hash)]
pub struct MessageId(pub [u8; 32]);

/// What reading a message identifier from text gives: its 32 bytes, or why
/// there are none.
pub open spec fn message_id_from_text(s: Seq<char>) -> Result<Seq<u8>, ProtonMeetIdError> {
    match base64_url_nopad_decoded(s) {
        None => Err(ProtonMeetIdError::Base64DecodeError),
        Some(b) => if b.len() == 32 {
            Ok(b)
        } else {
            Err(ProtonMeetIdError::InvalidMessageId("Expected 32 bytes"))
        },
    }
}

/// The first 32 bytes of a byte string, as an array.
fn array32(b: &[u8]) -> (r: [u8; 32])
    requires
        b@.len() == 32,
    ensures
        r@ == b@,
{
    let mut a = [0u8; 32];
    let mut i: usize = 0;
    while i < 32
        invariant
            b@.len() == 32,
            i <= 32,
            forall|j: int| 0 <= j < i ==> a@[j] == b@[j],
        decreases 32 - i,
    {
        a[i] = b[i];
        i += 1;
    }
    assert(a@ =~= b@);
    a
}

impl MessageId {
    /// The identifier made of these bytes.
    pub fn from_bytes(bytes: [u8; 32]) -> (r: Self)
        ensures
            r.0@ == bytes@,
    {
        MessageId(bytes)
    }

    /// The identifier's bytes.
    pub fn as_bytes(&self) -> (r: &[u8; 32])
        ensures
            r@ == self.0@,
    {
        &self.0
    }

    /// The identifier in unpadded URL-safe base64.
    pub fn to_string(&self) -> (r: String)
        ensures
            r@ == base64_url_nopad(self.0@),
    {
        base64_url_nopad_encode(self.0.as_slice())
    }

    /// Reads an identifier from unpadded URL-safe base64 of 32 bytes.
    pub fn from_str(s: &str) -> (r: Result<Self, ProtonMeetIdError>)
        ensures
            match message_id_from_text(s@) {
                Ok(b) => r matches Ok(m) && m.0@ == b,
                Err(e) => r == Err::<Self, ProtonMeetIdError>(e),
            },
    {
        let bytes = match base64_url_nopad_decode(s) {
            Some(b) => b,
            None => {
                return Err(ProtonMeetIdError::Base64DecodeError);
            },
        };
        if bytes.len() != 32 {
            return Err(ProtonMeetIdError::InvalidMessageId("Expected 32 bytes"));
        }
        Ok(MessageId(array32(bytes.as_slice())))
    }
}

} // verus!
