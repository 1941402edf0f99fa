//! CBOR data items, as far as the claims of a credential read them.
use vstd::prelude::*;

verus! {

/// A CBOR data item of a credential's payload.
#[derive(Debug, PartialEq)]
pub enum ClaimValue {
    Integer(i128),
    Bytes(Vec<u8>),
    Text(String),
    Bool(bool),
    Null,
    Tag(u64, Box<ClaimValue>),
    Array(Vec<ClaimValue>),
    Mapping(Vec<(ClaimValue, ClaimValue)>),
    /// A floating-point number or a simple value other than a boolean or
    /// null: no Proton claim reads one.
    Other,
}

/// The tag of an array element that the holder of a credential withheld.
pub const REDACTED_CLAIM_ELEMENT_TAG: u64 = 60;

/// The integer an integer item holds (0 for any other item).
pub open spec fn int_of(v: ClaimValue) -> i128 {
    match v {
        ClaimValue::Integer(j) => j,
        _ => 0,
    }
}

/// The boolean a boolean item holds (false for any other item).
pub open spec fn bool_of(v: ClaimValue) -> bool {
    match v {
        ClaimValue::Bool(b) => b,
        _ => false,
    }
}

/// The 16-bit code an integer stands for, when it is one.
pub open spec fn u16_of(j: i128) -> Option<u16> {
    if 0 <= j <= 65535 {
        Some(j as u16)
    } else {
        None
    }
}

/// An array element that was withheld.
pub open spec fn is_redacted(v: ClaimValue) -> bool {
    v matches ClaimValue::Tag(t, _) && t == REDACTED_CLAIM_ELEMENT_TAG
}

/// The item under the tags that wrap it, if any: what a reader of a text
/// string, a boolean or a map looks at.
pub open spec fn untagged(v: ClaimValue) -> ClaimValue
    decreases v,
{
    match v {
        ClaimValue::Tag(_, inner) => untagged(*inner),
        _ => v,
    }
}

/// The item with the tags that wrap it taken off.
pub fn into_untagged(v: ClaimValue) -> (r: ClaimValue)
    ensures
        r == untagged(v),
    decreases v,
{
    match v {
        ClaimValue::Tag(_, inner) => into_untagged(*inner),
        other => other,
    }
}

/// The item under the tags that wrap it.
pub fn untag(v: &ClaimValue) -> (r: &ClaimValue)
    ensures
        *r == untagged(*v),
    decreases v,
{
    match v {
        ClaimValue::Tag(_, inner) => untag(inner),
        other => other,
    }
}

/// The 16-bit code an integer stands for, when it is one.
pub fn to_u16(j: i128) -> (r: Option<u16>)
    ensures
        r == u16_of(j),
{
    if 0 <= j && j <= 65535 {
        Some(j as u16)
    } else {
        None
    }
}

/// The array element was withheld.
pub fn redacted(v: &ClaimValue) -> (r: bool)
    ensures
        r == is_redacted(*v),
{
    match v {
        ClaimValue::Tag(t, _) => *t == REDACTED_CLAIM_ELEMENT_TAG,
        _ => false,
    }
}

/// The first 16 bytes of a byte string, as an array.
pub fn array16(b: &[u8]) -> (r: [u8; 16])
    requires
        b@.len() == 16,
    ensures
        r@ == b@,
{
    let mut a = [0u8; 16];
    let mut i: usize = 0;
    while i < 16
        invariant
            b@.len() == 16,
            i <= 16,
            forall|j: int| 0 <= j < i ==> a@[j] == b@[j],
        decreases 16 - i,
    {
        a[i] = b[i];
        i += 1;
    }
    assert(a@ =~= b@);
    a
}

} // verus!
