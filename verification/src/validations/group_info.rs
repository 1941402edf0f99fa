//! The signature of a group's information, made by one of its members.
use vstd::prelude::*;
use crate::ratchet_tree::RatchetTree;
use crate::signatures::{verify_with_label, accepts, has_signer};
use crate::suites::{UtilError, named_ciphersuite};
use crate::tls::{VL_MAX, labelled};
use vstd::utf8::encode_utf8;
use crate::tree_index::TreeLeafIndex;
use crate::tree_reader::{RatchetTreeReader, leaf_at};
use crate::validations::{InvalidSignatureItem, ValidationError, signature_label, group_info_label};

verus! {

/// A group's information as the signature check reads it.
pub struct GroupInfo {
    /// The protocol version of the group: 1 for MLS 1.0, 0 reserved.
    pub version: u16,
    pub cipher_suite: u16,
    /// The leaf index of the member that signed.
    pub signer: u32,
    /// What was signed: the information to be signed, as MLS encodes it.
    pub tbs: Vec<u8>,
    pub signature: Vec<u8>,
}

/// The signature of the group's information is valid: the signer's leaf
/// is not blank and its signature key accepts the signature on the
/// information under the label.
pub open spec fn group_info_signed(rt: RatchetTree, gi: GroupInfo) -> bool {
    match leaf_at(rt@, gi.signer * 2) {
        Some(l) => {
            &&& has_signer(named_ciphersuite(gi.cipher_suite))
            &&& accepts(
                named_ciphersuite(gi.cipher_suite),
                l.signature_key,
                labelled(encode_utf8(signature_label(gi.version, "GroupInfoTBS"@)), gi.tbs@),
                gi.signature@,
            )
        },
        None => false,
    }
}

/// Checks the signature of a group's information against the signer's
/// signature key in the tree; any failure is an invalid signature of the
/// group's information.
pub fn verify_group_info(rt: &RatchetTree, group_info: &GroupInfo) -> (r: Result<(), UtilError>)
    requires
        group_info.version <= 1,
        group_info.signer as nat * 2 <= usize::MAX,
        group_info.tbs@.len() <= VL_MAX,
    ensures
        r is Ok <==> group_info_signed(*rt, *group_info),
        r is Err ==> r == Err::<(), UtilError>(
            UtilError::ValidationError(ValidationError::InvalidSignature(InvalidSignatureItem::GroupInfo)),
        ),
{
    let finder = RatchetTreeReader::new(rt);
    let leaf = match finder.find_leafnode_at_idx(TreeLeafIndex(group_info.signer)) {
        Some(l) => l,
        None => {
            return Err(UtilError::ValidationError(ValidationError::InvalidSignature(InvalidSignatureItem::GroupInfo)));
        },
    };
    let label = group_info_label(group_info.version);
    match verify_with_label(
        leaf.signature_key.as_slice(),
        group_info.cipher_suite,
        group_info.tbs.as_slice(),
        label,
        group_info.signature.as_slice(),
    ) {
        Ok(()) => Ok(()),
        Err(_) => Err(UtilError::ValidationError(ValidationError::InvalidSignature(InvalidSignatureItem::GroupInfo))),
    }
}

} // verus!
