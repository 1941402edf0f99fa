//! Validation of key packages and of their lifetimes (RFC 9420, section
//! 10.1).
use vstd::prelude::*;
use crate::bytes::bytes_eq;
use crate::mls::{KeyPackage, MLS_10};
use crate::ratchet_tree::{LeafNodeSource, LeafNodeSourceView};
use crate::validations::leaf_node::{LeafContextView, LeafNodeValidationContext, leaf_node_outcome, leaf_signature_holds};
use crate::validations::{InvalidSignatureItem, ValidationError, signature_label, key_package_label};
use crate::signatures::{verify_with_label, accepts, has_signer};
use crate::suites::named_ciphersuite;
use crate::tls::{VL_MAX, labelled, key_package_parts, key_package_tbs_parts};
use vstd::utf8::encode_utf8;

verus! {

/// Clients whose clocks are not synchronized get 14 hours of leeway.
pub const LIFETIME_WIGGLE_ROOM: u64 = 50_400;

/// What a key package is checked against.
#[derive(Debug, Clone, Copy, PartialEq, Eq, Structural)]
pub struct KeyPackageValidationContext {
    /// Time at which to perform the validation, in seconds since the UNIX
    /// epoch; `None` skips the time checks.
    pub time: Option<u64>,
    /// Longest lifetime a key package may have.
    pub acceptable_range: Option<u64>,
    /// Ciphersuite of the validation.
    pub cipher_suite: Option<u16>,
}

/// `a - b`, or 0 below.
pub open spec fn sat_sub(a: u64, b: u64) -> u64 {
    if a >= b {
        (a - b) as u64
    } else {
        0
    }
}

/// `a + b`, or the largest `u64` above it.
pub open spec fn sat_add(a: u64, b: u64) -> u64 {
    if a + b > u64::MAX {
        u64::MAX
    } else {
        (a + b) as u64
    }
}

impl KeyPackageValidationContext {
    /// A key package's lifetime is acceptable: it is a key package's, it
    /// does not end before it starts, it is no longer than the acceptable
    /// range, and the time of validation falls within it, give or take the
    /// leeway.
    pub open spec fn lifetime_ok(&self, source: LeafNodeSourceView) -> bool {
        match source {
            LeafNodeSourceView::KeyPackage { not_before, not_after } => {
                &&& not_before <= not_after
                &&& self.acceptable_range matches Some(range) ==> not_after - not_before <= range
                &&& self.time matches Some(time) ==> sat_sub(not_before, LIFETIME_WIGGLE_ROOM) < time
                    && time < sat_add(not_after, LIFETIME_WIGGLE_ROOM)
            },
            _ => false,
        }
    }

    pub fn default() -> (r: Self)
        ensures
            r.time is None && r.acceptable_range is None && r.cipher_suite is None,
    {
        KeyPackageValidationContext { time: None, acceptable_range: None, cipher_suite: None }
    }

    pub fn at(time: u64) -> (r: Self)
        ensures
            r == (KeyPackageValidationContext { time: Some(time), acceptable_range: None, cipher_suite: None }),
    {
        KeyPackageValidationContext { time: Some(time), acceptable_range: None, cipher_suite: None }
    }

    pub fn with_ciphersuite(self, ciphersuite: u16) -> (r: Self)
        ensures
            r == (KeyPackageValidationContext { cipher_suite: Some(ciphersuite), ..self }),
    {
        let mut r = self;
        r.cipher_suite = Some(ciphersuite);
        r
    }

    /// Validates if the keypackage satisfies both a current timestamp
    /// (seconds since UNIX epoch) and a provided breadth of
    /// not_before/not_after.
    pub fn validate_keypackage_lifetime(&self, leaf_node_source: &LeafNodeSource) -> (r: bool)
        ensures
            r == self.lifetime_ok(leaf_node_source@),
    {
        let (not_before, not_after) = match leaf_node_source {
            LeafNodeSource::KeyPackage { not_before, not_after } => (*not_before, *not_after),
            _ => {
                return false;
            },
        };
        if not_after < not_before {
            return false;
        }
        if let Some(acceptable_range) = self.acceptable_range {
            let kp_range = not_after - not_before;
            if kp_range > acceptable_range {
                return false;
            }
        }
        let time = match self.time {
            Some(t) => t,
            None => {
                return true;
            },
        };
        let nbf = not_before.saturating_sub(LIFETIME_WIGGLE_ROOM);
        let naf = not_after.saturating_add(LIFETIME_WIGGLE_ROOM);
        nbf < time && time < naf
    }

    /// What validating a key package gives, given whether the authentication
    /// service accepts its leaf's credential and whether the leaf's and the
    /// package's signatures verify.
    pub open spec fn key_package_outcome(
        &self,
        kp: KeyPackage,
        credential_valid: bool,
        leaf_signature_valid: bool,
        signature_valid: bool,
    ) -> Result<(), ValidationError> {
        if kp.version != MLS_10 {
            Err(ValidationError::WtfIsThisProtocol)
        } else {
            match self.cipher_suite {
                None => Err(ValidationError::NoCiphersuite),
                Some(cs) => if kp.cipher_suite != cs {
                    Err(ValidationError::CiphersuiteMismatch)
                } else {
                    match leaf_node_outcome(
                        LeafContextView::KeyPackage(*self),
                        kp.leaf_node,
                        credential_valid,
                        leaf_signature_valid,
                        false,
                    ) {
                        Err(e) => Err(e),
                        Ok(()) => if !signature_valid {
                            Err(ValidationError::InvalidSignature(InvalidSignatureItem::KeyPackage))
                        } else if kp.init_key@ == kp.leaf_node.encryption_key@ {
                            Err(ValidationError::LeafNodeEncryptionKeyIsKeyPackageInitKey)
                        } else {
                            Ok(())
                        },
                    }
                },
            }
        }
    }

    /// The key package's signature key accepts `signature` on `tbs`, the
    /// encoded package to be signed, under the context's ciphersuite.
    pub open spec fn key_package_signature_ok(&self, kp: KeyPackage, tbs: Seq<u8>, signature: Seq<u8>) -> bool {
        match self.cipher_suite {
            Some(cs) => {
                &&& has_signer(named_ciphersuite(cs))
                &&& accepts(
                    named_ciphersuite(cs),
                    kp.leaf_node.signature_key@,
                    labelled(encode_utf8(signature_label(1, "KeyPackageTBS"@)), tbs),
                    signature,
                )
            },
            None => false,
        }
    }

    /// The key package's own signature verifies: what it signs and its
    /// signature are read from its encoding. A package whose encoding does
    /// not read as a key package, or whose signed part is too long to sign,
    /// does not verify.
    pub open spec fn key_package_signature_holds(&self, kp: KeyPackage) -> bool {
        match key_package_parts(kp.encoded@) {
            Some((tbs, signature)) => tbs.len() <= VL_MAX && self.key_package_signature_ok(kp, tbs, signature),
            None => false,
        }
    }

    /// Whether the key package's own signature verifies, read from its
    /// encoding.
    pub fn key_package_signature_valid(&self, key_package: &KeyPackage) -> (r: bool)
        ensures
            r == self.key_package_signature_holds(*key_package),
    {
        let (tbs, signature) = match key_package_tbs_parts(key_package.encoded.as_slice()) {
            Ok(parts) => parts,
            Err(_) => {
                return false;
            },
        };
        if tbs.len() > VL_MAX {
            return false;
        }
        match self.cipher_suite {
            Some(cs) => {
                let label = key_package_label(1);
                verify_with_label(key_package.leaf_node.signature_key.as_slice(), cs, tbs.as_slice(), label, signature.as_slice()).is_ok()
            },
            None => false,
        }
    }

    /// Validates a key package by the rules of RFC 9420, checking the
    /// signatures of the package and of its leaf node, each read from its
    /// encoding; `credential_valid` is what the authentication service says
    /// of the leaf's credential.
    pub fn validate_signed(&self, key_package: &KeyPackage, credential_valid: bool) -> (r: Result<(), ValidationError>)
        ensures
            r == self.key_package_outcome(
                *key_package,
                credential_valid,
                leaf_signature_holds(LeafNodeValidationContext::KeyPackage(self), key_package.leaf_node),
                self.key_package_signature_holds(*key_package),
            ),
    {
        let leaf_ctx = LeafNodeValidationContext::KeyPackage(self);
        let leaf_ok = leaf_ctx.leaf_signature_valid(&key_package.leaf_node);
        let package_ok = self.key_package_signature_valid(key_package);
        self.validate(key_package, credential_valid, leaf_ok, package_ok)
    }

    /// https://www.rfc-editor.org/rfc/rfc9420.html#name-keypackage-validation
    ///
    /// `credential_valid` is what the authentication service says of the
    /// leaf's credential, `leaf_signature_valid` whether the leaf node's
    /// signature verifies, and `signature_valid` whether the key package's
    /// own does.
    pub fn validate(
        &self,
        key_package: &KeyPackage,
        credential_valid: bool,
        leaf_signature_valid: bool,
        signature_valid: bool,
    ) -> (r: Result<(), ValidationError>)
        ensures
            r == self.key_package_outcome(*key_package, credential_valid, leaf_signature_valid, signature_valid),
    {
        if key_package.version != MLS_10 {
            return Err(ValidationError::WtfIsThisProtocol);
        }
        let ciphersuite = match self.cipher_suite {
            Some(cs) => cs,
            None => {
                return Err(ValidationError::NoCiphersuite);
            },
        };
        if key_package.cipher_suite != ciphersuite {
            return Err(ValidationError::CiphersuiteMismatch);
        }
        let leaf = LeafNodeValidationContext::KeyPackage(self).validate_leaf_node_internal(
            &key_package.leaf_node,
            credential_valid,
            leaf_signature_valid,
            false,
        );
        if let Err(e) = leaf {
            return Err(e);
        }
        if !signature_valid {
            return Err(ValidationError::InvalidSignature(InvalidSignatureItem::KeyPackage));
        }
        if bytes_eq(key_package.init_key.as_slice(), key_package.leaf_node.encryption_key.as_slice()) {
            return Err(ValidationError::LeafNodeEncryptionKeyIsKeyPackageInitKey);
        }
        Ok(())
    }
}

/// A key package's lifetime is accepted at time `t` only if it starts no
/// later than it ends, stays within the acceptable range, and `t` falls
/// strictly inside the lifetime widened by 14 hours (50 400 seconds) on
/// each side: one that ended more than 14 hours before `t`, or starts more
/// than 14 hours after it, is refused. Every such lifetime is accepted at
/// every time strictly inside that window, the first and last `u64` aside.
pub proof fn lemma_lifetime_window(ctx: KeyPackageValidationContext, source: LeafNodeSourceView)
    ensures
        ctx.lifetime_ok(source) ==> (source matches LeafNodeSourceView::KeyPackage { not_before, not_after } && {
            &&& not_before <= not_after
            &&& ctx.acceptable_range matches Some(r) ==> not_after - not_before <= r
            &&& ctx.time matches Some(t) ==> not_before - 50_400 < t && t < not_after + 50_400
        }),
        (source matches LeafNodeSourceView::KeyPackage { not_before, not_after } && not_before <= not_after
            && (ctx.acceptable_range matches Some(r) ==> not_after - not_before <= r)
            && (ctx.time matches Some(t) ==> 0 < t && t < u64::MAX && not_before - 50_400 < t && t < not_after
            + 50_400)) ==> ctx.lifetime_ok(source),
{
}

impl KeyPackageValidationContext {
    /// A key package is accepted only if it is of MLS 1.0, of the context's
    /// ciphersuite, its leaf node is accepted as a key package's (and so
    /// within its lifetime), its own signature verifies, and its init key is
    /// not its leaf's encryption key.
    pub proof fn lemma_accepted_key_package(
        &self,
        kp: KeyPackage,
        credential_valid: bool,
        leaf_signature_valid: bool,
        signature_valid: bool,
    )
        ensures
            self.key_package_outcome(kp, credential_valid, leaf_signature_valid, signature_valid) is Ok ==> {
                &&& kp.version == 1
                &&& self.cipher_suite == Some(kp.cipher_suite)
                &&& leaf_node_outcome(LeafContextView::KeyPackage(*self), kp.leaf_node, credential_valid, leaf_signature_valid, false) is Ok
                &&& kp.leaf_node.source@ is KeyPackage && self.lifetime_ok(kp.leaf_node.source@)
                &&& credential_valid && leaf_signature_valid && signature_valid
                &&& kp.init_key@ != kp.leaf_node.encryption_key@
            },
    {
        crate::validations::leaf_node::lemma_accepted_leaf(
            LeafContextView::KeyPackage(*self),
            kp.leaf_node,
            credential_valid,
            leaf_signature_valid,
            false,
        );
    }
}

} // verus!
