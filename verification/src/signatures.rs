//! Signature keys and signatures of the MLS ciphersuites: Ed25519 for the
//! X25519 suites, ECDSA over P-256, P-384 and P-521 for the others.
use vstd::prelude::*;
use vstd::string::StringSliceAdditionalSpecFns;
use crate::suites::{NamedCiphersuite, UtilError, named_ciphersuite, suite_kem};
use crate::tls::{VL_MAX, labelled, sign_content_bytes};
use crate::pke::left_pad;

verus! {

/// The Ed25519 public key of the secret key `sk`.
pub uninterp spec fn ed25519_public_key(sk: Seq<u8>) -> Seq<u8>;

/// The Ed25519 signature of `msg` under the secret key `sk`.
pub uninterp spec fn ed25519_signature(sk: Seq<u8>, msg: Seq<u8>) -> Seq<u8>;

/// The Ed25519 public key `pk` accepts `sig` on `msg`, under the strict
/// rules of verification.
pub uninterp spec fn ed25519_accepts(pk: Seq<u8>, msg: Seq<u8>, sig: Seq<u8>) -> bool;

/// The SEC1 public key of the P-256 secret scalar `sk`, when `sk` is one.
pub uninterp spec fn p256_public_key(sk: Seq<u8>) -> Option<Seq<u8>>;

/// The DER signature of `msg` under the P-256 secret scalar `sk`, nonces
/// drawn as RFC 6979 says; `None` when `sk` is no valid scalar.
pub uninterp spec fn p256_signature(sk: Seq<u8>, msg: Seq<u8>) -> Option<Seq<u8>>;

/// The SEC1 P-256 public key `pk` accepts the DER signature `sig` on `msg`.
pub uninterp spec fn p256_accepts(pk: Seq<u8>, msg: Seq<u8>, sig: Seq<u8>) -> bool;

/// The SEC1 public key of the P-384 secret scalar `sk`, when `sk` is one.
pub uninterp spec fn p384_public_key(sk: Seq<u8>) -> Option<Seq<u8>>;

/// The DER signature of `msg` under the P-384 secret scalar `sk`, nonces
/// drawn as RFC 6979 says; `None` when `sk` is no valid scalar.
pub uninterp spec fn p384_signature(sk: Seq<u8>, msg: Seq<u8>) -> Option<Seq<u8>>;

/// The SEC1 P-384 public key `pk` accepts the DER signature `sig` on `msg`.
pub uninterp spec fn p384_accepts(pk: Seq<u8>, msg: Seq<u8>, sig: Seq<u8>) -> bool;

/// The uncompressed SEC1 public key of the P-521 secret scalar `sk`, when
/// `sk` is one.
pub uninterp spec fn p521_public_key(sk: Seq<u8>) -> Option<Seq<u8>>;

/// The SEC1 P-521 public key `pk` accepts the DER signature `sig` on `msg`.
pub uninterp spec fn p521_accepts(pk: Seq<u8>, msg: Seq<u8>, sig: Seq<u8>) -> bool;

/// `<&[u8; 32]>::try_from` then `SigningKey::from_bytes(..).verifying_key()`
/// of ed25519-dalek: fails exactly when the secret key is not 32 bytes,
/// else gives the public key named by `ed25519_public_key`.
#[verifier::external_body]
fn ed25519_public_from(sk: &[u8]) -> (r: Result<Vec<u8>, std::array::TryFromSliceError>)
    ensures
        match r {
            Ok(pk) => sk@.len() == 32 && pk@ == ed25519_public_key(sk@),
            Err(_) => sk@.len() != 32,
        },
{
    let bytes: &[u8; 32] = sk.try_into()?;
    Ok(ed25519_dalek::SigningKey::from_bytes(bytes).verifying_key().to_bytes().to_vec())
}

/// `SigningKey::generate` of ed25519-dalek from the thread's generator:
/// a random 32-byte secret key and its public key.
#[verifier::external_body]
fn ed25519_generate() -> (r: (Vec<u8>, Vec<u8>))
    ensures
        r.0@.len() == 32,
        r.1@ == ed25519_public_key(r.0@),
{
    let sk = ed25519_dalek::SigningKey::generate(&mut rand::thread_rng());
    (sk.to_bytes().to_vec(), sk.verifying_key().to_bytes().to_vec())
}

/// `SigningKey::try_from(&[u8])` then `try_sign` of ed25519-dalek: fails
/// exactly when the secret key is not 32 bytes, else gives the signature
/// named by `ed25519_signature`, which the key's public key accepts (as
/// ed25519-dalek documents of signing and strict verification).
#[verifier::external_body]
fn ed25519_sign(sk: &[u8], msg: &[u8]) -> (r: Result<Vec<u8>, signature::Error>)
    ensures
        match r {
            Ok(sig) => sk@.len() == 32 && sig@ == ed25519_signature(sk@, msg@) && ed25519_accepts(
                ed25519_public_key(sk@),
                msg@,
                sig@,
            ),
            Err(_) => sk@.len() != 32,
        },
{
    let key = ed25519_dalek::SigningKey::try_from(sk)?;
    Ok(signature::Signer::try_sign(&key, msg)?.to_vec())
}

/// `VerifyingKey::try_from`, `Signature::from_slice` and `verify_strict` of
/// ed25519-dalek: whether all three succeed, named by `ed25519_accepts`.
#[verifier::external_body]
fn ed25519_verify(pk: &[u8], msg: &[u8], sig: &[u8]) -> (r: bool)
    ensures
        r == ed25519_accepts(pk@, msg@, sig@),
{
    match (ed25519_dalek::VerifyingKey::try_from(pk), ed25519_dalek::Signature::from_slice(sig)) {
        (Ok(key), Ok(sig)) => key.verify_strict(msg, &sig).is_ok(),
        _ => false,
    }
}

/// `SigningKey::from_bytes(..).verifying_key().to_sec1_bytes()` of p256;
/// the key must be 32 bytes (else the conversion to a field element
/// panics).
#[verifier::external_body]
fn p256_public_from(sk: &[u8]) -> (r: Result<Vec<u8>, signature::Error>)
    requires
        sk@.len() == 32,
    ensures
        match p256_public_key(sk@) {
            Some(pk) => r matches Ok(v) && v@ == pk,
            None => r is Err,
        },
{
    let key = p256::ecdsa::SigningKey::from_bytes(sk.into())?;
    Ok(key.verifying_key().to_sec1_bytes().into_vec())
}

/// `SigningKey::random` of p256 from the thread's generator: a random
/// 32-byte secret scalar and its public key.
#[verifier::external_body]
fn p256_generate() -> (r: (Vec<u8>, Vec<u8>))
    ensures
        r.0@.len() == 32,
        p256_public_key(r.0@) == Some(r.1@),
{
    let sk = p256::ecdsa::SigningKey::random(&mut rand::thread_rng());
    (sk.to_bytes().to_vec(), sk.verifying_key().to_sec1_bytes().into_vec())
}

/// `SigningKey::from_bytes` then `try_sign` to a DER signature, of p256;
/// the key must be 32 bytes. The key's public key accepts the signature,
/// as the ecdsa crate documents of signing and verifying.
#[verifier::external_body]
fn p256_sign(sk: &[u8], msg: &[u8]) -> (r: Result<Vec<u8>, signature::Error>)
    requires
        sk@.len() == 32,
    ensures
        match p256_signature(sk@, msg@) {
            Some(sig) => {
                &&& r matches Ok(v) && v@ == sig
                &&& (p256_public_key(sk@) matches Some(pk) && p256_accepts(pk, msg@, sig))
            },
            None => r is Err,
        },
{
    let key = p256::ecdsa::SigningKey::from_bytes(sk.into())?;
    let sig: p256::ecdsa::DerSignature = signature::Signer::try_sign(&key, msg)?;
    Ok(sig.to_bytes().to_vec())
}

/// `VerifyingKey::from_sec1_bytes`, `DerSignature::from_bytes` and `verify`
/// of p256: whether all three succeed, named by `p256_accepts`.
#[verifier::external_body]
fn p256_verify(pk: &[u8], msg: &[u8], sig: &[u8]) -> (r: bool)
    ensures
        r == p256_accepts(pk@, msg@, sig@),
{
    match (p256::ecdsa::VerifyingKey::from_sec1_bytes(pk), p256::ecdsa::DerSignature::from_bytes(sig)) {
        (Ok(key), Ok(sig)) => signature::Verifier::verify(&key, msg, &sig).is_ok(),
        _ => false,
    }
}

/// As `p256_public_from`, on P-384 with 48-byte keys.
#[verifier::external_body]
fn p384_public_from(sk: &[u8]) -> (r: Result<Vec<u8>, signature::Error>)
    requires
        sk@.len() == 48,
    ensures
        match p384_public_key(sk@) {
            Some(pk) => r matches Ok(v) && v@ == pk,
            None => r is Err,
        },
{
    let key = p384::ecdsa::SigningKey::from_bytes(sk.into())?;
    Ok(key.verifying_key().to_sec1_bytes().into_vec())
}

/// As `p256_generate`, on P-384.
#[verifier::external_body]
fn p384_generate() -> (r: (Vec<u8>, Vec<u8>))
    ensures
        r.0@.len() == 48,
        p384_public_key(r.0@) == Some(r.1@),
{
    let sk = p384::ecdsa::SigningKey::random(&mut rand::thread_rng());
    (sk.to_bytes().to_vec(), sk.verifying_key().to_sec1_bytes().into_vec())
}

/// As `p256_sign`, on P-384 with 48-byte keys.
#[verifier::external_body]
fn p384_sign(sk: &[u8], msg: &[u8]) -> (r: Result<Vec<u8>, signature::Error>)
    requires
        sk@.len() == 48,
    ensures
        match p384_signature(sk@, msg@) {
            Some(sig) => {
                &&& r matches Ok(v) && v@ == sig
                &&& (p384_public_key(sk@) matches Some(pk) && p384_accepts(pk, msg@, sig))
            },
            None => r is Err,
        },
{
    let key = p384::ecdsa::SigningKey::from_bytes(sk.into())?;
    let sig: p384::ecdsa::DerSignature = signature::Signer::try_sign(&key, msg)?;
    Ok(sig.to_bytes().to_vec())
}

/// As `p256_verify`, on P-384.
#[verifier::external_body]
fn p384_verify(pk: &[u8], msg: &[u8], sig: &[u8]) -> (r: bool)
    ensures
        r == p384_accepts(pk@, msg@, sig@),
{
    match (p384::ecdsa::VerifyingKey::from_sec1_bytes(pk), p384::ecdsa::DerSignature::from_bytes(sig)) {
        (Ok(key), Ok(sig)) => signature::Verifier::verify(&key, msg, &sig).is_ok(),
        _ => false,
    }
}

/// `SigningKey::from_bytes` then the uncompressed encoding of its
/// `VerifyingKey`, of p521; the key must be 66 bytes.
#[verifier::external_body]
fn p521_public_from(sk: &[u8]) -> (r: Result<Vec<u8>, signature::Error>)
    requires
        sk@.len() == 66,
    ensures
        match p521_public_key(sk@) {
            Some(pk) => r matches Ok(v) && v@ == pk,
            None => r is Err,
        },
{
    let key = p521::ecdsa::SigningKey::from_bytes(sk.into())?;
    Ok(p521::ecdsa::VerifyingKey::from(&key).to_encoded_point(false).to_bytes().to_vec())
}

/// `SigningKey::random` of p521 from the thread's generator: a random
/// 66-byte secret scalar and its uncompressed public key.
#[verifier::external_body]
fn p521_generate() -> (r: (Vec<u8>, Vec<u8>))
    ensures
        r.0@.len() == 66,
        p521_public_key(r.0@) == Some(r.1@),
{
    let sk = p521::ecdsa::SigningKey::random(&mut rand::thread_rng());
    let pk = p521::ecdsa::VerifyingKey::from(&sk);
    (sk.to_bytes().to_vec(), pk.to_encoded_point(false).to_bytes().to_vec())
}

/// `SigningKey::from_slice` then `try_sign`, as DER, of p521. Its nonces
/// come from the operating system's generator, so the signature itself is
/// not named; what is claimed is that the public key of the key (the slice
/// read left-padded to 66 bytes, as `from_slice` does) accepts it.
#[verifier::external_body]
fn p521_sign(sk: &[u8], msg: &[u8]) -> (r: Result<Vec<u8>, signature::Error>)
    ensures
        match r {
            Ok(sig) => {
                &&& sk@.len() <= 66
                &&& (p521_public_key(left_pad(sk@, 66)) matches Some(pk) && p521_accepts(pk, msg@, sig@))
            },
            Err(_) => true,
        },
{
    let key = p521::ecdsa::SigningKey::from_slice(sk)?;
    let sig: p521::ecdsa::DerSignature = signature::Signer::<p521::ecdsa::Signature>::try_sign(&key, msg)?.to_der();
    Ok(sig.to_bytes().to_vec())
}

/// `VerifyingKey::from_sec1_bytes`, `Signature::from_der` and `verify` of
/// p521: whether all three succeed, named by `p521_accepts`.
#[verifier::external_body]
fn p521_verify(pk: &[u8], msg: &[u8], sig: &[u8]) -> (r: bool)
    ensures
        r == p521_accepts(pk@, msg@, sig@),
{
    match (p521::ecdsa::VerifyingKey::from_sec1_bytes(pk), p521::ecdsa::Signature::from_der(sig)) {
        (Ok(key), Ok(sig)) => signature::Verifier::verify(&key, msg, &sig).is_ok(),
        _ => false,
    }
}

/// The secret key has the length the ciphersuite's curve takes where the
/// conversion to a field element would otherwise panic: 32 bytes for
/// P-256, 48 for P-384, 66 for P-521.
pub open spec fn secret_key_fits(cs: u16, len: nat) -> bool {
    match named_ciphersuite(cs) {
        NamedCiphersuite::Mls128DHKemP256AesGcm128Sha256 => len == 32,
        NamedCiphersuite::Mls256DHKemP384AesGcm256Sha384 => len == 48,
        NamedCiphersuite::Mls256DHKemP521AesGcm256Sha512 => len == 66,
        _ => true,
    }
}

/// The secret key can be handed to the ciphersuite's signer: 32 bytes for
/// P-256, 48 for P-384, at most 66 for P-521.
pub open spec fn signing_key_fits(cs: u16, len: nat) -> bool {
    match named_ciphersuite(cs) {
        NamedCiphersuite::Mls128DHKemP256AesGcm128Sha256 => len == 32,
        NamedCiphersuite::Mls256DHKemP384AesGcm256Sha384 => len == 48,
        NamedCiphersuite::Mls256DHKemP521AesGcm256Sha512 => len <= 66,
        _ => true,
    }
}

/// The ciphersuite signs with Ed25519.
pub open spec fn is_ed25519_suite(c: NamedCiphersuite) -> bool {
    c == NamedCiphersuite::Mls128DHKemX25519AesGcm128Sha256 || c
        == NamedCiphersuite::Mls128DHKemX25519ChaCha20Poly1305Sha256
}

/// The ciphersuite has a signature scheme here: Ed25519, P-256, P-384 or
/// P-521.
pub open spec fn has_signer(c: NamedCiphersuite) -> bool {
    is_ed25519_suite(c) || c == NamedCiphersuite::Mls128DHKemP256AesGcm128Sha256 || c
        == NamedCiphersuite::Mls256DHKemP384AesGcm256Sha384 || c
        == NamedCiphersuite::Mls256DHKemP521AesGcm256Sha512
}

/// The error for a ciphersuite with no signature scheme here.
pub open spec fn no_signer_error(c: NamedCiphersuite, cs: u16) -> UtilError {
    match c {
        NamedCiphersuite::Unsupported(v) => UtilError::UnsupportedCiphersuite(v),
        _ => UtilError::UnknownCiphersuite(cs),
    }
}

/// The public key the ciphersuite's scheme derives from `sk`, when it
/// derives one.
pub open spec fn public_key_of(c: NamedCiphersuite, sk: Seq<u8>) -> Option<Seq<u8>> {
    match c {
        NamedCiphersuite::Mls128DHKemP256AesGcm128Sha256 => p256_public_key(sk),
        NamedCiphersuite::Mls256DHKemP384AesGcm256Sha384 => p384_public_key(sk),
        NamedCiphersuite::Mls256DHKemP521AesGcm256Sha512 => p521_public_key(sk),
        _ => if sk.len() == 32 { Some(ed25519_public_key(sk)) } else { None },
    }
}

/// The signature scheme of the ciphersuite accepts `sig` on `msg` under
/// `pk`.
pub open spec fn accepts(c: NamedCiphersuite, pk: Seq<u8>, msg: Seq<u8>, sig: Seq<u8>) -> bool {
    match c {
        NamedCiphersuite::Mls128DHKemP256AesGcm128Sha256 => p256_accepts(pk, msg, sig),
        NamedCiphersuite::Mls256DHKemP384AesGcm256Sha384 => p384_accepts(pk, msg, sig),
        NamedCiphersuite::Mls256DHKemP521AesGcm256Sha512 => p521_accepts(pk, msg, sig),
        _ => ed25519_accepts(pk, msg, sig),
    }
}

/// The signature the ciphersuite's scheme makes of `msg` under `sk`, where
/// it is determined by them: all but P-521, whose nonces are random.
pub open spec fn signature_of(c: NamedCiphersuite, sk: Seq<u8>, msg: Seq<u8>) -> Option<Seq<u8>> {
    match c {
        NamedCiphersuite::Mls128DHKemP256AesGcm128Sha256 => p256_signature(sk, msg),
        NamedCiphersuite::Mls256DHKemP384AesGcm256Sha384 => p384_signature(sk, msg),
        _ => if sk.len() == 32 { Some(ed25519_signature(sk, msg)) } else { None },
    }
}

/// The public key of a signature key pair's secret key, for the key pair's
/// ciphersuite. Ed25519 takes 32-byte keys; the curves take their scalars.
pub fn sk_to_pk(cs: u16, signature_private_key: &[u8]) -> (r: Result<Vec<u8>, UtilError>)
    requires
        secret_key_fits(cs, signature_private_key@.len()),
    ensures
        has_signer(named_ciphersuite(cs)) ==> match public_key_of(named_ciphersuite(cs), signature_private_key@) {
            Some(pk) => r matches Ok(v) && v@ == pk,
            None => r is Err,
        },
        is_ed25519_suite(named_ciphersuite(cs)) && signature_private_key@.len() != 32 ==> r matches Err(
            UtilError::TryFromSliceError(_),
        ),
        !is_ed25519_suite(named_ciphersuite(cs)) && has_signer(named_ciphersuite(cs))
            && public_key_of(named_ciphersuite(cs), signature_private_key@) is None ==> r matches Err(
            UtilError::SignatureError(_),
        ),
        !has_signer(named_ciphersuite(cs)) ==> r == Err::<Vec<u8>, UtilError>(
            no_signer_error(named_ciphersuite(cs), cs),
        ),
{
    let named = NamedCiphersuite::from_code(cs);
    match named {
        NamedCiphersuite::Mls128DHKemX25519AesGcm128Sha256
        | NamedCiphersuite::Mls128DHKemX25519ChaCha20Poly1305Sha256 => match ed25519_public_from(
            signature_private_key,
        ) {
            Ok(pk) => Ok(pk),
            Err(e) => Err(UtilError::TryFromSliceError(e)),
        },
        NamedCiphersuite::Mls128DHKemP256AesGcm128Sha256 => match p256_public_from(signature_private_key) {
            Ok(pk) => Ok(pk),
            Err(e) => Err(UtilError::SignatureError(e)),
        },
        NamedCiphersuite::Mls256DHKemP384AesGcm256Sha384 => match p384_public_from(signature_private_key) {
            Ok(pk) => Ok(pk),
            Err(e) => Err(UtilError::SignatureError(e)),
        },
        NamedCiphersuite::Mls256DHKemP521AesGcm256Sha512 => match p521_public_from(signature_private_key) {
            Ok(pk) => Ok(pk),
            Err(e) => Err(UtilError::SignatureError(e)),
        },
        NamedCiphersuite::Unsupported(c) => Err(UtilError::UnsupportedCiphersuite(c)),
        _ => Err(UtilError::UnknownCiphersuite(cs)),
    }
}

/// Checks `signature` on `message` under `signature_public_key` with the
/// ciphersuite's scheme; any failure to read the key or the signature, or a
/// signature that does not verify, is an invalid signature.
pub fn verify_raw(signature_public_key: &[u8], cs: u16, message: &[u8], signature: &[u8]) -> (r: Result<(), UtilError>)
    ensures
        has_signer(named_ciphersuite(cs)) ==> (r is Ok <==> accepts(
            named_ciphersuite(cs),
            signature_public_key@,
            message@,
            signature@,
        )),
        has_signer(named_ciphersuite(cs)) && r is Err ==> r == Err::<(), UtilError>(UtilError::InvalidSignature),
        !has_signer(named_ciphersuite(cs)) ==> r == Err::<(), UtilError>(
            no_signer_error(named_ciphersuite(cs), cs),
        ),
{
    let named = NamedCiphersuite::from_code(cs);
    let ok = match named {
        NamedCiphersuite::Mls128DHKemX25519AesGcm128Sha256
        | NamedCiphersuite::Mls128DHKemX25519ChaCha20Poly1305Sha256 => ed25519_verify(
            signature_public_key,
            message,
            signature,
        ),
        NamedCiphersuite::Mls128DHKemP256AesGcm128Sha256 => p256_verify(signature_public_key, message, signature),
        NamedCiphersuite::Mls256DHKemP384AesGcm256Sha384 => p384_verify(signature_public_key, message, signature),
        NamedCiphersuite::Mls256DHKemP521AesGcm256Sha512 => p521_verify(signature_public_key, message, signature),
        NamedCiphersuite::Unsupported(c) => {
            return Err(UtilError::UnsupportedCiphersuite(c));
        },
        _ => {
            return Err(UtilError::UnknownCiphersuite(cs));
        },
    };
    if ok {
        Ok(())
    } else {
        Err(UtilError::InvalidSignature)
    }
}

/// Signs `message` with `signature_private_key` under the ciphersuite's
/// scheme. Ed25519 and P-256 and P-384 sign deterministically; a P-521
/// signature carries a random nonce.
pub fn sign_raw(signature_private_key: &[u8], cs: u16, message: &[u8]) -> (r: Result<Vec<u8>, UtilError>)
    requires
        signing_key_fits(cs, signature_private_key@.len()),
    ensures
        has_signer(named_ciphersuite(cs)) && named_ciphersuite(cs)
            != NamedCiphersuite::Mls256DHKemP521AesGcm256Sha512 ==> match signature_of(
            named_ciphersuite(cs),
            signature_private_key@,
            message@,
        ) {
            Some(sig) => r matches Ok(v) && v@ == sig,
            None => r matches Err(UtilError::SignatureError(_)),
        },
        has_signer(named_ciphersuite(cs)) && named_ciphersuite(cs)
            != NamedCiphersuite::Mls256DHKemP521AesGcm256Sha512 ==> (r matches Ok(sig) ==> public_key_of(
            named_ciphersuite(cs),
            signature_private_key@,
        ) matches Some(pk) && accepts(named_ciphersuite(cs), pk, message@, sig@)),
        named_ciphersuite(cs) == NamedCiphersuite::Mls256DHKemP521AesGcm256Sha512 ==> match r {
            Ok(sig) => p521_public_key(left_pad(signature_private_key@, 66)) matches Some(pk) && p521_accepts(
                pk,
                message@,
                sig@,
            ),
            Err(e) => e is SignatureError,
        },
        !has_signer(named_ciphersuite(cs)) ==> r == Err::<Vec<u8>, UtilError>(
            no_signer_error(named_ciphersuite(cs), cs),
        ),
{
    let named = NamedCiphersuite::from_code(cs);
    let signed = match named {
        NamedCiphersuite::Mls128DHKemX25519AesGcm128Sha256
        | NamedCiphersuite::Mls128DHKemX25519ChaCha20Poly1305Sha256 => ed25519_sign(
            signature_private_key,
            message,
        ),
        NamedCiphersuite::Mls128DHKemP256AesGcm128Sha256 => p256_sign(signature_private_key, message),
        NamedCiphersuite::Mls256DHKemP384AesGcm256Sha384 => p384_sign(signature_private_key, message),
        NamedCiphersuite::Mls256DHKemP521AesGcm256Sha512 => p521_sign(signature_private_key, message),
        NamedCiphersuite::Unsupported(c) => {
            return Err(UtilError::UnsupportedCiphersuite(c));
        },
        _ => {
            return Err(UtilError::UnknownCiphersuite(cs));
        },
    };
    match signed {
        Ok(sig) => Ok(sig),
        Err(e) => Err(UtilError::SignatureError(e)),
    }
}

/// What is signed under a label: the label and the content, each as an MLS
/// variable-length vector.
pub open spec fn sign_content(label: &str, content: Seq<u8>) -> Seq<u8> {
    labelled(label.spec_bytes(), content)
}

/// Checks `signature` on `content` under `label`: the content and the label
/// are encoded together, then checked as `verify_raw` does.
pub fn verify_with_label(
    signature_public_key: &[u8],
    cs: u16,
    content: &[u8],
    label: &str,
    signature: &[u8],
) -> (r: Result<(), UtilError>)
    requires
        label.spec_bytes().len() <= VL_MAX,
        content@.len() <= VL_MAX,
    ensures
        has_signer(named_ciphersuite(cs)) ==> (r is Ok <==> accepts(
            named_ciphersuite(cs),
            signature_public_key@,
            sign_content(label, content@),
            signature@,
        )),
        has_signer(named_ciphersuite(cs)) && r is Err ==> r == Err::<(), UtilError>(UtilError::InvalidSignature),
        !has_signer(named_ciphersuite(cs)) ==> r == Err::<(), UtilError>(
            no_signer_error(named_ciphersuite(cs), cs),
        ),
{
    match sign_content_bytes(label, content) {
        Ok(msg) => verify_raw(signature_public_key, cs, msg.as_slice(), signature),
        Err(e) => Err(UtilError::MlsSpecError(e)),
    }
}

/// Signs `content` under `label`: the content and the label are encoded
/// together, then signed as `sign_raw` does.
pub fn sign_with_label(signature_private_key: &[u8], cs: u16, content: &[u8], label: &str) -> (r: Result<
    Vec<u8>,
    UtilError,
>)
    requires
        signing_key_fits(cs, signature_private_key@.len()),
        label.spec_bytes().len() <= VL_MAX,
        content@.len() <= VL_MAX,
    ensures
        has_signer(named_ciphersuite(cs)) && named_ciphersuite(cs)
            != NamedCiphersuite::Mls256DHKemP521AesGcm256Sha512 ==> match signature_of(
            named_ciphersuite(cs),
            signature_private_key@,
            sign_content(label, content@),
        ) {
            Some(sig) => r matches Ok(v) && v@ == sig,
            None => r matches Err(UtilError::SignatureError(_)),
        },
        named_ciphersuite(cs) == NamedCiphersuite::Mls256DHKemP521AesGcm256Sha512 ==> (r is Ok || r matches Err(
            UtilError::SignatureError(_),
        )),
        !has_signer(named_ciphersuite(cs)) ==> r == Err::<Vec<u8>, UtilError>(
            no_signer_error(named_ciphersuite(cs), cs),
        ),
{
    match sign_content_bytes(label, content) {
        Ok(msg) => sign_raw(signature_private_key, cs, msg.as_slice()),
        Err(e) => Err(UtilError::MlsSpecError(e)),
    }
}

/// A key pair of a ciphersuite, with the ciphersuite's HPKE KEM.
#[derive(Debug)]
pub struct SignatureKeyPair {
    pub ciphersuite: u16,
    pub kem_id: u16,
    pub sk: Vec<u8>,
    pub pk: Vec<u8>,
}

/// Draws a fresh signature key pair for the ciphersuite from the thread's
/// generator: its public key is the one `sk_to_pk` derives from its secret
/// key.
pub fn generate_signature_keypair(cs: u16) -> (r: Result<SignatureKeyPair, UtilError>)
    ensures
        has_signer(named_ciphersuite(cs)) ==> (r matches Ok(kp) && kp.ciphersuite == cs && Some(kp.kem_id)
            == suite_kem(named_ciphersuite(cs)) && public_key_of(named_ciphersuite(cs), kp.sk@) == Some(kp.pk@)
            && secret_key_fits(cs, kp.sk@.len())),
        !has_signer(named_ciphersuite(cs)) ==> r == Err::<SignatureKeyPair, UtilError>(
            no_signer_error(named_ciphersuite(cs), cs),
        ),
{
    let named = NamedCiphersuite::from_code(cs);
    let (sk, pk) = match named {
        NamedCiphersuite::Mls128DHKemX25519AesGcm128Sha256
        | NamedCiphersuite::Mls128DHKemX25519ChaCha20Poly1305Sha256 => ed25519_generate(),
        NamedCiphersuite::Mls128DHKemP256AesGcm128Sha256 => p256_generate(),
        NamedCiphersuite::Mls256DHKemP384AesGcm256Sha384 => p384_generate(),
        NamedCiphersuite::Mls256DHKemP521AesGcm256Sha512 => p521_generate(),
        NamedCiphersuite::Unsupported(c) => {
            return Err(UtilError::UnsupportedCiphersuite(c));
        },
        _ => {
            return Err(UtilError::UnknownCiphersuite(cs));
        },
    };
    let kem_id = match named.hpke_kem_id() {
        Ok(k) => k,
        Err(e) => {
            return Err(e);
        },
    };
    Ok(SignatureKeyPair { ciphersuite: cs, kem_id, sk, pk })
}

/// The signature scheme of each ciphersuite of the RFC 9420 registry is the
/// one its name carries: Ed25519 for codes 1 and 3, ECDSA over P-256, P-521
/// and P-384 for 2, 5 and 7; the Ed448 suites 4 and 6 and other codes have
/// none here.
pub proof fn lemma_registry_signers(code: u16)
    ensures
        is_ed25519_suite(named_ciphersuite(code)) <==> (code == 1 || code == 3),
        has_signer(named_ciphersuite(code)) <==> (code == 1 || code == 2 || code == 3 || code == 5 || code == 7),
{
}

} // verus!
