//! HPKE of the MLS ciphersuites: key pairs, and encryption to a public key
//! under a label.
use vstd::prelude::*;
use vstd::string::StringSliceAdditionalSpecFns;
use crate::suites::{NamedCiphersuite, UtilError, named_ciphersuite, suite_kem};
use crate::signatures::no_signer_error;
use crate::tls::{VL_MAX, labelled, encrypt_context_bytes};

verus! {

/// The public key of the DHKEM(X25519, HKDF-SHA256) secret key `sk`, when
/// `sk` is one.
pub uninterp spec fn x25519_kem_public_key(sk: Seq<u8>) -> Option<Seq<u8>>;

/// The public key of the DHKEM(P-256, HKDF-SHA256) secret key `sk`, when
/// `sk` is one.
pub uninterp spec fn p256_kem_public_key(sk: Seq<u8>) -> Option<Seq<u8>>;

/// The public key of the DHKEM(P-384, HKDF-SHA384) secret key `sk`, when
/// `sk` is one.
pub uninterp spec fn p384_kem_public_key(sk: Seq<u8>) -> Option<Seq<u8>>;

/// The public key of the DHKEM(P-521, HKDF-SHA512) secret key `sk`, when
/// `sk` is one.
pub uninterp spec fn p521_kem_public_key(sk: Seq<u8>) -> Option<Seq<u8>>;

/// What HPKE in base mode with DHKEM(X25519), HKDF-SHA256 and AES-128-GCM
/// opens from `ct` with the secret key `sk`, the encapsulated key `enc`,
/// `info` and `aad`; `None` when a key cannot be read or `ct` does not
/// open.
pub uninterp spec fn x25519_aes128_opened(sk: Seq<u8>, enc: Seq<u8>, info: Seq<u8>, aad: Seq<u8>, ct: Seq<u8>) -> Option<Seq<u8>>;

/// As `x25519_aes128_opened`, with ChaCha20-Poly1305.
pub uninterp spec fn x25519_chacha_opened(sk: Seq<u8>, enc: Seq<u8>, info: Seq<u8>, aad: Seq<u8>, ct: Seq<u8>) -> Option<Seq<u8>>;

/// As `x25519_aes128_opened`, with DHKEM(P-256).
pub uninterp spec fn p256_aes128_opened(sk: Seq<u8>, enc: Seq<u8>, info: Seq<u8>, aad: Seq<u8>, ct: Seq<u8>) -> Option<Seq<u8>>;

/// As `x25519_aes128_opened`, with DHKEM(P-384), HKDF-SHA384 and
/// AES-256-GCM.
pub uninterp spec fn p384_aes256_opened(sk: Seq<u8>, enc: Seq<u8>, info: Seq<u8>, aad: Seq<u8>, ct: Seq<u8>) -> Option<Seq<u8>>;

/// As `x25519_aes128_opened`, with DHKEM(P-521), HKDF-SHA512 and
/// AES-256-GCM.
pub uninterp spec fn p521_aes256_opened(sk: Seq<u8>, enc: Seq<u8>, info: Seq<u8>, aad: Seq<u8>, ct: Seq<u8>) -> Option<Seq<u8>>;

/// `PrivateKey::from_bytes` then `Kem::sk_to_pk` of hpke, for
/// DHKEM(X25519); the key is 32 bytes.
#[verifier::external_body]
fn x25519_kem_public_from(sk: &[u8]) -> (r: Result<Vec<u8>, hpke::HpkeError>)
    requires
        sk@.len() == 32,
    ensures
        match x25519_kem_public_key(sk@) {
            Some(pk) => r matches Ok(v) && v@ == pk,
            None => r is Err,
        },
{
    let sk = <<hpke::kem::X25519HkdfSha256 as hpke::Kem>::PrivateKey as hpke::Deserializable>::from_bytes(sk)?;
    let pk = <hpke::kem::X25519HkdfSha256 as hpke::Kem>::sk_to_pk(&sk);
    Ok(hpke::Serializable::to_bytes(&pk).to_vec())
}

/// As `x25519_kem_public_from`, for DHKEM(P-256); the key is 32 bytes.
#[verifier::external_body]
fn p256_kem_public_from(sk: &[u8]) -> (r: Result<Vec<u8>, hpke::HpkeError>)
    requires
        sk@.len() == 32,
    ensures
        match p256_kem_public_key(sk@) {
            Some(pk) => r matches Ok(v) && v@ == pk,
            None => r is Err,
        },
{
    let sk = <<hpke::kem::DhP256HkdfSha256 as hpke::Kem>::PrivateKey as hpke::Deserializable>::from_bytes(sk)?;
    let pk = <hpke::kem::DhP256HkdfSha256 as hpke::Kem>::sk_to_pk(&sk);
    Ok(hpke::Serializable::to_bytes(&pk).to_vec())
}

/// As `x25519_kem_public_from`, for DHKEM(P-384); the key is 48 bytes.
#[verifier::external_body]
fn p384_kem_public_from(sk: &[u8]) -> (r: Result<Vec<u8>, hpke::HpkeError>)
    requires
        sk@.len() == 48,
    ensures
        match p384_kem_public_key(sk@) {
            Some(pk) => r matches Ok(v) && v@ == pk,
            None => r is Err,
        },
{
    let sk = <<hpke::kem::DhP384HkdfSha384 as hpke::Kem>::PrivateKey as hpke::Deserializable>::from_bytes(sk)?;
    let pk = <hpke::kem::DhP384HkdfSha384 as hpke::Kem>::sk_to_pk(&sk);
    Ok(hpke::Serializable::to_bytes(&pk).to_vec())
}

/// As `x25519_kem_public_from`, for DHKEM(P-521); the key is 66 bytes.
#[verifier::external_body]
fn p521_kem_public_from(sk: &[u8]) -> (r: Result<Vec<u8>, hpke::HpkeError>)
    requires
        sk@.len() == 66,
    ensures
        match p521_kem_public_key(sk@) {
            Some(pk) => r matches Ok(v) && v@ == pk,
            None => r is Err,
        },
{
    let sk = <<hpke::kem::DhP521HkdfSha512 as hpke::Kem>::PrivateKey as hpke::Deserializable>::from_bytes(sk)?;
    let pk = <hpke::kem::DhP521HkdfSha512 as hpke::Kem>::sk_to_pk(&sk);
    Ok(hpke::Serializable::to_bytes(&pk).to_vec())
}

/// `Kem::gen_keypair` of hpke for DHKEM(X25519), from the thread's
/// generator: a 32-byte secret key and its public key.
#[verifier::external_body]
fn x25519_kem_generate() -> (r: (Vec<u8>, Vec<u8>))
    ensures
        r.0@.len() == 32,
        x25519_kem_public_key(r.0@) == Some(r.1@),
{
    let (sk, pk) = <hpke::kem::X25519HkdfSha256 as hpke::Kem>::gen_keypair(&mut rand::thread_rng());
    (hpke::Serializable::to_bytes(&sk).to_vec(), hpke::Serializable::to_bytes(&pk).to_vec())
}

/// As `x25519_kem_generate`, for DHKEM(P-256).
#[verifier::external_body]
fn p256_kem_generate() -> (r: (Vec<u8>, Vec<u8>))
    ensures
        r.0@.len() == 32,
        p256_kem_public_key(r.0@) == Some(r.1@),
{
    let (sk, pk) = <hpke::kem::DhP256HkdfSha256 as hpke::Kem>::gen_keypair(&mut rand::thread_rng());
    (hpke::Serializable::to_bytes(&sk).to_vec(), hpke::Serializable::to_bytes(&pk).to_vec())
}

/// As `x25519_kem_generate`, for DHKEM(P-384), with 48-byte secret keys.
#[verifier::external_body]
fn p384_kem_generate() -> (r: (Vec<u8>, Vec<u8>))
    ensures
        r.0@.len() == 48,
        p384_kem_public_key(r.0@) == Some(r.1@),
{
    let (sk, pk) = <hpke::kem::DhP384HkdfSha384 as hpke::Kem>::gen_keypair(&mut rand::thread_rng());
    (hpke::Serializable::to_bytes(&sk).to_vec(), hpke::Serializable::to_bytes(&pk).to_vec())
}

/// As `x25519_kem_generate`, for DHKEM(P-521), with 66-byte secret keys.
#[verifier::external_body]
fn p521_kem_generate() -> (r: (Vec<u8>, Vec<u8>))
    ensures
        r.0@.len() == 66,
        p521_kem_public_key(r.0@) == Some(r.1@),
{
    let (sk, pk) = <hpke::kem::DhP521HkdfSha512 as hpke::Kem>::gen_keypair(&mut rand::thread_rng());
    (hpke::Serializable::to_bytes(&sk).to_vec(), hpke::Serializable::to_bytes(&pk).to_vec())
}

/// `PublicKey::from_bytes` then `single_shot_seal` of hpke in base mode,
/// DHKEM(X25519), HKDF-SHA256, AES-128-GCM, from the thread's generator:
/// the encapsulated key and the ciphertext. They are random; what is claimed
/// is that opening them with any secret key of `pk`, under the same `info`
/// and `aad`, gives `pt` back, as hpke documents of `single_shot_open`.
#[verifier::external_body]
fn x25519_aes128_seal(pk: &[u8], info: &[u8], aad: &[u8], pt: &[u8]) -> (r: Result<(Vec<u8>, Vec<u8>), hpke::HpkeError>)
    ensures
        match r {
            Ok((enc, ct)) => forall|sk: Seq<u8>|
                #[trigger] x25519_kem_public_key(sk) == Some(pk@) ==> x25519_aes128_opened(sk, enc@, info@, aad@, ct@)
                    == Some(pt@),
            Err(_) => true,
        },
{
    let pk = <<hpke::kem::X25519HkdfSha256 as hpke::Kem>::PublicKey as hpke::Deserializable>::from_bytes(pk)?;
    let (enc, ct) = hpke::single_shot_seal::<hpke::aead::AesGcm128, hpke::kdf::HkdfSha256, hpke::kem::X25519HkdfSha256, _>(
        &hpke::OpModeS::Base, &pk, info, pt, aad, &mut rand::thread_rng())?;
    Ok((hpke::Serializable::to_bytes(&enc).to_vec(), ct))
}

/// As `x25519_aes128_seal`, with ChaCha20-Poly1305.
#[verifier::external_body]
fn x25519_chacha_seal(pk: &[u8], info: &[u8], aad: &[u8], pt: &[u8]) -> (r: Result<(Vec<u8>, Vec<u8>), hpke::HpkeError>)
    ensures
        match r {
            Ok((enc, ct)) => forall|sk: Seq<u8>|
                #[trigger] x25519_kem_public_key(sk) == Some(pk@) ==> x25519_chacha_opened(sk, enc@, info@, aad@, ct@)
                    == Some(pt@),
            Err(_) => true,
        },
{
    let pk = <<hpke::kem::X25519HkdfSha256 as hpke::Kem>::PublicKey as hpke::Deserializable>::from_bytes(pk)?;
    let (enc, ct) = hpke::single_shot_seal::<hpke::aead::ChaCha20Poly1305, hpke::kdf::HkdfSha256, hpke::kem::X25519HkdfSha256, _>(
        &hpke::OpModeS::Base, &pk, info, pt, aad, &mut rand::thread_rng())?;
    Ok((hpke::Serializable::to_bytes(&enc).to_vec(), ct))
}

/// As `x25519_aes128_seal`, with DHKEM(P-256).
#[verifier::external_body]
fn p256_aes128_seal(pk: &[u8], info: &[u8], aad: &[u8], pt: &[u8]) -> (r: Result<(Vec<u8>, Vec<u8>), hpke::HpkeError>)
    ensures
        match r {
            Ok((enc, ct)) => forall|sk: Seq<u8>|
                #[trigger] p256_kem_public_key(sk) == Some(pk@) ==> p256_aes128_opened(sk, enc@, info@, aad@, ct@)
                    == Some(pt@),
            Err(_) => true,
        },
{
    let pk = <<hpke::kem::DhP256HkdfSha256 as hpke::Kem>::PublicKey as hpke::Deserializable>::from_bytes(pk)?;
    let (enc, ct) = hpke::single_shot_seal::<hpke::aead::AesGcm128, hpke::kdf::HkdfSha256, hpke::kem::DhP256HkdfSha256, _>(
        &hpke::OpModeS::Base, &pk, info, pt, aad, &mut rand::thread_rng())?;
    Ok((hpke::Serializable::to_bytes(&enc).to_vec(), ct))
}

/// As `x25519_aes128_seal`, with DHKEM(P-384), HKDF-SHA384, AES-256-GCM.
#[verifier::external_body]
fn p384_aes256_seal(pk: &[u8], info: &[u8], aad: &[u8], pt: &[u8]) -> (r: Result<(Vec<u8>, Vec<u8>), hpke::HpkeError>)
    ensures
        match r {
            Ok((enc, ct)) => forall|sk: Seq<u8>|
                #[trigger] p384_kem_public_key(sk) == Some(pk@) ==> p384_aes256_opened(sk, enc@, info@, aad@, ct@)
                    == Some(pt@),
            Err(_) => true,
        },
{
    let pk = <<hpke::kem::DhP384HkdfSha384 as hpke::Kem>::PublicKey as hpke::Deserializable>::from_bytes(pk)?;
    let (enc, ct) = hpke::single_shot_seal::<hpke::aead::AesGcm256, hpke::kdf::HkdfSha384, hpke::kem::DhP384HkdfSha384, _>(
        &hpke::OpModeS::Base, &pk, info, pt, aad, &mut rand::thread_rng())?;
    Ok((hpke::Serializable::to_bytes(&enc).to_vec(), ct))
}

/// As `x25519_aes128_seal`, with DHKEM(P-521), HKDF-SHA512, AES-256-GCM.
#[verifier::external_body]
fn p521_aes256_seal(pk: &[u8], info: &[u8], aad: &[u8], pt: &[u8]) -> (r: Result<(Vec<u8>, Vec<u8>), hpke::HpkeError>)
    ensures
        match r {
            Ok((enc, ct)) => forall|sk: Seq<u8>|
                #[trigger] p521_kem_public_key(sk) == Some(pk@) ==> p521_aes256_opened(sk, enc@, info@, aad@, ct@)
                    == Some(pt@),
            Err(_) => true,
        },
{
    let pk = <<hpke::kem::DhP521HkdfSha512 as hpke::Kem>::PublicKey as hpke::Deserializable>::from_bytes(pk)?;
    let (enc, ct) = hpke::single_shot_seal::<hpke::aead::AesGcm256, hpke::kdf::HkdfSha512, hpke::kem::DhP521HkdfSha512, _>(
        &hpke::OpModeS::Base, &pk, info, pt, aad, &mut rand::thread_rng())?;
    Ok((hpke::Serializable::to_bytes(&enc).to_vec(), ct))
}

/// `EncappedKey::from_bytes`, `PrivateKey::from_bytes` then
/// `single_shot_open` of hpke in base mode, DHKEM(X25519), HKDF-SHA256,
/// AES-128-GCM: named by `x25519_aes128_opened`.
#[verifier::external_body]
fn x25519_aes128_open(sk: &[u8], enc: &[u8], info: &[u8], aad: &[u8], ct: &[u8]) -> (r: Result<Vec<u8>, hpke::HpkeError>)
    ensures
        match x25519_aes128_opened(sk@, enc@, info@, aad@, ct@) {
            Some(pt) => r matches Ok(v) && v@ == pt,
            None => r is Err,
        },
{
    let enc = <<hpke::kem::X25519HkdfSha256 as hpke::Kem>::EncappedKey as hpke::Deserializable>::from_bytes(enc)?;
    let sk = <<hpke::kem::X25519HkdfSha256 as hpke::Kem>::PrivateKey as hpke::Deserializable>::from_bytes(sk)?;
    hpke::single_shot_open::<hpke::aead::AesGcm128, hpke::kdf::HkdfSha256, hpke::kem::X25519HkdfSha256>(
        &hpke::OpModeR::Base, &sk, &enc, info, ct, aad)
}

/// As `x25519_aes128_open`, with ChaCha20-Poly1305: named by
/// `x25519_chacha_opened`.
#[verifier::external_body]
fn x25519_chacha_open(sk: &[u8], enc: &[u8], info: &[u8], aad: &[u8], ct: &[u8]) -> (r: Result<Vec<u8>, hpke::HpkeError>)
    ensures
        match x25519_chacha_opened(sk@, enc@, info@, aad@, ct@) {
            Some(pt) => r matches Ok(v) && v@ == pt,
            None => r is Err,
        },
{
    let enc = <<hpke::kem::X25519HkdfSha256 as hpke::Kem>::EncappedKey as hpke::Deserializable>::from_bytes(enc)?;
    let sk = <<hpke::kem::X25519HkdfSha256 as hpke::Kem>::PrivateKey as hpke::Deserializable>::from_bytes(sk)?;
    hpke::single_shot_open::<hpke::aead::ChaCha20Poly1305, hpke::kdf::HkdfSha256, hpke::kem::X25519HkdfSha256>(
        &hpke::OpModeR::Base, &sk, &enc, info, ct, aad)
}

/// As `x25519_aes128_open`, with DHKEM(P-256): named by
/// `p256_aes128_opened`.
#[verifier::external_body]
fn p256_aes128_open(sk: &[u8], enc: &[u8], info: &[u8], aad: &[u8], ct: &[u8]) -> (r: Result<Vec<u8>, hpke::HpkeError>)
    ensures
        match p256_aes128_opened(sk@, enc@, info@, aad@, ct@) {
            Some(pt) => r matches Ok(v) && v@ == pt,
            None => r is Err,
        },
{
    let enc = <<hpke::kem::DhP256HkdfSha256 as hpke::Kem>::EncappedKey as hpke::Deserializable>::from_bytes(enc)?;
    let sk = <<hpke::kem::DhP256HkdfSha256 as hpke::Kem>::PrivateKey as hpke::Deserializable>::from_bytes(sk)?;
    hpke::single_shot_open::<hpke::aead::AesGcm128, hpke::kdf::HkdfSha256, hpke::kem::DhP256HkdfSha256>(
        &hpke::OpModeR::Base, &sk, &enc, info, ct, aad)
}

/// As `x25519_aes128_open`, with DHKEM(P-384), HKDF-SHA384, AES-256-GCM:
/// named by `p384_aes256_opened`.
#[verifier::external_body]
fn p384_aes256_open(sk: &[u8], enc: &[u8], info: &[u8], aad: &[u8], ct: &[u8]) -> (r: Result<Vec<u8>, hpke::HpkeError>)
    ensures
        match p384_aes256_opened(sk@, enc@, info@, aad@, ct@) {
            Some(pt) => r matches Ok(v) && v@ == pt,
            None => r is Err,
        },
{
    let enc = <<hpke::kem::DhP384HkdfSha384 as hpke::Kem>::EncappedKey as hpke::Deserializable>::from_bytes(enc)?;
    let sk = <<hpke::kem::DhP384HkdfSha384 as hpke::Kem>::PrivateKey as hpke::Deserializable>::from_bytes(sk)?;
    hpke::single_shot_open::<hpke::aead::AesGcm256, hpke::kdf::HkdfSha384, hpke::kem::DhP384HkdfSha384>(
        &hpke::OpModeR::Base, &sk, &enc, info, ct, aad)
}

/// As `x25519_aes128_open`, with DHKEM(P-521), HKDF-SHA512, AES-256-GCM:
/// named by `p521_aes256_opened`.
#[verifier::external_body]
fn p521_aes256_open(sk: &[u8], enc: &[u8], info: &[u8], aad: &[u8], ct: &[u8]) -> (r: Result<Vec<u8>, hpke::HpkeError>)
    ensures
        match p521_aes256_opened(sk@, enc@, info@, aad@, ct@) {
            Some(pt) => r matches Ok(v) && v@ == pt,
            None => r is Err,
        },
{
    let enc = <<hpke::kem::DhP521HkdfSha512 as hpke::Kem>::EncappedKey as hpke::Deserializable>::from_bytes(enc)?;
    let sk = <<hpke::kem::DhP521HkdfSha512 as hpke::Kem>::PrivateKey as hpke::Deserializable>::from_bytes(sk)?;
    hpke::single_shot_open::<hpke::aead::AesGcm256, hpke::kdf::HkdfSha512, hpke::kem::DhP521HkdfSha512>(
        &hpke::OpModeR::Base, &sk, &enc, info, ct, aad)
}

/// The ciphersuite has an HPKE suite here.
pub open spec fn has_hpke(c: NamedCiphersuite) -> bool {
    c == NamedCiphersuite::Mls128DHKemX25519AesGcm128Sha256 || c
        == NamedCiphersuite::Mls128DHKemX25519ChaCha20Poly1305Sha256 || c
        == NamedCiphersuite::Mls128DHKemP256AesGcm128Sha256 || c == NamedCiphersuite::Mls256DHKemP384AesGcm256Sha384
        || c == NamedCiphersuite::Mls256DHKemP521AesGcm256Sha512
}

/// The size of a secret key of the ciphersuite's KEM.
pub open spec fn kem_secret_len(c: NamedCiphersuite) -> nat {
    match c {
        NamedCiphersuite::Mls256DHKemP384AesGcm256Sha384 => 48,
        NamedCiphersuite::Mls256DHKemP521AesGcm256Sha512 => 66,
        _ => 32,
    }
}

/// The public key the ciphersuite's KEM derives from the secret key `sk`.
pub open spec fn kem_public_key(c: NamedCiphersuite, sk: Seq<u8>) -> Option<Seq<u8>> {
    match c {
        NamedCiphersuite::Mls128DHKemP256AesGcm128Sha256 => p256_kem_public_key(sk),
        NamedCiphersuite::Mls256DHKemP384AesGcm256Sha384 => p384_kem_public_key(sk),
        NamedCiphersuite::Mls256DHKemP521AesGcm256Sha512 => p521_kem_public_key(sk),
        _ => x25519_kem_public_key(sk),
    }
}

/// What the ciphersuite's HPKE opens, with no additional data.
pub open spec fn hpke_opened(c: NamedCiphersuite, sk: Seq<u8>, enc: Seq<u8>, info: Seq<u8>, ct: Seq<u8>) -> Option<
    Seq<u8>,
> {
    match c {
        NamedCiphersuite::Mls128DHKemX25519ChaCha20Poly1305Sha256 => x25519_chacha_opened(
            sk,
            enc,
            info,
            Seq::empty(),
            ct,
        ),
        NamedCiphersuite::Mls128DHKemP256AesGcm128Sha256 => p256_aes128_opened(sk, enc, info, Seq::empty(), ct),
        NamedCiphersuite::Mls256DHKemP384AesGcm256Sha384 => p384_aes256_opened(sk, enc, info, Seq::empty(), ct),
        NamedCiphersuite::Mls256DHKemP521AesGcm256Sha512 => p521_aes256_opened(sk, enc, info, Seq::empty(), ct),
        _ => x25519_aes128_opened(sk, enc, info, Seq::empty(), ct),
    }
}

/// The bytes `b` preceded by zeros up to `n` bytes.
pub open spec fn left_pad(b: Seq<u8>, n: nat) -> Seq<u8> {
    Seq::new((n - b.len()) as nat, |i: int| 0u8) + b
}

/// `b` preceded by zeros up to `n` bytes.
fn left_padded(b: &[u8], n: usize) -> (r: Vec<u8>)
    requires
        b@.len() <= n,
    ensures
        r@ == left_pad(b@, n as nat),
{
    let mut out: Vec<u8> = Vec::new();
    let zeros = n - b.len();
    let mut i: usize = 0;
    while i < zeros
        invariant
            i <= zeros,
            out@ == Seq::new(i as nat, |j: int| 0u8),
        decreases zeros - i,
    {
        out.push(0u8);
        i += 1;
        assert(out@ =~= Seq::new(i as nat, |j: int| 0u8));
    }
    let ghost pad = out@;
    let mut k: usize = 0;
    while k < b.len()
        invariant
            k <= b@.len(),
            out@ == pad + b@.take(k as int),
        decreases b@.len() - k,
    {
        out.push(b[k]);
        k += 1;
        assert(out@ =~= pad + b@.take(k as int));
    }
    assert(b@.take(b@.len() as int) =~= b@);
    out
}

/// An HPKE key pair of a ciphersuite.
#[derive(Debug)]
pub struct HpkeKeyPair {
    pub kem_id: u16,
    pub ciphersuite: u16,
    pub pk: Vec<u8>,
    pub sk: Vec<u8>,
}

/// What HPKE seals: the encapsulated key and the ciphertext.
#[derive(Debug)]
pub struct HpkeCiphertext {
    pub kem_output: Vec<u8>,
    pub ciphertext: Vec<u8>,
}

/// Draws a fresh HPKE key pair for the ciphersuite's KEM from the thread's
/// generator: its public key is the one the KEM derives from its secret
/// key.
pub fn generate_hpke_keypair(cs: u16) -> (r: Result<HpkeKeyPair, UtilError>)
    ensures
        has_hpke(named_ciphersuite(cs)) ==> (r matches Ok(kp) && kp.ciphersuite == cs && Some(kp.kem_id)
            == suite_kem(named_ciphersuite(cs)) && kp.sk@.len() == kem_secret_len(named_ciphersuite(cs))
            && kem_public_key(named_ciphersuite(cs), kp.sk@) == Some(kp.pk@)),
        !has_hpke(named_ciphersuite(cs)) ==> r == Err::<HpkeKeyPair, UtilError>(
            no_signer_error(named_ciphersuite(cs), cs),
        ),
{
    let named = NamedCiphersuite::from_code(cs);
    let ((sk, pk), kem_id) = match named {
        NamedCiphersuite::Mls128DHKemX25519AesGcm128Sha256
        | NamedCiphersuite::Mls128DHKemX25519ChaCha20Poly1305Sha256 => (x25519_kem_generate(), 0x0020u16),
        NamedCiphersuite::Mls128DHKemP256AesGcm128Sha256 => (p256_kem_generate(), 0x0010u16),
        NamedCiphersuite::Mls256DHKemP384AesGcm256Sha384 => (p384_kem_generate(), 0x0011u16),
        NamedCiphersuite::Mls256DHKemP521AesGcm256Sha512 => (p521_kem_generate(), 0x0012u16),
        NamedCiphersuite::Unsupported(c) => {
            return Err(UtilError::UnsupportedCiphersuite(c));
        },
        _ => {
            return Err(UtilError::UnknownCiphersuite(cs));
        },
    };
    Ok(HpkeKeyPair { kem_id, ciphersuite: cs, pk, sk })
}

/// The public key of an HPKE secret key of the ciphersuite's KEM; a key
/// shorter than the KEM's takes leading zeros.
pub fn hpke_public_key_from_private_key(cs: u16, private_key: &[u8]) -> (r: Result<Vec<u8>, UtilError>)
    requires
        has_hpke(named_ciphersuite(cs)) ==> private_key@.len() <= kem_secret_len(named_ciphersuite(cs)),
    ensures
        has_hpke(named_ciphersuite(cs)) ==> match kem_public_key(
            named_ciphersuite(cs),
            left_pad(private_key@, kem_secret_len(named_ciphersuite(cs))),
        ) {
            Some(pk) => r matches Ok(v) && v@ == pk,
            None => r matches Err(UtilError::HpkeError(_)),
        },
        !has_hpke(named_ciphersuite(cs)) ==> r == Err::<Vec<u8>, UtilError>(
            no_signer_error(named_ciphersuite(cs), cs),
        ),
{
    let named = NamedCiphersuite::from_code(cs);
    let derived = match named {
        NamedCiphersuite::Mls128DHKemX25519AesGcm128Sha256
        | NamedCiphersuite::Mls128DHKemX25519ChaCha20Poly1305Sha256 => {
            let sk = left_padded(private_key, 32);
            x25519_kem_public_from(sk.as_slice())
        },
        NamedCiphersuite::Mls128DHKemP256AesGcm128Sha256 => {
            let sk = left_padded(private_key, 32);
            p256_kem_public_from(sk.as_slice())
        },
        NamedCiphersuite::Mls256DHKemP384AesGcm256Sha384 => {
            let sk = left_padded(private_key, 48);
            p384_kem_public_from(sk.as_slice())
        },
        NamedCiphersuite::Mls256DHKemP521AesGcm256Sha512 => {
            let sk = left_padded(private_key, 66);
            p521_kem_public_from(sk.as_slice())
        },
        NamedCiphersuite::Unsupported(c) => {
            return Err(UtilError::UnsupportedCiphersuite(c));
        },
        _ => {
            return Err(UtilError::UnknownCiphersuite(cs));
        },
    };
    match derived {
        Ok(pk) => Ok(pk),
        Err(e) => Err(UtilError::HpkeError(e)),
    }
}

/// What is encrypted to under a label: the label and the context, each as
/// an MLS variable-length vector; it is HPKE's `info`.
pub open spec fn encrypt_context(label: &str, context: Seq<u8>) -> Seq<u8> {
    labelled(label.spec_bytes(), context)
}

/// Encrypts `plaintext` to `public_key` under `label` and `context` with
/// the ciphersuite's HPKE in base mode and no additional data. The result
/// is random; whatever it is, decrypting it with a secret key of
/// `public_key` under the same label and context gives `plaintext` back.
pub fn encrypt_with_label(cs: u16, public_key: &[u8], label: &str, context: &[u8], plaintext: &[u8]) -> (r: Result<
    HpkeCiphertext,
    UtilError,
>)
    requires
        label.spec_bytes().len() <= VL_MAX,
        context@.len() <= VL_MAX,
    ensures
        has_hpke(named_ciphersuite(cs)) ==> match r {
            Ok(ct) => forall|sk: Seq<u8>|
                #[trigger] kem_public_key(named_ciphersuite(cs), sk) == Some(public_key@) ==> hpke_opened(
                    named_ciphersuite(cs),
                    sk,
                    ct.kem_output@,
                    encrypt_context(label, context@),
                    ct.ciphertext@,
                ) == Some(plaintext@),
            Err(e) => e is HpkeError,
        },
        !has_hpke(named_ciphersuite(cs)) ==> r == Err::<HpkeCiphertext, UtilError>(
            no_signer_error(named_ciphersuite(cs), cs),
        ),
{
    let info = match encrypt_context_bytes(label, context) {
        Ok(info) => info,
        Err(e) => {
            return Err(UtilError::MlsSpecError(e));
        },
    };
    let no_aad: [u8; 0] = [];
    assert(no_aad@ =~= Seq::<u8>::empty());
    let named = NamedCiphersuite::from_code(cs);
    let sealed = match named {
        NamedCiphersuite::Mls128DHKemX25519AesGcm128Sha256 => {
            let s = x25519_aes128_seal(public_key, info.as_slice(), &no_aad, plaintext);
            proof {
                if let Ok((e, c)) = &s {
                    assert forall|sk: Seq<u8>| #[trigger]
                        kem_public_key(named, sk) == Some(public_key@) implies hpke_opened(
                        named,
                        sk,
                        e@,
                        info@,
                        c@,
                    ) == Some(plaintext@) by {}
                }
            }
            s
        },
        NamedCiphersuite::Mls128DHKemX25519ChaCha20Poly1305Sha256 => {
            let s = x25519_chacha_seal(public_key, info.as_slice(), &no_aad, plaintext);
            proof {
                if let Ok((e, c)) = &s {
                    assert forall|sk: Seq<u8>| #[trigger]
                        kem_public_key(named, sk) == Some(public_key@) implies hpke_opened(
                        named,
                        sk,
                        e@,
                        info@,
                        c@,
                    ) == Some(plaintext@) by {}
                }
            }
            s
        },
        NamedCiphersuite::Mls128DHKemP256AesGcm128Sha256 => {
            let s = p256_aes128_seal(public_key, info.as_slice(), &no_aad, plaintext);
            proof {
                if let Ok((e, c)) = &s {
                    assert forall|sk: Seq<u8>| #[trigger]
                        kem_public_key(named, sk) == Some(public_key@) implies hpke_opened(
                        named,
                        sk,
                        e@,
                        info@,
                        c@,
                    ) == Some(plaintext@) by {}
                }
            }
            s
        },
        NamedCiphersuite::Mls256DHKemP521AesGcm256Sha512 => {
            let s = p521_aes256_seal(public_key, info.as_slice(), &no_aad, plaintext);
            proof {
                if let Ok((e, c)) = &s {
                    assert forall|sk: Seq<u8>| #[trigger]
                        kem_public_key(named, sk) == Some(public_key@) implies hpke_opened(
                        named,
                        sk,
                        e@,
                        info@,
                        c@,
                    ) == Some(plaintext@) by {}
                }
            }
            s
        },
        NamedCiphersuite::Mls256DHKemP384AesGcm256Sha384 => {
            let s = p384_aes256_seal(public_key, info.as_slice(), &no_aad, plaintext);
            proof {
                if let Ok((e, c)) = &s {
                    assert forall|sk: Seq<u8>| #[trigger]
                        kem_public_key(named, sk) == Some(public_key@) implies hpke_opened(
                        named,
                        sk,
                        e@,
                        info@,
                        c@,
                    ) == Some(plaintext@) by {}
                }
            }
            s
        },
        NamedCiphersuite::Unsupported(c) => {
            return Err(UtilError::UnsupportedCiphersuite(c));
        },
        _ => {
            return Err(UtilError::UnknownCiphersuite(cs));
        },
    };
    match sealed {
        Ok((kem_output, ciphertext)) => Ok(HpkeCiphertext { kem_output, ciphertext }),
        Err(e) => Err(UtilError::HpkeError(e)),
    }
}

/// Decrypts `ciphertext` with `private_key` and the encapsulated key
/// `kem_output` under `label` and `context`, with the ciphersuite's HPKE in
/// base mode and no additional data.
pub fn decrypt_with_label(
    cs: u16,
    private_key: &[u8],
    label: &str,
    context: &[u8],
    kem_output: &[u8],
    ciphertext: &[u8],
) -> (r: Result<Vec<u8>, UtilError>)
    requires
        label.spec_bytes().len() <= VL_MAX,
        context@.len() <= VL_MAX,
    ensures
        has_hpke(named_ciphersuite(cs)) ==> match hpke_opened(
            named_ciphersuite(cs),
            private_key@,
            kem_output@,
            encrypt_context(label, context@),
            ciphertext@,
        ) {
            Some(pt) => r matches Ok(v) && v@ == pt,
            None => r matches Err(UtilError::HpkeError(_)),
        },
        !has_hpke(named_ciphersuite(cs)) ==> r == Err::<Vec<u8>, UtilError>(
            no_signer_error(named_ciphersuite(cs), cs),
        ),
{
    let info = match encrypt_context_bytes(label, context) {
        Ok(info) => info,
        Err(e) => {
            return Err(UtilError::MlsSpecError(e));
        },
    };
    let no_aad: [u8; 0] = [];
    proof {
        assert(no_aad@ =~= Seq::<u8>::empty());
    }
    let named = NamedCiphersuite::from_code(cs);
    let opened = match named {
        NamedCiphersuite::Mls128DHKemX25519AesGcm128Sha256 => x25519_aes128_open(
            private_key,
            kem_output,
            info.as_slice(),
            &no_aad,
            ciphertext,
        ),
        NamedCiphersuite::Mls128DHKemX25519ChaCha20Poly1305Sha256 => x25519_chacha_open(
            private_key,
            kem_output,
            info.as_slice(),
            &no_aad,
            ciphertext,
        ),
        NamedCiphersuite::Mls128DHKemP256AesGcm128Sha256 => p256_aes128_open(
            private_key,
            kem_output,
            info.as_slice(),
            &no_aad,
            ciphertext,
        ),
        NamedCiphersuite::Mls256DHKemP521AesGcm256Sha512 => p521_aes256_open(
            private_key,
            kem_output,
            info.as_slice(),
            &no_aad,
            ciphertext,
        ),
        NamedCiphersuite::Mls256DHKemP384AesGcm256Sha384 => p384_aes256_open(
            private_key,
            kem_output,
            info.as_slice(),
            &no_aad,
            ciphertext,
        ),
        NamedCiphersuite::Unsupported(c) => {
            return Err(UtilError::UnsupportedCiphersuite(c));
        },
        _ => {
            return Err(UtilError::UnknownCiphersuite(cs));
        },
    };
    match opened {
        Ok(pt) => Ok(pt),
        Err(e) => Err(UtilError::HpkeError(e)),
    }
}

/// HPKE is available exactly for the ciphersuites of the RFC 9420 registry
/// with an X25519, P-256, P-384 or P-521 KEM: codes 1, 2, 3, 5 and 7, whose
/// secret keys are 32, 32, 32, 66 and 48 bytes long.
pub proof fn lemma_registry_hpke(code: u16)
    ensures
        has_hpke(named_ciphersuite(code)) <==> (code == 1 || code == 2 || code == 3 || code == 5 || code == 7),
        (code == 1 || code == 2 || code == 3) ==> kem_secret_len(named_ciphersuite(code)) == 32,
        code == 5 ==> kem_secret_len(named_ciphersuite(code)) == 66,
        code == 7 ==> kem_secret_len(named_ciphersuite(code)) == 48,
{
}

} // verus!
