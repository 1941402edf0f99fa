//! Ciphersuites and their hash functions, and the base58 form of MIMI URIs.
use vstd::prelude::*;
use crate::digest::{sha256, sha256_digest};
use crate::validations::ValidationError;
use crate::tls::{VL_MAX, labelled, hash_reference_bytes};
use vstd::string::StringSliceAdditionalSpecFns;

verus! {

/// SHA-384 of `b`.
pub uninterp spec fn sha384(b: Seq<u8>) -> Seq<u8>;

/// SHA-512 of `b`.
pub uninterp spec fn sha512(b: Seq<u8>) -> Seq<u8>;

/// `Sha384::digest` of sha2; its result is named by `sha384` and is 48
/// bytes long.
#[verifier::external_body]
fn sha384_digest(b: &[u8]) -> (r: Vec<u8>)
    ensures
        r@ == sha384(b@),
        r@.len() == 48,
{
    <sha2::Sha384 as sha2::Digest>::digest(b).to_vec()
}

/// `Sha512::digest` of sha2; its result is named by `sha512` and is 64
/// bytes long.
#[verifier::external_body]
fn sha512_digest(b: &[u8]) -> (r: Vec<u8>)
    ensures
        r@ == sha512(b@),
        r@.len() == 64,
{
    <sha2::Sha512 as sha2::Digest>::digest(b).to_vec()
}

/// HMAC of `msg` under `key` with SHA-256, SHA-384 or SHA-512.
pub uninterp spec fn hmac_sha256(key: Seq<u8>, msg: Seq<u8>) -> Seq<u8>;

pub uninterp spec fn hmac_sha384(key: Seq<u8>, msg: Seq<u8>) -> Seq<u8>;

pub uninterp spec fn hmac_sha512(key: Seq<u8>, msg: Seq<u8>) -> Seq<u8>;

/// `SimpleHmac::<Sha256>` of hmac over `msg`: keyed with `new_from_slice`,
/// which takes keys of any length, and finalized; named by `hmac_sha256`,
/// and as long as the hash's output.
#[verifier::external_body]
fn hmac_sha256_tag(key: &[u8], msg: &[u8]) -> (r: Vec<u8>)
    ensures
        r@ == hmac_sha256(key@, msg@),
        r@.len() == 32,
{
    let mut mac = <hmac::SimpleHmac<sha2::Sha256> as hmac::digest::KeyInit>::new_from_slice(key).unwrap();
    hmac::Mac::update(&mut mac, msg);
    hmac::digest::FixedOutput::finalize_fixed(mac).to_vec()
}

/// As `hmac_sha256_tag`, with SHA-384.
#[verifier::external_body]
fn hmac_sha384_tag(key: &[u8], msg: &[u8]) -> (r: Vec<u8>)
    ensures
        r@ == hmac_sha384(key@, msg@),
        r@.len() == 48,
{
    let mut mac = <hmac::SimpleHmac<sha2::Sha384> as hmac::digest::KeyInit>::new_from_slice(key).unwrap();
    hmac::Mac::update(&mut mac, msg);
    hmac::digest::FixedOutput::finalize_fixed(mac).to_vec()
}

/// As `hmac_sha256_tag`, with SHA-512.
#[verifier::external_body]
fn hmac_sha512_tag(key: &[u8], msg: &[u8]) -> (r: Vec<u8>)
    ensures
        r@ == hmac_sha512(key@, msg@),
        r@.len() == 64,
{
    let mut mac = <hmac::SimpleHmac<sha2::Sha512> as hmac::digest::KeyInit>::new_from_slice(key).unwrap();
    hmac::Mac::update(&mut mac, msg);
    hmac::digest::FixedOutput::finalize_fixed(mac).to_vec()
}

/// `Mac::verify_slice` of hmac with SHA-256: whether `tag` is the tag of
/// `msg` under `key`, compared in constant time.
#[verifier::external_body]
fn hmac_sha256_verify(key: &[u8], msg: &[u8], tag: &[u8]) -> (r: bool)
    ensures
        r == (tag@ == hmac_sha256(key@, msg@)),
{
    let mut mac = <hmac::SimpleHmac<sha2::Sha256> as hmac::digest::KeyInit>::new_from_slice(key).unwrap();
    hmac::Mac::update(&mut mac, msg);
    hmac::Mac::verify_slice(mac, tag).is_ok()
}

/// As `hmac_sha256_verify`, with SHA-384.
#[verifier::external_body]
fn hmac_sha384_verify(key: &[u8], msg: &[u8], tag: &[u8]) -> (r: bool)
    ensures
        r == (tag@ == hmac_sha384(key@, msg@)),
{
    let mut mac = <hmac::SimpleHmac<sha2::Sha384> as hmac::digest::KeyInit>::new_from_slice(key).unwrap();
    hmac::Mac::update(&mut mac, msg);
    hmac::Mac::verify_slice(mac, tag).is_ok()
}

/// As `hmac_sha256_verify`, with SHA-512.
#[verifier::external_body]
fn hmac_sha512_verify(key: &[u8], msg: &[u8], tag: &[u8]) -> (r: bool)
    ensures
        r == (tag@ == hmac_sha512(key@, msg@)),
{
    let mut mac = <hmac::SimpleHmac<sha2::Sha512> as hmac::digest::KeyInit>::new_from_slice(key).unwrap();
    hmac::Mac::update(&mut mac, msg);
    hmac::Mac::verify_slice(mac, tag).is_ok()
}

#[verifier::external_type_specification]
#[verifier::external_body]
pub struct ExRandError(rand::Error);

/// `Fill::try_fill` of rand on `n` bytes from the thread's generator. Only
/// the length of what it gives is claimed.
#[verifier::external_body]
fn random_bytes(n: usize) -> (r: Result<Vec<u8>, rand::Error>)
    ensures
        r matches Ok(v) ==> v@.len() == n,
{
    let mut key = vec![0u8; n];
    rand::Fill::try_fill(key.as_mut_slice(), &mut rand::thread_rng())?;
    Ok(key)
}

#[verifier::external_type_specification]
#[verifier::external_body]
pub struct ExBs58DecodeError(bs58::decode::Error);

#[verifier::external_type_specification]
#[verifier::external_body]
pub struct ExFromUtf8Error(std::string::FromUtf8Error);

#[verifier::external_type_specification]
#[verifier::external_body]
pub struct ExMlsSpecError(mls_spec::MlsSpecError);

#[verifier::external_type_specification]
#[verifier::external_body]
pub struct ExTryFromSliceError(std::array::TryFromSliceError);

#[verifier::external_type_specification]
#[verifier::external_body]
pub struct ExSignatureError(signature::Error);

#[verifier::external_type_specification]
#[verifier::external_body]
pub struct ExHpkeError(hpke::HpkeError);

/// Base58 of `b` in Flickr's alphabet.
pub uninterp spec fn bs58_flickr(b: Seq<u8>) -> Seq<char>;

/// What decoding `s` from base58 in Flickr's alphabet gives: the bytes, or
/// `None` where `s` holds a character outside the alphabet.
pub uninterp spec fn bs58_flickr_decoded(s: Seq<char>) -> Option<Seq<u8>>;

/// A character of the Flickr base58 alphabet: the digits but `0`, the
/// lower-case letters but `l`, the upper-case letters but `I` and `O`.
pub open spec fn flickr_char(c: char) -> bool {
    ||| ('1' <= c <= '9')
    ||| ('a' <= c <= 'z' && c != 'l')
    ||| ('A' <= c <= 'Z' && c != 'I' && c != 'O')
}

/// `bs58::encode(..).with_alphabet(FLICKR).into_string()`; its result is
/// named by `bs58_flickr`, decoding it gives the bytes back, and it is
/// written in the Flickr alphabet.
#[verifier::external_body]
pub fn encode_slice(data: &[u8]) -> (r: String)
    ensures
        r@ == bs58_flickr(data@),
        bs58_flickr_decoded(r@) == Some(data@),
        forall|i: int| 0 <= i < r@.len() ==> flickr_char(#[trigger] r@[i]),
{
    bs58::encode(data).with_alphabet(bs58::Alphabet::FLICKR).into_string()
}

/// `bs58::decode(..).with_alphabet(FLICKR).into_vec()`; its result is named
/// by `bs58_flickr_decoded`.
#[verifier::external_body]
fn bs58_decode(data: &str) -> (r: Result<Vec<u8>, bs58::decode::Error>)
    ensures
        match r {
            Ok(v) => bs58_flickr_decoded(data@) == Some(v@),
            Err(_) => bs58_flickr_decoded(data@) is None,
        },
{
    bs58::decode(data).with_alphabet(bs58::Alphabet::FLICKR).into_vec()
}

/// `String::from_utf8` of std: the text whose UTF-8 encoding is `v`, where
/// `v` is valid UTF-8.
#[verifier::external_body]
fn string_from_utf8(v: Vec<u8>) -> (r: Result<String, std::string::FromUtf8Error>)
    ensures
        match r {
            Ok(s) => vstd::utf8::valid_utf8(v@) && s@ == vstd::utf8::decode_utf8(v@),
            Err(_) => !vstd::utf8::valid_utf8(v@),
        },
{
    String::from_utf8(v)
}

/// The MLS ciphersuites by name.
#[derive(Debug, Clone, Copy, PartialEq, Eq, Structural)]
pub enum NamedCiphersuite {
    Mls128DHKemX25519AesGcm128Sha256,
    Mls128DHKemP256AesGcm128Sha256,
    Mls128DHKemX25519ChaCha20Poly1305Sha256,
    Mls256DHKemX448AesGcm256Sha12,
    Mls256DHKemP521AesGcm256Sha512,
    Mls256DHKemX448ChaCha20Poly1305Sha512,
    Mls256DHKemP384AesGcm256Sha384,
    Unsupported(u16),
    Unknown(u16),
}

#[derive(Debug, Clone, Copy, PartialEq, Eq, Structural)]
pub enum HashAlg {
    Sha256,
    Sha384,
    Sha512,
}

/// What can go wrong in the MLS helpers.
#[derive(Debug)]
pub enum UtilError {
    BaseDecode58Error(bs58::decode::Error),
    UnknownCiphersuite(u16),
    UnsupportedCiphersuite(u16),
    UnsupportedHashAlg(NamedCiphersuite),
    Utf8Error(std::string::FromUtf8Error),
    InvalidHmacKey { alg: HashAlg, expected: usize, actual: usize },
    RngError(rand::Error),
    ApiMisuse(&'static str),
    InvalidOrMissingContentType,
    UnsupportedWireFormat(u16),
    ExternalSenderNotFound,
    ProposalTypeInvalidInExternalProposal(u16),
    ValidationError(ValidationError),
    InvalidSignature,
    MlsSpecError(mls_spec::MlsSpecError),
    TryFromSliceError(std::array::TryFromSliceError),
    SignatureError(signature::Error),
    HpkeError(hpke::HpkeError),
}

pub type UtilResult<T> = Result<T, UtilError>;

/// The ciphersuite a code names.
pub open spec fn named_ciphersuite(value: u16) -> NamedCiphersuite {
    match value {
        0x0001 => NamedCiphersuite::Mls128DHKemX25519AesGcm128Sha256,
        0x0002 => NamedCiphersuite::Mls128DHKemP256AesGcm128Sha256,
        0x0003 => NamedCiphersuite::Mls128DHKemX25519ChaCha20Poly1305Sha256,
        0x0004 => NamedCiphersuite::Mls256DHKemX448AesGcm256Sha12,
        0x0005 => NamedCiphersuite::Mls256DHKemP521AesGcm256Sha512,
        0x0006 => NamedCiphersuite::Mls256DHKemX448ChaCha20Poly1305Sha512,
        0x0007 => NamedCiphersuite::Mls256DHKemP384AesGcm256Sha384,
        v => NamedCiphersuite::Unknown(v),
    }
}

/// The code of a ciphersuite.
pub open spec fn ciphersuite_code(c: NamedCiphersuite) -> u16 {
    match c {
        NamedCiphersuite::Mls128DHKemX25519AesGcm128Sha256 => 0x0001,
        NamedCiphersuite::Mls128DHKemP256AesGcm128Sha256 => 0x0002,
        NamedCiphersuite::Mls128DHKemX25519ChaCha20Poly1305Sha256 => 0x0003,
        NamedCiphersuite::Mls256DHKemX448AesGcm256Sha12 => 0x0004,
        NamedCiphersuite::Mls256DHKemP521AesGcm256Sha512 => 0x0005,
        NamedCiphersuite::Mls256DHKemX448ChaCha20Poly1305Sha512 => 0x0006,
        NamedCiphersuite::Mls256DHKemP384AesGcm256Sha384 => 0x0007,
        NamedCiphersuite::Unsupported(v) => v,
        NamedCiphersuite::Unknown(v) => v,
    }
}

/// The hash function of a ciphersuite, where it has a supported one.
pub open spec fn suite_hash(c: NamedCiphersuite) -> Option<HashAlg> {
    match c {
        NamedCiphersuite::Mls128DHKemX25519AesGcm128Sha256 => Some(HashAlg::Sha256),
        NamedCiphersuite::Mls128DHKemP256AesGcm128Sha256 => Some(HashAlg::Sha256),
        NamedCiphersuite::Mls128DHKemX25519ChaCha20Poly1305Sha256 => Some(HashAlg::Sha256),
        NamedCiphersuite::Mls256DHKemX448AesGcm256Sha12 => Some(HashAlg::Sha512),
        NamedCiphersuite::Mls256DHKemP521AesGcm256Sha512 => Some(HashAlg::Sha512),
        NamedCiphersuite::Mls256DHKemX448ChaCha20Poly1305Sha512 => Some(HashAlg::Sha512),
        NamedCiphersuite::Mls256DHKemP384AesGcm256Sha384 => Some(HashAlg::Sha384),
        _ => None,
    }
}

/// The HPKE KEM of a ciphersuite, where it has a supported one.
pub open spec fn suite_kem(c: NamedCiphersuite) -> Option<u16> {
    match c {
        NamedCiphersuite::Mls128DHKemX25519AesGcm128Sha256 => Some(0x0020u16),
        NamedCiphersuite::Mls128DHKemX25519ChaCha20Poly1305Sha256 => Some(0x0020u16),
        NamedCiphersuite::Mls128DHKemP256AesGcm128Sha256 => Some(0x0010u16),
        NamedCiphersuite::Mls256DHKemP521AesGcm256Sha512 => Some(0x0012u16),
        NamedCiphersuite::Mls256DHKemP384AesGcm256Sha384 => Some(0x0011u16),
        _ => None,
    }
}

impl NamedCiphersuite {
    pub fn from_code(value: u16) -> (r: Self)
        ensures
            r == named_ciphersuite(value),
    {
        match value {
            0x0001 => NamedCiphersuite::Mls128DHKemX25519AesGcm128Sha256,
            0x0002 => NamedCiphersuite::Mls128DHKemP256AesGcm128Sha256,
            0x0003 => NamedCiphersuite::Mls128DHKemX25519ChaCha20Poly1305Sha256,
            0x0004 => NamedCiphersuite::Mls256DHKemX448AesGcm256Sha12,
            0x0005 => NamedCiphersuite::Mls256DHKemP521AesGcm256Sha512,
            0x0006 => NamedCiphersuite::Mls256DHKemX448ChaCha20Poly1305Sha512,
            0x0007 => NamedCiphersuite::Mls256DHKemP384AesGcm256Sha384,
            v => NamedCiphersuite::Unknown(v),
        }
    }

    pub fn code(&self) -> (r: u16)
        ensures
            r == ciphersuite_code(*self),
    {
        match self {
            NamedCiphersuite::Mls128DHKemX25519AesGcm128Sha256 => 0x0001,
            NamedCiphersuite::Mls128DHKemP256AesGcm128Sha256 => 0x0002,
            NamedCiphersuite::Mls128DHKemX25519ChaCha20Poly1305Sha256 => 0x0003,
            NamedCiphersuite::Mls256DHKemX448AesGcm256Sha12 => 0x0004,
            NamedCiphersuite::Mls256DHKemP521AesGcm256Sha512 => 0x0005,
            NamedCiphersuite::Mls256DHKemX448ChaCha20Poly1305Sha512 => 0x0006,
            NamedCiphersuite::Mls256DHKemP384AesGcm256Sha384 => 0x0007,
            NamedCiphersuite::Unsupported(v) => *v,
            NamedCiphersuite::Unknown(v) => *v,
        }
    }

    pub fn hash_alg(&self) -> (r: Result<HashAlg, UtilError>)
        ensures
            match suite_hash(*self) {
                Some(h) => r == Ok::<HashAlg, UtilError>(h),
                None => r == Err::<HashAlg, UtilError>(UtilError::UnsupportedHashAlg(*self)),
            },
    {
        match self {
            NamedCiphersuite::Mls128DHKemX25519AesGcm128Sha256 => Ok(HashAlg::Sha256),
            NamedCiphersuite::Mls128DHKemP256AesGcm128Sha256 => Ok(HashAlg::Sha256),
            NamedCiphersuite::Mls128DHKemX25519ChaCha20Poly1305Sha256 => Ok(HashAlg::Sha256),
            NamedCiphersuite::Mls256DHKemX448AesGcm256Sha12 => Ok(HashAlg::Sha512),
            NamedCiphersuite::Mls256DHKemP521AesGcm256Sha512 => Ok(HashAlg::Sha512),
            NamedCiphersuite::Mls256DHKemX448ChaCha20Poly1305Sha512 => Ok(HashAlg::Sha512),
            NamedCiphersuite::Mls256DHKemP384AesGcm256Sha384 => Ok(HashAlg::Sha384),
            _ => Err(UtilError::UnsupportedHashAlg(*self)),
        }
    }

    pub fn hpke_kem_id(&self) -> (r: Result<u16, UtilError>)
        ensures
            match suite_kem(*self) {
                Some(k) => r == Ok::<u16, UtilError>(k),
                None => r == Err::<u16, UtilError>(UtilError::UnsupportedCiphersuite(ciphersuite_code(*self))),
            },
    {
        match self {
            NamedCiphersuite::Mls128DHKemX25519AesGcm128Sha256
            | NamedCiphersuite::Mls128DHKemX25519ChaCha20Poly1305Sha256 => Ok(0x0020),
            NamedCiphersuite::Mls128DHKemP256AesGcm128Sha256 => Ok(0x0010),
            NamedCiphersuite::Mls256DHKemP521AesGcm256Sha512 => Ok(0x0012),
            NamedCiphersuite::Mls256DHKemP384AesGcm256Sha384 => Ok(0x0011),
            _ => Err(UtilError::UnsupportedCiphersuite(self.code())),
        }
    }
}

/// The hash reference of `value` under `label`: the ciphersuite's hash of
/// the label and the value, each as an MLS variable-length vector.
pub fn ref_hash(value: &[u8], label: &str, cs: u16) -> (r: Result<Vec<u8>, UtilError>)
    requires
        label.spec_bytes().len() <= VL_MAX,
        value@.len() <= VL_MAX,
    ensures
        match suite_hash(named_ciphersuite(cs)) {
            Some(h) => r matches Ok(d) && d@ == hash_with(h, labelled(label.spec_bytes(), value@)),
            None => r == Err::<Vec<u8>, UtilError>(UtilError::UnsupportedHashAlg(named_ciphersuite(cs))),
        },
{
    let alg = match NamedCiphersuite::from_code(cs).hash_alg() {
        Ok(h) => h,
        Err(e) => {
            return Err(e);
        },
    };
    match hash_reference_bytes(label, value) {
        Ok(input) => Ok(alg.digest(input.as_slice())),
        Err(e) => Err(UtilError::MlsSpecError(e)),
    }
}

/// The label of a key package's reference.
pub const MLS_10_KEYPACKAGE_REF: &'static str = "MLS 1.0 KeyPackage Reference";

/// The label of a proposal's reference.
pub const MLS_10_PROPOSAL_REF: &'static str = "MLS 1.0 Proposal Reference";

/// Hash reference labels are short ASCII text, within what an MLS vector
/// holds.
proof fn lemma_reference_labels_fit()
    ensures
        MLS_10_KEYPACKAGE_REF.spec_bytes().len() <= VL_MAX,
        MLS_10_PROPOSAL_REF.spec_bytes().len() <= VL_MAX,
{
    reveal_strlit("MLS 1.0 KeyPackage Reference");
    reveal_strlit("MLS 1.0 Proposal Reference");
    vstd::utf8::is_ascii_chars_encode_utf8(MLS_10_KEYPACKAGE_REF@);
    vstd::utf8::is_ascii_chars_encode_utf8(MLS_10_PROPOSAL_REF@);
}

/// The reference of a proposal: the hash reference of the authenticated
/// content that carries it, as MLS encodes that content.
pub fn make_proposal_ref(auth_content: &[u8], cs: u16) -> (r: Result<Vec<u8>, UtilError>)
    requires
        auth_content@.len() <= VL_MAX,
    ensures
        match suite_hash(named_ciphersuite(cs)) {
            Some(h) => r matches Ok(d) && d@ == hash_with(
                h,
                labelled(MLS_10_PROPOSAL_REF.spec_bytes(), auth_content@),
            ),
            None => r == Err::<Vec<u8>, UtilError>(UtilError::UnsupportedHashAlg(named_ciphersuite(cs))),
        },
{
    proof {
        lemma_reference_labels_fit();
    }
    ref_hash(auth_content, MLS_10_PROPOSAL_REF, cs)
}

/// The reference of a key package of cipher suite `cs`: the hash reference
/// of the key package as MLS encodes it.
pub fn make_keypackage_ref(key_package: &[u8], cs: u16) -> (r: Result<Vec<u8>, UtilError>)
    requires
        key_package@.len() <= VL_MAX,
    ensures
        match suite_hash(named_ciphersuite(cs)) {
            Some(h) => r matches Ok(d) && d@ == hash_with(
                h,
                labelled(MLS_10_KEYPACKAGE_REF.spec_bytes(), key_package@),
            ),
            None => r == Err::<Vec<u8>, UtilError>(UtilError::UnsupportedHashAlg(named_ciphersuite(cs))),
        },
{
    proof {
        lemma_reference_labels_fit();
    }
    ref_hash(key_package, MLS_10_KEYPACKAGE_REF, cs)
}

/// The length of a hash of `h`, in bytes.
pub open spec fn hash_len(h: HashAlg) -> nat {
    match h {
        HashAlg::Sha256 => 32,
        HashAlg::Sha384 => 48,
        HashAlg::Sha512 => 64,
    }
}

/// The hash of `b` with `h`.
pub open spec fn hash_with(h: HashAlg, b: Seq<u8>) -> Seq<u8> {
    match h {
        HashAlg::Sha256 => sha256(b),
        HashAlg::Sha384 => sha384(b),
        HashAlg::Sha512 => sha512(b),
    }
}

/// The HMAC of `m` under `k` with `h`.
pub open spec fn hmac_with(h: HashAlg, k: Seq<u8>, m: Seq<u8>) -> Seq<u8> {
    match h {
        HashAlg::Sha256 => hmac_sha256(k, m),
        HashAlg::Sha384 => hmac_sha384(k, m),
        HashAlg::Sha512 => hmac_sha512(k, m),
    }
}

/// The bytes of all `inputs`, one after another.
pub open spec fn concat_all(inputs: Seq<&[u8]>) -> Seq<u8>
    decreases inputs.len(),
{
    if inputs.len() == 0 {
        Seq::empty()
    } else {
        concat_all(inputs.drop_last()) + inputs.last()@
    }
}

fn concat_inputs(inputs: &[&[u8]]) -> (r: Vec<u8>)
    ensures
        r@ == concat_all(inputs@),
{
    let mut out: Vec<u8> = Vec::new();
    let mut i: usize = 0;
    while i < inputs.len()
        invariant
            i <= inputs@.len(),
            out@ == concat_all(inputs@.take(i as int)),
        decreases inputs@.len() - i,
    {
        assert(inputs@.take(i + 1).drop_last() =~= inputs@.take(i as int));
        let chunk = inputs[i];
        let mut j: usize = 0;
        let ghost start = out@;
        while j < chunk.len()
            invariant
                j <= chunk@.len(),
                out@ == start + chunk@.take(j as int),
            decreases chunk@.len() - j,
        {
            out.push(chunk[j]);
            j += 1;
            assert(out@ =~= start + chunk@.take(j as int));
        }
        assert(chunk@.take(chunk@.len() as int) =~= chunk@);
        i += 1;
    }
    assert(inputs@.take(inputs@.len() as int) =~= inputs@);
    out
}

impl HashAlg {
    /// The size of an HMAC key for this hash: its block size.
    pub open spec fn key_size_spec(&self) -> usize {
        match *self {
            HashAlg::Sha256 => 64,
            HashAlg::Sha384 => 128,
            HashAlg::Sha512 => 128,
        }
    }

    pub fn digest(&self, input: &[u8]) -> (r: Vec<u8>)
        ensures
            r@ == hash_with(*self, input@),
            r@.len() == hash_len(*self),
            r@.len() <= 64,
    {
        match self {
            HashAlg::Sha256 => sha256_digest(input),
            HashAlg::Sha384 => sha384_digest(input),
            HashAlg::Sha512 => sha512_digest(input),
        }
    }

    /// The hash of all inputs, one after another.
    pub fn digest_multi(&self, inputs: &[&[u8]]) -> (r: Vec<u8>)
        ensures
            r@ == hash_with(*self, concat_all(inputs@)),
            r@.len() == hash_len(*self),
    {
        let all = concat_inputs(inputs);
        self.digest(all.as_slice())
    }

    /// A fresh random HMAC key of the hash's block size.
    pub fn hmac_key_gen(&self) -> (r: UtilResult<Vec<u8>>)
        ensures
            r matches Ok(k) ==> k@.len() == self.key_size_spec(),
            r matches Err(e) ==> e is RngError,
    {
        let key_size: usize = match self {
            HashAlg::Sha256 => 64,
            HashAlg::Sha384 => 128,
            HashAlg::Sha512 => 128,
        };
        match random_bytes(key_size) {
            Ok(k) => Ok(k),
            Err(e) => Err(UtilError::RngError(e)),
        }
    }

    /// The HMAC of all inputs, one after another, under `key`.
    pub fn hmac(&self, key: &[u8], inputs: &[&[u8]]) -> (r: UtilResult<Vec<u8>>)
        ensures
            r matches Ok(t) && t@ == hmac_with(*self, key@, concat_all(inputs@)) && t@.len() == hash_len(*self),
    {
        let msg = concat_inputs(inputs);
        match self {
            HashAlg::Sha256 => Ok(hmac_sha256_tag(key, msg.as_slice())),
            HashAlg::Sha384 => Ok(hmac_sha384_tag(key, msg.as_slice())),
            HashAlg::Sha512 => Ok(hmac_sha512_tag(key, msg.as_slice())),
        }
    }

    /// Whether `tag` is the HMAC of all inputs under `key`.
    pub fn hmac_verify(&self, key: &[u8], inputs: &[&[u8]], tag: &[u8]) -> (r: UtilResult<bool>)
        ensures
            r == Ok::<bool, UtilError>(tag@ == hmac_with(*self, key@, concat_all(inputs@))),
    {
        let msg = concat_inputs(inputs);
        match self {
            HashAlg::Sha256 => Ok(hmac_sha256_verify(key, msg.as_slice(), tag)),
            HashAlg::Sha384 => Ok(hmac_sha384_verify(key, msg.as_slice(), tag)),
            HashAlg::Sha512 => Ok(hmac_sha512_verify(key, msg.as_slice(), tag)),
        }
    }
}

/// A MIMI URI in base58, Flickr's alphabet.
pub fn encode_mimi_uri(uri: &str) -> (r: String)
    ensures
        r@ == bs58_flickr(vstd::utf8::encode_utf8(uri@)),
        bs58_flickr_decoded(r@) == Some(vstd::utf8::encode_utf8(uri@)),
        forall|i: int| 0 <= i < r@.len() ==> flickr_char(#[trigger] r@[i]),
{
    encode_slice(uri.as_bytes())
}

/// Bytes read back from base58, Flickr's alphabet.
pub fn decode_slice(data: &str) -> (r: Result<Vec<u8>, UtilError>)
    ensures
        match bs58_flickr_decoded(data@) {
            Some(b) => r matches Ok(v) && v@ == b,
            None => r matches Err(UtilError::BaseDecode58Error(_)),
        },
{
    match bs58_decode(data) {
        Ok(v) => Ok(v),
        Err(e) => Err(UtilError::BaseDecode58Error(e)),
    }
}

/// A MIMI URI read back from base58, Flickr's alphabet.
pub fn decode_mimi_uri(encoded: &str) -> (r: Result<String, UtilError>)
    ensures
        match bs58_flickr_decoded(encoded@) {
            Some(b) => if vstd::utf8::valid_utf8(b) {
                r matches Ok(s) && s@ == vstd::utf8::decode_utf8(b)
            } else {
                r matches Err(UtilError::Utf8Error(_))
            },
            None => r matches Err(UtilError::BaseDecode58Error(_)),
        },
{
    let bytes = match decode_slice(encoded) {
        Ok(b) => b,
        Err(e) => {
            return Err(e);
        },
    };
    match string_from_utf8(bytes) {
        Ok(s) => Ok(s),
        Err(e) => Err(UtilError::Utf8Error(e)),
    }
}

/// Reading back an encoded MIMI URI gives the URI: whatever
/// `encode_mimi_uri` returns, `decode_mimi_uri` takes back to the text it
/// was given.
pub proof fn lemma_mimi_uri_round_trip(uri: Seq<char>, encoded: Seq<char>)
    requires
        encoded == bs58_flickr(vstd::utf8::encode_utf8(uri)),
        bs58_flickr_decoded(encoded) == Some(vstd::utf8::encode_utf8(uri)),
    ensures
        bs58_flickr_decoded(encoded) matches Some(b) && vstd::utf8::valid_utf8(b) && vstd::utf8::decode_utf8(b)
            == uri,
{
    vstd::utf8::encode_utf8_valid_utf8(uri);
    vstd::utf8::encode_utf8_decode_utf8(uri);
}

/// Each ciphersuite of the RFC 9420 registry hashes with the function its
/// name carries: SHA-256 for codes 1, 2 and 3, SHA-512 for 4, 5 and 6,
/// SHA-384 for 7, with digests of 32, 64 and 48 bytes, so that the hash of
/// any `b` under the suite is that function's; other codes have no hash.
pub proof fn lemma_registry_hashes(code: u16, b: Seq<u8>)
    ensures
        (code == 1 || code == 2 || code == 3) ==> suite_hash(named_ciphersuite(code)) == Some(HashAlg::Sha256)
            && hash_with(HashAlg::Sha256, b) == sha256(b) && hash_len(HashAlg::Sha256) == 32,
        (code == 4 || code == 5 || code == 6) ==> suite_hash(named_ciphersuite(code)) == Some(HashAlg::Sha512)
            && hash_with(HashAlg::Sha512, b) == sha512(b) && hash_len(HashAlg::Sha512) == 64,
        code == 7 ==> suite_hash(named_ciphersuite(code)) == Some(HashAlg::Sha384) && hash_with(HashAlg::Sha384, b)
            == sha384(b) && hash_len(HashAlg::Sha384) == 48,
        (code == 0 || code > 7) ==> suite_hash(named_ciphersuite(code)) is None,
{
}

/// The HPKE KEM of each ciphersuite of the RFC 9420 registry is the one its
/// name carries: DHKEM(X25519) (0x0020) for codes 1 and 3, DHKEM(P-256)
/// (0x0010) for 2, DHKEM(P-521) (0x0012) for 5, DHKEM(P-384) (0x0011) for
/// 7; the X448 suites 4 and 6 and other codes have none here. A named code
/// names itself back.
pub proof fn lemma_registry_kems(code: u16)
    ensures
        (code == 1 || code == 3) ==> suite_kem(named_ciphersuite(code)) == Some(0x0020u16),
        code == 2 ==> suite_kem(named_ciphersuite(code)) == Some(0x0010u16),
        code == 5 ==> suite_kem(named_ciphersuite(code)) == Some(0x0012u16),
        code == 7 ==> suite_kem(named_ciphersuite(code)) == Some(0x0011u16),
        (code == 0 || code == 4 || code == 6 || code > 7) ==> suite_kem(named_ciphersuite(code)) is None,
        1 <= code <= 7 ==> ciphersuite_code(named_ciphersuite(code)) == code,
{
}

} // verus!
