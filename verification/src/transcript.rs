//! Transcript hashes of a group: each epoch's hash chains the previous one
//! with the encoded commit.
use vstd::prelude::*;
use crate::suites::{NamedCiphersuite, UtilError, named_ciphersuite, suite_hash, hash_with};
use crate::tls::vl_bytes;

verus! {

/// What the confirmed transcript hash covers of a commit: whether the
/// content is a commit, and its wire format, content and signature as MLS
/// encodes them.
pub struct ConfirmedTranscriptInput {
    pub is_commit: bool,
    pub encoded: Vec<u8>,
}

/// The message of the misuse of hashing something other than a commit.
pub const NOT_A_COMMIT: &'static str = "Tried to compute the confirmed transcript hash on not a commit";

/// The confirmed transcript hash of a commit in epoch `epoch`: empty in the
/// first epoch, else the ciphersuite's hash of the previous interim
/// transcript hash followed by the encoded commit.
pub fn compute_confirmed_transcript_hash(
    interim_transcript_hash_n_1: &[u8],
    input: &ConfirmedTranscriptInput,
    epoch: u64,
    cipher_suite: u16,
) -> (r: Result<Vec<u8>, UtilError>)
    ensures
        epoch == 0 ==> (r matches Ok(h) && h@.len() == 0),
        epoch != 0 && !input.is_commit ==> r == Err::<Vec<u8>, UtilError>(UtilError::ApiMisuse(NOT_A_COMMIT)),
        epoch != 0 && input.is_commit ==> match suite_hash(named_ciphersuite(cipher_suite)) {
            Some(h) => r matches Ok(d) && d@ == hash_with(h, interim_transcript_hash_n_1@ + input.encoded@),
            None => r == Err::<Vec<u8>, UtilError>(
                UtilError::UnsupportedHashAlg(named_ciphersuite(cipher_suite)),
            ),
        },
{
    if epoch == 0 {
        return Ok(Vec::new());
    }
    if !input.is_commit {
        return Err(UtilError::ApiMisuse(NOT_A_COMMIT));
    }
    let alg = match NamedCiphersuite::from_code(cipher_suite).hash_alg() {
        Ok(h) => h,
        Err(e) => {
            return Err(e);
        },
    };
    let parts: [&[u8]; 2] = [interim_transcript_hash_n_1, input.encoded.as_slice()];
    let d = alg.digest_multi(&parts);
    proof {
        let p = parts@;
        assert(p.len() == 2);
        assert(p.drop_last().drop_last() =~= Seq::<&[u8]>::empty());
        assert(crate::suites::concat_all(p.drop_last().drop_last()) == Seq::<u8>::empty());
        assert(p.drop_last().last() == p[0]);
        assert(p.last() == p[1]);
        assert(crate::suites::concat_all(p.drop_last()) =~= interim_transcript_hash_n_1@);
        assert(crate::suites::concat_all(p) =~= interim_transcript_hash_n_1@ + input.encoded@);
    }
    Ok(d)
}

/// The interim transcript hash: the ciphersuite's hash of the confirmed
/// transcript hash followed by the encoded confirmation tag.
pub fn compute_interim_transcript_hash(
    confirmed_transcript_hash: &[u8],
    encoded_input: &[u8],
    cipher_suite: u16,
) -> (r: Result<Vec<u8>, UtilError>)
    ensures
        match suite_hash(named_ciphersuite(cipher_suite)) {
            Some(h) => r matches Ok(d) && d@ == hash_with(h, confirmed_transcript_hash@ + encoded_input@),
            None => r == Err::<Vec<u8>, UtilError>(UtilError::UnsupportedHashAlg(named_ciphersuite(cipher_suite))),
        },
{
    let alg = match NamedCiphersuite::from_code(cipher_suite).hash_alg() {
        Ok(h) => h,
        Err(e) => {
            return Err(e);
        },
    };
    let parts: [&[u8]; 2] = [confirmed_transcript_hash, encoded_input];
    let d = alg.digest_multi(&parts);
    proof {
        let p = parts@;
        assert(p.len() == 2);
        assert(p.drop_last().drop_last() =~= Seq::<&[u8]>::empty());
        assert(crate::suites::concat_all(p.drop_last().drop_last()) == Seq::<u8>::empty());
        assert(p.drop_last().last() == p[0]);
        assert(p.last() == p[1]);
        assert(crate::suites::concat_all(p.drop_last()) =~= confirmed_transcript_hash@);
        assert(crate::suites::concat_all(p) =~= confirmed_transcript_hash@ + encoded_input@);
    }
    Ok(d)
}

/// The wire format of a public message.
pub const WIRE_FORMAT_PUBLIC_MESSAGE: u16 = 0x0001;

/// The wire format of a semi-private message.
pub const WIRE_FORMAT_SEMIPRIVATE_MESSAGE: u16 = 0xFAFE;

/// What the confirmed transcript hash reads of an MLS message.
pub enum TranscriptMessage {
    /// A public message: whether its content is a commit, the content as
    /// MLS encodes it, and its signature.
    Public { is_commit: bool, content: Vec<u8>, signature: Vec<u8> },
    /// A private message, whose content type is in the clear.
    Private { is_commit: bool },
    /// A semi-private message, whose content type is in the clear.
    SemiPrivate { is_commit: bool },
    /// A welcome, a group info or a key package: no content type.
    Untyped,
}

/// The confirmed transcript hash input of a public commit: its wire format
/// as two big-endian bytes, its encoded content, then its signature as a
/// variable-length vector.
pub open spec fn public_commit_input(content: Seq<u8>, signature: Seq<u8>) -> Seq<u8> {
    seq![0u8, 1u8] + content + vl_bytes(signature)
}

/// What hashing the transcript over `message` gives.
pub open spec fn transcript_from_message(
    interim: Seq<u8>,
    message: TranscriptMessage,
    epoch: u64,
    cipher_suite: u16,
) -> Result<Seq<u8>, UtilError> {
    match message {
        TranscriptMessage::Public { is_commit, content, signature } => if !is_commit {
            Err(UtilError::InvalidOrMissingContentType)
        } else if epoch == 0 {
            Ok(Seq::empty())
        } else {
            match suite_hash(named_ciphersuite(cipher_suite)) {
                Some(h) => Ok(hash_with(h, interim + public_commit_input(content@, signature@))),
                None => Err(UtilError::UnsupportedHashAlg(named_ciphersuite(cipher_suite))),
            }
        },
        TranscriptMessage::SemiPrivate { is_commit } => if is_commit {
            Err(UtilError::UnsupportedWireFormat(WIRE_FORMAT_SEMIPRIVATE_MESSAGE))
        } else {
            Err(UtilError::InvalidOrMissingContentType)
        },
        _ => Err(UtilError::InvalidOrMissingContentType),
    }
}

/// The confirmed transcript hash of the commit carried by `message`; only a
/// public message can be read.
pub fn compute_confirmed_transcript_hash_from_commit_message(
    interim_transcript_hash_n_1: &[u8],
    message: &TranscriptMessage,
    epoch: u64,
    cipher_suite: u16,
) -> (r: Result<Vec<u8>, UtilError>)
    requires
        message matches TranscriptMessage::Public { signature, .. } ==> signature@.len() <= crate::tls::VL_MAX,
    ensures
        match transcript_from_message(interim_transcript_hash_n_1@, *message, epoch, cipher_suite) {
            Ok(h) => r matches Ok(x) && x@ == h,
            Err(e) => r == Err::<Vec<u8>, UtilError>(e),
        },
{
    let (content, signature) = match message {
        TranscriptMessage::Public { is_commit, content, signature } => {
            if !*is_commit {
                return Err(UtilError::InvalidOrMissingContentType);
            }
            (content, signature)
        },
        TranscriptMessage::SemiPrivate { is_commit } => {
            if !*is_commit {
                return Err(UtilError::InvalidOrMissingContentType);
            }
            return Err(UtilError::UnsupportedWireFormat(WIRE_FORMAT_SEMIPRIVATE_MESSAGE));
        },
        _ => {
            return Err(UtilError::InvalidOrMissingContentType);
        },
    };
    let mut encoded: Vec<u8> = Vec::new();
    encoded.push(0u8);
    encoded.push(1u8);
    let mut c = vstd::slice::slice_to_vec(content.as_slice());
    encoded.append(&mut c);
    let mut s = match crate::tls::vl_encode(signature.as_slice()) {
        Ok(b) => b,
        Err(e) => {
            return Err(UtilError::MlsSpecError(e));
        },
    };
    encoded.append(&mut s);
    assert(encoded@ =~= public_commit_input(content@, signature@));
    let input = ConfirmedTranscriptInput { is_commit: true, encoded };
    compute_confirmed_transcript_hash(interim_transcript_hash_n_1, &input, epoch, cipher_suite)
}

} // verus!
