use proton_meet::ratchet_tree::{Capabilities, LeafNode, LeafNodeSource, RatchetTree, TreeNode};
use proton_meet::validations::group_info::{verify_group_info, GroupInfo};
use proton_meet::validations::{InvalidSignatureItem, ValidationError};
use proton_meet::transcript::{compute_confirmed_transcript_hash, compute_interim_transcript_hash, ConfirmedTranscriptInput};
use proton_meet::pke::{decrypt_with_label, encrypt_with_label, generate_hpke_keypair, hpke_public_key_from_private_key};
use proton_meet::signatures::{
    generate_signature_keypair, sign_raw, sign_with_label, sk_to_pk, verify_raw, verify_with_label,
};
use proton_meet::suites::{ref_hash, HashAlg, UtilError};

fn hex(s: &str) -> Vec<u8> {
    (0..s.len()).step_by(2).map(|i| u8::from_str_radix(&s[i..i + 2], 16).unwrap()).collect()
}

const SIGNING_SUITES: [u16; 5] = [1, 2, 3, 5, 7];

#[test]
fn ed25519_matches_rfc8032_test_one() {
    let sk = hex("9d61b19deffd5a60ba844af492ec2cc44449c5697b326919703bac031cae7f60");
    let pk = hex("d75a980182b10ab7d54bfed3c964073a0ee172f3daa62325af021a68f707511a");
    let sig = hex(
        "e5564300c360ac729086e2cc806e828a84877f1eb8e5d974d873e065224901555fb8821590a33bacc61e39701cf9b46bd25bf5f0595bbe24655141438e7a100b",
    );
    assert_eq!(sk_to_pk(1, &sk).unwrap(), pk);
    assert_eq!(sign_raw(&sk, 1, b"").unwrap(), sig);
    assert!(verify_raw(&pk, 1, b"", &sig).is_ok());
    assert!(matches!(verify_raw(&pk, 1, b"x", &sig), Err(UtilError::InvalidSignature)));
}

#[test]
fn generated_keys_sign_and_verify() {
    for cs in SIGNING_SUITES {
        let kp = generate_signature_keypair(cs).unwrap();
        assert_eq!(kp.ciphersuite, cs);
        assert_eq!(sk_to_pk(cs, &kp.sk).unwrap(), kp.pk);
        let sig = sign_raw(&kp.sk, cs, b"hello").unwrap();
        assert!(verify_raw(&kp.pk, cs, b"hello", &sig).is_ok());
        assert!(matches!(verify_raw(&kp.pk, cs, b"hellO", &sig), Err(UtilError::InvalidSignature)));
        let labelled = sign_with_label(&kp.sk, cs, b"content", "label").unwrap();
        assert!(verify_with_label(&kp.pk, cs, b"content", "label", &labelled).is_ok());
        assert!(verify_with_label(&kp.pk, cs, b"content", "other", &labelled).is_err());
        assert!(verify_raw(&kp.pk, cs, b"content", &labelled).is_err());
    }
}

#[test]
fn kem_ids_of_key_pairs() {
    assert_eq!(generate_signature_keypair(1).unwrap().kem_id, 0x0020);
    assert_eq!(generate_signature_keypair(2).unwrap().kem_id, 0x0010);
    assert_eq!(generate_signature_keypair(5).unwrap().kem_id, 0x0012);
    assert_eq!(generate_signature_keypair(7).unwrap().kem_id, 0x0011);
    assert_eq!(generate_signature_keypair(7).unwrap().sk.len(), 48);
}

#[test]
fn ciphersuites_without_a_signer() {
    assert!(matches!(sign_raw(&[0u8; 32], 4, b"m"), Err(UtilError::UnknownCiphersuite(4))));
    assert!(matches!(verify_raw(&[0u8; 32], 6, b"m", b"s"), Err(UtilError::UnknownCiphersuite(6))));
    assert!(matches!(sk_to_pk(0x1234, &[0u8; 32]), Err(UtilError::UnknownCiphersuite(0x1234))));
    assert!(matches!(generate_signature_keypair(0), Err(UtilError::UnknownCiphersuite(0))));
    assert!(matches!(generate_hpke_keypair(4), Err(UtilError::UnknownCiphersuite(4))));
}

#[test]
fn bad_secret_keys() {
    assert!(matches!(sk_to_pk(1, &[1u8; 31]), Err(UtilError::TryFromSliceError(_))));
    assert!(matches!(sign_raw(&[1u8; 33], 3, b"m"), Err(UtilError::SignatureError(_))));
    assert!(matches!(sk_to_pk(2, &[0u8; 32]), Err(UtilError::SignatureError(_))));
    assert!(matches!(sign_raw(&[0xffu8; 48], 7, b"m"), Err(UtilError::SignatureError(_))));
}

#[test]
fn hpke_round_trips() {
    for cs in SIGNING_SUITES {
        let kp = generate_hpke_keypair(cs).unwrap();
        assert_eq!(hpke_public_key_from_private_key(cs, &kp.sk).unwrap(), kp.pk);
        let sealed = encrypt_with_label(cs, &kp.pk, "label", b"ctx", b"secret").unwrap();
        let opened = decrypt_with_label(cs, &kp.sk, "label", b"ctx", &sealed.kem_output, &sealed.ciphertext).unwrap();
        assert_eq!(opened, b"secret");
        assert!(matches!(
            decrypt_with_label(cs, &kp.sk, "other", b"ctx", &sealed.kem_output, &sealed.ciphertext),
            Err(UtilError::HpkeError(_))
        ));
    }
    let kp = generate_hpke_keypair(1).unwrap();
    assert_eq!(kp.kem_id, 0x0020);
}

#[test]
fn hpke_short_secret_key_takes_leading_zeros() {
    let mut sk = vec![0u8; 32];
    sk[31] = 7;
    let short = vec![7u8];
    assert_eq!(
        hpke_public_key_from_private_key(2, &short).unwrap(),
        hpke_public_key_from_private_key(2, &sk).unwrap()
    );
}

#[test]
fn ref_hash_hashes_label_and_value() {
    let label = "MLS 1.0 KeyPackage Reference";
    let value = b"key package";
    let mut input = vec![label.len() as u8];
    input.extend_from_slice(label.as_bytes());
    input.push(value.len() as u8);
    input.extend_from_slice(value);
    assert_eq!(ref_hash(value, label, 1).unwrap(), HashAlg::Sha256.digest(&input));
    assert_eq!(ref_hash(value, label, 7).unwrap(), HashAlg::Sha384.digest(&input));
    let long = vec![5u8; 100];
    let mut input = vec![label.len() as u8];
    input.extend_from_slice(label.as_bytes());
    input.extend_from_slice(&[0x40, 100]);
    input.extend_from_slice(&long);
    assert_eq!(ref_hash(&long, label, 5).unwrap(), HashAlg::Sha512.digest(&input));
    assert!(matches!(ref_hash(value, label, 0x99), Err(UtilError::UnsupportedHashAlg(_))));
}

#[test]
fn transcript_hashes() {
    let input = ConfirmedTranscriptInput { is_commit: true, encoded: vec![1, 2, 3] };
    assert!(compute_confirmed_transcript_hash(b"prev", &input, 0, 1).unwrap().is_empty());
    let h = compute_confirmed_transcript_hash(b"prev", &input, 3, 1).unwrap();
    assert_eq!(h, HashAlg::Sha256.digest(b"prev\x01\x02\x03"));
    let proposal = ConfirmedTranscriptInput { is_commit: false, encoded: vec![] };
    assert!(matches!(
        compute_confirmed_transcript_hash(b"prev", &proposal, 3, 1),
        Err(UtilError::ApiMisuse(_))
    ));
    assert!(matches!(
        compute_confirmed_transcript_hash(b"prev", &input, 3, 0x42),
        Err(UtilError::UnsupportedHashAlg(_))
    ));
    assert_eq!(compute_interim_transcript_hash(b"c", b"t", 7).unwrap(), HashAlg::Sha384.digest(b"ct"));
}

#[test]
fn group_info_signature() {
    let kp = generate_signature_keypair(1).unwrap();
    let leaf = LeafNode {
        encryption_key: vec![1],
        signature_key: kp.pk.clone(),
        credential: vec![3],
        capabilities: Capabilities { extensions: vec![], proposals: vec![], credentials: vec![1] },
        source: LeafNodeSource::Update,
        extensions: vec![],
        encoded: vec![],
    };
    let tree = RatchetTree(vec![None, None, Some(TreeNode::LeafNode(leaf))]);
    let tbs = vec![9u8, 8, 7];
    let signature = sign_with_label(&kp.sk, 1, &tbs, "MLS 1.0 GroupInfoTBS").unwrap();
    let gi = GroupInfo { version: 1, cipher_suite: 1, signer: 1, tbs: tbs.clone(), signature: signature.clone() };
    assert!(verify_group_info(&tree, &gi).is_ok());
    let blank = GroupInfo { version: 1, cipher_suite: 1, signer: 0, tbs: tbs.clone(), signature: signature.clone() };
    assert!(matches!(
        verify_group_info(&tree, &blank),
        Err(UtilError::ValidationError(ValidationError::InvalidSignature(InvalidSignatureItem::GroupInfo)))
    ));
    let other_label = GroupInfo { version: 0, cipher_suite: 1, signer: 1, tbs, signature };
    assert!(verify_group_info(&tree, &other_label).is_err());
}

#[test]
fn hmac_tags_have_the_hash_length() {
    let inputs: [&[u8]; 2] = [b"a", b"bc"];
    assert_eq!(HashAlg::Sha256.hmac(b"key", &inputs).unwrap().len(), 32);
    assert_eq!(HashAlg::Sha384.hmac(b"key", &inputs).unwrap().len(), 48);
    assert_eq!(HashAlg::Sha512.hmac(b"key", &inputs).unwrap().len(), 64);
    for alg in [HashAlg::Sha256, HashAlg::Sha384, HashAlg::Sha512] {
        let tag = alg.hmac(b"key", &inputs).unwrap();
        assert_eq!(tag.len(), alg.digest(&[]).len());
        assert_eq!(alg.digest_multi(&inputs), alg.digest(b"abc"));
    }
}
