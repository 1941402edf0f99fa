use proton_meet::claims::about::{About, CwtProtonMeetLabel, KbtProtonLabel, ProtonClaimsError, UserAsserted};
use proton_meet::claims::kinds::{ClientType, MimiProvider};
use proton_meet::claims::role::Role;
use proton_meet::meet::{CompatibleComponent, SenderExt};
use proton_meet::mls::Sender;
use proton_meet::policy::capability::PrivateCapability;
use proton_meet::suites::{decode_mimi_uri, decode_slice, encode_mimi_uri, encode_slice, HashAlg, NamedCiphersuite, UtilError};

#[test]
fn ciphersuites() {
    let cs = NamedCiphersuite::from_code(1);
    assert_eq!(cs, NamedCiphersuite::Mls128DHKemX25519AesGcm128Sha256);
    assert_eq!(cs.hash_alg().unwrap(), HashAlg::Sha256);
    assert_eq!(cs.hpke_kem_id().unwrap(), 0x0020);
    assert_eq!(NamedCiphersuite::from_code(7).hash_alg().unwrap(), HashAlg::Sha384);
    assert_eq!(NamedCiphersuite::from_code(5).hpke_kem_id().unwrap(), 0x0012);
    assert!(matches!(NamedCiphersuite::from_code(4).hpke_kem_id(), Err(UtilError::UnsupportedCiphersuite(4))));
    let unknown = NamedCiphersuite::from_code(0x1234);
    assert_eq!(unknown, NamedCiphersuite::Unknown(0x1234));
    assert!(matches!(unknown.hash_alg(), Err(UtilError::UnsupportedHashAlg(NamedCiphersuite::Unknown(0x1234)))));
    for code in 0..10u16 {
        assert_eq!(NamedCiphersuite::from_code(code).code(), code);
    }
}

#[test]
fn digests() {
    let d = HashAlg::Sha256.digest(b"abc");
    assert_eq!(
        d,
        vec![
            0xba, 0x78, 0x16, 0xbf, 0x8f, 0x01, 0xcf, 0xea, 0x41, 0x41, 0x40, 0xde, 0x5d, 0xae, 0x22, 0x23, 0xb0, 0x03,
            0x61, 0xa3, 0x96, 0x17, 0x7a, 0x9c, 0xb4, 0x10, 0xff, 0x61, 0xf2, 0x00, 0x15, 0xad
        ]
    );
    assert_eq!(HashAlg::Sha256.digest_multi(&[b"a", b"bc"]), d);
    assert_eq!(HashAlg::Sha384.digest(b"abc").len(), 48);
    assert_eq!(HashAlg::Sha512.digest(b"abc").len(), 64);
    assert_ne!(HashAlg::Sha512.digest(b"abc"), HashAlg::Sha512.digest(b"abd"));
}

#[test]
fn hmacs() {
    // RFC 4231 test case 2
    let tag = HashAlg::Sha256.hmac(b"Jefe", &[b"what do ya want ", b"for nothing?"]).unwrap();
    assert_eq!(
        tag,
        vec![
            0x5b, 0xdc, 0xc1, 0x46, 0xbf, 0x60, 0x75, 0x4e, 0x6a, 0x04, 0x24, 0x26, 0x08, 0x95, 0x75, 0xc7, 0x5a, 0x00,
            0x3f, 0x08, 0x9d, 0x27, 0x39, 0x83, 0x9d, 0xec, 0x58, 0xb9, 0x64, 0xec, 0x38, 0x43
        ]
    );
    assert!(HashAlg::Sha256.hmac_verify(b"Jefe", &[b"what do ya want for nothing?"], &tag).unwrap());
    assert!(!HashAlg::Sha256.hmac_verify(b"Jefe", &[b"what do ya want for nothing!"], &tag).unwrap());
    let t384 = HashAlg::Sha384.hmac(b"k", &[b"m"]).unwrap();
    assert!(HashAlg::Sha384.hmac_verify(b"k", &[b"m"], &t384).unwrap());
    let t512 = HashAlg::Sha512.hmac(b"k", &[b"m"]).unwrap();
    assert_eq!(t512.len(), 64);
    assert!(!HashAlg::Sha512.hmac_verify(b"other", &[b"m"], &t512).unwrap());
    assert_eq!(HashAlg::Sha256.hmac_key_gen().unwrap().len(), 64);
    assert_eq!(HashAlg::Sha384.hmac_key_gen().unwrap().len(), 128);
}

#[test]
fn mimi_uris_in_base58() {
    let uri = "mimi://proton.me/r/room";
    let encoded = encode_mimi_uri(uri);
    assert!(!encoded.contains('0') && !encoded.contains('l'));
    assert_eq!(decode_mimi_uri(&encoded).unwrap(), uri);
    assert_eq!(encode_slice(&[0, 0, 1]), "112");
    assert_eq!(decode_slice("112").unwrap(), vec![0, 0, 1]);
    assert!(matches!(decode_mimi_uri("0OIl"), Err(UtilError::BaseDecode58Error(_))));
    let not_utf8 = encode_slice(&[0xff, 0xfe]);
    assert!(matches!(decode_mimi_uri(&not_utf8), Err(UtilError::Utf8Error(_))));
}

#[test]
fn roles_providers_client_types() {
    assert_eq!(Role::from(0), Role::User);
    assert_eq!(Role::from(2), Role::OrganizationAdmin);
    assert_eq!(Role::from(3), Role::ProtonAdmin);
    assert_eq!(Role::from(9), Role::Unknown(9));
    assert_eq!(Role::Unknown(9).code(), 9);
    assert_eq!(Role::ProtonAdmin.code(), 3);
    assert_eq!(<Role as Default>::default(), Role::User);
    assert_eq!(MimiProvider::from(56809), MimiProvider::ProtonAg);
    assert_eq!(MimiProvider::from(1), MimiProvider::Unknown(1));
    assert!(MimiProvider::Unknown(1).is_before(&MimiProvider::ProtonAg));
    assert!(!MimiProvider::Unknown(60000).is_before(&MimiProvider::ProtonAg));
    assert_eq!(ClientType::from(16), ClientType::Unspecified);
    assert_eq!(ClientType::from(2), ClientType::Guest);
    for c in [ClientType::Unspecified, ClientType::Proton, ClientType::Guest, ClientType::Agent] {
        assert_eq!(ClientType::from(c.code()), c);
    }
    assert!(ClientType::Proton.is_before(&ClientType::Agent));
    assert_eq!(<ClientType as Default>::default(), ClientType::Unspecified);
}

#[test]
fn about_and_labels() {
    let ok = About::try_from("é".repeat(200)).unwrap();
    assert_eq!(ok.as_str().chars().count(), 200);
    assert!(matches!(About::try_from("a".repeat(201)), Err(ProtonClaimsError::AboutTooLong(200))));
    assert_eq!(UserAsserted::default().about, None);
    assert_eq!(KbtProtonLabel::About.label(), -70000);
    assert_eq!(CwtProtonMeetLabel::MeetingId.label(), -67550);
    assert_eq!(CwtProtonMeetLabel::ClientType.label(), -67554);
}

#[test]
fn senders_and_components() {
    assert!(!Sender::Member(0).is_external());
    assert!(Sender::External(1).is_external());
    assert!(Sender::NewMemberProposal.is_external_proposal());
    assert!(!Sender::NewMemberCommit.is_external_proposal());
    assert!(Sender::NewMemberCommit.is_external_commit());
    assert!(!Sender::External(0).is_external_commit());
    let mut c = CompatibleComponent::empty();
    assert_eq!(c.set_field(1, vec![1]), None);
    assert_eq!(c.set_field(1, vec![2]), Some(vec![1]));
    assert_eq!(c.get_field(1), Some(&vec![2]));
    assert_eq!(c.get_field(2), None);
    let d = CompatibleComponent::from_entries(vec![(3, vec![3]), (1, vec![9]), (3, vec![4])]);
    assert_eq!(d.get_field(3), Some(&vec![4]));
    assert_eq!(d.get_field(1), Some(&vec![9]));
    assert_eq!(d.0.len(), 2);
    assert_eq!(PrivateCapability::CanUpdateSpaceMetadata.as_capability_type(), 0x8001);
    assert_eq!(PrivateCapability::from_capability_type(0x8001), Some(PrivateCapability::CanUpdateSpaceMetadata));
    assert_eq!(PrivateCapability::from_capability_type(1), None);
}

#[test]
fn compatible_component_encodes_fields_in_order() {
    let mut a = CompatibleComponent::empty();
    a.set_field(3, vec![0xbb, 0xcc]);
    a.set_field(1, vec![0xaa]);
    let mut b = CompatibleComponent::empty();
    b.set_field(1, vec![0xaa]);
    b.set_field(3, vec![0xbb, 0xcc]);
    assert_eq!(a.entries(), vec![(1u8, vec![0xaa]), (3u8, vec![0xbb, 0xcc])]);
    assert_eq!(a.tls_serialize(), vec![7, 1, 1, 0xaa, 3, 2, 0xbb, 0xcc]);
    assert_eq!(a.tls_serialize(), b.tls_serialize());
    assert_eq!(a.tls_serialized_len(), 8);
    assert_eq!(CompatibleComponent::empty().tls_serialize(), vec![0]);
    // Reading the entries back gives the same component.
    assert_eq!(CompatibleComponent::from_entries(a.entries()), a);
}
