use proton_meet::identifiers::account::{OrgId, ProtonUserId};
use proton_meet::identifiers::device::{DeviceId, DeviceIdRef};
use proton_meet::identifiers::domain::{Domain, DomainRef};
use proton_meet::identifiers::email::{ProfileId, ProtonEmail};
use proton_meet::identifiers::error::ProtonMeetIdError;
use proton_meet::identifiers::id::Id;
use proton_meet::identifiers::numbers::{Epoch, LeafIndex};
use proton_meet::identifiers::obfuscate;
use proton_meet::identifiers::room::{RoomId, RoomIdRef};
use proton_meet::identifiers::time::{Duration, TimeArg};
use proton_meet::identifiers::user::{UserId, UserIdRef};
use proton_meet::identifiers::{AsOwned, ByRef};

#[test]
fn user_id_round_trip() {
    let user = UserId::new(&Domain::default());
    let text = user.to_string();
    assert!(text.starts_with("mimi://proton.me/u/"));
    let back = UserId::from_str(&text).unwrap();
    assert_eq!(back, user);
}

#[test]
fn user_id_parse_and_errors() {
    let u = UserIdRef::try_from("mimi://example.com/u/abc").unwrap();
    assert_eq!(u.domain.as_str(), "example.com");
    assert_eq!(u.id.as_str(), "abc");
    assert_eq!(u.to_string(), "mimi://example.com/u/abc");
    // a device URI names its owner
    let d = UserIdRef::try_from("mimi://example.com/u/abc/d/dev").unwrap();
    assert_eq!(d.id.as_str(), "abc");
    assert!(matches!(
        UserIdRef::try_from("mimi://example.com/u/abc/d"),
        Err(ProtonMeetIdError::InvalidUserId("tried to deserialize a device ID into a user ID"))
    ));
    assert!(matches!(
        UserIdRef::try_from("mimi://example.com/u/abc/def"),
        Err(ProtonMeetIdError::InvalidUserId("multiple user parts in MIMI user ID"))
    ));
    assert!(matches!(
        UserIdRef::try_from("mimi://example.com/u/"),
        Err(ProtonMeetIdError::InvalidUserId("missing unique identifier"))
    ));
    assert!(matches!(
        UserIdRef::try_from("mimi://example.com/x/abc"),
        Err(ProtonMeetIdError::InvalidUserId("'u' must directly precede identity part"))
    ));
    assert!(matches!(
        UserIdRef::try_from("mimi://example.com//abc"),
        Err(ProtonMeetIdError::InvalidUserId("path component of MIMI URI is missing"))
    ));
    assert!(matches!(
        UserIdRef::try_from("/u/abc"),
        Err(ProtonMeetIdError::InvalidUserId("authority is missing"))
    ));
    assert!(matches!(
        UserIdRef::try_from("mimi://example.com"),
        Err(ProtonMeetIdError::InvalidUserId("invalid URI"))
    ));
    assert!(matches!(
        UserIdRef::try_from("mimi://[::1]/u/abc"),
        Err(ProtonMeetIdError::ImplementationError("Invalid domain name"))
    ));
    assert!(matches!(UserIdRef::try_from("mimi://a b/u/x"), Err(ProtonMeetIdError::InvalidUri(_))));
}

#[test]
fn device_id_parse_and_errors() {
    let d = DeviceIdRef::try_from("mimi://example.com/u/owner/d/dev").unwrap();
    assert_eq!(d.to_string(), "mimi://example.com/u/owner/d/dev");
    assert_eq!(d.owning_identity_id().id.as_str(), "owner");
    // a trailing slash is accepted
    assert!(DeviceIdRef::try_from("mimi://example.com/u/owner/d/dev/").is_ok());
    assert!(matches!(
        DeviceIdRef::try_from("mimi://example.com/u/owner/d/dev/x"),
        Err(ProtonMeetIdError::InvalidDeviceId("too many path parts"))
    ));
    assert!(matches!(
        DeviceIdRef::try_from("mimi://example.com/u/owner/d"),
        Err(ProtonMeetIdError::InvalidDeviceId("missing identifier"))
    ));
    assert!(matches!(
        DeviceIdRef::try_from("mimi://example.com/u/owner/d/"),
        Err(ProtonMeetIdError::InvalidDeviceId("empty identifier"))
    ));
    assert!(matches!(
        DeviceIdRef::try_from("mimi://example.com/u/owner"),
        Err(ProtonMeetIdError::InvalidDeviceId("device code is missing"))
    ));
    assert!(matches!(
        DeviceIdRef::try_from("mimi://example.com/u/owner/x/dev"),
        Err(ProtonMeetIdError::InvalidDeviceId("device code must be 'd'"))
    ));
    assert!(matches!(
        DeviceIdRef::try_from("mimi://example.com/d/owner/dev"),
        Err(ProtonMeetIdError::InvalidDeviceId("user code must be 'u'"))
    ));
    assert!(matches!(
        DeviceIdRef::try_from("mimi://example.com//owner/d/dev"),
        Err(ProtonMeetIdError::InvalidDeviceId("user code is missing"))
    ));
    assert!(matches!(
        DeviceIdRef::try_from("mimi://example.com/u//d/dev"),
        Err(ProtonMeetIdError::InvalidDeviceId("empty user identifier"))
    ));
}

#[test]
fn device_id_of_a_user() {
    let user = UserId::new(&Domain::default());
    let device = DeviceId::new_deterministic(&user, Id::from_str("dev1").unwrap());
    assert_eq!(device.id(), "dev1");
    let owner = device.owning_identity_id();
    assert_eq!(owner.as_owned(), user);
    let text = device.to_string();
    let back = DeviceId::from_str(&text).unwrap();
    assert_eq!(back, device);
    assert_eq!(device.as_ref().owning_identity_id().id.as_str(), user.id.as_str());
    let fresh = DeviceId::new(&user);
    assert_eq!(fresh.id().len(), 22);
}

#[test]
fn room_id_parse_and_errors() {
    let r = RoomIdRef::try_from("mimi://example.com/r/room1").unwrap();
    assert_eq!(r.id.as_str(), "room1");
    assert_eq!(r.to_string(), "mimi://example.com/r/room1");
    assert!(matches!(
        RoomIdRef::try_from("mimi://example.com/u/room1"),
        Err(ProtonMeetIdError::InvalidRoomId("room code must be 'r'"))
    ));
    assert!(matches!(
        RoomIdRef::try_from("mimi://example.com/r"),
        Err(ProtonMeetIdError::InvalidRoomId("missing unique identifier"))
    ));
    let room = RoomId::new(&Domain::default());
    assert_eq!(RoomId::from_str(&room.to_string()).unwrap(), room);
}

#[test]
fn self_room_is_derived_from_the_user() {
    let user = UserId { domain: Domain::default(), id: Id::from_str("alice").unwrap() };
    let a = user.to_self_room_id();
    let b = user.to_self_room_id();
    assert_eq!(a, b);
    assert_eq!(a.domain, user.domain);
    // 16 bytes of SHA-256 in unpadded base64
    assert_eq!(a.id.as_str().len(), 22);
    let other = UserId { domain: Domain::default(), id: Id::from_str("bob").unwrap() };
    assert_ne!(other.to_self_room_id(), a);
}

#[test]
fn random_ids_are_unpadded_base64_of_16_bytes() {
    let id = Id::new_random([0u8; 16]);
    assert_eq!(id.as_str(), "AAAAAAAAAAAAAAAAAAAAAA");
    let id = Id::new_random([0xffu8; 16]);
    assert_eq!(id.as_str(), "_____________________w");
    assert_eq!(Id::new().as_str().len(), 22);
}

#[test]
fn domains() {
    assert!(Domain::from_str("example.com").is_ok());
    assert!(Domain::from_str("ex%41mple.com").is_ok());
    assert!(matches!(Domain::from_str("ex%4"), Err(ProtonMeetIdError::ImplementationError("Invalid domain name"))));
    assert!(matches!(Domain::from_str("a/b"), Err(ProtonMeetIdError::ImplementationError("Invalid domain name"))));
    assert!(DomainRef::try_from("é.com").is_err());
    assert_eq!(Domain::default().as_str(), "proton.me");
    assert_eq!(Domain::new_unchecked("x y").as_str(), "x y");
}

#[test]
fn epochs_and_leaf_indices() {
    assert_eq!(Epoch::from_str("42").unwrap().value(), 42);
    assert_eq!(Epoch::from_str("+7").unwrap().value(), 7);
    assert!(matches!(Epoch::from_str("-1"), Err(ProtonMeetIdError::InvalidEpoch(_))));
    assert!(matches!(Epoch::from_str("18446744073709551616"), Err(ProtonMeetIdError::InvalidEpoch(_))));
    assert_eq!(Epoch::from(5).value(), 5);
    assert_eq!(LeafIndex::max().get(), 2147483646);
    assert_eq!(LeafIndex::try_from(2147483646).unwrap().get(), 2147483646);
    assert!(matches!(
        LeafIndex::try_from(2147483647),
        Err(ProtonMeetIdError::InvalidLeafIndex("LeafIndex too large"))
    ));
    assert!(matches!(
        LeafIndex::from_str("4294967296"),
        Err(ProtonMeetIdError::InvalidLeafIndex("Epoch must be a 'uint32'"))
    ));
    assert!(matches!(
        LeafIndex::from_str("4294967295"),
        Err(ProtonMeetIdError::InvalidLeafIndex("LeafIndex too large"))
    ));
    assert_eq!(LeafIndex::from_str("3").unwrap().get(), 3);
}

#[test]
fn decimal_forms_at_their_edges() {
    assert_eq!(Epoch::from_str("18446744073709551615").unwrap().value(), u64::MAX);
    assert_eq!(Epoch::from_str("0007").unwrap().value(), 7);
    assert!(matches!(Epoch::from_str(""), Err(ProtonMeetIdError::InvalidEpoch(_))));
    assert!(matches!(Epoch::from_str("+"), Err(ProtonMeetIdError::InvalidEpoch(_))));
    assert!(matches!(Epoch::from_str("12a"), Err(ProtonMeetIdError::InvalidEpoch(_))));
    assert!(matches!(Epoch::from_str(" 1"), Err(ProtonMeetIdError::InvalidEpoch(_))));
    assert!(matches!(Epoch::from_str("99999999999999999999x"), Err(ProtonMeetIdError::InvalidEpoch(_))));
    assert_eq!(LeafIndex::from_str("+2147483646").unwrap().get(), 2147483646);
    assert!(matches!(
        LeafIndex::from_str("42949672950"),
        Err(ProtonMeetIdError::InvalidLeafIndex("Epoch must be a 'uint32'"))
    ));
}

#[test]
fn org_and_account_ids() {
    let bytes = [7u8; 64];
    let org = OrgId::try_from(&bytes).unwrap();
    let text = org.to_string();
    assert_eq!(OrgId::from_str(&text).unwrap(), org);
    assert!(matches!(OrgId::try_from(&bytes[..63]), Err(ProtonMeetIdError::InvalidOrgId("Should be 512 bits long"))));
    assert!(matches!(OrgId::from_str("!!"), Err(ProtonMeetIdError::InvalidOrgId("Failed to decode from base 64"))));
    assert!(matches!(OrgId::from_str("AAAA"), Err(ProtonMeetIdError::InvalidOrgId("Should be 512 bits long"))));
    let user = ProtonUserId::empty();
    let text = user.to_string();
    assert_eq!(ProtonUserId::from_str(&text).unwrap(), user);
    assert!(matches!(
        ProtonUserId::from_str("AAAA"),
        Err(ProtonMeetIdError::InvalidProtonUserId("Should be 512 bits long"))
    ));
}

#[test]
fn emails_and_names() {
    let e = ProtonEmail::from_str("john.doe@proton.me").unwrap();
    assert_eq!(e.name(), "john doe");
    assert!(matches!(ProtonEmail::from_str("john@localhost"), Err(ProtonMeetIdError::EmailAddressError(_))));
    assert!(ProtonEmail::from_str("not an email").is_err());
    assert_eq!(ProtonEmail::new_unchecked("a.b.c".to_string()).name(), "a b c");
    let p = ProfileId::from_str("profile").unwrap();
    assert_eq!(p.to_string(), "profile");
    assert_eq!(ProfileId::new().to_string().len(), 22);
}

#[test]
fn obfuscation_hides_the_middle() {
    assert_eq!(obfuscate("abcdefghijklmnop", 5, 10), "abcde******lmnop");
    assert_eq!(obfuscate("abcdef", 5, 10), "*****f");
    assert_eq!(obfuscate("abc", 5, 10), "***");
    assert_eq!(obfuscate("", 5, 10), "");
}

#[test]
fn time_args() {
    let now = Duration { secs: 100, nanos: 900_000_000 };
    let rel = TimeArg::Relative(Duration { secs: 1, nanos: 200_000_000 });
    assert_eq!(rel.to_absolute(now), Duration { secs: 102, nanos: 100_000_000 });
    let abs = TimeArg::Absolute(Duration { secs: 5, nanos: 0 });
    assert_eq!(abs.to_absolute(now), Duration { secs: 5, nanos: 0 });
    let t = proton_meet::identifiers::time::elapsed_since_epoch().unwrap();
    assert!(t.secs > 1_600_000_000);
}

#[test]
fn readme_device_format() {
    let u = UserId::from_str("mimi://proton.me/u/01J0TTK9PV36EYE2PTV5SJPE56").unwrap();
    let d = DeviceId::new_deterministic(&u, Id::from_str("01J0TTM454GQN06RWH0WD5ZPAR").unwrap());
    let text = d.as_ref().to_string();
    assert_eq!(text, "mimi://proton.me/u/01J0TTK9PV36EYE2PTV5SJPE56/d/01J0TTM454GQN06RWH0WD5ZPAR");
    let back = DeviceId::from_str(&text).unwrap();
    assert_eq!(back, d);
    // read as a user, a device URI names its owner
    assert_eq!(UserId::from_str(&text).unwrap(), u);
}

#[test]
fn fresh_identifiers_are_22_url_safe_characters() {
    let url_safe = |s: &str| s.chars().all(|c| c.is_ascii_alphanumeric() || c == '-' || c == '_');
    let domain = Domain::default();
    let user = UserId::new(&domain);
    assert_eq!(user.id.as_str().len(), 22);
    assert!(url_safe(user.id.as_str()));
    let room = RoomId::new(&domain);
    assert_eq!(room.id.as_str().len(), 22);
    assert!(url_safe(room.id.as_str()));
    let device = DeviceId::new(&user);
    assert_eq!(device.id().len(), 22);
    assert!(url_safe(device.id()));
    assert_eq!(user.to_self_room_id().id.as_str().len(), 22);
}

#[test]
fn unreserved_identifiers_read_back() {
    let u = UserIdRef::try_from("mimi://example.com/u/a.b~c-d_e").unwrap();
    assert_eq!(u.id.as_str(), "a.b~c-d_e");
    assert_eq!(u.to_string(), "mimi://example.com/u/a.b~c-d_e");
    let d = DeviceIdRef::try_from("mimi://example.com/u/o.w~n/d/d.e~v").unwrap();
    assert_eq!(d.owning_identity_id().id.as_str(), "o.w~n");
    assert_eq!(d.to_string(), "mimi://example.com/u/o.w~n/d/d.e~v");
    let r = RoomIdRef::try_from("mimi://example.com/r/r.o~om").unwrap();
    assert_eq!(r.to_string(), "mimi://example.com/r/r.o~om");
}
