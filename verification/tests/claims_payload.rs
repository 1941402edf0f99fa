use proton_meet::claims::about::UserAsserted;
use proton_meet::claims::kinds::{ClientType, MimiProvider};
use proton_meet::claims::meeting::{ClaimsDecodeError, ProtonMeetClaims};
use proton_meet::claims::proton::{CwtProtonLabel, EmailAlias, ProtonClaims};
use proton_meet::claims::role::Role;
use proton_meet::claims::value::ClaimValue;
use proton_meet::identifiers::account::OrgId;

fn num(i: i128) -> ClaimValue {
    ClaimValue::Integer(i)
}

fn text(s: &str) -> ClaimValue {
    ClaimValue::Text(s.to_string())
}

fn meeting_entries() -> Vec<(ClaimValue, ClaimValue)> {
    vec![
        (num(CwtProtonLabel::Role.label()), num(0)),
        (num(CwtProtonLabel::MimiProvider.label()), num(56809)),
        (num(-67550), text("meeting-123")),
        (num(-67551), ClaimValue::Bytes(vec![1u8; 16])),
        (num(-67552), ClaimValue::Bool(true)),
    ]
}

#[test]
fn forward_compat_meet_labels_accept_new_ids() {
    let claims = ProtonMeetClaims::from_entries(meeting_entries()).unwrap();
    assert_eq!(claims.meeting_id, "meeting-123");
    assert_eq!(claims.uuid, [1u8; 16]);
    assert_eq!(claims.role, Role::User);
    assert_eq!(claims.mimi_provider, MimiProvider::ProtonAg);
    assert!(claims.is_from_server);
    assert!(!claims.is_host);
    assert_eq!(claims.client_type, ClientType::Unspecified);
}

#[test]
fn client_type_round_trip() {
    let claims = ProtonMeetClaims {
        meeting_id: "meeting-123".to_string(),
        uuid: [1u8; 16],
        oidc_claims: vec![],
        role: Role::User,
        mimi_provider: MimiProvider::ProtonAg,
        is_from_server: false,
        is_host: false,
        client_type: ClientType::Guest,
    };
    let decoded = ProtonMeetClaims::from_entries(claims.into_entries()).unwrap();
    assert_eq!(decoded.client_type, ClientType::Guest);
}

#[test]
fn meeting_claims_read_legacy_labels_and_keep_the_rest() {
    let entries = vec![
        (text("sub"), text("alice")),
        (num(-66541), num(2)),
        (num(-66542), num(7)),
        (num(-66550), text("old-meeting")),
        (num(-66551), ClaimValue::Bytes(vec![9u8; 16])),
        (num(-66552), ClaimValue::Bool(true)),
        (num(-67553), ClaimValue::Bool(true)),
        (num(-67554), num(3)),
        (num(-67553), num(1)),
    ];
    let claims = ProtonMeetClaims::from_entries(entries).unwrap();
    assert_eq!(claims.meeting_id, "old-meeting");
    assert_eq!(claims.uuid, [9u8; 16]);
    assert_eq!(claims.role, Role::OrganizationAdmin);
    assert_eq!(claims.mimi_provider, MimiProvider::Unknown(7));
    assert!(claims.is_from_server);
    assert!(claims.is_host);
    assert_eq!(claims.client_type, ClientType::Agent);
    assert_eq!(claims.oidc_claims, vec![(text("sub"), text("alice")), (num(-67553), num(1))]);
}

#[test]
fn meeting_claims_errors() {
    let mut e = meeting_entries();
    e[3] = (num(-67551), ClaimValue::Bytes(vec![1u8; 15]));
    assert_eq!(ProtonMeetClaims::from_entries(e).unwrap_err(), ClaimsDecodeError::UuidLength);
    let mut e = meeting_entries();
    e[2] = (num(-67550), num(5));
    assert_eq!(ProtonMeetClaims::from_entries(e).unwrap_err(), ClaimsDecodeError::ExpectedText);
    let mut e = meeting_entries();
    e[0] = (num(-66541), num(70000));
    assert_eq!(ProtonMeetClaims::from_entries(e).unwrap_err(), ClaimsDecodeError::OutOfRange);
    let mut e = meeting_entries();
    e.remove(2);
    assert_eq!(ProtonMeetClaims::from_entries(e).unwrap_err(), ClaimsDecodeError::MissingField("meeting_id"));
    let mut e = meeting_entries();
    e.remove(1);
    assert_eq!(ProtonMeetClaims::from_entries(e).unwrap_err(), ClaimsDecodeError::MissingField("mimi_provider"));
    // a uuid that is not a byte string sets nothing, and then it is missing
    let mut e = meeting_entries();
    e[3] = (num(-67551), text("x"));
    assert_eq!(ProtonMeetClaims::from_entries(e).unwrap_err(), ClaimsDecodeError::MissingField("uuid"));
}

#[test]
fn meeting_claims_written_then_read() {
    let claims = ProtonMeetClaims {
        meeting_id: "m".to_string(),
        uuid: [3u8; 16],
        oidc_claims: vec![(text("iss"), text("proton"))],
        role: Role::ProtonAdmin,
        mimi_provider: MimiProvider::ProtonAg,
        is_from_server: true,
        is_host: true,
        client_type: ClientType::Proton,
    };
    let entries = claims.into_entries();
    assert_eq!(entries.len(), 8);
    assert_eq!(entries[1], (num(-66541), num(3)));
    let back = ProtonMeetClaims::from_entries(entries).unwrap();
    assert_eq!(back.meeting_id, "m");
    assert_eq!(back.uuid, [3u8; 16]);
    assert_eq!(back.oidc_claims, vec![(text("iss"), text("proton"))]);
    assert_eq!(back.role, Role::ProtonAdmin);
    assert!(back.is_from_server && back.is_host);
    assert_eq!(back.client_type, ClientType::Proton);
}

fn alias(email: &str, verified: bool) -> ClaimValue {
    ClaimValue::Mapping(vec![(text("e"), text(email)), (text("v"), ClaimValue::Bool(verified))])
}

#[test]
fn account_claims_read_aliases_and_organizations() {
    let redacted = ClaimValue::Tag(60, Box::new(ClaimValue::Bytes(vec![0u8; 16])));
    let entries = vec![
        (num(-66538), ClaimValue::Array(vec![alias("a@proton.me", true), redacted, alias("b@proton.me", false)])),
        (
            num(-66539),
            ClaimValue::Array(vec![ClaimValue::Tag(60, Box::new(ClaimValue::Null)), ClaimValue::Bytes(vec![7u8; 64])]),
        ),
        (num(-66541), num(1)),
        (num(-66542), num(56809)),
        (text("email"), text("a@proton.me")),
    ];
    let claims = ProtonClaims::from_entries(entries).unwrap();
    assert_eq!(
        claims.aliases,
        Some(vec![
            EmailAlias { email: "a@proton.me".to_string(), verified: true },
            EmailAlias { email: "b@proton.me".to_string(), verified: false },
        ])
    );
    let ids = claims.organization_ids.unwrap();
    assert_eq!(ids.len(), 1);
    assert_eq!(ids[0].0, [7u8; 64]);
    assert_eq!(claims.role, Role::OrganizationMember);
    assert_eq!(claims.mimi_provider, MimiProvider::ProtonAg);
    assert_eq!(claims.oidc_claims, vec![(text("email"), text("a@proton.me"))]);
}

#[test]
fn account_claims_errors() {
    let provider = (num(-66542), num(56809));
    let bad_org = vec![(num(-66539), ClaimValue::Array(vec![ClaimValue::Bytes(vec![1u8; 63])])), (num(-66542), num(1))];
    assert_eq!(ProtonClaims::from_entries(bad_org).unwrap_err(), ClaimsDecodeError::OrgIdLength);
    let text_org = vec![(num(-66539), ClaimValue::Array(vec![text("x")])), (num(-66542), num(1))];
    assert_eq!(ProtonClaims::from_entries(text_org).unwrap_err(), ClaimsDecodeError::ExpectedBytes);
    let twice = ClaimValue::Mapping(vec![(text("e"), text("a")), (text("e"), text("b")), (text("v"), ClaimValue::Bool(true))]);
    let bad_alias = vec![(num(-66538), ClaimValue::Array(vec![twice])), (num(-66542), num(1))];
    assert_eq!(ProtonClaims::from_entries(bad_alias).unwrap_err(), ClaimsDecodeError::InvalidAlias);
    assert_eq!(
        ProtonClaims::from_entries(vec![(num(-66541), num(2))]).unwrap_err(),
        ClaimsDecodeError::MissingField("mimi_provider")
    );
    let plain = ProtonClaims::from_entries(vec![provider]).unwrap();
    assert_eq!(plain.role, Role::User);
    assert_eq!(plain.aliases, None);
    assert!(plain.organization_ids.is_none());
}

#[test]
fn email_alias_ignores_other_keys() {
    let v = ClaimValue::Mapping(vec![
        (text("x"), num(1)),
        (text("v"), ClaimValue::Bool(false)),
        (text("e"), text("c@proton.me")),
    ]);
    assert_eq!(
        EmailAlias::from_value(v).unwrap(),
        EmailAlias { email: "c@proton.me".to_string(), verified: false }
    );
    let missing = ClaimValue::Mapping(vec![(text("e"), text("c@proton.me"))]);
    assert_eq!(EmailAlias::from_value(missing).unwrap_err(), ClaimsDecodeError::InvalidAlias);
}

#[test]
fn user_asserted_reads_about() {
    let u = UserAsserted::from_entries(vec![(num(-70000), text("hello")), (num(1), num(2))]).unwrap();
    assert_eq!(u.about.unwrap().as_str(), "hello");
    let legacy = UserAsserted::from_entries(vec![(text("about"), text("hi"))]).unwrap();
    assert_eq!(legacy.about.unwrap().as_str(), "hi");
    let cleared = UserAsserted::from_entries(vec![(text("about"), text("hi")), (num(-70000), ClaimValue::Null)]).unwrap();
    assert!(cleared.about.is_none());
    assert_eq!(
        UserAsserted::from_entries(vec![(num(-70000), num(3))]).unwrap_err(),
        ClaimsDecodeError::InvalidAbout
    );
}

#[test]
fn account_claims_written_then_read() {
    let claims = ProtonClaims {
        aliases: Some(vec![EmailAlias { email: "x@proton.me".to_string(), verified: true }]),
        organization_ids: Some(vec![OrgId([4u8; 64])]),
        oidc_claims: vec![(text("name"), text("X"))],
        role: Role::OrganizationAdmin,
        mimi_provider: MimiProvider::ProtonAg,
    };
    let entries = claims.into_entries();
    assert_eq!(entries.len(), 5);
    assert_eq!(entries[3], (num(-66541), num(2)));
    assert_eq!(entries[4], (num(-66542), num(56809)));
    let back = ProtonClaims::from_entries(entries).unwrap();
    assert_eq!(back.aliases, Some(vec![EmailAlias { email: "x@proton.me".to_string(), verified: true }]));
    assert_eq!(back.organization_ids.unwrap()[0].0, [4u8; 64]);
    assert_eq!(back.oidc_claims, vec![(text("name"), text("X"))]);
    assert_eq!(back.role, Role::OrganizationAdmin);
    let bare = ProtonClaims {
        aliases: None,
        organization_ids: None,
        oidc_claims: vec![],
        role: Role::User,
        mimi_provider: MimiProvider::Unknown(9),
    };
    let entries = bare.into_entries();
    assert_eq!(entries, vec![(num(-66541), num(0)), (num(-66542), num(9))]);
}

#[test]
fn user_asserted_written_then_read() {
    let with = UserAsserted::from_entries(vec![(text("about"), text("bio"))]).unwrap();
    let entries = with.into_entries();
    assert_eq!(entries, vec![(text("about"), text("bio"))]);
    let back = UserAsserted::from_entries(entries).unwrap();
    assert_eq!(back.about.unwrap().as_str(), "bio");
    assert!(UserAsserted::default().into_entries().is_empty());
}

fn tagged(t: u64, v: ClaimValue) -> ClaimValue {
    ClaimValue::Tag(t, Box::new(v))
}

#[test]
fn readers_look_through_tags() {
    let v = tagged(
        24,
        ClaimValue::Mapping(vec![
            (tagged(1, text("e")), tagged(2, tagged(3, text("d@proton.me")))),
            (text("v"), tagged(4, ClaimValue::Bool(true))),
        ]),
    );
    assert_eq!(
        EmailAlias::from_value(v).unwrap(),
        EmailAlias { email: "d@proton.me".to_string(), verified: true }
    );
    // A key that is no text string is refused.
    let int_key = ClaimValue::Mapping(vec![
        (num(0), text("x")),
        (text("e"), text("d@proton.me")),
        (text("v"), ClaimValue::Bool(true)),
    ]);
    assert_eq!(EmailAlias::from_value(int_key).unwrap_err(), ClaimsDecodeError::InvalidAlias);

    let u = UserAsserted::from_entries(vec![(num(-70000), tagged(7, text("tagged")))]).unwrap();
    assert_eq!(u.about.unwrap().as_str(), "tagged");

    let mut entries = meeting_entries();
    entries[2] = (num(-67550), tagged(9, text("meeting-456")));
    let claims = ProtonMeetClaims::from_entries(entries).unwrap();
    assert_eq!(claims.meeting_id, "meeting-456");
}
