//! The payload of a meeting credential: reading its entries and writing
//! them back.
use vstd::prelude::*;
use crate::claims::value::{ClaimValue, int_of, bool_of, u16_of, to_u16, array16, untagged, into_untagged};
use crate::claims::role::{Role, role_of, role_code};
use crate::claims::kinds::{
    MimiProvider, ClientType, provider_of, provider_code, client_type_of, client_type_code,
};

verus! {

/// The CBOR label of the role claim.
pub const ROLE_LABEL: i128 = -66541;
/// The CBOR label of the provider claim.
pub const PROVIDER_LABEL: i128 = -66542;
/// The CBOR label of the meeting identifier.
pub const MEETING_ID_LABEL: i128 = -67550;
/// The CBOR label of the token identifier.
pub const TOKEN_UUID_LABEL: i128 = -67551;
/// The CBOR label of the claim that the server itself holds the credential.
pub const POLICY_ENFORCER_LABEL: i128 = -67552;
/// The CBOR label of the host claim.
pub const HOST_LABEL: i128 = -67553;
/// The CBOR label of the client type.
pub const CLIENT_TYPE_LABEL: i128 = -67554;
/// The label the meeting identifier had in earlier credentials.
pub const LEGACY_MEETING_ID_LABEL: i128 = -66550;
/// The label the token identifier had in earlier credentials.
pub const LEGACY_TOKEN_UUID_LABEL: i128 = -66551;
/// The label the policy-enforcer claim had in earlier credentials.
pub const LEGACY_POLICY_ENFORCER_LABEL: i128 = -66552;

/// Why the payload of a credential could not be read.
#[derive(Debug, Clone, Copy, PartialEq, Eq)]
pub enum ClaimsDecodeError {
    /// An integer that should be a 16-bit code is out of range.
    OutOfRange,
    /// The meeting identifier is not a text string.
    ExpectedText,
    /// The token identifier does not hold 16 bytes.
    UuidLength,
    /// An organization identifier is not a byte string.
    ExpectedBytes,
    /// An organization identifier does not hold 64 bytes.
    OrgIdLength,
    /// An alias is not a map of its address and whether it is verified.
    InvalidAlias,
    /// The about text is neither a text string nor null.
    InvalidAbout,
    /// A claim the credential must carry is absent.
    MissingField(&'static str),
}

/// The claims of a meeting credential.
#[derive(Debug)]
pub struct ProtonMeetClaims {
    pub meeting_id: String,
    pub uuid: [u8; 16],
    /// The entries of the payload that no Proton claim reads: the OpenID
    /// claims, in the order they came.
    pub oidc_claims: Vec<(ClaimValue, ClaimValue)>,
    pub role: Role,
    pub mimi_provider: MimiProvider,
    pub is_from_server: bool,
    pub is_host: bool,
    pub client_type: ClientType,
}

/// Which claim one entry of a meeting credential's payload sets.
#[derive(Debug, Clone, Copy, PartialEq, Eq, Structural)]
pub enum MeetRead {
    Role(i128),
    Provider(i128),
    MeetingId,
    Uuid,
    FromServer(bool),
    Host(bool),
    ClientType(i128),
    Rest,
}

/// Which claim the entry `(k, v)` sets: by its integer label, and for most
/// labels only when the value has the claim's shape.
pub open spec fn meet_read(k: ClaimValue, v: ClaimValue) -> MeetRead {
    match k {
        ClaimValue::Integer(i) => {
            if i == ROLE_LABEL && v is Integer {
                MeetRead::Role(int_of(v))
            } else if i == PROVIDER_LABEL && v is Integer {
                MeetRead::Provider(int_of(v))
            } else if i == MEETING_ID_LABEL || i == LEGACY_MEETING_ID_LABEL {
                MeetRead::MeetingId
            } else if (i == TOKEN_UUID_LABEL || i == LEGACY_TOKEN_UUID_LABEL) && v is Bytes {
                MeetRead::Uuid
            } else if (i == POLICY_ENFORCER_LABEL || i == LEGACY_POLICY_ENFORCER_LABEL) && v is Bool {
                MeetRead::FromServer(bool_of(v))
            } else if i == HOST_LABEL && v is Bool {
                MeetRead::Host(bool_of(v))
            } else if i == CLIENT_TYPE_LABEL && v is Integer {
                MeetRead::ClientType(int_of(v))
            } else {
                MeetRead::Rest
            }
        },
        _ => MeetRead::Rest,
    }
}

/// What is wrong with the entry `(k, v)` on its own, if anything.
pub open spec fn meet_entry_error(k: ClaimValue, v: ClaimValue) -> Option<ClaimsDecodeError> {
    match meet_read(k, v) {
        MeetRead::Role(j) => if u16_of(j) is None { Some(ClaimsDecodeError::OutOfRange) } else { None },
        MeetRead::Provider(j) => if u16_of(j) is None { Some(ClaimsDecodeError::OutOfRange) } else { None },
        MeetRead::ClientType(j) => if u16_of(j) is None { Some(ClaimsDecodeError::OutOfRange) } else { None },
        MeetRead::MeetingId => if untagged(v) is Text { None } else { Some(ClaimsDecodeError::ExpectedText) },
        MeetRead::Uuid => match v {
            ClaimValue::Bytes(b) => if b@.len() == 16 { None } else { Some(ClaimsDecodeError::UuidLength) },
            _ => None,
        },
        _ => None,
    }
}

/// The error of the first entry that has one.
pub open spec fn meet_first_error(s: Seq<(ClaimValue, ClaimValue)>) -> Option<ClaimsDecodeError>
    decreases s.len(),
{
    if s.len() == 0 {
        None
    } else {
        match meet_first_error(s.drop_last()) {
            Some(e) => Some(e),
            None => meet_entry_error(s.last().0, s.last().1),
        }
    }
}

/// The meeting identifier of the last entry that gives one.
pub open spec fn meet_meeting_id(s: Seq<(ClaimValue, ClaimValue)>) -> Option<String>
    decreases s.len(),
{
    if s.len() == 0 {
        None
    } else {
        match (meet_read(s.last().0, s.last().1), untagged(s.last().1)) {
            (MeetRead::MeetingId, ClaimValue::Text(t)) => Some(t),
            _ => meet_meeting_id(s.drop_last()),
        }
    }
}

/// The token identifier of the last entry that gives one.
pub open spec fn meet_uuid(s: Seq<(ClaimValue, ClaimValue)>) -> Option<Seq<u8>>
    decreases s.len(),
{
    if s.len() == 0 {
        None
    } else {
        match (meet_read(s.last().0, s.last().1), s.last().1) {
            (MeetRead::Uuid, ClaimValue::Bytes(b)) => Some(b@),
            _ => meet_uuid(s.drop_last()),
        }
    }
}

/// The role of the last entry that gives one.
pub open spec fn meet_role(s: Seq<(ClaimValue, ClaimValue)>) -> Option<Role>
    decreases s.len(),
{
    if s.len() == 0 {
        None
    } else {
        match meet_read(s.last().0, s.last().1) {
            MeetRead::Role(j) => Some(role_of(u16_of(j).unwrap())),
            _ => meet_role(s.drop_last()),
        }
    }
}

/// The provider of the last entry that gives one.
pub open spec fn meet_provider(s: Seq<(ClaimValue, ClaimValue)>) -> Option<MimiProvider>
    decreases s.len(),
{
    if s.len() == 0 {
        None
    } else {
        match meet_read(s.last().0, s.last().1) {
            MeetRead::Provider(j) => Some(provider_of(u16_of(j).unwrap())),
            _ => meet_provider(s.drop_last()),
        }
    }
}

/// Whether the last entry that says so says the server holds the
/// credential (false when none does).
pub open spec fn meet_from_server(s: Seq<(ClaimValue, ClaimValue)>) -> bool
    decreases s.len(),
{
    if s.len() == 0 {
        false
    } else {
        match meet_read(s.last().0, s.last().1) {
            MeetRead::FromServer(b) => b,
            _ => meet_from_server(s.drop_last()),
        }
    }
}

/// Whether the last entry that says so says the holder hosts the meeting
/// (false when none does).
pub open spec fn meet_host(s: Seq<(ClaimValue, ClaimValue)>) -> bool
    decreases s.len(),
{
    if s.len() == 0 {
        false
    } else {
        match meet_read(s.last().0, s.last().1) {
            MeetRead::Host(b) => b,
            _ => meet_host(s.drop_last()),
        }
    }
}

/// The client type of the last entry that gives one (unspecified when none
/// does).
pub open spec fn meet_client_type(s: Seq<(ClaimValue, ClaimValue)>) -> ClientType
    decreases s.len(),
{
    if s.len() == 0 {
        ClientType::Unspecified
    } else {
        match meet_read(s.last().0, s.last().1) {
            MeetRead::ClientType(j) => client_type_of(u16_of(j).unwrap()),
            _ => meet_client_type(s.drop_last()),
        }
    }
}

/// The entries no Proton claim reads, in their order.
pub open spec fn meet_rest(s: Seq<(ClaimValue, ClaimValue)>) -> Seq<(ClaimValue, ClaimValue)>
    decreases s.len(),
{
    if s.len() == 0 {
        Seq::empty()
    } else if meet_read(s.last().0, s.last().1) == MeetRead::Rest {
        meet_rest(s.drop_last()).push(s.last())
    } else {
        meet_rest(s.drop_last())
    }
}

/// Why the entries `s` do not make the claims of a meeting credential: the
/// first entry in error, else the first required claim that no entry gives.
pub open spec fn meet_error(s: Seq<(ClaimValue, ClaimValue)>) -> Option<ClaimsDecodeError> {
    if meet_first_error(s) is Some {
        meet_first_error(s)
    } else if meet_meeting_id(s) is None {
        Some(ClaimsDecodeError::MissingField("meeting_id"))
    } else if meet_uuid(s) is None {
        Some(ClaimsDecodeError::MissingField("uuid"))
    } else if meet_role(s) is None {
        Some(ClaimsDecodeError::MissingField("role"))
    } else if meet_provider(s) is None {
        Some(ClaimsDecodeError::MissingField("mimi_provider"))
    } else {
        None
    }
}

/// The claims `c` are those the entries `s` give.
pub open spec fn meet_claims_of(c: ProtonMeetClaims, s: Seq<(ClaimValue, ClaimValue)>) -> bool {
    &&& Some(c.meeting_id) == meet_meeting_id(s)
    &&& Some(c.uuid@) == meet_uuid(s)
    &&& Some(c.role) == meet_role(s)
    &&& Some(c.mimi_provider) == meet_provider(s)
    &&& c.is_from_server == meet_from_server(s)
    &&& c.is_host == meet_host(s)
    &&& c.client_type == meet_client_type(s)
    &&& c.oidc_claims@ == meet_rest(s)
}

/// The entries `s` are the payload written from the claims `c`: the OpenID
/// claims, then the role, the provider, the meeting identifier, the token
/// identifier, whether the server holds the credential, whether the holder
/// hosts the meeting, and the client type.
pub open spec fn meet_written(c: ProtonMeetClaims, s: Seq<(ClaimValue, ClaimValue)>) -> bool {
    let n = c.oidc_claims@.len() as int;
    &&& s.len() == n + 7
    &&& s.subrange(0, n) == c.oidc_claims@
    &&& s[n] == (ClaimValue::Integer(ROLE_LABEL), ClaimValue::Integer(role_code(c.role) as i128))
    &&& s[n + 1] == (
        ClaimValue::Integer(PROVIDER_LABEL),
        ClaimValue::Integer(provider_code(c.mimi_provider) as i128),
    )
    &&& s[n + 2] == (ClaimValue::Integer(MEETING_ID_LABEL), ClaimValue::Text(c.meeting_id))
    &&& s[n + 3].0 == ClaimValue::Integer(TOKEN_UUID_LABEL)
    &&& s[n + 3].1 matches ClaimValue::Bytes(b) && b@ == c.uuid@
    &&& s[n + 4] == (ClaimValue::Integer(POLICY_ENFORCER_LABEL), ClaimValue::Bool(c.is_from_server))
    &&& s[n + 5] == (ClaimValue::Integer(HOST_LABEL), ClaimValue::Bool(c.is_host))
    &&& s[n + 6] == (
        ClaimValue::Integer(CLIENT_TYPE_LABEL),
        ClaimValue::Integer(client_type_code(c.client_type) as i128),
    )
}

/// Entries that set no Proton claim are all kept, and none is in error.
proof fn lemma_meet_rest_only(p: Seq<(ClaimValue, ClaimValue)>)
    requires
        forall|i: int| 0 <= i < p.len() ==> meet_read(#[trigger] p[i].0, p[i].1) == MeetRead::Rest,
    ensures
        meet_rest(p) == p,
        meet_first_error(p) is None,
    decreases p.len(),
{
    if p.len() > 0 {
        let q = p.drop_last();
        assert forall|i: int| 0 <= i < q.len() implies meet_read(#[trigger] q[i].0, q[i].1) == MeetRead::Rest by {
            assert(q[i] == p[i]);
        }
        lemma_meet_rest_only(q);
        assert(meet_read(p[p.len() - 1].0, p[p.len() - 1].1) == MeetRead::Rest);
        assert(q.push(p.last()) == p);
    }
}

/// Reading back the payload written from claims gives the same claims, when
/// the OpenID entries set no Proton claim and the role and the provider are
/// written with codes of their own.
pub proof fn lemma_meet_claims_round_trip(c: ProtonMeetClaims, s: Seq<(ClaimValue, ClaimValue)>)
    requires
        meet_written(c, s),
        forall|i: int|
            0 <= i < c.oidc_claims@.len() ==> meet_read(#[trigger] c.oidc_claims@[i].0, c.oidc_claims@[i].1)
                == MeetRead::Rest,
        role_of(role_code(c.role)) == c.role,
        provider_of(provider_code(c.mimi_provider)) == c.mimi_provider,
    ensures
        meet_error(s) is None,
        meet_claims_of(c, s),
{
    let n = c.oidc_claims@.len() as int;
    let p = c.oidc_claims@;
    assert(s.take(n) == p);
    assert forall|i: int| 0 <= i < p.len() implies meet_read(#[trigger] p[i].0, p[i].1) == MeetRead::Rest by {
    }
    lemma_meet_rest_only(p);
    assert(s.take(n + 1).drop_last() == s.take(n));
    assert(s.take(n + 2).drop_last() == s.take(n + 1));
    assert(s.take(n + 3).drop_last() == s.take(n + 2));
    assert(s.take(n + 4).drop_last() == s.take(n + 3));
    assert(s.take(n + 5).drop_last() == s.take(n + 4));
    assert(s.take(n + 6).drop_last() == s.take(n + 5));
    assert(s.drop_last() == s.take(n + 6));
    assert(s.take(n + 1).last() == s[n]);
    assert(s.take(n + 2).last() == s[n + 1]);
    assert(s.take(n + 3).last() == s[n + 2]);
    assert(s.take(n + 4).last() == s[n + 3]);
    assert(s.take(n + 5).last() == s[n + 4]);
    assert(s.take(n + 6).last() == s[n + 5]);
    assert(meet_read(s[n].0, s[n].1) == MeetRead::Role(role_code(c.role) as i128));
    assert(meet_read(s[n + 1].0, s[n + 1].1) == MeetRead::Provider(provider_code(c.mimi_provider) as i128));
    assert(meet_read(s[n + 2].0, s[n + 2].1) == MeetRead::MeetingId);
    assert(meet_read(s[n + 3].0, s[n + 3].1) == MeetRead::Uuid);
    assert(meet_read(s[n + 4].0, s[n + 4].1) == MeetRead::FromServer(c.is_from_server));
    assert(meet_read(s[n + 5].0, s[n + 5].1) == MeetRead::Host(c.is_host));
    assert(meet_read(s[n + 6].0, s[n + 6].1) == MeetRead::ClientType(client_type_code(c.client_type) as i128));
    assert(meet_rest(s) == p) by {
        assert(meet_rest(s.take(n + 1)) == p);
        assert(meet_rest(s.take(n + 2)) == p);
        assert(meet_rest(s.take(n + 3)) == p);
        assert(meet_rest(s.take(n + 4)) == p);
        assert(meet_rest(s.take(n + 5)) == p);
        assert(meet_rest(s.take(n + 6)) == p);
    }
    assert(meet_first_error(s) is None) by {
        assert(u16_of(role_code(c.role) as i128) == Some(role_code(c.role)));
        assert(u16_of(provider_code(c.mimi_provider) as i128) == Some(provider_code(c.mimi_provider)));
        assert(u16_of(client_type_code(c.client_type) as i128) == Some(client_type_code(c.client_type)));
        assert(meet_first_error(s.take(n + 1)) is None);
        assert(meet_first_error(s.take(n + 2)) is None);
        assert(meet_first_error(s.take(n + 3)) is None);
        assert(meet_first_error(s.take(n + 4)) is None);
        assert(meet_first_error(s.take(n + 5)) is None);
        assert(meet_first_error(s.take(n + 6)) is None);
    }
    assert(meet_meeting_id(s) == Some(c.meeting_id)) by {
        assert(meet_meeting_id(s.take(n + 3)) == Some(c.meeting_id));
        assert(meet_meeting_id(s.take(n + 4)) == Some(c.meeting_id));
        assert(meet_meeting_id(s.take(n + 5)) == Some(c.meeting_id));
        assert(meet_meeting_id(s.take(n + 6)) == Some(c.meeting_id));
    }
    assert(meet_uuid(s) == Some(c.uuid@)) by {
        assert(meet_uuid(s.take(n + 4)) == Some(c.uuid@));
        assert(meet_uuid(s.take(n + 5)) == Some(c.uuid@));
        assert(meet_uuid(s.take(n + 6)) == Some(c.uuid@));
    }
    assert(meet_role(s) == Some(c.role)) by {
        assert(u16_of(role_code(c.role) as i128) == Some(role_code(c.role)));
        assert(meet_role(s.take(n + 1)) == Some(c.role));
        assert(meet_role(s.take(n + 2)) == Some(c.role));
        assert(meet_role(s.take(n + 3)) == Some(c.role));
        assert(meet_role(s.take(n + 4)) == Some(c.role));
        assert(meet_role(s.take(n + 5)) == Some(c.role));
        assert(meet_role(s.take(n + 6)) == Some(c.role));
    }
    assert(meet_provider(s) == Some(c.mimi_provider)) by {
        assert(u16_of(provider_code(c.mimi_provider) as i128) == Some(provider_code(c.mimi_provider)));
        assert(meet_provider(s.take(n + 2)) == Some(c.mimi_provider));
        assert(meet_provider(s.take(n + 3)) == Some(c.mimi_provider));
        assert(meet_provider(s.take(n + 4)) == Some(c.mimi_provider));
        assert(meet_provider(s.take(n + 5)) == Some(c.mimi_provider));
        assert(meet_provider(s.take(n + 6)) == Some(c.mimi_provider));
    }
    assert(meet_from_server(s) == c.is_from_server) by {
        assert(meet_from_server(s.take(n + 5)) == c.is_from_server);
        assert(meet_from_server(s.take(n + 6)) == c.is_from_server);
    }
    assert(meet_host(s) == c.is_host) by {
        assert(meet_host(s.take(n + 6)) == c.is_host);
    }
    assert(meet_client_type(s) == c.client_type) by {
        assert(u16_of(client_type_code(c.client_type) as i128) == Some(client_type_code(c.client_type)));
        assert(client_type_of(client_type_code(c.client_type)) == c.client_type);
    }
}

/// Once an entry is in error, more entries do not change the first error.
proof fn lemma_meet_error_sticks(s: Seq<(ClaimValue, ClaimValue)>, n: int)
    requires
        0 <= n <= s.len(),
        meet_first_error(s.take(n)) is Some,
    ensures
        meet_first_error(s) == meet_first_error(s.take(n)),
    decreases s.len() - n,
{
    if n < s.len() {
        assert(s.take(n + 1).drop_last() == s.take(n));
        lemma_meet_error_sticks(s, n + 1);
    } else {
        assert(s.take(n) == s);
    }
}

/// The bytes of a 16-byte array, as a vector.
pub fn bytes_of16(a: &[u8; 16]) -> (r: Vec<u8>)
    ensures
        r@ == a@,
{
    let mut out: Vec<u8> = Vec::new();
    let mut i: usize = 0;
    while i < 16
        invariant
            i <= 16,
            out@ == a@.subrange(0, i as int),
        decreases 16 - i,
    {
        out.push(a[i]);
        i += 1;
    }
    assert(a@.subrange(0, 16) == a@);
    out
}

/// Which claim the entry `(k, v)` sets.
pub fn meet_classify(k: &ClaimValue, v: &ClaimValue) -> (r: MeetRead)
    ensures
        r == meet_read(*k, *v),
{
    match k {
        ClaimValue::Integer(i) => {
            let i: i128 = *i;
            match v {
                ClaimValue::Integer(j) => {
                    if i == ROLE_LABEL {
                        MeetRead::Role(*j)
                    } else if i == PROVIDER_LABEL {
                        MeetRead::Provider(*j)
                    } else if i == MEETING_ID_LABEL || i == LEGACY_MEETING_ID_LABEL {
                        MeetRead::MeetingId
                    } else if i == CLIENT_TYPE_LABEL {
                        MeetRead::ClientType(*j)
                    } else {
                        MeetRead::Rest
                    }
                },
                ClaimValue::Bytes(_) => {
                    if i == MEETING_ID_LABEL || i == LEGACY_MEETING_ID_LABEL {
                        MeetRead::MeetingId
                    } else if i == TOKEN_UUID_LABEL || i == LEGACY_TOKEN_UUID_LABEL {
                        MeetRead::Uuid
                    } else {
                        MeetRead::Rest
                    }
                },
                ClaimValue::Bool(b) => {
                    if i == MEETING_ID_LABEL || i == LEGACY_MEETING_ID_LABEL {
                        MeetRead::MeetingId
                    } else if i == POLICY_ENFORCER_LABEL || i == LEGACY_POLICY_ENFORCER_LABEL {
                        MeetRead::FromServer(*b)
                    } else if i == HOST_LABEL {
                        MeetRead::Host(*b)
                    } else {
                        MeetRead::Rest
                    }
                },
                _ => {
                    if i == MEETING_ID_LABEL || i == LEGACY_MEETING_ID_LABEL {
                        MeetRead::MeetingId
                    } else {
                        MeetRead::Rest
                    }
                },
            }
        },
        _ => MeetRead::Rest,
    }
}

impl ProtonMeetClaims {
    /// The entries of the claims' payload: the OpenID claims, then the
    /// role, the provider, the meeting identifier, the token identifier,
    /// whether the server holds the credential, whether the holder hosts
    /// the meeting, and the client type.
    pub fn into_entries(self) -> (r: Vec<(ClaimValue, ClaimValue)>)
        ensures
            meet_written(self, r@),
    {
        let ghost c = self;
        let role = self.role.code();
        let provider = self.mimi_provider.code();
        let client_type = self.client_type.code();
        let uuid = bytes_of16(&self.uuid);
        let mut out = self.oidc_claims;
        let ghost n = out@.len() as int;
        out.push((ClaimValue::Integer(ROLE_LABEL), ClaimValue::Integer(role as i128)));
        out.push((ClaimValue::Integer(PROVIDER_LABEL), ClaimValue::Integer(provider as i128)));
        out.push((ClaimValue::Integer(MEETING_ID_LABEL), ClaimValue::Text(self.meeting_id)));
        out.push((ClaimValue::Integer(TOKEN_UUID_LABEL), ClaimValue::Bytes(uuid)));
        out.push((ClaimValue::Integer(POLICY_ENFORCER_LABEL), ClaimValue::Bool(self.is_from_server)));
        out.push((ClaimValue::Integer(HOST_LABEL), ClaimValue::Bool(self.is_host)));
        out.push((ClaimValue::Integer(CLIENT_TYPE_LABEL), ClaimValue::Integer(client_type as i128)));
        proof {
            assert(out@.subrange(0, n) == c.oidc_claims@);
        }
        out
    }

    /// Reads the claims of a meeting credential from the entries of its
    /// payload, in order. An entry sets the claim its label names (a later
    /// entry overrides an earlier one); labels of earlier credentials are
    /// read too; entries that set no claim are kept as the OpenID claims.
    /// The first entry in error stops the reading; then each of the meeting
    /// identifier, the token identifier, the role and the provider must have
    /// been given.
    pub fn from_entries(entries: Vec<(ClaimValue, ClaimValue)>) -> (r: Result<Self, ClaimsDecodeError>)
        ensures
            match meet_error(entries@) {
                Some(e) => r == Err::<Self, ClaimsDecodeError>(e),
                None => r matches Ok(c) && meet_claims_of(c, entries@),
            },
    {
        let ghost s = entries@;
        let mut meeting_id: Option<String> = None;
        let mut uuid: Option<[u8; 16]> = None;
        let mut role: Option<Role> = None;
        let mut provider: Option<MimiProvider> = None;
        let mut is_from_server = false;
        let mut is_host = false;
        let mut client_type = ClientType::Unspecified;
        let mut rest: Vec<(ClaimValue, ClaimValue)> = Vec::new();
        for e in it: entries.into_iter()
            invariant
                it.seq() == s,
                meet_first_error(s.take(it.index())) is None,
                meeting_id == meet_meeting_id(s.take(it.index())),
                (match uuid {
                    Some(a) => meet_uuid(s.take(it.index())) == Some(a@),
                    None => meet_uuid(s.take(it.index())) is None,
                }),
                role == meet_role(s.take(it.index())),
                provider == meet_provider(s.take(it.index())),
                is_from_server == meet_from_server(s.take(it.index())),
                is_host == meet_host(s.take(it.index())),
                client_type == meet_client_type(s.take(it.index())),
                rest@ == meet_rest(s.take(it.index())),
        {
            let ghost i = it.index();
            proof {
                assert(s.take(i + 1).drop_last() == s.take(i));
                assert(s.take(i + 1).last() == e);
            }
            let (k, v) = e;
            let read = meet_classify(&k, &v);
            match read {
                MeetRead::Role(j) => match to_u16(j) {
                    Some(n) => {
                        role = Some(Role::from_u16(n));
                    },
                    None => {
                        proof {
                            lemma_meet_error_sticks(s, i + 1);
                        }
                        return Err(ClaimsDecodeError::OutOfRange);
                    },
                },
                MeetRead::Provider(j) => match to_u16(j) {
                    Some(n) => {
                        provider = Some(MimiProvider::from_u16(n));
                    },
                    None => {
                        proof {
                            lemma_meet_error_sticks(s, i + 1);
                        }
                        return Err(ClaimsDecodeError::OutOfRange);
                    },
                },
                MeetRead::ClientType(j) => match to_u16(j) {
                    Some(n) => {
                        client_type = ClientType::from_u16(n);
                    },
                    None => {
                        proof {
                            lemma_meet_error_sticks(s, i + 1);
                        }
                        return Err(ClaimsDecodeError::OutOfRange);
                    },
                },
                MeetRead::MeetingId => match into_untagged(v) {
                    ClaimValue::Text(t) => {
                        meeting_id = Some(t);
                    },
                    _ => {
                        proof {
                            lemma_meet_error_sticks(s, i + 1);
                        }
                        return Err(ClaimsDecodeError::ExpectedText);
                    },
                },
                MeetRead::Uuid => match v {
                    ClaimValue::Bytes(b) => {
                        if b.len() != 16 {
                            proof {
                                lemma_meet_error_sticks(s, i + 1);
                            }
                            return Err(ClaimsDecodeError::UuidLength);
                        }
                        uuid = Some(array16(b.as_slice()));
                    },
                    _ => {},
                },
                MeetRead::FromServer(b) => {
                    is_from_server = b;
                },
                MeetRead::Host(b) => {
                    is_host = b;
                },
                MeetRead::Rest => {
                    rest.push((k, v));
                },
            }
        }
        proof {
            assert(s.take(s.len() as int) == s);
        }
        let meeting_id = match meeting_id {
            Some(m) => m,
            None => {
                return Err(ClaimsDecodeError::MissingField("meeting_id"));
            },
        };
        let uuid = match uuid {
            Some(u) => u,
            None => {
                return Err(ClaimsDecodeError::MissingField("uuid"));
            },
        };
        let role = match role {
            Some(r) => r,
            None => {
                return Err(ClaimsDecodeError::MissingField("role"));
            },
        };
        let mimi_provider = match provider {
            Some(p) => p,
            None => {
                return Err(ClaimsDecodeError::MissingField("mimi_provider"));
            },
        };
        Ok(ProtonMeetClaims {
            meeting_id,
            uuid,
            oidc_claims: rest,
            role,
            mimi_provider,
            is_from_server,
            is_host,
            client_type,
        })
    }
}

} // verus!
