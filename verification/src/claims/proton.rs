//! The payload of an account credential: its aliases, organizations, role
//! and provider, read from the entries of the payload.
use vstd::prelude::*;
use crate::claims::value::{ClaimValue, int_of, u16_of, is_redacted, to_u16, redacted, untagged, into_untagged, untag};
use crate::claims::role::{Role, role_of, role_code};
use crate::claims::kinds::{MimiProvider, provider_of, provider_code};
use crate::claims::meeting::{ClaimsDecodeError, ROLE_LABEL, PROVIDER_LABEL};
use crate::identifiers::account::OrgId;
use crate::identifiers::uri::is_code;

verus! {

/// The CBOR label of the aliases claim.
pub const ALIASES_LABEL: i128 = -66538;
/// The CBOR label of the organizations claim.
pub const ORG_IDS_LABEL: i128 = -66539;

/// The labels of the claims of an account credential.
#[derive(Debug, Clone, Copy, PartialEq, Eq, Structural)]
pub enum CwtProtonLabel {
    Aliases,
    OrgIds,
    Role,
    MimiProvider,
}

pub open spec fn proton_label_value(l: CwtProtonLabel) -> i128 {
    match l {
        CwtProtonLabel::Aliases => ALIASES_LABEL,
        CwtProtonLabel::OrgIds => ORG_IDS_LABEL,
        CwtProtonLabel::Role => ROLE_LABEL,
        CwtProtonLabel::MimiProvider => PROVIDER_LABEL,
    }
}

impl CwtProtonLabel {
    /// The CBOR label of the claim.
    pub fn label(&self) -> (r: i128)
        ensures
            r == proton_label_value(*self),
    {
        match self {
            CwtProtonLabel::Aliases => ALIASES_LABEL,
            CwtProtonLabel::OrgIds => ORG_IDS_LABEL,
            CwtProtonLabel::Role => ROLE_LABEL,
            CwtProtonLabel::MimiProvider => PROVIDER_LABEL,
        }
    }
}

/// Another address of an account, and whether it was verified.
#[derive(Debug, Clone, PartialEq, Eq, PartialOrd, Ord)]
pub struct EmailAlias {
    pub email: String,
    pub verified: bool,
}

/// The address (`e`) and the verification (`v`) that the entries of an
/// alias's map give, read in order, tags around keys and values looked
/// through; `None` when a key is no text string, or a field comes twice or
/// has the wrong kind. Other text keys are passed over.
pub open spec fn alias_fields(m: Seq<(ClaimValue, ClaimValue)>) -> Option<(Option<String>, Option<bool>)>
    decreases m.len(),
{
    if m.len() == 0 {
        Some((None, None))
    } else {
        match alias_fields(m.drop_last()) {
            None => None,
            Some((e, v)) => match untagged(m.last().0) {
                ClaimValue::Text(k) => if k@ == seq!['e'] {
                    match (e, untagged(m.last().1)) {
                        (None, ClaimValue::Text(t)) => Some((Some(t), v)),
                        _ => None,
                    }
                } else if k@ == seq!['v'] {
                    match (v, untagged(m.last().1)) {
                        (None, ClaimValue::Bool(b)) => Some((e, Some(b))),
                        _ => None,
                    }
                } else {
                    Some((e, v))
                },
                _ => None,
            },
        }
    }
}

/// The alias a value stands for: a map (under any tags) that gives both
/// fields once.
pub open spec fn alias_of(v: ClaimValue) -> Option<EmailAlias> {
    match untagged(v) {
        ClaimValue::Mapping(m) => match alias_fields(m@) {
            Some((Some(e), Some(b))) => Some(EmailAlias { email: e, verified: b }),
            _ => None,
        },
        _ => None,
    }
}

/// The aliases an array gives, withheld elements left out; `None` when an
/// element is no alias.
pub open spec fn aliases_of(items: Seq<ClaimValue>) -> Option<Seq<EmailAlias>>
    decreases items.len(),
{
    if items.len() == 0 {
        Some(Seq::empty())
    } else if is_redacted(items.last()) {
        aliases_of(items.drop_last())
    } else {
        match (aliases_of(items.drop_last()), alias_of(items.last())) {
            (Some(a), Some(x)) => Some(a.push(x)),
            _ => None,
        }
    }
}

/// The organization identifiers an array gives, withheld elements left
/// out, or the error of the first element that is not 64 bytes.
pub open spec fn org_ids_of(items: Seq<ClaimValue>) -> Result<Seq<Seq<u8>>, ClaimsDecodeError>
    decreases items.len(),
{
    if items.len() == 0 {
        Ok(Seq::empty())
    } else {
        match org_ids_of(items.drop_last()) {
            Err(e) => Err(e),
            Ok(a) => if is_redacted(items.last()) {
                Ok(a)
            } else {
                match items.last() {
                    ClaimValue::Bytes(b) => if b@.len() == 64 {
                        Ok(a.push(b@))
                    } else {
                        Err(ClaimsDecodeError::OrgIdLength)
                    },
                    _ => Err(ClaimsDecodeError::ExpectedBytes),
                }
            },
        }
    }
}

/// Which field of an alias a key names, tags around it looked through: 1
/// for `e`, 2 for `v`, 0 for another text string, 3 for a key that is no
/// text string.
fn alias_key(k: &ClaimValue) -> (r: u8)
    ensures
        r == 1 <==> (untagged(*k) matches ClaimValue::Text(t) && t@ == seq!['e']),
        r == 2 <==> (untagged(*k) matches ClaimValue::Text(t) && t@ == seq!['v']),
        r == 3 <==> !(untagged(*k) is Text),
        r <= 3,
{
    assert(seq!['e'][0] != seq!['v'][0]);
    match untag(k) {
        ClaimValue::Text(t) => {
            if is_code(t.as_str(), 'e') {
                1
            } else if is_code(t.as_str(), 'v') {
                2
            } else {
                0
            }
        },
        _ => 3,
    }
}

/// Once a field is in error, more entries do not mend it.
proof fn lemma_alias_error_sticks(m: Seq<(ClaimValue, ClaimValue)>, n: int)
    requires
        0 <= n <= m.len(),
        alias_fields(m.take(n)) is None,
    ensures
        alias_fields(m) is None,
    decreases m.len() - n,
{
    if n < m.len() {
        assert(m.take(n + 1).drop_last() == m.take(n));
        lemma_alias_error_sticks(m, n + 1);
    } else {
        assert(m.take(n) == m);
    }
}

/// The identifiers of organizations, by their bytes.
pub open spec fn org_ids_view(ids: Seq<OrgId>) -> Seq<Seq<u8>> {
    ids.map_values(|o: OrgId| o.0@)
}

/// Once an element is no alias, more elements do not mend it.
proof fn lemma_aliases_error_sticks(items: Seq<ClaimValue>, n: int)
    requires
        0 <= n <= items.len(),
        aliases_of(items.take(n)) is None,
    ensures
        aliases_of(items) is None,
    decreases items.len() - n,
{
    if n < items.len() {
        assert(items.take(n + 1).drop_last() == items.take(n));
        lemma_aliases_error_sticks(items, n + 1);
    } else {
        assert(items.take(n) == items);
    }
}

/// Once an element is in error, more elements do not change the error.
proof fn lemma_org_ids_error_sticks(items: Seq<ClaimValue>, n: int)
    requires
        0 <= n <= items.len(),
        org_ids_of(items.take(n)) is Err,
    ensures
        org_ids_of(items) == org_ids_of(items.take(n)),
    decreases items.len() - n,
{
    if n < items.len() {
        assert(items.take(n + 1).drop_last() == items.take(n));
        lemma_org_ids_error_sticks(items, n + 1);
    } else {
        assert(items.take(n) == items);
    }
}

/// Reads the aliases of an array, withheld elements left out.
pub fn read_aliases(items: Vec<ClaimValue>) -> (r: Option<Vec<EmailAlias>>)
    ensures
        match aliases_of(items@) {
            Some(a) => r matches Some(x) && x@ == a,
            None => r is None,
        },
{
    let ghost s = items@;
    let mut out: Vec<EmailAlias> = Vec::new();
    for v in it: items.into_iter()
        invariant
            it.seq() == s,
            aliases_of(s.take(it.index())) == Some(out@),
    {
        let ghost i = it.index();
        proof {
            assert(s.take(i + 1).drop_last() == s.take(i));
            assert(s.take(i + 1).last() == v);
        }
        if !redacted(&v) {
            match EmailAlias::from_value(v) {
                Ok(a) => {
                    out.push(a);
                },
                Err(_) => {
                    proof {
                        lemma_aliases_error_sticks(s, i + 1);
                    }
                    return None;
                },
            }
        }
    }
    proof {
        assert(s.take(s.len() as int) == s);
    }
    Some(out)
}

/// Reads the organization identifiers of an array, withheld elements left
/// out.
pub fn read_org_ids(items: Vec<ClaimValue>) -> (r: Result<Vec<OrgId>, ClaimsDecodeError>)
    ensures
        match org_ids_of(items@) {
            Ok(a) => r matches Ok(x) && org_ids_view(x@) == a,
            Err(e) => r == Err::<Vec<OrgId>, ClaimsDecodeError>(e),
        },
{
    let ghost s = items@;
    let mut out: Vec<OrgId> = Vec::new();
    assert(org_ids_view(out@) == Seq::<Seq<u8>>::empty());
    for v in it: items.into_iter()
        invariant
            it.seq() == s,
            org_ids_of(s.take(it.index())) == Ok::<Seq<Seq<u8>>, ClaimsDecodeError>(org_ids_view(out@)),
    {
        let ghost i = it.index();
        proof {
            assert(s.take(i + 1).drop_last() == s.take(i));
            assert(s.take(i + 1).last() == v);
        }
        if !redacted(&v) {
            match v {
                ClaimValue::Bytes(b) => match OrgId::try_from(b.as_slice()) {
                    Ok(o) => {
                        let ghost before = out@;
                        out.push(o);
                        proof {
                            assert(org_ids_view(out@) == org_ids_view(before).push(b@));
                        }
                    },
                    Err(_) => {
                        proof {
                            lemma_org_ids_error_sticks(s, i + 1);
                        }
                        return Err(ClaimsDecodeError::OrgIdLength);
                    },
                },
                _ => {
                    proof {
                        lemma_org_ids_error_sticks(s, i + 1);
                    }
                    return Err(ClaimsDecodeError::ExpectedBytes);
                },
            }
        }
    }
    proof {
        assert(s.take(s.len() as int) == s);
    }
    Ok(out)
}

impl EmailAlias {
    /// Reads an alias from a map (under any tags) that gives its address
    /// under `e` and whether it was verified under `v`, each once; other
    /// text keys are passed over, and a key that is no text string is
    /// refused.
    pub fn from_value(v: ClaimValue) -> (r: Result<EmailAlias, ClaimsDecodeError>)
        ensures
            match alias_of(v) {
                Some(a) => r == Ok::<EmailAlias, ClaimsDecodeError>(a),
                None => r == Err::<EmailAlias, ClaimsDecodeError>(ClaimsDecodeError::InvalidAlias),
            },
    {
        match into_untagged(v) {
            ClaimValue::Mapping(m) => match alias_from_entries(m) {
                Some(a) => Ok(a),
                None => Err(ClaimsDecodeError::InvalidAlias),
            },
            _ => Err(ClaimsDecodeError::InvalidAlias),
        }
    }
}

/// The claims of an account credential.
#[derive(Debug)]
pub struct ProtonClaims {
    pub aliases: Option<Vec<EmailAlias>>,
    /// The account's organizations: at most one for now.
    pub organization_ids: Option<Vec<OrgId>>,
    /// The entries of the payload that no Proton claim reads: the OpenID
    /// claims, in the order they came.
    pub oidc_claims: Vec<(ClaimValue, ClaimValue)>,
    /// The account's role in its organization.
    pub role: Role,
    pub mimi_provider: MimiProvider,
}

/// Which claim one entry of an account credential's payload sets.
#[derive(Debug, Clone, Copy, PartialEq, Eq, Structural)]
pub enum ProtonRead {
    OrgIds,
    Aliases,
    Role(i128),
    Provider(i128),
    Rest,
}

/// Which claim the entry `(k, v)` sets: by its integer label, when the
/// value has the claim's shape.
pub open spec fn proton_read(k: ClaimValue, v: ClaimValue) -> ProtonRead {
    match k {
        ClaimValue::Integer(i) => {
            if i == ORG_IDS_LABEL && v is Array {
                ProtonRead::OrgIds
            } else if i == ALIASES_LABEL && v is Array {
                ProtonRead::Aliases
            } else if i == ROLE_LABEL && v is Integer {
                ProtonRead::Role(int_of(v))
            } else if i == PROVIDER_LABEL && v is Integer {
                ProtonRead::Provider(int_of(v))
            } else {
                ProtonRead::Rest
            }
        },
        _ => ProtonRead::Rest,
    }
}

/// The items of an array (none for any other item).
pub open spec fn items_of(v: ClaimValue) -> Seq<ClaimValue> {
    match v {
        ClaimValue::Array(a) => a@,
        _ => Seq::empty(),
    }
}

/// What is wrong with the entry `(k, v)` on its own, if anything.
pub open spec fn proton_entry_error(k: ClaimValue, v: ClaimValue) -> Option<ClaimsDecodeError> {
    match proton_read(k, v) {
        ProtonRead::OrgIds => match org_ids_of(items_of(v)) {
            Err(e) => Some(e),
            Ok(_) => None,
        },
        ProtonRead::Aliases => if aliases_of(items_of(v)) is None {
            Some(ClaimsDecodeError::InvalidAlias)
        } else {
            None
        },
        ProtonRead::Role(j) => if u16_of(j) is None { Some(ClaimsDecodeError::OutOfRange) } else { None },
        ProtonRead::Provider(j) => if u16_of(j) is None { Some(ClaimsDecodeError::OutOfRange) } else { None },
        ProtonRead::Rest => None,
    }
}

/// The error of the first entry that has one.
pub open spec fn proton_first_error(s: Seq<(ClaimValue, ClaimValue)>) -> Option<ClaimsDecodeError>
    decreases s.len(),
{
    if s.len() == 0 {
        None
    } else {
        match proton_first_error(s.drop_last()) {
            Some(e) => Some(e),
            None => proton_entry_error(s.last().0, s.last().1),
        }
    }
}

/// The organizations of the last entry that gives them.
pub open spec fn proton_org_ids(s: Seq<(ClaimValue, ClaimValue)>) -> Option<Seq<Seq<u8>>>
    decreases s.len(),
{
    if s.len() == 0 {
        None
    } else if proton_read(s.last().0, s.last().1) == ProtonRead::OrgIds {
        match org_ids_of(items_of(s.last().1)) {
            Ok(a) => Some(a),
            Err(_) => proton_org_ids(s.drop_last()),
        }
    } else {
        proton_org_ids(s.drop_last())
    }
}

/// The aliases of the last entry that gives them.
pub open spec fn proton_aliases(s: Seq<(ClaimValue, ClaimValue)>) -> Option<Seq<EmailAlias>>
    decreases s.len(),
{
    if s.len() == 0 {
        None
    } else if proton_read(s.last().0, s.last().1) == ProtonRead::Aliases && aliases_of(
        items_of(s.last().1),
    ) is Some {
        aliases_of(items_of(s.last().1))
    } else {
        proton_aliases(s.drop_last())
    }
}

/// The role of the last entry that gives one (a plain user when none does).
pub open spec fn proton_role(s: Seq<(ClaimValue, ClaimValue)>) -> Role
    decreases s.len(),
{
    if s.len() == 0 {
        Role::User
    } else {
        match proton_read(s.last().0, s.last().1) {
            ProtonRead::Role(j) => role_of(u16_of(j).unwrap()),
            _ => proton_role(s.drop_last()),
        }
    }
}

/// The provider of the last entry that gives one.
pub open spec fn proton_provider(s: Seq<(ClaimValue, ClaimValue)>) -> Option<MimiProvider>
    decreases s.len(),
{
    if s.len() == 0 {
        None
    } else {
        match proton_read(s.last().0, s.last().1) {
            ProtonRead::Provider(j) => Some(provider_of(u16_of(j).unwrap())),
            _ => proton_provider(s.drop_last()),
        }
    }
}

/// The entries no Proton claim reads, in their order.
pub open spec fn proton_rest(s: Seq<(ClaimValue, ClaimValue)>) -> Seq<(ClaimValue, ClaimValue)>
    decreases s.len(),
{
    if s.len() == 0 {
        Seq::empty()
    } else if proton_read(s.last().0, s.last().1) == ProtonRead::Rest {
        proton_rest(s.drop_last()).push(s.last())
    } else {
        proton_rest(s.drop_last())
    }
}

/// Why the entries `s` do not make the claims of an account credential:
/// the first entry in error, else the absence of a provider.
pub open spec fn proton_error(s: Seq<(ClaimValue, ClaimValue)>) -> Option<ClaimsDecodeError> {
    if proton_first_error(s) is Some {
        proton_first_error(s)
    } else if proton_provider(s) is None {
        Some(ClaimsDecodeError::MissingField("mimi_provider"))
    } else {
        None
    }
}

/// The claims `c` are those the entries `s` give.
pub open spec fn proton_claims_of(c: ProtonClaims, s: Seq<(ClaimValue, ClaimValue)>) -> bool {
    &&& (match c.organization_ids {
        Some(ids) => proton_org_ids(s) == Some(org_ids_view(ids@)),
        None => proton_org_ids(s) is None,
    })
    &&& (match c.aliases {
        Some(a) => proton_aliases(s) == Some(a@),
        None => proton_aliases(s) is None,
    })
    &&& c.role == proton_role(s)
    &&& Some(c.mimi_provider) == proton_provider(s)
    &&& c.oidc_claims@ == proton_rest(s)
}

/// Once an entry is in error, more entries do not change the first error.
proof fn lemma_proton_error_sticks(s: Seq<(ClaimValue, ClaimValue)>, n: int)
    requires
        0 <= n <= s.len(),
        proton_first_error(s.take(n)) is Some,
    ensures
        proton_first_error(s) == proton_first_error(s.take(n)),
    decreases s.len() - n,
{
    if n < s.len() {
        assert(s.take(n + 1).drop_last() == s.take(n));
        lemma_proton_error_sticks(s, n + 1);
    } else {
        assert(s.take(n) == s);
    }
}

/// Which claim the entry `(k, v)` sets.
pub fn proton_classify(k: &ClaimValue, v: &ClaimValue) -> (r: ProtonRead)
    ensures
        r == proton_read(*k, *v),
{
    match (k, v) {
        (ClaimValue::Integer(i), ClaimValue::Array(_)) => {
            if *i == ORG_IDS_LABEL {
                ProtonRead::OrgIds
            } else if *i == ALIASES_LABEL {
                ProtonRead::Aliases
            } else {
                ProtonRead::Rest
            }
        },
        (ClaimValue::Integer(i), ClaimValue::Integer(j)) => {
            if *i == ROLE_LABEL {
                ProtonRead::Role(*j)
            } else if *i == PROVIDER_LABEL {
                ProtonRead::Provider(*j)
            } else {
                ProtonRead::Rest
            }
        },
        _ => ProtonRead::Rest,
    }
}

impl ProtonClaims {
    /// Reads the claims of an account credential from the entries of its
    /// payload, in order. An entry sets the claim its label names when its
    /// value has the claim's shape (a later entry overrides an earlier
    /// one); withheld elements of the arrays are left out; entries that set
    /// no claim are kept as the OpenID claims. The first entry in error
    /// stops the reading; then a provider must have been given.
    pub fn from_entries(entries: Vec<(ClaimValue, ClaimValue)>) -> (r: Result<Self, ClaimsDecodeError>)
        ensures
            match proton_error(entries@) {
                Some(e) => r == Err::<Self, ClaimsDecodeError>(e),
                None => r matches Ok(c) && proton_claims_of(c, entries@),
            },
    {
        let ghost s = entries@;
        let mut aliases: Option<Vec<EmailAlias>> = None;
        let mut organization_ids: Option<Vec<OrgId>> = None;
        let mut role = Role::User;
        let mut provider: Option<MimiProvider> = None;
        let mut rest: Vec<(ClaimValue, ClaimValue)> = Vec::new();
        for e in it: entries.into_iter()
            invariant
                it.seq() == s,
                proton_first_error(s.take(it.index())) is None,
                (match organization_ids {
                    Some(ids) => proton_org_ids(s.take(it.index())) == Some(org_ids_view(ids@)),
                    None => proton_org_ids(s.take(it.index())) is None,
                }),
                (match aliases {
                    Some(a) => proton_aliases(s.take(it.index())) == Some(a@),
                    None => proton_aliases(s.take(it.index())) is None,
                }),
                role == proton_role(s.take(it.index())),
                provider == proton_provider(s.take(it.index())),
                rest@ == proton_rest(s.take(it.index())),
        {
            let ghost i = it.index();
            proof {
                assert(s.take(i + 1).drop_last() == s.take(i));
                assert(s.take(i + 1).last() == e);
            }
            let (k, v) = e;
            let read = proton_classify(&k, &v);
            match read {
                ProtonRead::OrgIds => match v {
                    ClaimValue::Array(items) => match read_org_ids(items) {
                        Ok(ids) => {
                            organization_ids = Some(ids);
                        },
                        Err(err) => {
                            proof {
                                lemma_proton_error_sticks(s, i + 1);
                            }
                            return Err(err);
                        },
                    },
                    _ => {},
                },
                ProtonRead::Aliases => match v {
                    ClaimValue::Array(items) => match read_aliases(items) {
                        Some(a) => {
                            aliases = Some(a);
                        },
                        None => {
                            proof {
                                lemma_proton_error_sticks(s, i + 1);
                            }
                            return Err(ClaimsDecodeError::InvalidAlias);
                        },
                    },
                    _ => {},
                },
                ProtonRead::Role(j) => match to_u16(j) {
                    Some(n) => {
                        role = Role::from_u16(n);
                    },
                    None => {
                        proof {
                            lemma_proton_error_sticks(s, i + 1);
                        }
                        return Err(ClaimsDecodeError::OutOfRange);
                    },
                },
                ProtonRead::Provider(j) => match to_u16(j) {
                    Some(n) => {
                        provider = Some(MimiProvider::from_u16(n));
                    },
                    None => {
                        proof {
                            lemma_proton_error_sticks(s, i + 1);
                        }
                        return Err(ClaimsDecodeError::OutOfRange);
                    },
                },
                ProtonRead::Rest => {
                    rest.push((k, v));
                },
            }
        }
        proof {
            assert(s.take(s.len() as int) == s);
        }
        match provider {
            Some(mimi_provider) => Ok(ProtonClaims {
                aliases,
                organization_ids,
                oidc_claims: rest,
                role,
                mimi_provider,
            }),
            None => Err(ClaimsDecodeError::MissingField("mimi_provider")),
        }
    }
}

/// The alias the entries of a map give, when they give both fields once.
fn alias_from_entries(entries: Vec<(ClaimValue, ClaimValue)>) -> (r: Option<EmailAlias>)
    ensures
        r == (match alias_fields(entries@) {
            Some((Some(e), Some(b))) => Some(EmailAlias { email: e, verified: b }),
            _ => None,
        }),
{
    let ghost s = entries@;
    let mut email: Option<String> = None;
    let mut verified: Option<bool> = None;
    for e in it: entries.into_iter()
        invariant
            it.seq() == s,
            alias_fields(s.take(it.index())) == Some((email, verified)),
    {
        let ghost i = it.index();
        proof {
            assert(s.take(i + 1).drop_last() == s.take(i));
            assert(s.take(i + 1).last() == e);
        }
        let (k, val) = e;
        let key = alias_key(&k);
        if key == 3 {
            proof {
                lemma_alias_error_sticks(s, i + 1);
            }
            return None;
        } else if key == 1 {
            match (email.is_some(), into_untagged(val)) {
                (false, ClaimValue::Text(t)) => {
                    email = Some(t);
                },
                _ => {
                    proof {
                        lemma_alias_error_sticks(s, i + 1);
                    }
                    return None;
                },
            }
        } else if key == 2 {
            match (verified.is_some(), into_untagged(val)) {
                (false, ClaimValue::Bool(b)) => {
                    verified = Some(b);
                },
                _ => {
                    proof {
                        lemma_alias_error_sticks(s, i + 1);
                    }
                    return None;
                },
            }
        }
    }
    proof {
        assert(s.take(s.len() as int) == s);
    }
    match (email, verified) {
        (Some(email), Some(verified)) => Some(EmailAlias { email, verified }),
        _ => None,
    }
}

/// The map an alias is written as: its address under `e`, then whether it
/// was verified under `v`.
pub open spec fn alias_written(a: EmailAlias, v: ClaimValue) -> bool {
    match v {
        ClaimValue::Mapping(m) => {
            &&& m@.len() == 2
            &&& text_of(m@[0].0) == Some(seq!['e'])
            &&& m@[0].1 == ClaimValue::Text(a.email)
            &&& text_of(m@[1].0) == Some(seq!['v'])
            &&& m@[1].1 == ClaimValue::Bool(a.verified)
        },
        _ => false,
    }
}

/// The characters of a text item.
pub open spec fn text_of(v: ClaimValue) -> Option<Seq<char>> {
    match v {
        ClaimValue::Text(t) => Some(t@),
        _ => None,
    }
}

/// The entries `s` are the payload written from the claims `c`: the
/// aliases, when there are, as an array of maps; the organizations, when
/// there are, as an array of byte strings; the OpenID claims; the role;
/// the provider.
pub open spec fn proton_written(c: ProtonClaims, s: Seq<(ClaimValue, ClaimValue)>) -> bool {
    let a: int = if c.aliases is Some { 1 } else { 0 };
    let o: int = if c.organization_ids is Some { 1 } else { 0 };
    let n = c.oidc_claims@.len() as int;
    &&& s.len() == a + o + n + 2
    &&& (c.aliases matches Some(al) ==> s[0].0 == ClaimValue::Integer(ALIASES_LABEL) && aliases_written(
        al@,
        s[0].1,
    ))
    &&& (c.organization_ids matches Some(ids) ==> s[a].0 == ClaimValue::Integer(ORG_IDS_LABEL)
        && org_ids_written(ids@, s[a].1))
    &&& s.subrange(a + o, a + o + n) == c.oidc_claims@
    &&& s[a + o + n] == (ClaimValue::Integer(ROLE_LABEL), ClaimValue::Integer(role_code(c.role) as i128))
    &&& s[a + o + n + 1] == (
        ClaimValue::Integer(PROVIDER_LABEL),
        ClaimValue::Integer(provider_code(c.mimi_provider) as i128),
    )
}

/// The aliases `al` written as an array of maps.
pub open spec fn aliases_written(al: Seq<EmailAlias>, v: ClaimValue) -> bool {
    match v {
        ClaimValue::Array(items) => items@.len() == al.len() && forall|i: int|
            0 <= i < al.len() ==> alias_written(al[i], #[trigger] items@[i]),
        _ => false,
    }
}

/// The organization identifiers `ids` written as an array of byte strings.
pub open spec fn org_ids_written(ids: Seq<OrgId>, v: ClaimValue) -> bool {
    match v {
        ClaimValue::Array(items) => items@.len() == ids.len() && forall|i: int|
            0 <= i < ids.len() ==> (#[trigger] items@[i] matches ClaimValue::Bytes(b) && b@ == ids[i].0@),
        _ => false,
    }
}

/// The bytes of a 64-byte array, as a vector.
fn bytes_of64(a: &[u8; 64]) -> (r: Vec<u8>)
    ensures
        r@ == a@,
{
    let mut out: Vec<u8> = Vec::new();
    let mut i: usize = 0;
    while i < 64
        invariant
            i <= 64,
            out@ == a@.subrange(0, i as int),
        decreases 64 - i,
    {
        out.push(a[i]);
        i += 1;
    }
    assert(a@.subrange(0, 64) == a@);
    out
}

/// Writes each alias as a map.
fn write_aliases(aliases: Vec<EmailAlias>) -> (r: Vec<ClaimValue>)
    ensures
        r@.len() == aliases@.len(),
        forall|i: int| 0 <= i < aliases@.len() ==> alias_written(aliases@[i], #[trigger] r@[i]),
{
    let ghost s = aliases@;
    let mut out: Vec<ClaimValue> = Vec::new();
    for a in it: aliases.into_iter()
        invariant
            it.seq() == s,
            out@.len() == it.index(),
            forall|i: int| 0 <= i < it.index() ==> alias_written(s[i], #[trigger] out@[i]),
    {
        let e = "e".to_owned();
        let v = "v".to_owned();
        proof {
            reveal_strlit("e");
            reveal_strlit("v");
        }
        let ghost a0 = a;
        let mut m: Vec<(ClaimValue, ClaimValue)> = Vec::new();
        m.push((ClaimValue::Text(e), ClaimValue::Text(a.email)));
        m.push((ClaimValue::Text(v), ClaimValue::Bool(a.verified)));
        let ghost mv = m;
        proof {
            assert(mv@.len() == 2);
            assert(text_of(mv@[0].0) == Some(seq!['e']));
            assert(mv@[0].1 == ClaimValue::Text(a0.email));
            assert(text_of(mv@[1].0) == Some(seq!['v']));
            assert(mv@[1].1 == ClaimValue::Bool(a0.verified));
            assert(alias_written(a0, ClaimValue::Mapping(mv)));
        }
        out.push(ClaimValue::Mapping(m));
    }
    out
}

/// Writes each organization identifier as a byte string.
fn write_org_ids(ids: &Vec<OrgId>) -> (r: Vec<ClaimValue>)
    ensures
        r@.len() == ids@.len(),
        forall|i: int|
            0 <= i < ids@.len() ==> (#[trigger] r@[i] matches ClaimValue::Bytes(b) && b@ == ids@[i].0@),
{
    let mut out: Vec<ClaimValue> = Vec::new();
    let mut i: usize = 0;
    while i < ids.len()
        invariant
            i <= ids@.len(),
            out@.len() == i,
            forall|j: int| 0 <= j < i ==> (#[trigger] out@[j] matches ClaimValue::Bytes(b) && b@ == ids@[j].0@),
        decreases ids@.len() - i,
    {
        let b = bytes_of64(&ids[i].0);
        out.push(ClaimValue::Bytes(b));
        i += 1;
    }
    out
}

impl ProtonClaims {
    /// The entries of the claims' payload: the aliases, when there are, as
    /// an array of maps; the organizations, when there are, as an array of
    /// byte strings; the OpenID claims; the role; the provider.
    pub fn into_entries(self) -> (r: Vec<(ClaimValue, ClaimValue)>)
        ensures
            proton_written(self, r@),
    {
        let ghost c = self;
        let role = self.role.code();
        let provider = self.mimi_provider.code();
        let mut out: Vec<(ClaimValue, ClaimValue)> = Vec::new();
        match self.aliases {
            Some(al) => {
                out.push((ClaimValue::Integer(ALIASES_LABEL), ClaimValue::Array(write_aliases(al))));
            },
            None => {},
        }
        match &self.organization_ids {
            Some(ids) => {
                out.push((ClaimValue::Integer(ORG_IDS_LABEL), ClaimValue::Array(write_org_ids(ids))));
            },
            None => {},
        }
        let ghost m = out@.len() as int;
        let ghost head = out@;
        for e in it: self.oidc_claims.into_iter()
            invariant
                it.seq() == c.oidc_claims@,
                0 <= m,
                out@.len() == m + it.index(),
                out@.subrange(0, m) == head,
                out@.subrange(m, m + it.index()) == c.oidc_claims@.take(it.index() as int),
        {
            let ghost before = out@;
            let ghost eg = e;
            let ghost k = it.index() as int;
            out.push(e);
            proof {
                assert(out@ == before.push(eg));
                assert(out@.subrange(0, m) =~= before.subrange(0, m));
                assert(c.oidc_claims@[k] == eg);
                assert(c.oidc_claims@.take(k + 1) =~= c.oidc_claims@.take(k).push(eg));
                assert(out@.subrange(m, m + k + 1) =~= before.subrange(m, m + k).push(eg));
            }
        }
        let ghost n = c.oidc_claims@.len() as int;
        proof {
            assert(c.oidc_claims@.take(n) == c.oidc_claims@);
        }
        let ghost mid = out@;
        out.push((ClaimValue::Integer(ROLE_LABEL), ClaimValue::Integer(role as i128)));
        out.push((ClaimValue::Integer(PROVIDER_LABEL), ClaimValue::Integer(provider as i128)));
        proof {
            assert(out@.subrange(0, m) == head);
            assert(out@.subrange(m, m + n) == mid.subrange(m, m + n));
            if c.aliases is Some {
                assert(out@[0] == head[0]);
            }
            if c.organization_ids is Some {
                assert(out@[m - 1] == head[m - 1]);
            }
        }
        out
    }
}

/// An alias written as a map reads back as the alias.
proof fn lemma_alias_read_back(a: EmailAlias, v: ClaimValue)
    requires
        alias_written(a, v),
    ensures
        alias_of(v) == Some(a),
{
    assert(seq!['e'][0] != seq!['v'][0]);
    if let ClaimValue::Mapping(m) = v {
        let s = m@;
        let d = s.drop_last();
        assert(d.drop_last() == Seq::<(ClaimValue, ClaimValue)>::empty());
        assert(alias_fields(d.drop_last()) == Some((None::<String>, None::<bool>)));
        assert(d.last() == s[0]);
        assert(s.last() == s[1]);
        assert(s[0].0 matches ClaimValue::Text(k) && k@ == seq!['e']);
        assert(s[1].0 matches ClaimValue::Text(k) && k@ == seq!['v']);
        assert(alias_fields(d) == Some((Some(a.email), None::<bool>)));
        assert(alias_fields(s) == Some((Some(a.email), Some(a.verified))));
    }
}

/// Aliases written as maps read back as the aliases.
proof fn lemma_aliases_read_back(al: Seq<EmailAlias>, items: Seq<ClaimValue>)
    requires
        items.len() == al.len(),
        forall|i: int| 0 <= i < al.len() ==> alias_written(al[i], #[trigger] items[i]),
    ensures
        aliases_of(items) == Some(al),
    decreases items.len(),
{
    if items.len() > 0 {
        let n = items.len() - 1;
        assert forall|i: int| 0 <= i < al.drop_last().len() implies alias_written(
            al.drop_last()[i],
            #[trigger] items.drop_last()[i],
        ) by {
            assert(alias_written(al[i], items[i]));
        }
        lemma_aliases_read_back(al.drop_last(), items.drop_last());
        assert(alias_written(al[n], items[n]));
        lemma_alias_read_back(al[n], items[n]);
        assert(al.drop_last().push(al[n]) == al);
    } else {
        assert(al == Seq::<EmailAlias>::empty());
    }
}

/// Organization identifiers written as byte strings read back as their
/// bytes.
proof fn lemma_org_ids_read_back(ids: Seq<OrgId>, items: Seq<ClaimValue>)
    requires
        items.len() == ids.len(),
        forall|i: int| 0 <= i < ids.len() ==> (#[trigger] items[i] matches ClaimValue::Bytes(b) && b@ == ids[i].0@),
    ensures
        org_ids_of(items) == Ok::<Seq<Seq<u8>>, ClaimsDecodeError>(org_ids_view(ids)),
    decreases items.len(),
{
    if items.len() > 0 {
        let n = items.len() - 1;
        assert forall|i: int| 0 <= i < ids.drop_last().len() implies (#[trigger] items.drop_last()[i] matches ClaimValue::Bytes(b) && b@ == ids.drop_last()[i].0@) by {
            assert(items[i] matches ClaimValue::Bytes(b) && b@ == ids[i].0@);
        }
        lemma_org_ids_read_back(ids.drop_last(), items.drop_last());
        assert(items[n] matches ClaimValue::Bytes(b) && b@ == ids[n].0@);
        assert(ids[n].0@.len() == 64);
        assert(org_ids_view(ids) == org_ids_view(ids.drop_last()).push(ids[n].0@));
    } else {
        assert(org_ids_view(ids) == Seq::<Seq<u8>>::empty());
    }
}

/// Entries that set no claim are kept in order and change nothing else.
proof fn lemma_proton_rest_span(s: Seq<(ClaimValue, ClaimValue)>, lo: int, hi: int)
    requires
        0 <= lo <= hi <= s.len(),
        forall|i: int| lo <= i < hi ==> proton_read(#[trigger] s[i].0, s[i].1) == ProtonRead::Rest,
    ensures
        proton_rest(s.take(hi)) == proton_rest(s.take(lo)) + s.subrange(lo, hi),
        proton_first_error(s.take(hi)) == proton_first_error(s.take(lo)),
        proton_org_ids(s.take(hi)) == proton_org_ids(s.take(lo)),
        proton_aliases(s.take(hi)) == proton_aliases(s.take(lo)),
        proton_role(s.take(hi)) == proton_role(s.take(lo)),
        proton_provider(s.take(hi)) == proton_provider(s.take(lo)),
    decreases hi - lo,
{
    if hi > lo {
        lemma_proton_rest_span(s, lo, hi - 1);
        assert(s.take(hi).drop_last() == s.take(hi - 1));
        assert(s.take(hi).last() == s[hi - 1]);
        assert(proton_read(s[hi - 1].0, s[hi - 1].1) == ProtonRead::Rest);
        assert(s.subrange(lo, hi) == s.subrange(lo, hi - 1).push(s[hi - 1]));
    } else {
        assert(s.subrange(lo, hi) == Seq::<(ClaimValue, ClaimValue)>::empty());
    }
}

/// Reading back the payload written from account claims gives the same
/// claims, when the OpenID entries set no Proton claim and the role and the
/// provider are written with codes of their own.
pub proof fn lemma_proton_claims_round_trip(c: ProtonClaims, s: Seq<(ClaimValue, ClaimValue)>)
    requires
        proton_written(c, s),
        forall|i: int|
            0 <= i < c.oidc_claims@.len() ==> proton_read(#[trigger] c.oidc_claims@[i].0, c.oidc_claims@[i].1)
                == ProtonRead::Rest,
        role_of(role_code(c.role)) == c.role,
        provider_of(provider_code(c.mimi_provider)) == c.mimi_provider,
    ensures
        proton_error(s) is None,
        proton_claims_of(c, s),
{
    let a: int = if c.aliases is Some { 1 } else { 0 };
    let o: int = if c.organization_ids is Some { 1 } else { 0 };
    let n = c.oidc_claims@.len() as int;
    let p = a + o;
    assert(s.take(0) == Seq::<(ClaimValue, ClaimValue)>::empty());
    assert(proton_role(s.take(0)) == Role::User);
    assert(proton_provider(s.take(0)) is None);
    assert(proton_org_ids(s.take(0)) is None);
    assert(proton_aliases(s.take(0)) is None);
    assert(proton_first_error(s.take(0)) is None);
    assert(proton_rest(s.take(0)) == Seq::<(ClaimValue, ClaimValue)>::empty());
    if let Some(al) = c.aliases {
        assert(s.take(1).drop_last() == s.take(0));
        assert(s.take(1).last() == s[0]);
        assert(proton_read(s[0].0, s[0].1) == ProtonRead::Aliases);
        assert(aliases_written(al@, s[0].1));
        if let ClaimValue::Array(items) = s[0].1 {
            assert forall|i: int| 0 <= i < al@.len() implies alias_written(al@[i], #[trigger] items@[i]) by {
            }
            lemma_aliases_read_back(al@, items@);
            assert(items_of(s[0].1) == items@);
        }
        assert(aliases_of(items_of(s[0].1)) == Some(al@));
        assert(proton_aliases(s.take(1)) == Some(al@));
        assert(proton_first_error(s.take(1)) is None);
        assert(proton_org_ids(s.take(1)) is None);
        assert(proton_role(s.take(1)) == Role::User);
        assert(proton_provider(s.take(1)) is None);
        assert(proton_rest(s.take(1)) == Seq::<(ClaimValue, ClaimValue)>::empty());
    }
    assert(proton_first_error(s.take(a)) is None);
    assert(proton_org_ids(s.take(a)) is None);
    assert(proton_role(s.take(a)) == Role::User);
    assert(proton_provider(s.take(a)) is None);
    assert(proton_rest(s.take(a)) == Seq::<(ClaimValue, ClaimValue)>::empty());
    assert(match c.aliases {
        Some(al) => proton_aliases(s.take(a)) == Some(al@),
        None => proton_aliases(s.take(a)) is None,
    });
    if let Some(ids) = c.organization_ids {
        assert(s.take(a + 1).drop_last() == s.take(a));
        assert(s.take(a + 1).last() == s[a]);
        assert(proton_read(s[a].0, s[a].1) == ProtonRead::OrgIds);
        assert(org_ids_written(ids@, s[a].1));
        if let ClaimValue::Array(items) = s[a].1 {
            assert forall|i: int| 0 <= i < ids@.len() implies (#[trigger] items@[i] matches ClaimValue::Bytes(b) && b@ == ids@[i].0@) by {
            }
            lemma_org_ids_read_back(ids@, items@);
            assert(items_of(s[a].1) == items@);
        }
        assert(org_ids_of(items_of(s[a].1)) == Ok::<Seq<Seq<u8>>, ClaimsDecodeError>(org_ids_view(ids@)));
        assert(proton_org_ids(s.take(a + 1)) == Some(org_ids_view(ids@)));
        assert(proton_first_error(s.take(a + 1)) is None);
        assert(proton_aliases(s.take(a + 1)) == proton_aliases(s.take(a)));
        assert(proton_role(s.take(a + 1)) == Role::User);
        assert(proton_provider(s.take(a + 1)) is None);
        assert(proton_rest(s.take(a + 1)) == Seq::<(ClaimValue, ClaimValue)>::empty());
    }
    assert forall|i: int| p <= i < p + n implies proton_read(#[trigger] s[i].0, s[i].1) == ProtonRead::Rest by {
        assert(s[i] == s.subrange(p, p + n)[i - p]);
        assert(s[i] == c.oidc_claims@[i - p]);
    }
    lemma_proton_rest_span(s, p, p + n);
    assert(proton_rest(s.take(p + n)) == c.oidc_claims@);
    let q = p + n;
    assert(s.take(q + 1).drop_last() == s.take(q));
    assert(s.take(q + 1).last() == s[q]);
    assert(s.drop_last() == s.take(q + 1));
    assert(s.last() == s[q + 1]);
    assert(u16_of(role_code(c.role) as i128) == Some(role_code(c.role)));
    assert(u16_of(provider_code(c.mimi_provider) as i128) == Some(provider_code(c.mimi_provider)));
    assert(proton_read(s[q].0, s[q].1) == ProtonRead::Role(role_code(c.role) as i128));
    assert(proton_read(s[q + 1].0, s[q + 1].1) == ProtonRead::Provider(provider_code(c.mimi_provider) as i128));
    assert(proton_role(s.take(q + 1)) == c.role);
    assert(proton_first_error(s.take(q + 1)) is None);
    assert(proton_rest(s.take(q + 1)) == c.oidc_claims@);
    assert(proton_provider(s) == Some(c.mimi_provider));
    assert(proton_role(s) == c.role);
    assert(proton_rest(s) == c.oidc_claims@);
    assert(proton_first_error(s) is None);
    assert(proton_org_ids(s.take(q)) == proton_org_ids(s.take(p)));
    assert(proton_org_ids(s.take(q + 1)) == proton_org_ids(s.take(q)));
    assert(proton_org_ids(s) == proton_org_ids(s.take(q + 1)));
    assert(proton_aliases(s.take(q)) == proton_aliases(s.take(p)));
    assert(proton_aliases(s.take(q + 1)) == proton_aliases(s.take(q)));
    assert(proton_aliases(s) == proton_aliases(s.take(q + 1)));
    if let Some(ids) = c.organization_ids {
        assert(proton_org_ids(s.take(p)) == Some(org_ids_view(ids@)));
    } else {
        assert(proton_org_ids(s.take(p)) is None);
    }
    assert(proton_aliases(s.take(p)) == proton_aliases(s.take(a)));
}

} // verus!
