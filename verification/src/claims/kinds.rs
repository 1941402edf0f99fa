//! Providers and client types, read from their 16-bit codes and ordered by
//! them.
use vstd::prelude::*;

verus! {

/// A provider of MIMI identities, by IANA enterprise number.
#[derive(Debug, Clone, Copy, PartialEq, Eq, Structural, Hash)]
pub enum MimiProvider {
    ProtonAg,
    Unknown(u16),
}

/// The enterprise number of Proton AG.
pub const PROTON_AG: u16 = 56809;

pub open spec fn provider_of(value: u16) -> MimiProvider {
    if value == PROTON_AG {
        MimiProvider::ProtonAg
    } else {
        MimiProvider::Unknown(value)
    }
}

pub open spec fn provider_code(p: MimiProvider) -> u16 {
    match p {
        MimiProvider::ProtonAg => PROTON_AG,
        MimiProvider::Unknown(v) => v,
    }
}

impl MimiProvider {
    pub fn from_u16(value: u16) -> (r: Self)
        ensures
            r == provider_of(value),
    {
        if value == PROTON_AG {
            MimiProvider::ProtonAg
        } else {
            MimiProvider::Unknown(value)
        }
    }

    /// The provider's code.
    pub fn code(&self) -> (r: u16)
        ensures
            r == provider_code(*self),
    {
        match self {
            MimiProvider::ProtonAg => PROTON_AG,
            MimiProvider::Unknown(v) => *v,
        }
    }

    /// Providers are ordered by their codes.
    pub fn is_before(&self, other: &MimiProvider) -> (r: bool)
        ensures
            r == (provider_code(*self) < provider_code(*other)),
    {
        self.code() < other.code()
    }
}

impl From<u16> for MimiProvider {
    fn from(value: u16) -> (r: Self) {
        MimiProvider::from_u16(value)
    }
}

impl vstd::std_specs::convert::FromSpecImpl<u16> for MimiProvider {
    open spec fn obeys_from_spec() -> bool {
        true
    }

    open spec fn from_spec(v: u16) -> Self {
        provider_of(v)
    }
}

/// The kind of client a user joins with.
#[derive(Debug, Clone, Copy, PartialEq, Eq, Structural, Hash)]
pub enum ClientType {
    /// No client type given.
    Unspecified,
    Proton,
    Guest,
    Agent,
}

/// The client type of a code; codes past the known ones read as `Unspecified`.
pub open spec fn client_type_of(value: u16) -> ClientType {
    match value {
        1 => ClientType::Proton,
        2 => ClientType::Guest,
        3 => ClientType::Agent,
        _ => ClientType::Unspecified,
    }
}

pub open spec fn client_type_code(c: ClientType) -> u16 {
    match c {
        ClientType::Unspecified => 0,
        ClientType::Proton => 1,
        ClientType::Guest => 2,
        ClientType::Agent => 3,
    }
}

impl ClientType {
    pub fn from_u16(value: u16) -> (r: Self)
        ensures
            r == client_type_of(value),
    {
        match value {
            0 => ClientType::Unspecified,
            1 => ClientType::Proton,
            2 => ClientType::Guest,
            3 => ClientType::Agent,
            _ => ClientType::Unspecified,
        }
    }

    /// The code the client type is written with.
    pub fn code(&self) -> (r: u16)
        ensures
            r == client_type_code(*self),
    {
        match self {
            ClientType::Unspecified => 0,
            ClientType::Proton => 1,
            ClientType::Guest => 2,
            ClientType::Agent => 3,
        }
    }

    /// Client types are ordered by their codes.
    pub fn is_before(&self, other: &ClientType) -> (r: bool)
        ensures
            r == (client_type_code(*self) < client_type_code(*other)),
    {
        self.code() < other.code()
    }
}

impl Default for ClientType {
    fn default() -> (r: Self)
        ensures
            r == ClientType::Unspecified,
    {
        ClientType::Unspecified
    }
}

impl From<u16> for ClientType {
    fn from(value: u16) -> (r: Self) {
        ClientType::from_u16(value)
    }
}

impl vstd::std_specs::convert::FromSpecImpl<u16> for ClientType {
    open spec fn obeys_from_spec() -> bool {
        true
    }

    open spec fn from_spec(v: u16) -> Self {
        client_type_of(v)
    }
}

/// Every client type is read back from the code it is written with.
pub proof fn lemma_client_type_round_trip(c: ClientType)
    ensures
        client_type_of(client_type_code(c)) == c,
{
}

/// Every provider is read back from its code, but an unknown provider
/// holding Proton's number.
pub proof fn lemma_provider_round_trip(p: MimiProvider)
    requires
        p != MimiProvider::Unknown(PROTON_AG),
    ensures
        provider_of(provider_code(p)) == p,
{
}

} // verus!
