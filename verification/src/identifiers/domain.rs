//! Domain names: the host part of a MIMI URI, a registered name.
use vstd::prelude::*;
use crate::identifiers::error::ProtonMeetIdError;
use crate::identifiers::uri::{estr_reg_name_new, is_reg_name};
use crate::identifiers::{AsOwned, ByRef};

verus! {

/// What reading `s` as a domain gives: `s` itself where it is a registered
/// name.
pub open spec fn domain_check(s: Seq<char>) -> Result<Seq<char>, ProtonMeetIdError> {
    if is_reg_name(s) {
        Ok(s)
    } else {
        Err(ProtonMeetIdError::ImplementationError("Invalid domain name"))
    }
}

/// The domain a test falls back to.
pub open spec fn default_domain() -> Seq<char> {
    seq!['p', 'r', 'o', 't', 'o', 'n', '.', 'm', 'e']
}

#[derive(Debug, PartialEq, Eq, PartialOrd, Ord, Hash)]
pub struct Domain(String);

impl Clone for Domain {
    fn clone(&self) -> (r: Self)
        ensures
            r@ == self@,
    {
        Domain(self.0.clone())
    }
}

impl View for Domain {
    type V = Seq<char>;

    closed spec fn view(&self) -> Seq<char> {
        self.0@
    }
}

impl Domain {
    /// A domain taken as given, unchecked.
    pub fn new_unchecked(s: &'static str) -> (r: Self)
        ensures
            r@ == s@,
    {
        Domain(s.to_owned())
    }

    /// Reads a host name; it must be a registered name.
    pub fn from_str(host: &str) -> (r: Result<Self, ProtonMeetIdError>)
        ensures
            match domain_check(host@) {
                Ok(d) => r matches Ok(x) && x@ == d,
                Err(e) => r == Err::<Self, ProtonMeetIdError>(e),
            },
    {
        match DomainRef::try_from(host) {
            Ok(d) => Ok(d.as_owned()),
            Err(e) => Err(e),
        }
    }

    pub fn as_str(&self) -> (r: &str)
        ensures
            r@ == self@,
    {
        self.0.as_str()
    }

    pub fn to_string(&self) -> (r: String)
        ensures
            r@ == self@,
    {
        self.0.clone()
    }
}

impl Default for Domain {
    fn default() -> (r: Self)
        ensures
            r@ == default_domain(),
    {
        let r = Domain("proton.me".to_owned());
        proof {
            reveal_strlit("proton.me");
        }
        assert(r@ =~= default_domain());
        r
    }
}

/// A borrowed domain name.
#[derive(Clone, Copy, Debug, PartialEq, Eq, PartialOrd, Ord, Hash)]
pub struct DomainRef<'a>(&'a str);

impl<'a> View for DomainRef<'a> {
    type V = Seq<char>;

    closed spec fn view(&self) -> Seq<char> {
        self.0@
    }
}

impl<'a> DomainRef<'a> {
    /// Reads a host name; it must be a registered name.
    pub fn try_from(s: &'a str) -> (r: Result<Self, ProtonMeetIdError>)
        ensures
            match domain_check(s@) {
                Ok(d) => r matches Ok(x) && x@ == d,
                Err(e) => r == Err::<Self, ProtonMeetIdError>(e),
            },
    {
        if estr_reg_name_new(s) {
            Ok(DomainRef(s))
        } else {
            Err(ProtonMeetIdError::ImplementationError("Invalid domain name"))
        }
    }

    pub fn as_str(&self) -> (r: &'a str)
        ensures
            r@ == self@,
    {
        self.0
    }
}

impl ByRef for Domain {
    type Target<'a> = DomainRef<'a>;

    fn as_ref(&self) -> (r: DomainRef<'_>)
        ensures
            r@ == self@,
    {
        DomainRef(self.0.as_str())
    }
}

impl<'a> AsOwned for DomainRef<'a> {
    type Target = Domain;

    fn as_owned(&self) -> (r: Domain)
        ensures
            r@ == self@,
    {
        Domain(self.0.to_owned())
    }
}

} // verus!
