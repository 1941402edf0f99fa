//! Proton email addresses and the profiles of users.
use vstd::prelude::*;
use vstd::string::StrSliceExecFns;
use crate::identifiers::error::ProtonMeetIdError;
use crate::identifiers::id::{Id, base64_url_nopad};
use crate::identifiers::uri::string_push;
use crate::identifiers::{AsOwned, ByRef};

verus! {

/// Whether `EmailAddress::parse_with_options` of email_address accepts
/// `s` with at least two domain segments, no domain literal and no display
/// text.
pub uninterp spec fn email_accepted(s: Seq<char>) -> bool;

/// `EmailAddress::parse_with_options` of email_address, with at least two
/// domain segments, no domain literal and no display text. Its verdict is
/// named by `email_accepted`; which error it gives is not claimed.
#[verifier::external_body]
fn check_email(s: &str) -> (r: Result<(), email_address::Error>)
    ensures
        r is Ok == email_accepted(s@),
{
    let options = email_address::Options {
        minimum_sub_domains: 2,
        allow_domain_literal: false,
        allow_display_text: false,
    };
    email_address::EmailAddress::parse_with_options(s, options).map(|_| ())
}

/// The part of an address before its first `@`, with dots read as spaces.
pub open spec fn handle_name(s: Seq<char>) -> Seq<char>
    decreases s.len(),
{
    if s.len() == 0 || s[0] == '@' {
        Seq::empty()
    } else {
        seq![if s[0] == '.' { ' ' } else { s[0] }] + handle_name(s.drop_first())
    }
}

/// A Proton email address.
#[derive(Debug, PartialEq, Eq, PartialOrd, Ord, Hash)]
pub struct ProtonEmail(String);

impl View for ProtonEmail {
    type V = Seq<char>;

    closed spec fn view(&self) -> Seq<char> {
        self.0@
    }
}

impl Clone for ProtonEmail {
    fn clone(&self) -> (r: Self)
        ensures
            r@ == self@,
    {
        ProtonEmail(self.0.clone())
    }
}

impl ProtonEmail {
    /// Reads an email address; it must have at least two domain segments,
    /// no domain literal and no display text.
    pub fn from_str(s: &str) -> (r: Result<Self, ProtonMeetIdError>)
        ensures
            email_accepted(s@) ==> (r matches Ok(e) && e@ == s@),
            !email_accepted(s@) ==> r matches Err(ProtonMeetIdError::EmailAddressError(_)),
    {
        match check_email(s) {
            Ok(()) => Ok(ProtonEmail(s.to_owned())),
            Err(e) => Err(ProtonMeetIdError::EmailAddressError(e)),
        }
    }

    /// An address taken as given, unchecked.
    pub fn new_unchecked(email: String) -> (r: Self)
        ensures
            r@ == email@,
    {
        ProtonEmail(email)
    }

    pub fn as_str(&self) -> (r: &str)
        ensures
            r@ == self@,
    {
        self.0.as_str()
    }

    /// The part of the address before its first `@`, with dots read as
    /// spaces.
    pub fn name(&self) -> (r: String)
        ensures
            r@ == handle_name(self@),
    {
        let s = self.0.as_str();
        let n = s.unicode_len();
        let mut out = String::new();
        let mut i: usize = 0;
        assert(s@.skip(0) =~= s@);
        assert(out@ + handle_name(s@) =~= handle_name(s@));
        while i < n && s.get_char(i) != '@'
            invariant
                i <= n == s@.len(),
                s@ == self@,
                handle_name(s@) == out@ + handle_name(s@.skip(i as int)),
            decreases n - i,
        {
            let c = s.get_char(i);
            assert(s@.skip(i as int).drop_first() =~= s@.skip(i + 1));
            let ghost before = out@;
            string_push(&mut out, if c == '.' { ' ' } else { c });
            assert(out@ + handle_name(s@.skip(i + 1)) =~= before + handle_name(s@.skip(i as int)));
            i += 1;
        }
        assert(handle_name(s@.skip(i as int)) =~= Seq::<char>::empty());
        assert(out@ =~= out@ + handle_name(s@.skip(i as int)));
        out
    }
}

/// A borrowed email address.
#[derive(Debug, Clone, Copy, PartialEq, Eq, PartialOrd, Ord, Hash)]
pub struct ProtonEmailRef<'a>(&'a str);

impl<'a> View for ProtonEmailRef<'a> {
    type V = Seq<char>;

    closed spec fn view(&self) -> Seq<char> {
        self.0@
    }
}

impl<'a> ProtonEmailRef<'a> {
    /// Reads an email address, as `ProtonEmail::from_str` does.
    pub fn try_from(s: &'a str) -> (r: Result<Self, ProtonMeetIdError>)
        ensures
            email_accepted(s@) ==> (r matches Ok(e) && e@ == s@),
            !email_accepted(s@) ==> r matches Err(ProtonMeetIdError::EmailAddressError(_)),
    {
        match check_email(s) {
            Ok(()) => Ok(ProtonEmailRef(s)),
            Err(e) => Err(ProtonMeetIdError::EmailAddressError(e)),
        }
    }

    pub fn as_str(&self) -> (r: &'a str)
        ensures
            r@ == self@,
    {
        self.0
    }
}

impl ByRef for ProtonEmail {
    type Target<'a> = ProtonEmailRef<'a>;

    fn as_ref(&self) -> (r: ProtonEmailRef<'_>)
        ensures
            r@ == self@,
    {
        ProtonEmailRef(self.0.as_str())
    }
}

impl<'a> AsOwned for ProtonEmailRef<'a> {
    type Target = ProtonEmail;

    fn as_owned(&self) -> (r: ProtonEmail)
        ensures
            r@ == self@,
    {
        ProtonEmail(self.0.to_owned())
    }
}

/// The identifier of a user's profile.
#[derive(Debug, PartialEq, Eq, PartialOrd, Ord, Hash)]
pub struct ProfileId(pub Id);

impl ProfileId {
    /// A fresh profile identifier.
    #[allow(clippy::new_without_default)]
    pub fn new() -> (r: Self)
        ensures
            exists|b: Seq<u8>| b.len() == 16 && r.0@ == base64_url_nopad(b),
    {
        ProfileId(Id::new())
    }

    /// The profile identifier written from `bytes`.
    pub fn new_random(bytes: [u8; 16]) -> (r: Self)
        ensures
            r.0@ == base64_url_nopad(bytes@),
    {
        ProfileId(Id::new_random(bytes))
    }

    /// Any text is a profile identifier.
    pub fn from_str(s: &str) -> (r: Result<Self, ProtonMeetIdError>)
        ensures
            r matches Ok(p) && p.0@ == s@,
    {
        match Id::from_str(s) {
            Ok(id) => Ok(ProfileId(id)),
            Err(e) => Err(e),
        }
    }

    pub fn to_string(&self) -> (r: String)
        ensures
            r@ == self.0@,
    {
        self.0.to_string()
    }
}

} // verus!
