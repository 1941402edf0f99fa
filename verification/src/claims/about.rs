//! What users say of themselves.
use vstd::prelude::*;
use vstd::string::StrSliceExecFns;
use crate::claims::value::{ClaimValue, untagged, into_untagged};
use crate::claims::meeting::ClaimsDecodeError;

verus! {

/// What can go wrong with the claims of a credential.
#[derive(Debug)]
pub enum ProtonClaimsError {
    MissingField(&'static str),
    /// More than one space is disclosed.
    InvalidSpacePresentation,
    /// The about text is longer than the given number of characters.
    AboutTooLong(usize),
}

/// The longest about text, in characters.
pub const ABOUT_MAX_SIZE: usize = 200;

/// A user's about section describing himself.
#[derive(Debug, Default, PartialEq, Eq, PartialOrd, Ord, Hash)]
pub struct About(String);

impl View for About {
    type V = Seq<char>;

    closed spec fn view(&self) -> Seq<char> {
        self.0@
    }
}

impl About {
    /// An about text, if it holds at most 200 characters.
    pub fn try_from(value: String) -> (r: Result<Self, ProtonClaimsError>)
        ensures
            value@.len() <= ABOUT_MAX_SIZE ==> (r matches Ok(a) && a@ == value@),
            value@.len() > ABOUT_MAX_SIZE ==> r == Err::<Self, ProtonClaimsError>(
                ProtonClaimsError::AboutTooLong(ABOUT_MAX_SIZE),
            ),
    {
        if value.as_str().unicode_len() > ABOUT_MAX_SIZE {
            return Err(ProtonClaimsError::AboutTooLong(ABOUT_MAX_SIZE));
        }
        Ok(About(value))
    }

    pub fn as_str(&self) -> (r: &str)
        ensures
            r@ == self@,
    {
        self.0.as_str()
    }
}

/// All the claims asserted by a user but not verified by the
/// authorization server.
#[derive(Debug, Default, PartialEq, Eq)]
pub struct UserAsserted {
    pub about: Option<About>,
}

/// The CBOR label of the about text.
pub const ABOUT_LABEL: i128 = -70000;

/// The key `about` of earlier credentials.
pub open spec fn about_word() -> Seq<char> {
    seq!['a', 'b', 'o', 'u', 't']
}

/// The entry's key names the about text: its label, or the text key of
/// earlier credentials.
pub open spec fn is_about_key(k: ClaimValue) -> bool {
    ||| k matches ClaimValue::Integer(i) && i == ABOUT_LABEL
    ||| k matches ClaimValue::Text(t) && t@ == about_word()
}

/// The about text an entry gives: `Some(None)` for null, `Some(Some(t))`
/// for a text string (under any tags), `None` for anything else.
pub open spec fn about_value(v: ClaimValue) -> Option<Option<Seq<char>>> {
    match v {
        ClaimValue::Null => Some(None),
        _ => match untagged(v) {
            ClaimValue::Text(t) => Some(Some(t@)),
            _ => None,
        },
    }
}

/// The first entry that names the about text with a value of another kind.
pub open spec fn asserted_error(s: Seq<(ClaimValue, ClaimValue)>) -> bool
    decreases s.len(),
{
    if s.len() == 0 {
        false
    } else {
        asserted_error(s.drop_last()) || (is_about_key(s.last().0) && about_value(s.last().1) is None)
    }
}

/// The about text of the last entry that names it (`None` when none does,
/// or when it is null).
pub open spec fn asserted_about(s: Seq<(ClaimValue, ClaimValue)>) -> Option<Seq<char>>
    decreases s.len(),
{
    if s.len() == 0 {
        None
    } else if is_about_key(s.last().0) && about_value(s.last().1) is Some {
        about_value(s.last().1).unwrap()
    } else {
        asserted_about(s.drop_last())
    }
}

/// The text is `about`.
fn is_about_word(t: &str) -> (r: bool)
    ensures
        r == (t@ == about_word()),
{
    if t.unicode_len() != 5 {
        return false;
    }
    let r = t.get_char(0) == 'a' && t.get_char(1) == 'b' && t.get_char(2) == 'o' && t.get_char(3) == 'u'
        && t.get_char(4) == 't';
    assert(r ==> t@ =~= about_word());
    r
}

/// The entry's key names the about text.
fn about_key(k: &ClaimValue) -> (r: bool)
    ensures
        r == is_about_key(*k),
{
    match k {
        ClaimValue::Integer(i) => *i == ABOUT_LABEL,
        ClaimValue::Text(t) => is_about_word(t.as_str()),
        _ => false,
    }
}

/// Once an entry is in error, more entries do not mend it.
proof fn lemma_asserted_error_sticks(s: Seq<(ClaimValue, ClaimValue)>, n: int)
    requires
        0 <= n <= s.len(),
        asserted_error(s.take(n)),
    ensures
        asserted_error(s),
    decreases s.len() - n,
{
    if n < s.len() {
        assert(s.take(n + 1).drop_last() == s.take(n));
        lemma_asserted_error_sticks(s, n + 1);
    } else {
        assert(s.take(n) == s);
    }
}

impl UserAsserted {
    /// The entries of the payload: the about text, when there is one, under
    /// the text key `about` that every client reads.
    pub fn into_entries(self) -> (r: Vec<(ClaimValue, ClaimValue)>)
        ensures
            match self.about {
                Some(a) => {
                    &&& r@.len() == 1
                    &&& r@[0].0 matches ClaimValue::Text(k) && k@ == about_word()
                    &&& r@[0].1 matches ClaimValue::Text(t) && t@ == a@
                },
                None => r@.len() == 0,
            },
    {
        let mut out: Vec<(ClaimValue, ClaimValue)> = Vec::new();
        match self.about {
            Some(a) => {
                let key = "about".to_owned();
                proof {
                    reveal_strlit("about");
                }
                out.push((ClaimValue::Text(key), ClaimValue::Text(a.0)));
            },
            None => {},
        }
        out
    }

    /// Reads what a user asserts from the entries of the payload, in order:
    /// the last entry that names the about text sets it (null clears it);
    /// other entries are passed over. An about text that is neither text
    /// (under any tags) nor null stops the reading. The length of the text is not checked
    /// here.
    pub fn from_entries(entries: Vec<(ClaimValue, ClaimValue)>) -> (r: Result<Self, ClaimsDecodeError>)
        ensures
            asserted_error(entries@) ==> r == Err::<Self, ClaimsDecodeError>(ClaimsDecodeError::InvalidAbout),
            !asserted_error(entries@) ==> (r matches Ok(u) && match asserted_about(entries@) {
                Some(t) => u.about matches Some(a) && a@ == t,
                None => u.about is None,
            }),
    {
        let ghost s = entries@;
        let mut about: Option<About> = None;
        for e in it: entries.into_iter()
            invariant
                it.seq() == s,
                !asserted_error(s.take(it.index())),
                match asserted_about(s.take(it.index())) {
                    Some(t) => about matches Some(a) && a@ == t,
                    None => about is None,
                },
        {
            let ghost i = it.index();
            proof {
                assert(s.take(i + 1).drop_last() == s.take(i));
                assert(s.take(i + 1).last() == e);
            }
            let (k, v) = e;
            if about_key(&k) {
                match v {
                    ClaimValue::Null => {
                        about = None;
                    },
                    other => match into_untagged(other) {
                        ClaimValue::Text(t) => {
                            about = Some(About(t));
                        },
                        _ => {
                            proof {
                                lemma_asserted_error_sticks(s, i + 1);
                            }
                            return Err(ClaimsDecodeError::InvalidAbout);
                        },
                    },
                }
            }
        }
        proof {
            assert(s.take(s.len() as int) == s);
        }
        Ok(UserAsserted { about })
    }
}

/// Reading back the entries written of what a user asserts gives the same
/// about text, and never fails.
pub proof fn lemma_user_asserted_round_trip(about: Option<Seq<char>>, s: Seq<(ClaimValue, ClaimValue)>)
    requires
        match about {
            Some(t) => {
                &&& s.len() == 1
                &&& s[0].0 matches ClaimValue::Text(k) && k@ == about_word()
                &&& s[0].1 matches ClaimValue::Text(x) && x@ == t
            },
            None => s.len() == 0,
        },
    ensures
        !asserted_error(s),
        asserted_about(s) == about,
{
    if s.len() == 1 {
        assert(s.drop_last() == Seq::<(ClaimValue, ClaimValue)>::empty());
        assert(s.last() == s[0]);
        assert(is_about_key(s[0].0));
        assert(about_value(s[0].1) is Some);
        assert(!asserted_error(s.drop_last()));
        assert(asserted_about(s.drop_last()) is None);
    }
}

/// The labels of the claims a user asserts.
#[derive(Debug, Clone, Copy, PartialEq, Eq, Structural)]
pub enum KbtProtonLabel {
    About,
}

impl KbtProtonLabel {
    /// The CBOR label of the claim.
    pub fn label(&self) -> (r: i64)
        ensures
            r == -70000,
    {
        match self {
            KbtProtonLabel::About => -70000,
        }
    }
}

/// The labels of the claims of a meeting credential.
#[derive(Debug, Clone, Copy, PartialEq, Eq, Structural)]
pub enum CwtProtonMeetLabel {
    MeetingId,
    TokenUuid,
    PolicyEnforcer,
    Host,
    ClientType,
}

pub open spec fn meet_label_value(l: CwtProtonMeetLabel) -> i64 {
    match l {
        CwtProtonMeetLabel::MeetingId => -67550i64,
        CwtProtonMeetLabel::TokenUuid => -67551i64,
        CwtProtonMeetLabel::PolicyEnforcer => -67552i64,
        CwtProtonMeetLabel::Host => -67553i64,
        CwtProtonMeetLabel::ClientType => -67554i64,
    }
}

impl CwtProtonMeetLabel {
    /// The CBOR label of the claim.
    pub fn label(&self) -> (r: i64)
        ensures
            r == meet_label_value(*self),
    {
        match self {
            CwtProtonMeetLabel::MeetingId => -67550,
            CwtProtonMeetLabel::TokenUuid => -67551,
            CwtProtonMeetLabel::PolicyEnforcer => -67552,
            CwtProtonMeetLabel::Host => -67553,
            CwtProtonMeetLabel::ClientType => -67554,
        }
    }
}

} // verus!
