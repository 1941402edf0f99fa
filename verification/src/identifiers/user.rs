//! Users: `mimi://{domain}/u/{id}`.
use vstd::prelude::*;
use crate::digest::{sha256, sha256_digest};
use vstd::utf8::encode_utf8;
use crate::identifiers::domain::{Domain, DomainRef, domain_check};
use crate::identifiers::error::ProtonMeetIdError;
use crate::identifiers::id::{url_safe_text, unreserved_text, Id, IdRef, base64_url_nopad, base64_url_nopad_encode};
use crate::identifiers::room::RoomId;
use crate::identifiers::uri::{
    is_code, lemma_split_slash_nonempty, mimi_uri, parse_uri_ref, path_segments, segments_if_absolute,
    str_views, uri_ref_parse, write_mimi_uri,
};
use crate::identifiers::{AsOwned, ByRef};
use crate::identifiers::uri::is_reg_name;
use crate::identifiers::laws::{lemma_written_uri_shape, lemma_unreserved_no_slash, lemma_user_id_parts_of_written};

verus! {

/// What the host and path of a URI give as a user: its domain and its
/// identifier, or why not.
pub open spec fn user_id_parts(host: Option<Seq<char>>, path: Seq<char>) -> Result<
    (Seq<char>, Seq<char>),
    ProtonMeetIdError,
> {
    match host {
        None => Err(ProtonMeetIdError::InvalidUserId("authority is missing")),
        Some(h) => match domain_check(h) {
            Err(e) => Err(e),
            Ok(d) => match path_segments(path) {
                None => Err(ProtonMeetIdError::InvalidUserId("invalid URI")),
                Some(segs) => {
                    let sep = segs[0];
                    if sep == seq!['u'] {
                        if segs.len() < 2 || segs[1].len() == 0 {
                            Err(ProtonMeetIdError::InvalidUserId("missing unique identifier"))
                        } else if segs.len() == 2 {
                            Ok((d, segs[1]))
                        } else if segs[2] == seq!['d'] {
                            if segs.len() < 4 {
                                Err(
                                    ProtonMeetIdError::InvalidUserId(
                                        "tried to deserialize a device ID into a user ID",
                                    ),
                                )
                            } else {
                                Ok((d, segs[1]))
                            }
                        } else {
                            Err(ProtonMeetIdError::InvalidUserId("multiple user parts in MIMI user ID"))
                        }
                    } else if sep.len() == 0 {
                        Err(ProtonMeetIdError::InvalidUserId("path component of MIMI URI is missing"))
                    } else {
                        Err(ProtonMeetIdError::InvalidUserId("'u' must directly precede identity part"))
                    }
                },
            },
        },
    }
}

/// Reading the written form `mimi://{d}/u/{i}` of a user, for a registered
/// name `d` and a non-empty identifier `i` of unreserved URI characters,
/// gives that user.
pub open spec fn written_user_read<'a>(s: Seq<char>, r: Result<UserIdRef<'a>, ProtonMeetIdError>) -> bool {
    forall|d: Seq<char>, i: Seq<char>|
        #![trigger mimi_uri(d, 'u', i)]
        s == mimi_uri(d, 'u', i) && is_reg_name(d) && i.len() > 0 && unreserved_text(i) ==> (r matches Ok(u)
            && u.domain@ == d && u.id@ == i)
}

/// A user, written `mimi://{domain}/u/{id}`.
#[derive(Debug, PartialEq, Eq, PartialOrd, Ord, Hash)]
pub struct UserId {
    pub domain: Domain,
    pub id: Id,
}

impl Clone for UserId {
    fn clone(&self) -> (r: Self)
        ensures
            r.domain@ == self.domain@,
            r.id@ == self.id@,
    {
        UserId { domain: self.domain.clone(), id: self.id.clone() }
    }
}

impl UserId {
    /// A fresh user of `domain`.
    pub fn new(domain: &Domain) -> (r: Self)
        ensures
            r.domain@ == domain@,
            exists|b: Seq<u8>| b.len() == 16 && r.id@ == base64_url_nopad(b),
            r.id@.len() == 22,
            url_safe_text(r.id@),
    {
        UserId { domain: domain.clone(), id: Id::new() }
    }

    /// The user of `domain` whose identifier is written from `bytes`.
    /// The user whose identifier is written from `bytes`, of the domain read
    /// from `domain`; fails where `domain` is no registered name.
    pub fn try_new_random(bytes: [u8; 16], domain: &str) -> (r: Result<Self, ProtonMeetIdError>)
        ensures
            match domain_check(domain@) {
                Ok(d) => r matches Ok(x) && x.domain@ == d && x.id@ == base64_url_nopad(bytes@),
                Err(e) => r == Err::<Self, ProtonMeetIdError>(e),
            },
    {
        match Domain::from_str(domain) {
            Ok(d) => Ok(Self::new_random(bytes, &d)),
            Err(e) => Err(e),
        }
    }

    pub fn new_random(bytes: [u8; 16], domain: &Domain) -> (r: Self)
        ensures
            r.domain@ == domain@,
            r.id@ == base64_url_nopad(bytes@),
            r.id@.len() == 22,
            url_safe_text(r.id@),
    {
        UserId { domain: domain.clone(), id: Id::new_random(bytes) }
    }

    pub fn id(&self) -> (r: &Id)
        ensures
            r == &self.id,
    {
        &self.id
    }

    pub fn domain(&self) -> (r: &Domain)
        ensures
            r == &self.domain,
    {
        &self.domain
    }

    /// The user's own hidden room: same domain, identifier the unpadded
    /// URL-safe base64 of the first 16 bytes of the SHA-256 of the user's
    /// identifier.
    pub fn to_self_room_id(&self) -> (r: RoomId)
        ensures
            r.domain@ == self.domain@,
            r.id@ == base64_url_nopad(sha256(encode_utf8(self.id@)).take(16)),
            r.id@.len() == 22,
            url_safe_text(r.id@),
    {
        let digest = sha256_digest(self.id.0.as_str().as_bytes());
        let first = slice_prefix(digest.as_slice(), 16);
        let id = Id(base64_url_nopad_encode(first.as_slice()));
        RoomId { id, domain: self.domain.clone() }
    }

    /// `mimi://{domain}/u/{id}`.
    pub fn to_string(&self) -> (r: String)
        ensures
            r@ == mimi_uri(self.domain@, 'u', self.id@),
    {
        write_mimi_uri(self.domain.as_str(), 'u', self.id.as_str())
    }

    /// Reads a user's URI.
    pub fn from_str(s: &str) -> (r: Result<Self, ProtonMeetIdError>)
        ensures
            match uri_ref_parse(s@) {
                None => r matches Err(ProtonMeetIdError::InvalidUri(_)),
                Some((host, path)) => match user_id_parts(host, path) {
                    Ok((d, i)) => r matches Ok(u) && u.domain@ == d && u.id@ == i,
                    Err(e) => r == Err::<Self, ProtonMeetIdError>(e),
                },
            },
            forall|d: Seq<char>, i: Seq<char>|
                #![trigger mimi_uri(d, 'u', i)]
                s@ == mimi_uri(d, 'u', i) && is_reg_name(d) && i.len() > 0 && unreserved_text(i) ==> (r matches Ok(
                    u,
                ) && u.domain@ == d && u.id@ == i),
    {
        match UserIdRef::try_from(s) {
            Ok(u) => Ok(u.as_owned()),
            Err(e) => Err(e),
        }
    }
}

/// The first `n` bytes of `b`.
pub fn slice_prefix(b: &[u8], n: usize) -> (r: Vec<u8>)
    requires
        n <= b@.len(),
    ensures
        r@ == b@.take(n as int),
{
    let mut out: Vec<u8> = Vec::new();
    let mut i: usize = 0;
    while i < n
        invariant
            i <= n <= b@.len(),
            out@ == b@.take(i as int),
        decreases n - i,
    {
        out.push(b[i]);
        i += 1;
        assert(out@ =~= b@.take(i as int));
    }
    out
}

/// A borrowed user.
#[derive(Clone, Debug, PartialEq, Eq, PartialOrd, Ord, Hash)]
pub struct UserIdRef<'a> {
    pub domain: DomainRef<'a>,
    pub id: IdRef<'a>,
}

impl<'a> UserIdRef<'a> {
    /// Reads a user from the host and path of its URI.
    pub fn from_uri_parts(host: Option<&'a str>, path: &'a str) -> (r: Result<Self, ProtonMeetIdError>)
        ensures
            match user_id_parts(
                match host {
                    Some(h) => Some(h@),
                    None => None,
                },
                path@,
            ) {
                Ok((d, i)) => r matches Ok(u) && u.domain@ == d && u.id@ == i,
                Err(e) => r == Err::<Self, ProtonMeetIdError>(e),
            },
    {
        let host = match host {
            Some(h) => h,
            None => {
                return Err(ProtonMeetIdError::InvalidUserId("authority is missing"));
            },
        };
        let domain = match DomainRef::try_from(host) {
            Ok(d) => d,
            Err(e) => {
                return Err(e);
            },
        };
        let segs = match segments_if_absolute(path) {
            Some(v) => v,
            None => {
                return Err(ProtonMeetIdError::InvalidUserId("invalid URI"));
            },
        };
        proof {
            lemma_split_slash_nonempty(path@.drop_first());
        }
        assert(str_views(segs@)[0] == segs@[0]@);
        let sep = segs[0];
        if is_code(sep, 'u') {
            if segs.len() < 2 || segs[1].unicode_len() == 0 {
                return Err(ProtonMeetIdError::InvalidUserId("missing unique identifier"));
            }
            assert(str_views(segs@)[1] == segs@[1]@);
            if segs.len() > 2 {
                assert(str_views(segs@)[2] == segs@[2]@);
                if !is_code(segs[2], 'd') {
                    return Err(ProtonMeetIdError::InvalidUserId("multiple user parts in MIMI user ID"));
                }
                if segs.len() < 4 {
                    return Err(
                        ProtonMeetIdError::InvalidUserId("tried to deserialize a device ID into a user ID"),
                    );
                }
            }
            Ok(UserIdRef { domain, id: IdRef::from(segs[1]) })
        } else if sep.unicode_len() == 0 {
            Err(ProtonMeetIdError::InvalidUserId("path component of MIMI URI is missing"))
        } else {
            Err(ProtonMeetIdError::InvalidUserId("'u' must directly precede identity part"))
        }
    }

    /// Reads a user's URI.
    pub fn try_from(s: &'a str) -> (r: Result<Self, ProtonMeetIdError>)
        ensures
            match uri_ref_parse(s@) {
                None => r matches Err(ProtonMeetIdError::InvalidUri(_)),
                Some((host, path)) => match user_id_parts(host, path) {
                    Ok((d, i)) => r matches Ok(u) && u.domain@ == d && u.id@ == i,
                    Err(e) => r == Err::<Self, ProtonMeetIdError>(e),
                },
            },
            written_user_read(s@, r),
    {
        let r = match parse_uri_ref(s) {
            Ok(parts) => Self::from_uri_parts(parts.host, parts.path),
            Err(text) => Err(ProtonMeetIdError::InvalidUri(text)),
        };
        proof {
            assert forall|d: Seq<char>, i: Seq<char>|
                #![trigger mimi_uri(d, 'u', i)]
                s@ == mimi_uri(d, 'u', i) && is_reg_name(d) && i.len() > 0 && unreserved_text(i) implies (r matches Ok(
                u,
            ) && u.domain@ == d && u.id@ == i) by {
                lemma_written_uri_shape(d, 'u', i);
                lemma_unreserved_no_slash(i);
                lemma_user_id_parts_of_written(d, i);
            }
        }
        r
    }

    /// `mimi://{domain}/u/{id}`.
    pub fn to_string(&self) -> (r: String)
        ensures
            r@ == mimi_uri(self.domain@, 'u', self.id@),
    {
        write_mimi_uri(self.domain.as_str(), 'u', self.id.as_str())
    }
}

impl ByRef for UserId {
    type Target<'a> = UserIdRef<'a>;

    fn as_ref(&self) -> (r: UserIdRef<'_>)
        ensures
            r.domain@ == self.domain@,
            r.id@ == self.id@,
    {
        UserIdRef { id: self.id.as_ref(), domain: self.domain.as_ref() }
    }
}

impl<'a> AsOwned for UserIdRef<'a> {
    type Target = UserId;

    fn as_owned(&self) -> (r: UserId)
        ensures
            r.domain@ == self.domain@,
            r.id@ == self.id@,
    {
        UserId { id: self.id.as_owned(), domain: self.domain.as_owned() }
    }
}

} // verus!

verus! {

impl<'a> crate::identifiers::Identifier for UserIdRef<'a> {
    const URI_PATH_SHORT: &'static str = "u";
}

} // verus!
