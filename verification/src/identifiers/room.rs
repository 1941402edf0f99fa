//! Rooms: `mimi://{domain}/r/{id}`.
use vstd::prelude::*;
use crate::identifiers::domain::{Domain, DomainRef, domain_check};
use crate::identifiers::error::ProtonMeetIdError;
use crate::identifiers::id::{url_safe_text, unreserved_text, Id, base64_url_nopad};
use crate::identifiers::uri::{
    is_code, lemma_split_slash_nonempty, mimi_uri, parse_uri_ref, path_segments, segments_if_absolute,
    str_views, uri_ref_parse, write_mimi_uri,
};
use crate::identifiers::{AsOwned, ByRef, Identifier};
use crate::identifiers::uri::is_reg_name;
use crate::identifiers::laws::{lemma_written_uri_shape, lemma_unreserved_no_slash, lemma_room_id_parts_of_written};

verus! {

/// What the host and path of a URI give as a room: its domain and
/// identifier, or why not.
pub open spec fn room_id_parts(host: Option<Seq<char>>, path: Seq<char>) -> Result<
    (Seq<char>, Seq<char>),
    ProtonMeetIdError,
> {
    match host {
        None => Err(ProtonMeetIdError::InvalidRoomId("authority is missing")),
        Some(h) => match domain_check(h) {
            Err(e) => Err(e),
            Ok(d) => match path_segments(path) {
                None => Err(ProtonMeetIdError::InvalidRoomId("invalid URI")),
                Some(segs) => if segs[0] != seq!['r'] {
                    Err(ProtonMeetIdError::InvalidRoomId("room code must be 'r'"))
                } else if segs.len() < 2 {
                    Err(ProtonMeetIdError::InvalidRoomId("missing unique identifier"))
                } else {
                    Ok((d, segs[1]))
                },
            },
        },
    }
}

/// Identifier for a Room.
#[derive(Debug, PartialEq, Eq, PartialOrd, Ord, Hash)]
pub struct RoomId {
    pub id: Id,
    pub domain: Domain,
}

impl Clone for RoomId {
    fn clone(&self) -> (r: Self)
        ensures
            r.id@ == self.id@,
            r.domain@ == self.domain@,
    {
        RoomId { id: self.id.clone(), domain: self.domain.clone() }
    }
}

impl RoomId {
    /// A fresh room of `domain`.
    pub fn new(domain: &Domain) -> (r: Self)
        ensures
            r.domain@ == domain@,
            exists|b: Seq<u8>| b.len() == 16 && r.id@ == base64_url_nopad(b),
            r.id@.len() == 22,
            url_safe_text(r.id@),
    {
        RoomId { domain: domain.clone(), id: Id::new() }
    }

    /// The room of `domain` whose identifier is written from `bytes`.
    /// The room whose identifier is written from `bytes`, of the domain read
    /// from `domain`; fails where `domain` is no registered name.
    pub fn try_new_random(bytes: [u8; 16], domain: &str) -> (r: Result<Self, ProtonMeetIdError>)
        ensures
            match domain_check(domain@) {
                Ok(d) => r matches Ok(x) && x.domain@ == d && x.id@ == base64_url_nopad(bytes@),
                Err(e) => r == Err::<Self, ProtonMeetIdError>(e),
            },
    {
        match Domain::from_str(domain) {
            Ok(d) => Ok(Self::new_random(bytes, &d)),
            Err(e) => Err(e),
        }
    }

    pub fn new_random(bytes: [u8; 16], domain: &Domain) -> (r: Self)
        ensures
            r.domain@ == domain@,
            r.id@ == base64_url_nopad(bytes@),
            r.id@.len() == 22,
            url_safe_text(r.id@),
    {
        RoomId { domain: domain.clone(), id: Id::new_random(bytes) }
    }

    /// `mimi://{domain}/r/{id}`.
    pub fn to_string(&self) -> (r: String)
        ensures
            r@ == mimi_uri(self.domain@, 'r', self.id@),
    {
        write_mimi_uri(self.domain.as_str(), 'r', self.id.as_str())
    }

    /// Reads a room's URI.
    pub fn from_str(s: &str) -> (r: Result<Self, ProtonMeetIdError>)
        ensures
            match uri_ref_parse(s@) {
                None => r matches Err(ProtonMeetIdError::InvalidUri(_)),
                Some((host, path)) => match room_id_parts(host, path) {
                    Ok((d, i)) => r matches Ok(x) && x.domain@ == d && x.id@ == i,
                    Err(e) => r == Err::<Self, ProtonMeetIdError>(e),
                },
            },
            forall|d: Seq<char>, i: Seq<char>|
                #![trigger mimi_uri(d, 'r', i)]
                s@ == mimi_uri(d, 'r', i) && is_reg_name(d) && unreserved_text(i) ==> (r matches Ok(x) && x.domain@
                    == d && x.id@ == i),
    {
        match RoomIdRef::try_from(s) {
            Ok(x) => Ok(x.as_owned()),
            Err(e) => Err(e),
        }
    }
}

/// A room whose domain is borrowed.
#[derive(Debug, PartialEq, Eq, PartialOrd, Ord, Hash)]
pub struct RoomIdRef<'a> {
    pub id: Id,
    pub domain: DomainRef<'a>,
}

impl<'a> RoomIdRef<'a> {
    /// Reads a room from the host and path of its URI.
    pub fn from_uri_parts(host: Option<&'a str>, path: &'a str) -> (r: Result<Self, ProtonMeetIdError>)
        ensures
            match room_id_parts(
                match host {
                    Some(h) => Some(h@),
                    None => None,
                },
                path@,
            ) {
                Ok((d, i)) => r matches Ok(x) && x.domain@ == d && x.id@ == i,
                Err(e) => r == Err::<Self, ProtonMeetIdError>(e),
            },
    {
        let host = match host {
            Some(h) => h,
            None => {
                return Err(ProtonMeetIdError::InvalidRoomId("authority is missing"));
            },
        };
        let domain = match DomainRef::try_from(host) {
            Ok(d) => d,
            Err(e) => {
                return Err(e);
            },
        };
        let segs = match segments_if_absolute(path) {
            Some(v) => v,
            None => {
                return Err(ProtonMeetIdError::InvalidRoomId("invalid URI"));
            },
        };
        proof {
            lemma_split_slash_nonempty(path@.drop_first());
        }
        assert(str_views(segs@)[0] == segs@[0]@);
        if !is_code(segs[0], 'r') {
            return Err(ProtonMeetIdError::InvalidRoomId("room code must be 'r'"));
        }
        if segs.len() < 2 {
            return Err(ProtonMeetIdError::InvalidRoomId("missing unique identifier"));
        }
        assert(str_views(segs@)[1] == segs@[1]@);
        let id = match Id::from_str(segs[1]) {
            Ok(id) => id,
            Err(_) => {
                return Err(ProtonMeetIdError::InvalidRoomId("the identifier is invalid"));
            },
        };
        Ok(RoomIdRef { domain, id })
    }

    /// Reads a room's URI.
    pub fn try_from(s: &'a str) -> (r: Result<Self, ProtonMeetIdError>)
        ensures
            match uri_ref_parse(s@) {
                None => r matches Err(ProtonMeetIdError::InvalidUri(_)),
                Some((host, path)) => match room_id_parts(host, path) {
                    Ok((d, i)) => r matches Ok(x) && x.domain@ == d && x.id@ == i,
                    Err(e) => r == Err::<Self, ProtonMeetIdError>(e),
                },
            },
            forall|d: Seq<char>, i: Seq<char>|
                #![trigger mimi_uri(d, 'r', i)]
                s@ == mimi_uri(d, 'r', i) && is_reg_name(d) && unreserved_text(i) ==> (r matches Ok(x) && x.domain@
                    == d && x.id@ == i),
    {
        let r = match parse_uri_ref(s) {
            Ok(parts) => Self::from_uri_parts(parts.host, parts.path),
            Err(text) => Err(ProtonMeetIdError::InvalidUri(text)),
        };
        proof {
            assert forall|d: Seq<char>, i: Seq<char>|
                #![trigger mimi_uri(d, 'r', i)]
                s@ == mimi_uri(d, 'r', i) && is_reg_name(d) && unreserved_text(i) implies (r matches Ok(x)
                && x.domain@ == d && x.id@ == i) by {
                lemma_written_uri_shape(d, 'r', i);
                lemma_unreserved_no_slash(i);
                lemma_room_id_parts_of_written(d, i);
            }
        }
        r
    }

    /// `mimi://{domain}/r/{id}`.
    pub fn to_string(&self) -> (r: String)
        ensures
            r@ == mimi_uri(self.domain@, 'r', self.id@),
    {
        write_mimi_uri(self.domain.as_str(), 'r', self.id.as_str())
    }
}

impl ByRef for RoomId {
    type Target<'a> = RoomIdRef<'a>;

    fn as_ref(&self) -> (r: RoomIdRef<'_>)
        ensures
            r.id@ == self.id@,
            r.domain@ == self.domain@,
    {
        RoomIdRef { id: self.id.clone(), domain: self.domain.as_ref() }
    }
}

impl<'a> AsOwned for RoomIdRef<'a> {
    type Target = RoomId;

    fn as_owned(&self) -> (r: RoomId)
        ensures
            r.id@ == self.id@,
            r.domain@ == self.domain@,
    {
        RoomId { id: self.id.clone(), domain: self.domain.as_owned() }
    }
}

impl<'a> Identifier for RoomIdRef<'a> {
    const URI_PATH_SHORT: &'static str = "r";
}

} // verus!
