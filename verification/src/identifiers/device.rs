//! Devices: `mimi://{domain}/u/{user}/d/{device}`, a device under the URI
//! of the user owning it.
use vstd::prelude::*;
use vstd::string::StrSliceExecFns;
use crate::identifiers::domain::{Domain, DomainRef, domain_check};
use crate::identifiers::error::ProtonMeetIdError;
use crate::identifiers::id::{url_safe_text, unreserved_text, Id, IdRef, base64_url_nopad};
use crate::identifiers::uri::{
    is_code, lemma_split_slash_nonempty, mimi_uri, parse_uri_ref, path_segments, segments_if_absolute,
    str_views, uri_ref_parse, device_uri, write_device_uri,
};
use crate::identifiers::user::{UserId, UserIdRef};
use crate::identifiers::{AsOwned, ByRef, Identifier};
use crate::identifiers::uri::is_reg_name;
use crate::identifiers::laws::{lemma_device_uri_shape, lemma_unreserved_no_slash, lemma_device_id_parts_of_written};

verus! {

/// What the host and path of a URI give as a device: its domain, its
/// owner's identifier and its own, or why not.
pub open spec fn device_id_parts(host: Option<Seq<char>>, path: Seq<char>) -> Result<
    (Seq<char>, Seq<char>, Seq<char>),
    ProtonMeetIdError,
> {
    match host {
        None => Err(ProtonMeetIdError::InvalidDeviceId("authority is missing")),
        Some(h) => match domain_check(h) {
            Err(e) => Err(e),
            Ok(d) => match path_segments(path) {
                None => Err(ProtonMeetIdError::InvalidDeviceId("invalid URI")),
                Some(segs) => if segs[0].len() == 0 {
                    Err(ProtonMeetIdError::InvalidDeviceId("user code is missing"))
                } else if segs[0] != seq!['u'] {
                    Err(ProtonMeetIdError::InvalidDeviceId("user code must be 'u'"))
                } else if segs.len() < 2 || segs[1].len() == 0 {
                    Err(ProtonMeetIdError::InvalidDeviceId("empty user identifier"))
                } else if segs.len() < 3 || segs[2].len() == 0 {
                    Err(ProtonMeetIdError::InvalidDeviceId("device code is missing"))
                } else if segs[2] != seq!['d'] {
                    Err(ProtonMeetIdError::InvalidDeviceId("device code must be 'd'"))
                } else if segs.len() < 4 {
                    Err(ProtonMeetIdError::InvalidDeviceId("missing identifier"))
                } else if segs[3].len() == 0 {
                    Err(ProtonMeetIdError::InvalidDeviceId("empty identifier"))
                } else if segs.len() >= 5 && segs[4].len() != 0 {
                    Err(ProtonMeetIdError::InvalidDeviceId("too many path parts"))
                } else {
                    Ok((d, segs[1], segs[3]))
                },
            },
        },
    }
}

/// Device and account hosting the MLS client and its associated secrets.
#[derive(Debug, PartialEq, Eq, PartialOrd, Ord, Hash)]
pub struct DeviceId {
    domain: Domain,
    owning_identity_id: Id,
    id: Id,
}

impl View for DeviceId {
    /// The domain, the owner's identifier and the device's.
    type V = (Seq<char>, Seq<char>, Seq<char>);

    closed spec fn view(&self) -> (Seq<char>, Seq<char>, Seq<char>) {
        (self.domain@, self.owning_identity_id@, self.id@)
    }
}

impl Clone for DeviceId {
    fn clone(&self) -> (r: Self)
        ensures
            r@ == self@,
    {
        DeviceId { domain: self.domain.clone(), owning_identity_id: self.owning_identity_id.clone(), id: self.id.clone() }
    }
}

impl DeviceId {
    /// A fresh device of the user.
    pub fn new(owning_identity_id: &UserId) -> (r: Self)
        ensures
            r@.0 == owning_identity_id.domain@,
            r@.1 == owning_identity_id.id@,
            exists|b: Seq<u8>| b.len() == 16 && r@.2 == base64_url_nopad(b),
            r@.2.len() == 22,
            url_safe_text(r@.2),
    {
        DeviceId {
            domain: owning_identity_id.domain.clone(),
            owning_identity_id: owning_identity_id.id.clone(),
            id: Id::new(),
        }
    }

    /// The device of the user whose identifier is written from `bytes`.
    pub fn new_random(bytes: [u8; 16], owning_identity_id: &UserId) -> (r: Self)
        ensures
            r@ == (owning_identity_id.domain@, owning_identity_id.id@, base64_url_nopad(bytes@)),
            r@.2.len() == 22,
            url_safe_text(r@.2),
    {
        DeviceId {
            domain: owning_identity_id.domain.clone(),
            owning_identity_id: owning_identity_id.id.clone(),
            id: Id::new_random(bytes),
        }
    }

    /// The device `id` of the user.
    pub fn new_deterministic(owning_identity_id: &UserId, id: Id) -> (r: Self)
        ensures
            r@ == (owning_identity_id.domain@, owning_identity_id.id@, id@),
    {
        DeviceId { domain: owning_identity_id.domain.clone(), owning_identity_id: owning_identity_id.id.clone(), id }
    }

    /// The user owning the device.
    pub fn owning_identity_id(&self) -> (r: UserIdRef<'_>)
        ensures
            r.domain@ == self@.0,
            r.id@ == self@.1,
    {
        UserIdRef { domain: self.domain.as_ref(), id: self.owning_identity_id.as_ref() }
    }

    /// The device's own identifier.
    pub fn id(&self) -> (r: &str)
        ensures
            r@ == self@.2,
    {
        self.id.as_str()
    }

    /// `mimi://{domain}/u/{user}/d/{device}`.
    pub fn to_string(&self) -> (r: String)
        ensures
            r@ == device_uri(self@.0, self@.1, self@.2),
    {
        write_device_uri(self.domain.as_str(), self.owning_identity_id.as_str(), self.id.as_str())
    }

    /// Reads a device's URI.
    pub fn from_str(s: &str) -> (r: Result<Self, ProtonMeetIdError>)
        ensures
            match uri_ref_parse(s@) {
                None => r matches Err(ProtonMeetIdError::InvalidUri(_)),
                Some((host, path)) => match device_id_parts(host, path) {
                    Ok(v) => r matches Ok(d) && d@ == v,
                    Err(e) => r == Err::<Self, ProtonMeetIdError>(e),
                },
            },
            forall|d: Seq<char>, u: Seq<char>, i: Seq<char>|
                #![trigger device_uri(d, u, i)]
                s@ == device_uri(d, u, i) && is_reg_name(d) && u.len() > 0 && i.len() > 0 && unreserved_text(u)
                    && unreserved_text(i) ==> (r matches Ok(x) && x@ == (d, u, i)),
    {
        match DeviceIdRef::try_from(s) {
            Ok(d) => Ok(d.as_owned()),
            Err(e) => Err(e),
        }
    }
}

/// A borrowed device.
#[derive(Clone, Debug, PartialEq, Eq, PartialOrd, Ord, Hash)]
pub struct DeviceIdRef<'a> {
    domain: DomainRef<'a>,
    owning_identity_id: IdRef<'a>,
    id: IdRef<'a>,
}

impl<'a> View for DeviceIdRef<'a> {
    type V = (Seq<char>, Seq<char>, Seq<char>);

    closed spec fn view(&self) -> (Seq<char>, Seq<char>, Seq<char>) {
        (self.domain@, self.owning_identity_id@, self.id@)
    }
}

impl<'a> DeviceIdRef<'a> {
    /// The user owning the device.
    pub fn owning_identity_id(&self) -> (r: UserIdRef<'a>)
        ensures
            r.domain@ == self@.0,
            r.id@ == self@.1,
    {
        UserIdRef { domain: self.domain, id: self.owning_identity_id }
    }

    /// Reads a device from the host and path of its URI.
    pub fn from_uri_parts(host: Option<&'a str>, path: &'a str) -> (r: Result<Self, ProtonMeetIdError>)
        ensures
            match device_id_parts(
                match host {
                    Some(h) => Some(h@),
                    None => None,
                },
                path@,
            ) {
                Ok(v) => r matches Ok(d) && d@ == v,
                Err(e) => r == Err::<Self, ProtonMeetIdError>(e),
            },
    {
        let host = match host {
            Some(h) => h,
            None => {
                return Err(ProtonMeetIdError::InvalidDeviceId("authority is missing"));
            },
        };
        let domain = match DomainRef::try_from(host) {
            Ok(d) => d,
            Err(e) => {
                return Err(e);
            },
        };
        let segs = match segments_if_absolute(path) {
            Some(v) => v,
            None => {
                return Err(ProtonMeetIdError::InvalidDeviceId("invalid URI"));
            },
        };
        proof {
            lemma_split_slash_nonempty(path@.drop_first());
        }
        let ghost views = str_views(segs@);
        assert(views[0] == segs@[0]@);
        let u = segs[0];
        if u.unicode_len() == 0 {
            return Err(ProtonMeetIdError::InvalidDeviceId("user code is missing"));
        }
        if !is_code(u, 'u') {
            return Err(ProtonMeetIdError::InvalidDeviceId("user code must be 'u'"));
        }
        if segs.len() < 2 {
            return Err(ProtonMeetIdError::InvalidDeviceId("empty user identifier"));
        }
        assert(views[1] == segs@[1]@);
        let owner = segs[1];
        if owner.unicode_len() == 0 {
            return Err(ProtonMeetIdError::InvalidDeviceId("empty user identifier"));
        }
        if segs.len() < 3 {
            return Err(ProtonMeetIdError::InvalidDeviceId("device code is missing"));
        }
        assert(views[2] == segs@[2]@);
        let d = segs[2];
        if d.unicode_len() == 0 {
            return Err(ProtonMeetIdError::InvalidDeviceId("device code is missing"));
        }
        if !is_code(d, 'd') {
            return Err(ProtonMeetIdError::InvalidDeviceId("device code must be 'd'"));
        }
        if segs.len() < 4 {
            return Err(ProtonMeetIdError::InvalidDeviceId("missing identifier"));
        }
        assert(views[3] == segs@[3]@);
        let id = segs[3];
        if id.unicode_len() == 0 {
            return Err(ProtonMeetIdError::InvalidDeviceId("empty identifier"));
        }
        if segs.len() >= 5 {
            assert(views[4] == segs@[4]@);
            if segs[4].unicode_len() != 0 {
                return Err(ProtonMeetIdError::InvalidDeviceId("too many path parts"));
            }
        }
        Ok(DeviceIdRef { domain, owning_identity_id: IdRef::from(owner), id: IdRef::from(id) })
    }

    /// Reads a device's URI.
    pub fn try_from(s: &'a str) -> (r: Result<Self, ProtonMeetIdError>)
        ensures
            match uri_ref_parse(s@) {
                None => r matches Err(ProtonMeetIdError::InvalidUri(_)),
                Some((host, path)) => match device_id_parts(host, path) {
                    Ok(v) => r matches Ok(d) && d@ == v,
                    Err(e) => r == Err::<Self, ProtonMeetIdError>(e),
                },
            },
            forall|d: Seq<char>, u: Seq<char>, i: Seq<char>|
                #![trigger device_uri(d, u, i)]
                s@ == device_uri(d, u, i) && is_reg_name(d) && u.len() > 0 && i.len() > 0 && unreserved_text(u)
                    && unreserved_text(i) ==> (r matches Ok(x) && x@ == (d, u, i)),
    {
        let r = match parse_uri_ref(s) {
            Ok(parts) => Self::from_uri_parts(parts.host, parts.path),
            Err(text) => Err(ProtonMeetIdError::InvalidUri(text)),
        };
        proof {
            assert forall|d: Seq<char>, u: Seq<char>, i: Seq<char>|
                #![trigger device_uri(d, u, i)]
                s@ == device_uri(d, u, i) && is_reg_name(d) && u.len() > 0 && i.len() > 0 && unreserved_text(u)
                    && unreserved_text(i) implies (r matches Ok(x) && x@ == (d, u, i)) by {
                lemma_device_uri_shape(d, u, i);
                lemma_unreserved_no_slash(u);
                lemma_unreserved_no_slash(i);
                lemma_device_id_parts_of_written(d, u, i);
            }
        }
        r
    }

    /// `mimi://{domain}/u/{user}/d/{device}`.
    pub fn to_string(&self) -> (r: String)
        ensures
            r@ == device_uri(self@.0, self@.1, self@.2),
    {
        write_device_uri(self.domain.as_str(), self.owning_identity_id.as_str(), self.id.as_str())
    }
}

impl ByRef for DeviceId {
    type Target<'a> = DeviceIdRef<'a>;

    fn as_ref(&self) -> (r: DeviceIdRef<'_>)
        ensures
            r@ == self@,
    {
        DeviceIdRef {
            domain: self.domain.as_ref(),
            owning_identity_id: self.owning_identity_id.as_ref(),
            id: self.id.as_ref(),
        }
    }
}

impl<'a> AsOwned for DeviceIdRef<'a> {
    type Target = DeviceId;

    fn as_owned(&self) -> (r: DeviceId)
        ensures
            r@ == self@,
    {
        DeviceId {
            domain: self.domain.as_owned(),
            owning_identity_id: self.owning_identity_id.as_owned(),
            id: self.id.as_owned(),
        }
    }
}

impl<'a> Identifier for DeviceIdRef<'a> {
    const URI_PATH_SHORT: &'static str = "d";
}

} // verus!
