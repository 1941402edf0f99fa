//! What can go wrong when reading an identifier.
use vstd::prelude::*;

verus! {

#[verifier::external_type_specification]
#[verifier::external_body]
pub struct ExEmailAddressError(email_address::Error);

#[derive(Debug)]
pub enum ProtonMeetIdError {
    RandError(String),
    Utf8Error,
    UlidDecodeError,
    Base64DecodeError,
    InvalidUri(String),
    InvalidProtonUserId(&'static str),
    InvalidOrgId(&'static str),
    InvalidSpaceId(&'static str),
    InvalidUserId(&'static str),
    InvalidDeviceId(&'static str),
    InvalidProviderId(&'static str),
    InvalidCommitId(&'static str),
    InvalidAppMsgId(&'static str),
    InvalidRoomId(&'static str),
    InvalidMessageId(&'static str),
    InvalidTopicId(&'static str),
    InvalidEpoch(&'static str),
    InvalidGeneration(&'static str),
    InvalidLeafIndex(&'static str),
    InvalidEmail(String),
    EmailAddressError(email_address::Error),
    ImplementationError(&'static str),
    UnimplementedError(&'static str),
}

pub type ProtonMeetIdResult<T> = Result<T, ProtonMeetIdError>;

} // verus!
