//! The MLS values that the validation rules read, held as plain values:
//! codes of proposal, extension and credential types, senders, proposals,
//! group contexts and key packages.
use vstd::prelude::*;
use crate::ratchet_tree::LeafNode;
use crate::suites::UtilError;
use crate::tls::{key_package_fields, key_package_fields_of, leaf_node_keys, leaf_node_source, leaf_node_types};

verus! {

pub const PROPOSAL_ADD: u16 = 0x0001;
pub const PROPOSAL_UPDATE: u16 = 0x0002;
pub const PROPOSAL_REMOVE: u16 = 0x0003;
pub const PROPOSAL_PSK: u16 = 0x0004;
pub const PROPOSAL_REINIT: u16 = 0x0005;
pub const PROPOSAL_EXTERNAL_INIT: u16 = 0x0006;
pub const PROPOSAL_GROUP_CONTEXT_EXTENSIONS: u16 = 0x0007;
pub const PROPOSAL_APP_DATA_UPDATE: u16 = 0x0008;
pub const PROPOSAL_APP_EPHEMERAL: u16 = 0x0009;
pub const PROPOSAL_SELF_REMOVE: u16 = 0x000A;

pub const EXTENSION_REQUIRED_CAPABILITIES: u16 = 0x0003;
pub const EXTENSION_EXTERNAL_SENDERS: u16 = 0x0005;
pub const EXTENSION_APPLICATION_DATA_DICTIONARY: u16 = 0x0006;

/// The protocol version MLS 1.0.
pub const MLS_10: u16 = 0x0001;

/// One of the GREASE values of RFC 9420, which stand for no real type.
pub open spec fn is_grease(v: u16) -> bool {
    v == 0x0A0A || v == 0x1A1A || v == 0x2A2A || v == 0x3A3A || v == 0x4A4A || v == 0x5A5A || v
        == 0x6A6A || v == 0x7A7A || v == 0x8A8A || v == 0x9A9A || v == 0xAAAA || v == 0xBABA || v
        == 0xCACA || v == 0xDADA || v == 0xEAEA
}

pub fn is_grease_value(v: u16) -> (r: bool)
    ensures
        r == is_grease(v),
{
    v == 0x0A0A || v == 0x1A1A || v == 0x2A2A || v == 0x3A3A || v == 0x4A4A || v == 0x5A5A || v
        == 0x6A6A || v == 0x7A7A || v == 0x8A8A || v == 0x9A9A || v == 0xAAAA || v == 0xBABA || v
        == 0xCACA || v == 0xDADA || v == 0xEAEA
}

/// A proposal type defined by RFC 9420 itself.
pub open spec fn is_default_proposal(t: u16) -> bool {
    1 <= t <= 7
}

/// An extension type defined by RFC 9420 itself.
pub open spec fn is_default_extension(t: u16) -> bool {
    1 <= t <= 5
}

/// Committing a proposal of this type requires a path.
pub open spec fn needs_path(t: u16) -> bool {
    t == PROPOSAL_UPDATE || t == PROPOSAL_REMOVE || t == PROPOSAL_EXTERNAL_INIT || t
        == PROPOSAL_GROUP_CONTEXT_EXTENSIONS || t == PROPOSAL_SELF_REMOVE
}

/// External senders may propose this type.
pub open spec fn external_allowed(t: u16) -> bool {
    t == PROPOSAL_ADD || t == PROPOSAL_REMOVE || t == PROPOSAL_PSK || t == PROPOSAL_REINIT || t
        == PROPOSAL_GROUP_CONTEXT_EXTENSIONS || t == PROPOSAL_APP_DATA_UPDATE || t
        == PROPOSAL_APP_EPHEMERAL
}

pub fn is_spec_default_proposal(t: u16) -> (r: bool)
    ensures
        r == is_default_proposal(t),
{
    1 <= t && t <= 7
}

pub fn is_spec_default_extension(t: u16) -> (r: bool)
    ensures
        r == is_default_extension(t),
{
    1 <= t && t <= 5
}

pub fn needs_update_path(t: u16) -> (r: bool)
    ensures
        r == needs_path(t),
{
    t == PROPOSAL_UPDATE || t == PROPOSAL_REMOVE || t == PROPOSAL_EXTERNAL_INIT || t
        == PROPOSAL_GROUP_CONTEXT_EXTENSIONS || t == PROPOSAL_SELF_REMOVE
}

pub fn is_allowed_in_external_proposals(t: u16) -> (r: bool)
    ensures
        r == external_allowed(t),
{
    t == PROPOSAL_ADD || t == PROPOSAL_REMOVE || t == PROPOSAL_PSK || t == PROPOSAL_REINIT || t
        == PROPOSAL_GROUP_CONTEXT_EXTENSIONS || t == PROPOSAL_APP_DATA_UPDATE || t
        == PROPOSAL_APP_EPHEMERAL
}

/// Who sent a message.
#[derive(Debug, Clone, Copy, PartialEq, Eq, Structural)]
pub enum Sender {
    Member(u32),
    External(u32),
    NewMemberProposal,
    NewMemberCommit,
}

/// The extensions of a group context or proposal that the rules read.
pub enum Extension {
    RequiredCapabilities(RequiredCapabilities),
    /// The signature keys of the external senders, in order.
    ExternalSenders(Vec<Vec<u8>>),
    /// The application's data, by component: each component's number and
    /// its encoded data.
    ApplicationData(Vec<(u16, Vec<u8>)>),
    /// Any other extension, by type.
    Other(u16),
}

pub struct RequiredCapabilities {
    pub extension_types: Vec<u16>,
    pub proposal_types: Vec<u16>,
    pub credential_types: Vec<u16>,
}

pub open spec fn extension_type(e: Extension) -> u16 {
    match e {
        Extension::RequiredCapabilities(_) => EXTENSION_REQUIRED_CAPABILITIES,
        Extension::ExternalSenders(_) => EXTENSION_EXTERNAL_SENDERS,
        Extension::ApplicationData(_) => EXTENSION_APPLICATION_DATA_DICTIONARY,
        Extension::Other(t) => t,
    }
}

impl Extension {
    pub fn ext_type(&self) -> (r: u16)
        ensures
            r == extension_type(*self),
    {
        match self {
            Extension::RequiredCapabilities(_) => EXTENSION_REQUIRED_CAPABILITIES,
            Extension::ExternalSenders(_) => EXTENSION_EXTERNAL_SENDERS,
            Extension::ApplicationData(_) => EXTENSION_APPLICATION_DATA_DICTIONARY,
            Extension::Other(t) => *t,
        }
    }
}

/// Some extension of the list has type `t`.
pub open spec fn has_extension(exts: Seq<Extension>, t: u16) -> bool {
    exists|i: int| 0 <= i < exts.len() && extension_type(#[trigger] exts[i]) == t
}

pub fn contains_extension(exts: &Vec<Extension>, t: u16) -> (r: bool)
    ensures
        r == has_extension(exts@, t),
{
    let mut i: usize = 0;
    while i < exts.len()
        invariant
            i <= exts@.len(),
            forall|j: int| 0 <= j < i ==> extension_type(#[trigger] exts@[j]) != t,
        decreases exts@.len() - i,
    {
        if exts[i].ext_type() == t {
            return true;
        }
        i += 1;
    }
    false
}

/// The state of a group the rules check against.
pub struct GroupContext {
    pub version: u16,
    pub cipher_suite: u16,
    pub group_id: Vec<u8>,
    pub extensions: Vec<Extension>,
    /// The whole group context as MLS encodes it: what the signature of a
    /// member's message covers.
    pub encoded: Vec<u8>,
}

/// The first required-capabilities extension at or after position `i`.
pub open spec fn required_caps_from(exts: Seq<Extension>, i: int) -> Option<int>
    decreases exts.len() - i,
{
    if i < 0 || i >= exts.len() {
        None
    } else if exts[i] is RequiredCapabilities {
        Some(i)
    } else {
        required_caps_from(exts, i + 1)
    }
}

/// The first external-senders extension at or after position `i`.
pub open spec fn external_senders_from(exts: Seq<Extension>, i: int) -> Option<int>
    decreases exts.len() - i,
{
    if i < 0 || i >= exts.len() {
        None
    } else if exts[i] is ExternalSenders {
        Some(i)
    } else {
        external_senders_from(exts, i + 1)
    }
}

/// The first application-data extension at or after position `i`.
pub open spec fn app_data_from(exts: Seq<Extension>, i: int) -> Option<int>
    decreases exts.len() - i,
{
    if i < 0 || i >= exts.len() {
        None
    } else if exts[i] is ApplicationData {
        Some(i)
    } else {
        app_data_from(exts, i + 1)
    }
}

/// Lookups in a list of extensions.
pub trait ExtensionsExt {
    fn app_data(&self) -> Option<&Vec<(u16, Vec<u8>)>>;

    fn external_senders(&self) -> Option<&[Vec<u8>]>;
}

impl ExtensionsExt for Vec<Extension> {
    /// The application data of the first application-data extension.
    fn app_data(&self) -> (r: Option<&Vec<(u16, Vec<u8>)>>)
        ensures
            match app_data_from(self@, 0) {
                Some(i) => r matches Some(d) && self@[i] == Extension::ApplicationData(*d),
                None => r is None,
            },
    {
        let mut i: usize = 0;
        while i < self.len()
            invariant
                i <= self@.len(),
                app_data_from(self@, 0) == app_data_from(self@, i as int),
            decreases self@.len() - i,
        {
            if let Extension::ApplicationData(d) = &self[i] {
                return Some(d);
            }
            i += 1;
        }
        None
    }

    /// The external senders of the first external-senders extension.
    fn external_senders(&self) -> (r: Option<&[Vec<u8>]>)
        ensures
            match external_senders_from(self@, 0) {
                Some(i) => r matches Some(v) && self@[i] matches Extension::ExternalSenders(w) && v@ == w@,
                None => r is None,
            },
    {
        let mut i: usize = 0;
        while i < self.len()
            invariant
                i <= self@.len(),
                external_senders_from(self@, 0) == external_senders_from(self@, i as int),
            decreases self@.len() - i,
        {
            if let Extension::ExternalSenders(v) = &self[i] {
                return Some(v.as_slice());
            }
            i += 1;
        }
        None
    }
}

impl GroupContext {
    /// The first required-capabilities extension, if any.
    pub fn required_capabilities(&self) -> (r: Option<&RequiredCapabilities>)
        ensures
            match required_caps_from(self.extensions@, 0) {
                Some(i) => r matches Some(c) && self.extensions@[i] == Extension::RequiredCapabilities(*c),
                None => r is None,
            },
    {
        let mut i: usize = 0;
        while i < self.extensions.len()
            invariant
                i <= self.extensions@.len(),
                required_caps_from(self.extensions@, 0) == required_caps_from(self.extensions@, i as int),
            decreases self.extensions@.len() - i,
        {
            if let Extension::RequiredCapabilities(c) = &self.extensions[i] {
                return Some(c);
            }
            i += 1;
        }
        None
    }

    /// The signature keys of the external senders: those of the first
    /// external-senders extension, or none.
    pub fn external_senders(&self) -> (r: &[Vec<u8>])
        ensures
            match external_senders_from(self.extensions@, 0) {
                Some(i) => self.extensions@[i] matches Extension::ExternalSenders(v) && r@ == v@,
                None => r@.len() == 0,
            },
    {
        let mut i: usize = 0;
        while i < self.extensions.len()
            invariant
                i <= self.extensions@.len(),
                external_senders_from(self.extensions@, 0) == external_senders_from(
                    self.extensions@,
                    i as int,
                ),
            decreases self.extensions@.len() - i,
        {
            if let Extension::ExternalSenders(v) = &self.extensions[i] {
                return v.as_slice();
            }
            i += 1;
        }
        &[]
    }
}

/// A key package, as far as the rules read it.
pub struct KeyPackage {
    pub version: u16,
    pub cipher_suite: u16,
    pub init_key: Vec<u8>,
    pub leaf_node: LeafNode,
    /// The whole key package as MLS encodes it: what its signature and the
    /// signature covers are read from.
    pub encoded: Vec<u8>,
}

impl KeyPackage {
    /// The fields hold what the package's encoding holds, and so does its
    /// leaf node of its own.
    pub open spec fn agrees_with_encoding(&self) -> bool {
        &&& key_package_fields(self.encoded@) == Some(
            (self.version, self.cipher_suite, self.init_key@, self.leaf_node.encoded@),
        )
        &&& self.leaf_node.agrees_with_encoding()
    }

    /// Reads a key package from its MLS encoding: the fields the rules read,
    /// its leaf node, and the encoding itself. Fails where the bytes do not
    /// read as a key package.
    pub fn from_encoded(encoded: &[u8]) -> (r: Result<KeyPackage, UtilError>)
        ensures
            r matches Ok(k) ==> k.agrees_with_encoding() && k.encoded@ == encoded@,
            r is Ok <==> (key_package_fields(encoded@) matches Some((_, _, _, l)) && leaf_node_keys(l) is Some
                && leaf_node_types(l) is Some && leaf_node_source(l) is Some),
            r matches Err(e) ==> e is MlsSpecError,
    {
        let (version, cipher_suite, init_key, leaf) = match key_package_fields_of(encoded) {
            Ok(f) => f,
            Err(e) => {
                return Err(UtilError::MlsSpecError(e));
            },
        };
        let leaf_node = match LeafNode::from_encoded(leaf.as_slice()) {
            Ok(l) => l,
            Err(e) => {
                return Err(e);
            },
        };
        Ok(KeyPackage { version, cipher_suite, init_key, leaf_node, encoded: vstd::slice::slice_to_vec(encoded) })
    }
}

/// The path of a commit, as far as the rules read it: its new leaf.
pub struct UpdatePath {
    pub leaf_node: LeafNode,
}

/// A proposal, with what the rules read of it.
pub enum Proposal {
    Add { key_package: KeyPackage },
    Update { leaf_node: LeafNode },
    Remove { removed: u32 },
    /// The identifier of the pre-shared key, in its TLS encoding.
    PreSharedKey { psk: Vec<u8> },
    ReInit,
    ExternalInit,
    GroupContextExtensions { extensions: Vec<Extension> },
    AppDataUpdate,
    AppEphemeral,
    SelfRemove,
}

pub open spec fn type_of(p: Proposal) -> u16 {
    match p {
        Proposal::Add { .. } => PROPOSAL_ADD,
        Proposal::Update { .. } => PROPOSAL_UPDATE,
        Proposal::Remove { .. } => PROPOSAL_REMOVE,
        Proposal::PreSharedKey { .. } => PROPOSAL_PSK,
        Proposal::ReInit => PROPOSAL_REINIT,
        Proposal::ExternalInit => PROPOSAL_EXTERNAL_INIT,
        Proposal::GroupContextExtensions { .. } => PROPOSAL_GROUP_CONTEXT_EXTENSIONS,
        Proposal::AppDataUpdate => PROPOSAL_APP_DATA_UPDATE,
        Proposal::AppEphemeral => PROPOSAL_APP_EPHEMERAL,
        Proposal::SelfRemove => PROPOSAL_SELF_REMOVE,
    }
}

impl Proposal {
    pub fn proposal_type(&self) -> (r: u16)
        ensures
            r == type_of(*self),
    {
        match self {
            Proposal::Add { .. } => PROPOSAL_ADD,
            Proposal::Update { .. } => PROPOSAL_UPDATE,
            Proposal::Remove { .. } => PROPOSAL_REMOVE,
            Proposal::PreSharedKey { .. } => PROPOSAL_PSK,
            Proposal::ReInit => PROPOSAL_REINIT,
            Proposal::ExternalInit => PROPOSAL_EXTERNAL_INIT,
            Proposal::GroupContextExtensions { .. } => PROPOSAL_GROUP_CONTEXT_EXTENSIONS,
            Proposal::AppDataUpdate => PROPOSAL_APP_DATA_UPDATE,
            Proposal::AppEphemeral => PROPOSAL_APP_EPHEMERAL,
            Proposal::SelfRemove => PROPOSAL_SELF_REMOVE,
        }
    }
}

/// An MLS message, as far as the group and epoch it belongs to go.
pub enum MlsMessage {
    PublicMessage { group_id: Vec<u8>, epoch: u64 },
    PrivateMessage { group_id: Vec<u8>, epoch: u64 },
    GroupInfo { group_id: Vec<u8>, epoch: u64 },
    SemiPrivateMessage { group_id: Vec<u8>, epoch: u64 },
    Welcome,
    KeyPackage,
}

/// The group and epoch a message belongs to; a welcome and a key package
/// belong to none.
pub fn extract_group_id_epoch_from_mls_message(message: &MlsMessage) -> (r: Option<(&[u8], &u64)>)
    ensures
        match message {
            MlsMessage::PublicMessage { group_id, epoch } => r matches Some((g, e)) && g@ == group_id@ && *e
                == *epoch,
            MlsMessage::PrivateMessage { group_id, epoch } => r matches Some((g, e)) && g@ == group_id@ && *e
                == *epoch,
            MlsMessage::GroupInfo { group_id, epoch } => r matches Some((g, e)) && g@ == group_id@ && *e == *epoch,
            MlsMessage::SemiPrivateMessage { group_id, epoch } => r matches Some((g, e)) && g@ == group_id@
                && *e == *epoch,
            MlsMessage::Welcome | MlsMessage::KeyPackage => r is None,
        },
{
    match message {
        MlsMessage::PublicMessage { group_id, epoch } => Some((group_id.as_slice(), epoch)),
        MlsMessage::PrivateMessage { group_id, epoch } => Some((group_id.as_slice(), epoch)),
        MlsMessage::GroupInfo { group_id, epoch } => Some((group_id.as_slice(), epoch)),
        MlsMessage::SemiPrivateMessage { group_id, epoch } => Some((group_id.as_slice(), epoch)),
        MlsMessage::Welcome | MlsMessage::KeyPackage => None,
    }
}

} // verus!
