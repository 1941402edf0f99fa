//! Room-level rules over MLS: who counts as an external sender, why a commit
//! is refused, and components that stay readable across versions.
use vstd::prelude::*;
use std::collections::BTreeMap;
use vstd::std_specs::iter::IteratorSpec;
use vstd::std_specs::cmp::OrdSpec;
use crate::mls::Sender;
use crate::ratchet_tree::RatchetTree;
use crate::tree_index::TreeLeafIndex;
use crate::tree_reader::{RatchetTreeReader, leaf_at};
use crate::tls::{vl_bytes, field_entries_bytes, field_entries_fit, field_entries_encoding};

verus! {

broadcast use vstd::std_specs::btree::group_btree_axioms;

/// Every component identifier the application uses, whoever defines it,
/// so that no two collide.
#[derive(Debug, Clone, Copy, PartialEq, Eq, Structural)]
pub enum MeetComponentId {
    /// From mls-extensions.
    AppComponents,
    SafeAad,
    ContentMediaTypes,
    LastResortKeyPackage,
    AppAck,
    /// From the post-quantum combiner.
    HpqMlsInfo,
    /// From associated parties.
    AssociatedParties,
    /// From semi-private messages.
    ExternalReceivers,
    /// From the MIMI protocol.
    FrankAad,
    FrankingSignatureKey,
    ParticipantList,
    RoomMetadata,
    /// From MIMI room policy.
    MlsOperationalPolicy,
    RoleList,
    PreAuthList,
    PreAuthListTmp,
    BaseRoomPolicy,
    StatusNotificationPolicy,
    LinkPreviewPolicy,
    AssetPolicy,
    LoggingPolicy,
    MeetHistoryPolicy,
    BotPolicy,
    MessageExpirationPolicy,
    /// From message identifiers in the additional data.
    MessageIdAad,
}

/// The number of a component.
pub open spec fn component_code(c: MeetComponentId) -> u16 {
    match c {
        MeetComponentId::AppComponents => 0x0001,
        MeetComponentId::SafeAad => 0x0002,
        MeetComponentId::ContentMediaTypes => 0x0003,
        MeetComponentId::LastResortKeyPackage => 0x0004,
        MeetComponentId::AppAck => 0x0005,
        MeetComponentId::HpqMlsInfo => 0x0006,
        MeetComponentId::AssociatedParties => 0x0007,
        MeetComponentId::ExternalReceivers => 0x0008,
        MeetComponentId::FrankAad => 0x0020,
        MeetComponentId::FrankingSignatureKey => 0x0021,
        MeetComponentId::ParticipantList => 0x0022,
        MeetComponentId::RoomMetadata => 0x0023,
        MeetComponentId::MlsOperationalPolicy => 0x0024,
        MeetComponentId::RoleList => 0x0025,
        MeetComponentId::PreAuthList => 0x0026,
        MeetComponentId::PreAuthListTmp => 0xFE26,
        MeetComponentId::BaseRoomPolicy => 0x0027,
        MeetComponentId::StatusNotificationPolicy => 0x0028,
        MeetComponentId::LinkPreviewPolicy => 0x002B,
        MeetComponentId::AssetPolicy => 0x002C,
        MeetComponentId::LoggingPolicy => 0x002D,
        MeetComponentId::MeetHistoryPolicy => 0x002E,
        MeetComponentId::BotPolicy => 0x002F,
        MeetComponentId::MessageExpirationPolicy => 0x0030,
        MeetComponentId::MessageIdAad => 0x0040,
    }
}

/// The component a number names, if any.
pub open spec fn component_of(v: u16) -> Option<MeetComponentId> {
    match v {
        0x0001 => Some(MeetComponentId::AppComponents),
        0x0002 => Some(MeetComponentId::SafeAad),
        0x0003 => Some(MeetComponentId::ContentMediaTypes),
        0x0004 => Some(MeetComponentId::LastResortKeyPackage),
        0x0005 => Some(MeetComponentId::AppAck),
        0x0006 => Some(MeetComponentId::HpqMlsInfo),
        0x0007 => Some(MeetComponentId::AssociatedParties),
        0x0008 => Some(MeetComponentId::ExternalReceivers),
        0x0020 => Some(MeetComponentId::FrankAad),
        0x0021 => Some(MeetComponentId::FrankingSignatureKey),
        0x0022 => Some(MeetComponentId::ParticipantList),
        0x0023 => Some(MeetComponentId::RoomMetadata),
        0x0024 => Some(MeetComponentId::MlsOperationalPolicy),
        0x0025 => Some(MeetComponentId::RoleList),
        0x0026 => Some(MeetComponentId::PreAuthList),
        0xFE26 => Some(MeetComponentId::PreAuthListTmp),
        0x0027 => Some(MeetComponentId::BaseRoomPolicy),
        0x0028 => Some(MeetComponentId::StatusNotificationPolicy),
        0x002B => Some(MeetComponentId::LinkPreviewPolicy),
        0x002C => Some(MeetComponentId::AssetPolicy),
        0x002D => Some(MeetComponentId::LoggingPolicy),
        0x002E => Some(MeetComponentId::MeetHistoryPolicy),
        0x002F => Some(MeetComponentId::BotPolicy),
        0x0030 => Some(MeetComponentId::MessageExpirationPolicy),
        0x0040 => Some(MeetComponentId::MessageIdAad),
        _ => None,
    }
}

/// Every component, in declaration order.
pub open spec fn all_components() -> Seq<MeetComponentId> {
    seq![

        MeetComponentId::AppComponents,
        MeetComponentId::SafeAad,
        MeetComponentId::ContentMediaTypes,
        MeetComponentId::LastResortKeyPackage,
        MeetComponentId::AppAck,
        MeetComponentId::HpqMlsInfo,
        MeetComponentId::AssociatedParties,
        MeetComponentId::ExternalReceivers,
        MeetComponentId::FrankAad,
        MeetComponentId::FrankingSignatureKey,
        MeetComponentId::ParticipantList,
        MeetComponentId::RoomMetadata,
        MeetComponentId::MlsOperationalPolicy,
        MeetComponentId::RoleList,
        MeetComponentId::PreAuthList,
        MeetComponentId::PreAuthListTmp,
        MeetComponentId::BaseRoomPolicy,
        MeetComponentId::StatusNotificationPolicy,
        MeetComponentId::LinkPreviewPolicy,
        MeetComponentId::AssetPolicy,
        MeetComponentId::LoggingPolicy,
        MeetComponentId::MeetHistoryPolicy,
        MeetComponentId::BotPolicy,
        MeetComponentId::MessageExpirationPolicy,
        MeetComponentId::MessageIdAad,
    ]
}

impl MeetComponentId {
    /// The component's number.
    pub fn code(&self) -> (r: u16)
        ensures
            r == component_code(*self),
    {
        match self {
            MeetComponentId::AppComponents => 0x0001,
            MeetComponentId::SafeAad => 0x0002,
            MeetComponentId::ContentMediaTypes => 0x0003,
            MeetComponentId::LastResortKeyPackage => 0x0004,
            MeetComponentId::AppAck => 0x0005,
            MeetComponentId::HpqMlsInfo => 0x0006,
            MeetComponentId::AssociatedParties => 0x0007,
            MeetComponentId::ExternalReceivers => 0x0008,
            MeetComponentId::FrankAad => 0x0020,
            MeetComponentId::FrankingSignatureKey => 0x0021,
            MeetComponentId::ParticipantList => 0x0022,
            MeetComponentId::RoomMetadata => 0x0023,
            MeetComponentId::MlsOperationalPolicy => 0x0024,
            MeetComponentId::RoleList => 0x0025,
            MeetComponentId::PreAuthList => 0x0026,
            MeetComponentId::PreAuthListTmp => 0xFE26,
            MeetComponentId::BaseRoomPolicy => 0x0027,
            MeetComponentId::StatusNotificationPolicy => 0x0028,
            MeetComponentId::LinkPreviewPolicy => 0x002B,
            MeetComponentId::AssetPolicy => 0x002C,
            MeetComponentId::LoggingPolicy => 0x002D,
            MeetComponentId::MeetHistoryPolicy => 0x002E,
            MeetComponentId::BotPolicy => 0x002F,
            MeetComponentId::MessageExpirationPolicy => 0x0030,
            MeetComponentId::MessageIdAad => 0x0040,
        }
    }

    /// The component a number names, if any.
    pub fn from_code(v: u16) -> (r: Option<Self>)
        ensures
            r == component_of(v),
    {
        match v {
            0x0001 => Some(MeetComponentId::AppComponents),
            0x0002 => Some(MeetComponentId::SafeAad),
            0x0003 => Some(MeetComponentId::ContentMediaTypes),
            0x0004 => Some(MeetComponentId::LastResortKeyPackage),
            0x0005 => Some(MeetComponentId::AppAck),
            0x0006 => Some(MeetComponentId::HpqMlsInfo),
            0x0007 => Some(MeetComponentId::AssociatedParties),
            0x0008 => Some(MeetComponentId::ExternalReceivers),
            0x0020 => Some(MeetComponentId::FrankAad),
            0x0021 => Some(MeetComponentId::FrankingSignatureKey),
            0x0022 => Some(MeetComponentId::ParticipantList),
            0x0023 => Some(MeetComponentId::RoomMetadata),
            0x0024 => Some(MeetComponentId::MlsOperationalPolicy),
            0x0025 => Some(MeetComponentId::RoleList),
            0x0026 => Some(MeetComponentId::PreAuthList),
            0xFE26 => Some(MeetComponentId::PreAuthListTmp),
            0x0027 => Some(MeetComponentId::BaseRoomPolicy),
            0x0028 => Some(MeetComponentId::StatusNotificationPolicy),
            0x002B => Some(MeetComponentId::LinkPreviewPolicy),
            0x002C => Some(MeetComponentId::AssetPolicy),
            0x002D => Some(MeetComponentId::LoggingPolicy),
            0x002E => Some(MeetComponentId::MeetHistoryPolicy),
            0x002F => Some(MeetComponentId::BotPolicy),
            0x0030 => Some(MeetComponentId::MessageExpirationPolicy),
            0x0040 => Some(MeetComponentId::MessageIdAad),
            _ => None,
        }
    }

    /// Every component, in declaration order.
    pub fn all() -> (r: Vec<Self>)
        ensures
            r@ == all_components(),
    {
        vec![
            MeetComponentId::AppComponents,
            MeetComponentId::SafeAad,
            MeetComponentId::ContentMediaTypes,
            MeetComponentId::LastResortKeyPackage,
            MeetComponentId::AppAck,
            MeetComponentId::HpqMlsInfo,
            MeetComponentId::AssociatedParties,
            MeetComponentId::ExternalReceivers,
            MeetComponentId::FrankAad,
            MeetComponentId::FrankingSignatureKey,
            MeetComponentId::ParticipantList,
            MeetComponentId::RoomMetadata,
            MeetComponentId::MlsOperationalPolicy,
            MeetComponentId::RoleList,
            MeetComponentId::PreAuthList,
            MeetComponentId::PreAuthListTmp,
            MeetComponentId::BaseRoomPolicy,
            MeetComponentId::StatusNotificationPolicy,
            MeetComponentId::LinkPreviewPolicy,
            MeetComponentId::AssetPolicy,
            MeetComponentId::LoggingPolicy,
            MeetComponentId::MeetHistoryPolicy,
            MeetComponentId::BotPolicy,
            MeetComponentId::MessageExpirationPolicy,
            MeetComponentId::MessageIdAad,
        ]
    }
}

/// Each component's number names it back.
pub proof fn lemma_component_code_round_trip(c: MeetComponentId)
    ensures
        component_of(component_code(c)) == Some(c),
{
}

/// The credentials of the members of a tree.
pub trait RatchetTreeExt {
    fn credential_at_index(&self, idx: TreeLeafIndex) -> Option<&Vec<u8>>
        requires
            idx.0 as nat * 2 <= usize::MAX,
    ;
}

impl RatchetTreeExt for RatchetTree {
    /// The credential of the member at a leaf, if the leaf is not blank.
    fn credential_at_index(&self, idx: TreeLeafIndex) -> (r: Option<&Vec<u8>>)
        ensures
            match leaf_at(self@, idx.0 * 2) {
                Some(l) => r matches Some(c) && c@ == l.credential,
                None => r is None,
            },
    {
        let reader = RatchetTreeReader::new(self);
        match reader.find_leafnode_at_idx(idx) {
            Some(leaf) => Some(&leaf.credential),
            None => None,
        }
    }
}

/// Kinds of sender.
pub trait SenderExt {
    fn is_external(&self) -> bool;

    fn is_external_proposal(&self) -> bool;

    fn is_external_commit(&self) -> bool;
}

impl SenderExt for Sender {
    /// Anyone but a member.
    fn is_external(&self) -> (r: bool)
        ensures
            r == !(*self is Member),
    {
        match self {
            Sender::Member(_) => false,
            Sender::External(_) | Sender::NewMemberCommit | Sender::NewMemberProposal => true,
        }
    }

    /// An external sender or a joiner proposing to be added.
    fn is_external_proposal(&self) -> (r: bool)
        ensures
            r == (*self is External || *self is NewMemberProposal),
    {
        match self {
            Sender::External(_) | Sender::NewMemberProposal => true,
            Sender::Member(_) | Sender::NewMemberCommit => false,
        }
    }

    /// A joiner committing its own addition.
    fn is_external_commit(&self) -> (r: bool)
        ensures
            r == (*self is NewMemberCommit),
    {
        match self {
            Sender::NewMemberCommit => true,
            Sender::Member(_) | Sender::External(_) | Sender::NewMemberProposal => false,
        }
    }
}

/// Why a commit was refused.
#[derive(Debug, Clone, Copy, PartialEq, Eq, Structural)]
pub enum CommitRejectionReason {
    /// It contains an invalid proposal.
    InvalidProposal,
    /// It references unknown proposals.
    UnknownProposalsReferenced,
    /// It violates permissions or policies.
    PolicyViolation,
    /// It removes an unknown leaf index.
    RemovedUnknownLeafNode,
    /// It removes its own leaf index in a commit.
    RemovedSelf,
    /// It references a key package twice.
    DuplicateKeyPackageRef,
    /// Only the same device can replace itself in a group.
    InvalidReplace,
    /// Its `confirmed_transcript_hash` is invalid.
    InvalidConfirmedTranscriptHash,
    /// It is missing the epoch 0 GroupInfo in the SafeAAD.
    MissingAadEpoch0GroupInfo,
}

/// The fields of a component, each serialized, by field number: a
/// component that clients of different versions hash alike, whatever fields
/// they know.
#[derive(Debug, Clone, PartialEq, Eq, PartialOrd, Ord)]
pub struct CompatibleComponent(pub BTreeMap<u8, Vec<u8>>);

impl CompatibleComponent {
    /// The fields, by number, as bytes.
    pub open spec fn fields(&self) -> Map<u8, Seq<u8>> {
        self.0@.map_values(|v: Vec<u8>| v@)
    }

    /// A component with no field.
    pub fn empty() -> (r: Self)
        ensures
            r.fields() == Map::<u8, Seq<u8>>::empty(),
    {
        let r = CompatibleComponent(BTreeMap::new());
        assert(r.fields() =~= Map::<u8, Seq<u8>>::empty());
        r
    }

    /// The serialized value of field `key`, if set.
    pub fn get_field(&self, key: u8) -> (r: Option<&Vec<u8>>)
        ensures
            match r {
                Some(v) => self.fields().contains_key(key) && self.fields()[key] == v@,
                None => !self.fields().contains_key(key),
            },
    {
        self.0.get(&key)
    }

    /// Sets the serialized value of field `key`, and hands back the one it
    /// replaces.
    pub fn set_field(&mut self, key: u8, value: Vec<u8>) -> (r: Option<Vec<u8>>)
        ensures
            final(self).fields() == old(self).fields().insert(key, value@),
            match r {
                Some(v) => old(self).fields().contains_key(key) && old(self).fields()[key] == v@,
                None => !old(self).fields().contains_key(key),
            },
    {
        let ghost before = self.fields();
        let ghost v = value@;
        let r = self.0.insert(key, value);
        assert(self.fields() =~= before.insert(key, v));
        r
    }

    /// The fields in increasing order of their numbers: the order they are
    /// encoded in, whatever order they were set in.
    pub fn entries(&self) -> (r: Vec<(u8, Vec<u8>)>)
        ensures
            entries_in_order(r@),
            entries_map(r@) == self.fields(),
    {
        let ghost m = self.0@;
        let mut out: Vec<(u8, Vec<u8>)> = Vec::new();
        proof {
            broadcast use vstd::laws_cmp::group_laws_cmp;
            assert(vstd::std_specs::btree::key_obeys_cmp_spec::<u8>());
        }
        let iter = self.0.iter();
        let ghost items = iter.remaining();
        for kv in it: iter
            invariant
                it.seq() == items,
                out@.len() == it.index(),
                forall|j: int| 0 <= j < it.index() ==> (#[trigger] out@[j]).0 == *items[j].0 && out@[j].1@ == (*items[j].1)@,
        {
            let (k, v) = kv;
            out.push((*k, v.clone()));
        }
        proof {
            broadcast use vstd::laws_cmp::group_laws_cmp;
            let keys = items.map_values(|kv: (&u8, &Vec<u8>)| *kv.0);
            assert(vstd::std_specs::btree::increasing_seq(keys));
            assert forall|i: int, j: int| 0 <= i < j < out@.len() implies out@[i].0 < out@[j].0 by {
                assert(keys[i] == out@[i].0);
                assert(keys[j] == out@[j].0);
                assert(keys[i].cmp_spec(&keys[j]) is Less);
            }
            lemma_entries_map_ordered(out@);
            let f = self.fields();
            assert forall|k: u8| #[trigger] f.contains_key(k) == entries_map(out@).contains_key(k) by {
                if f.contains_key(k) {
                    assert(m.contains_key(k));
                    assert(items.contains((&k, &m[k])));
                    let i = choose|i: int| 0 <= i < items.len() && items[i] == (&k, &m[k]);
                    assert(out@[i].0 == k);
                }
                if entries_map(out@).contains_key(k) {
                    let i = choose|i: int| 0 <= i < out@.len() && out@[i].0 == k;
                    assert(*items[i].0 == k);
                    assert(m.contains_key(*items[i].0));
                }
            }
            assert forall|k: u8| #[trigger] f.contains_key(k) implies f[k] == entries_map(out@)[k] by {
                let i = choose|i: int| 0 <= i < out@.len() && out@[i].0 == k;
                assert(m.contains_key(*items[i].0) && m[*items[i].0] == *items[i].1);
            }
            assert(entries_map(out@) =~= f);
        }
        out
    }

    /// The component as MLS encodes it: its fields in increasing order of
    /// their numbers, each a number byte then its value as a variable-length
    /// vector, all of it one variable-length vector. The bytes depend on the
    /// fields alone, not on the order they were set in.
    pub fn tls_serialize(&self) -> (r: Vec<u8>)
        requires
            component_fits(self.fields()),
        ensures
            r@ == component_encoding(self.fields()),
    {
        let e = self.entries();
        proof {
            let f = self.fields();
            lemma_ordered_entries_unique(e@, ordered_entries(f));
        }
        match field_entries_encoding(e.as_slice()) {
            Ok(b) => b,
            Err(_) => {
                assert(false);
                Vec::new()
            },
        }
    }

    /// The length of the component's encoding.
    pub fn tls_serialized_len(&self) -> (r: usize)
        requires
            component_fits(self.fields()),
        ensures
            r == component_encoding(self.fields()).len(),
    {
        self.tls_serialize().len()
    }

    /// A component from its fields as read off the wire, a later value of a
    /// field replacing an earlier one.
    pub fn from_entries(entries: Vec<(u8, Vec<u8>)>) -> (r: Self)
        ensures
            r.fields() == entries_map(entries@),
    {
        let mut acc = CompatibleComponent::empty();
        let mut rest = entries;
        let ghost all = rest@;
        let n = rest.len();
        let mut entries_rev: Vec<(u8, Vec<u8>)> = Vec::new();
        while rest.len() > 0
            invariant
                rest@.len() + entries_rev@.len() == all.len(),
                rest@ == all.take(rest@.len() as int),
                forall|j: int| 0 <= j < entries_rev@.len() ==> #[trigger] entries_rev@[j] == all[all.len() - 1 - j],
            decreases rest@.len(),
        {
            let e = rest.pop().unwrap();
            entries_rev.push(e);
        }
        assert(all.len() == n);
        while entries_rev.len() > 0
            invariant
                entries_rev@.len() <= all.len(),
                forall|j: int| 0 <= j < entries_rev@.len() ==> #[trigger] entries_rev@[j] == all[all.len() - 1 - j],
                acc.fields() == entries_map(all.take(all.len() - entries_rev@.len())),
            decreases entries_rev@.len(),
        {
            let ghost k = all.len() - entries_rev@.len();
            let (key, value) = entries_rev.pop().unwrap();
            assert(all.take(k + 1).drop_last() =~= all.take(k));
            acc.set_field(key, value);
        }
        assert(all.take(all.len() as int) =~= all);
        acc
    }
}

/// The entries come in strictly increasing order of their field numbers.
pub open spec fn entries_in_order(e: Seq<(u8, Vec<u8>)>) -> bool {
    forall|i: int, j: int| 0 <= i < j < e.len() ==> e[i].0 < e[j].0
}

/// The fields that a list of entries sets, a later entry for a field
/// winning.
pub open spec fn entries_map(e: Seq<(u8, Vec<u8>)>) -> Map<u8, Seq<u8>>
    decreases e.len(),
{
    if e.len() == 0 {
        Map::empty()
    } else {
        entries_map(e.drop_last()).insert(e.last().0, e.last().1@)
    }
}

/// The entries of the fields `f` in increasing order of their numbers
/// (there is exactly one such list).
pub open spec fn ordered_entries(f: Map<u8, Seq<u8>>) -> Seq<(u8, Vec<u8>)> {
    choose|e: Seq<(u8, Vec<u8>)>| entries_in_order(e) && entries_map(e) == f
}

/// The encoding of a component with the fields `f`.
pub open spec fn component_encoding(f: Map<u8, Seq<u8>>) -> Seq<u8> {
    vl_bytes(field_entries_bytes(ordered_entries(f)))
}

/// The fields `f` fit the encoding: each value, and all of them together,
/// within an MLS variable-length vector.
pub open spec fn component_fits(f: Map<u8, Seq<u8>>) -> bool {
    field_entries_fit(ordered_entries(f))
}

/// Dropping the last of entries in order drops its field.
proof fn lemma_entries_map_drop_last(e: Seq<(u8, Vec<u8>)>)
    requires
        entries_in_order(e),
        e.len() > 0,
    ensures
        entries_map(e.drop_last()) == entries_map(e).remove(e.last().0),
        forall|k: u8| entries_map(e).contains_key(k) ==> k <= e.last().0,
{
    let d = e.drop_last();
    assert(entries_in_order(d));
    lemma_entries_map_ordered(d);
    lemma_entries_map_ordered(e);
    assert(!entries_map(d).contains_key(e.last().0)) by {
        if entries_map(d).contains_key(e.last().0) {
            let i = choose|i: int| 0 <= i < d.len() && d[i].0 == e.last().0;
            assert(e[i].0 < e[e.len() - 1].0);
        }
    }
    assert(entries_map(d) =~= entries_map(e).remove(e.last().0));
    assert forall|k: u8| entries_map(e).contains_key(k) implies k <= e.last().0 by {
        let i = choose|i: int| 0 <= i < e.len() && e[i].0 == k;
        if i < e.len() - 1 {
            assert(e[i].0 < e[e.len() - 1].0);
        }
    }
}

/// Two lists of entries in order that set the same fields hold the same
/// numbers and values, and so encode alike.
proof fn lemma_ordered_entries_unique(a: Seq<(u8, Vec<u8>)>, b: Seq<(u8, Vec<u8>)>)
    requires
        entries_in_order(a),
        entries_in_order(b),
        entries_map(a) == entries_map(b),
    ensures
        a.len() == b.len(),
        forall|i: int| 0 <= i < a.len() ==> a[i].0 == b[i].0 && a[i].1@ == b[i].1@,
        field_entries_bytes(a) == field_entries_bytes(b),
        field_entries_fit(a) == field_entries_fit(b),
    decreases a.len() + b.len(),
{
    lemma_entries_map_ordered(a);
    lemma_entries_map_ordered(b);
    if a.len() == 0 && b.len() > 0 {
        assert(entries_map(b).contains_key(b[0].0));
    } else if b.len() == 0 && a.len() > 0 {
        assert(entries_map(a).contains_key(a[0].0));
    } else if a.len() > 0 && b.len() > 0 {
        lemma_entries_map_drop_last(a);
        lemma_entries_map_drop_last(b);
        let ka = a.last().0;
        let kb = b.last().0;
        assert(a[a.len() - 1] == a.last());
        assert(b[b.len() - 1] == b.last());
        assert(entries_map(a).contains_key(ka));
        assert(entries_map(b).contains_key(kb));
        assert(ka <= kb && kb <= ka);
        assert(a.last().1@ == b.last().1@);
        lemma_ordered_entries_unique(a.drop_last(), b.drop_last());
        assert forall|i: int| 0 <= i < a.len() implies a[i].0 == b[i].0 && a[i].1@ == b[i].1@ by {
            if i < a.len() - 1 {
                assert(a.drop_last()[i] == a[i]);
                assert(b.drop_last()[i] == b[i]);
            }
        }
        assert(field_entries_fit(a) == field_entries_fit(b)) by {
            if field_entries_fit(a) {
                assert forall|i: int| 0 <= i < b.len() implies (#[trigger] b[i]).1@.len() <= crate::tls::VL_MAX by {
                    assert(a[i].1@ == b[i].1@);
                }
            }
            if field_entries_fit(b) {
                assert forall|i: int| 0 <= i < a.len() implies (#[trigger] a[i]).1@.len() <= crate::tls::VL_MAX by {
                    assert(a[i].1@ == b[i].1@);
                }
            }
        }
    }
}

/// Entries in order name each field once: each entry's value is its
/// field's value, and every field comes from an entry.
proof fn lemma_entries_map_ordered(e: Seq<(u8, Vec<u8>)>)
    requires
        entries_in_order(e),
    ensures
        forall|i: int|
            0 <= i < e.len() ==> entries_map(e).contains_key(#[trigger] e[i].0) && entries_map(e)[e[i].0]
                == e[i].1@,
        forall|k: u8| entries_map(e).contains_key(k) ==> exists|i: int| 0 <= i < e.len() && e[i].0 == k,
    decreases e.len(),
{
    if e.len() > 0 {
        let d = e.drop_last();
        assert(entries_in_order(d));
        lemma_entries_map_ordered(d);
        assert forall|i: int| 0 <= i < e.len() implies entries_map(e).contains_key(#[trigger] e[i].0)
            && entries_map(e)[e[i].0] == e[i].1@ by {
            if i < e.len() - 1 {
                assert(d[i] == e[i]);
                assert(e[i].0 < e.last().0);
            }
        }
        assert forall|k: u8| entries_map(e).contains_key(k) implies exists|i: int|
            0 <= i < e.len() && e[i].0 == k by {
            if k != e.last().0 {
                assert(entries_map(d).contains_key(k));
                assert(exists|i: int| 0 <= i < d.len() && d[i].0 == k);
                let i = choose|i: int| 0 <= i < d.len() && d[i].0 == k;
                assert(e[i] == d[i]);
            } else {
                assert(e[e.len() - 1].0 == k);
            }
        }
    }
}

/// Setting two different fields in either order gives the same fields, and
/// so the same encoding: what clients hash does not depend on the order in
/// which they set fields.
pub proof fn lemma_set_order_irrelevant(f: Map<u8, Seq<u8>>, x: u8, vx: Seq<u8>, y: u8, vy: Seq<u8>)
    requires
        x != y,
    ensures
        f.insert(x, vx).insert(y, vy) == f.insert(y, vy).insert(x, vx),
        component_encoding(f.insert(x, vx).insert(y, vy)) == component_encoding(f.insert(y, vy).insert(x, vx)),
{
    assert(f.insert(x, vx).insert(y, vy) =~= f.insert(y, vy).insert(x, vx));
}

/// After `set_field(key, value)`, reading `key` gives `value`, and every
/// other field reads as before.
pub proof fn lemma_set_then_get(
    before: CompatibleComponent,
    after: CompatibleComponent,
    key: u8,
    value: Seq<u8>,
    other: u8,
)
    requires
        after.fields() == before.fields().insert(key, value),
        other != key,
    ensures
        after.fields().contains_key(key) && after.fields()[key] == value,
        after.fields().contains_key(other) == before.fields().contains_key(other),
        before.fields().contains_key(other) ==> after.fields()[other] == before.fields()[other],
{
}

} // verus!
