//! The MLS encoding of the labelled inputs that are signed, encrypted to
//! and hashed: each field a variable-length vector.
use vstd::prelude::*;
use vstd::string::StringSliceAdditionalSpecFns;
use crate::ratchet_tree::{Capabilities, CapabilitiesView, LeafNodeSource, LeafNodeSourceView, ParentNode, ParentNodeView};

verus! {

/// The longest vector the MLS encoding takes: a length below 2^30.
pub const VL_MAX: usize = 0x3fff_ffff;

/// The length prefix of a variable-length vector of `n` bytes: one byte
/// up to 63, two up to 16383, four beyond, big-endian, the top two bits of
/// the first byte telling how many.
pub open spec fn vl_prefix(n: nat) -> Seq<u8> {
    if n <= 0x3f {
        seq![n as u8]
    } else if n <= 0x3fff {
        seq![(0x40 + n / 0x100) as u8, (n % 0x100) as u8]
    } else {
        seq![
            (0x80 + n / 0x100_0000) as u8,
            ((n / 0x1_0000) % 0x100) as u8,
            ((n / 0x100) % 0x100) as u8,
            (n % 0x100) as u8,
        ]
    }
}

/// The bytes `b` as a variable-length vector.
pub open spec fn vl_bytes(b: Seq<u8>) -> Seq<u8> {
    vl_prefix(b.len()) + b
}

/// A label and a value, each a variable-length vector.
pub open spec fn labelled(label: Seq<u8>, value: Seq<u8>) -> Seq<u8> {
    vl_bytes(label) + vl_bytes(value)
}

/// `SignContent { label, content }.to_tls_bytes()` of mls-spec: the label's
/// UTF-8 bytes and the content, each as a variable-length vector.
#[verifier::external_body]
pub(crate) fn sign_content_bytes(label: &str, content: &[u8]) -> (r: Result<Vec<u8>, mls_spec::MlsSpecError>)
    requires
        label.spec_bytes().len() <= VL_MAX,
        content@.len() <= VL_MAX,
    ensures
        match r {
            Ok(b) => b@ == labelled(label.spec_bytes(), content@),
            Err(_) => false,
        },
{
    mls_spec::Serializable::to_tls_bytes(&mls_spec::crypto::SignContent { label, content })
}

/// `EncryptContext { label, context }.to_tls_bytes()` of mls-spec: the
/// label's UTF-8 bytes and the context, each as a variable-length vector.
#[verifier::external_body]
pub(crate) fn encrypt_context_bytes(label: &str, context: &[u8]) -> (r: Result<Vec<u8>, mls_spec::MlsSpecError>)
    requires
        label.spec_bytes().len() <= VL_MAX,
        context@.len() <= VL_MAX,
    ensures
        match r {
            Ok(b) => b@ == labelled(label.spec_bytes(), context@),
            Err(_) => false,
        },
{
    mls_spec::Serializable::to_tls_bytes(&mls_spec::crypto::EncryptContext { label, context })
}

/// `HashReferenceInput { label, value }.to_tls_bytes()` of mls-spec: the
/// label's UTF-8 bytes and the value, each as a variable-length vector.
#[verifier::external_body]
pub(crate) fn hash_reference_bytes(label: &str, value: &[u8]) -> (r: Result<Vec<u8>, mls_spec::MlsSpecError>)
    requires
        label.spec_bytes().len() <= VL_MAX,
        value@.len() <= VL_MAX,
    ensures
        match r {
            Ok(b) => b@ == labelled(label.spec_bytes(), value@),
            Err(_) => false,
        },
{
    mls_spec::Serializable::to_tls_bytes(&mls_spec::crypto::HashReferenceInput { label, value })
}

/// `n` as four big-endian bytes.
pub open spec fn be32(n: u32) -> Seq<u8> {
    seq![
        (n / 0x100_0000) as u8,
        ((n / 0x1_0000) % 0x100) as u8,
        ((n / 0x100) % 0x100) as u8,
        (n % 0x100) as u8,
    ]
}

/// `LeafNodeMemberInfo { group_id, leaf_index }.to_tls_bytes()` of
/// mls-spec: the group identifier as a variable-length vector, then the
/// leaf index as four big-endian bytes.
#[verifier::external_body]
pub(crate) fn member_info_bytes(group_id: &[u8], leaf_index: u32) -> (r: Result<Vec<u8>, mls_spec::MlsSpecError>)
    requires
        group_id@.len() <= VL_MAX,
    ensures
        match r {
            Ok(b) => b@ == vl_bytes(group_id@) + be32(leaf_index),
            Err(_) => false,
        },
{
    mls_spec::Serializable::to_tls_bytes(&mls_spec::tree::leaf_node::LeafNodeMemberInfo { group_id, leaf_index })
}

/// Each index as four big-endian bytes, one after another.
pub open spec fn be32_all(s: Seq<u32>) -> Seq<u8>
    decreases s.len(),
{
    if s.len() == 0 {
        Seq::empty()
    } else {
        be32_all(s.drop_last()) + be32(s.last())
    }
}

/// A parent node as MLS encodes it: its encryption key and parent hash as
/// variable-length vectors, then its unmerged leaves as a variable-length
/// vector of four-byte indices.
pub open spec fn parent_node_bytes(p: ParentNodeView) -> Seq<u8> {
    vl_bytes(p.encryption_key) + vl_bytes(p.parent_hash) + vl_prefix(4 * p.unmerged_leaves.len())
        + be32_all(p.unmerged_leaves)
}

/// An optional value as MLS encodes it: a zero byte when it is absent, a
/// one byte and the value when it is there.
pub open spec fn optional_bytes(b: Option<Seq<u8>>) -> Seq<u8> {
    match b {
        None => seq![0u8],
        Some(x) => seq![1u8] + x,
    }
}

/// A parent node whose fields the MLS encoding can hold.
pub open spec fn parent_fits(p: ParentNodeView) -> bool {
    &&& p.encryption_key.len() <= VL_MAX
    &&& p.parent_hash.len() <= VL_MAX
    &&& 4 * p.unmerged_leaves.len() <= VL_MAX
}

/// The tree hash input of a parent position: node type 2, the parent node
/// if there is one, then the hashes of its left and right subtrees.
pub open spec fn parent_tree_hash_input(parent: Option<ParentNodeView>, left: Seq<u8>, right: Seq<u8>) -> Seq<u8> {
    let node = match parent {
        Some(p) => Some(parent_node_bytes(p)),
        None => None,
    };
    seq![2u8] + optional_bytes(node) + vl_bytes(left) + vl_bytes(right)
}

/// `TreeHashInput::Parent(ParentNodeHashInput { parent_node, left_hash,
/// right_hash }).to_tls_bytes()` of mls-spec, the parent node carried over
/// field by field: node type 2, the optional parent node, then both hashes
/// as variable-length vectors.
#[verifier::external_body]
pub(crate) fn parent_tree_hash_input_bytes(parent: Option<&ParentNode>, left_hash: &[u8], right_hash: &[u8]) -> (r:
    Result<Vec<u8>, mls_spec::MlsSpecError>)
    requires
        parent matches Some(p) ==> parent_fits(p@),
        left_hash@.len() <= VL_MAX,
        right_hash@.len() <= VL_MAX,
    ensures
        match r {
            Ok(b) => b@ == parent_tree_hash_input(
                match parent {
                    Some(p) => Some(p@),
                    None => None,
                },
                left_hash@,
                right_hash@,
            ),
            Err(_) => false,
        },
{
    let node = parent.map(|p| mls_spec::tree::ParentNode {
        encryption_key: p.encryption_key.clone().into(),
        parent_hash: p.parent_hash.clone().into(),
        unmerged_leaves: p.unmerged_leaves.clone(),
    });
    let input = mls_spec::tree::hashes::ParentNodeHashInput { parent_node: node.as_ref(), left_hash, right_hash };
    mls_spec::Serializable::to_tls_bytes(&mls_spec::tree::hashes::TreeHashInput::Parent(input))
}

/// `ParentHashInput { encryption_key, parent_hash,
/// original_sibling_tree_hash }.to_tls_bytes()` of mls-spec: the three
/// fields, each as a variable-length vector.
#[verifier::external_body]
pub(crate) fn parent_hash_input_bytes(encryption_key: &[u8], parent_hash: &[u8], sibling_hash: &[u8]) -> (r: Result<
    Vec<u8>,
    mls_spec::MlsSpecError,
>)
    requires
        encryption_key@.len() <= VL_MAX,
        parent_hash@.len() <= VL_MAX,
        sibling_hash@.len() <= VL_MAX,
    ensures
        match r {
            Ok(b) => b@ == vl_bytes(encryption_key@) + vl_bytes(parent_hash@) + vl_bytes(sibling_hash@),
            Err(_) => false,
        },
{
    mls_spec::Serializable::to_tls_bytes(
        &mls_spec::tree::hashes::ParentHashInput {
            encryption_key,
            parent_hash,
            original_sibling_tree_hash: sibling_hash,
        },
    )
}

/// `VLByteSlice(bytes).to_tls_bytes()` of tls_codec through mls-spec: the
/// bytes as a variable-length vector.
#[verifier::external_body]
pub(crate) fn vl_encode(bytes: &[u8]) -> (r: Result<Vec<u8>, mls_spec::MlsSpecError>)
    requires
        bytes@.len() <= VL_MAX,
    ensures
        match r {
            Ok(b) => b@ == vl_bytes(bytes@),
            Err(_) => false,
        },
{
    mls_spec::Serializable::to_tls_bytes(&mls_spec::reexports::tls_codec::VLByteSlice(bytes))
}

/// Fields as MLS encodes a component's entries: each field number as one
/// byte followed by its value as a variable-length vector, one after
/// another.
pub open spec fn field_entries_bytes(e: Seq<(u8, Vec<u8>)>) -> Seq<u8>
    decreases e.len(),
{
    if e.len() == 0 {
        Seq::empty()
    } else {
        field_entries_bytes(e.drop_last()) + seq![e.last().0] + vl_bytes(e.last().1@)
    }
}

/// Each value, and the entries together, fit an MLS variable-length
/// vector.
pub open spec fn field_entries_fit(e: Seq<(u8, Vec<u8>)>) -> bool {
    &&& forall|i: int| 0 <= i < e.len() ==> (#[trigger] e[i]).1@.len() <= VL_MAX
    &&& field_entries_bytes(e).len() <= VL_MAX
}

/// `Vec<(u8, &[u8])>::tls_serialize_detached` of tls_codec, through
/// mls-spec, on the entries taken as pairs of a number and a byte slice: the
/// pairs as one variable-length vector, each a number byte then the bytes
/// as a variable-length vector.
#[verifier::external_body]
pub(crate) fn field_entries_encoding(entries: &[(u8, Vec<u8>)]) -> (r: Result<Vec<u8>, mls_spec::MlsSpecError>)
    requires
        field_entries_fit(entries@),
    ensures
        match r {
            Ok(b) => b@ == vl_bytes(field_entries_bytes(entries@)),
            Err(_) => false,
        },
{
    let pairs: Vec<(u8, &[u8])> = entries.iter().map(|(k, v)| (*k, v.as_slice())).collect();
    mls_spec::Serializable::to_tls_bytes(&pairs)
}

/// What a leaf node's encoding is signed over and its signature: the
/// encoded fields before the signature, without the group and leaf index,
/// and the signature; `None` where the bytes do not read as a leaf node.
pub uninterp spec fn leaf_node_parts(encoded: Seq<u8>) -> Option<(Seq<u8>, Seq<u8>)>;

/// `LeafNode::from_tls_bytes` of mls-spec, then the `to_tls_bytes` of its
/// `LeafNodeTBS` without member information, and its signature. The result
/// is the name `leaf_node_parts` of the encoding; an error where the bytes
/// do not read as a leaf node (bytes after the leaf node are not read).
#[verifier::external_body]
pub(crate) fn leaf_node_tbs_parts(encoded: &[u8]) -> (r: Result<(Vec<u8>, Vec<u8>), mls_spec::MlsSpecError>)
    ensures
        match r {
            Ok((c, s)) => leaf_node_parts(encoded@) == Some((c@, s@)),
            Err(_) => leaf_node_parts(encoded@) is None,
        },
{
    let ln: mls_spec::tree::leaf_node::LeafNode = mls_spec::Parsable::from_tls_bytes(encoded)?;
    let tbs = mls_spec::tree::leaf_node::LeafNodeTBS {
        encryption_key: &ln.encryption_key,
        signature_key: &ln.signature_key,
        credential: &ln.credential,
        capabilities: &ln.capabilities,
        source: &ln.source,
        extensions: &ln.extensions,
        member_info: None,
    };
    Ok((mls_spec::Serializable::to_tls_bytes(&tbs)?, ln.signature.to_vec()))
}

/// What a key package's encoding is signed over and its signature;
/// `None` where the bytes do not read as a key package.
pub uninterp spec fn key_package_parts(encoded: Seq<u8>) -> Option<(Seq<u8>, Seq<u8>)>;

/// `KeyPackage::from_tls_bytes` of mls-spec, then `to_tbs().to_tls_bytes()`
/// and its signature. The result is the name `key_package_parts` of the
/// encoding; an error where the bytes do not read as a key package.
#[verifier::external_body]
pub(crate) fn key_package_tbs_parts(encoded: &[u8]) -> (r: Result<(Vec<u8>, Vec<u8>), mls_spec::MlsSpecError>)
    ensures
        match r {
            Ok((t, s)) => key_package_parts(encoded@) == Some((t@, s@)),
            Err(_) => key_package_parts(encoded@) is None,
        },
{
    let kp: mls_spec::key_package::KeyPackage = mls_spec::Parsable::from_tls_bytes(encoded)?;
    Ok((mls_spec::Serializable::to_tls_bytes(&kp.to_tbs())?, kp.signature.to_vec()))
}

/// What an authenticated content is signed over within a group whose
/// context is encoded as `group_context`, and its signature; `None` where
/// either does not read, or the sender cannot sign within that context.
pub uninterp spec fn framed_content_parts(content: Seq<u8>, group_context: Seq<u8>) -> Option<(Seq<u8>, Seq<u8>)>;

/// `AuthenticatedContent::from_tls_bytes` and `GroupContext::from_tls_bytes`
/// of mls-spec, then `content.to_tbs(&wire_format, &group_context)` encoded
/// with `to_tls_bytes`, and the signature of its authentication data. The
/// result is the name `framed_content_parts` of both encodings.
#[verifier::external_body]
pub(crate) fn framed_content_tbs_parts(content: &[u8], group_context: &[u8]) -> (r: Result<
    (Vec<u8>, Vec<u8>),
    mls_spec::MlsSpecError,
>)
    ensures
        match r {
            Ok((t, s)) => framed_content_parts(content@, group_context@) == Some((t@, s@)),
            Err(_) => framed_content_parts(content@, group_context@) is None,
        },
{
    let ac: mls_spec::messages::AuthenticatedContent = mls_spec::Parsable::from_tls_bytes(content)?;
    let gc: mls_spec::key_schedule::GroupContext = mls_spec::Parsable::from_tls_bytes(group_context)?;
    let tbs = ac.content.to_tbs(&ac.wire_format, &gc)?;
    Ok((mls_spec::Serializable::to_tls_bytes(&tbs)?, ac.auth.signature.to_vec()))
}

/// The keys and credential a leaf node's encoding holds: its encryption
/// key, its signature key and its credential as MLS encodes it; `None`
/// where the bytes do not read as a leaf node.
pub uninterp spec fn leaf_node_keys(encoded: Seq<u8>) -> Option<(Seq<u8>, Seq<u8>, Seq<u8>)>;

/// `LeafNode::from_tls_bytes` of mls-spec, read back as its two keys and
/// the `to_tls_bytes` of its credential; the result is the name
/// `leaf_node_keys` of the encoding.
#[verifier::external_body]
pub(crate) fn leaf_node_keys_of(encoded: &[u8]) -> (r: Result<(Vec<u8>, Vec<u8>, Vec<u8>), mls_spec::MlsSpecError>)
    ensures
        match r {
            Ok((e, s, c)) => leaf_node_keys(encoded@) == Some((e@, s@, c@)),
            Err(_) => leaf_node_keys(encoded@) is None,
        },
{
    let ln: mls_spec::tree::leaf_node::LeafNode = mls_spec::Parsable::from_tls_bytes(encoded)?;
    let credential = mls_spec::Serializable::to_tls_bytes(&ln.credential)?;
    Ok((ln.encryption_key.to_vec(), ln.signature_key.to_vec(), credential))
}

/// The type codes a leaf node's encoding holds: the extension, proposal and
/// credential types of its capabilities, and the types of its extensions;
/// `None` where the bytes do not read as a leaf node.
pub uninterp spec fn leaf_node_types(encoded: Seq<u8>) -> Option<(CapabilitiesView, Seq<u16>)>;

/// `LeafNode::from_tls_bytes` of mls-spec, read back as the codes of its
/// capabilities and the `ext_type` of each extension; the result is the
/// name `leaf_node_types` of the encoding.
#[verifier::external_body]
pub(crate) fn leaf_node_types_of(encoded: &[u8]) -> (r: Result<(Capabilities, Vec<u16>), mls_spec::MlsSpecError>)
    ensures
        match r {
            Ok((c, x)) => leaf_node_types(encoded@) == Some((c@, x@)),
            Err(_) => leaf_node_types(encoded@) is None,
        },
{
    let ln: mls_spec::tree::leaf_node::LeafNode = mls_spec::Parsable::from_tls_bytes(encoded)?;
    let caps = &ln.capabilities;
    let capabilities = Capabilities {
        extensions: caps.extensions.iter().map(|t| **t).collect(),
        proposals: caps.proposals.iter().map(|t| **t).collect(),
        credentials: caps.credentials.iter().map(|t| **t).collect(),
    };
    Ok((capabilities, ln.extensions.iter().map(|e| *e.ext_type()).collect()))
}

/// The source a leaf node's encoding holds; `None` where the bytes do not
/// read as a leaf node.
pub uninterp spec fn leaf_node_source(encoded: Seq<u8>) -> Option<LeafNodeSourceView>;

/// `LeafNode::from_tls_bytes` of mls-spec, read back as its source, variant
/// for variant; the result is the name `leaf_node_source` of the encoding.
#[verifier::external_body]
pub(crate) fn leaf_node_source_of(encoded: &[u8]) -> (r: Result<LeafNodeSource, mls_spec::MlsSpecError>)
    ensures
        match r {
            Ok(x) => leaf_node_source(encoded@) == Some(x@),
            Err(_) => leaf_node_source(encoded@) is None,
        },
{
    let ln: mls_spec::tree::leaf_node::LeafNode = mls_spec::Parsable::from_tls_bytes(encoded)?;
    Ok(match ln.source {
        mls_spec::tree::leaf_node::LeafNodeSource::KeyPackage { lifetime } => LeafNodeSource::KeyPackage {
            not_before: lifetime.not_before,
            not_after: lifetime.not_after,
        },
        mls_spec::tree::leaf_node::LeafNodeSource::Update => LeafNodeSource::Update,
        mls_spec::tree::leaf_node::LeafNodeSource::Commit { parent_hash } => LeafNodeSource::Commit { parent_hash: parent_hash.into() },
    })
}

/// What a key package's encoding holds: its protocol version, its
/// ciphersuite, its init key and its leaf node as MLS encodes it; `None`
/// where the bytes do not read as a key package.
pub uninterp spec fn key_package_fields(encoded: Seq<u8>) -> Option<(u16, u16, Seq<u8>, Seq<u8>)>;

/// `KeyPackage::from_tls_bytes` of mls-spec, read back as its version and
/// ciphersuite codes, its init key and the `to_tls_bytes` of its leaf
/// node; the result is the name `key_package_fields` of the encoding.
#[verifier::external_body]
pub(crate) fn key_package_fields_of(encoded: &[u8]) -> (r: Result<(u16, u16, Vec<u8>, Vec<u8>), mls_spec::MlsSpecError>)
    ensures
        match r {
            Ok((v, c, i, l)) => key_package_fields(encoded@) == Some((v, c, i@, l@)),
            Err(_) => key_package_fields(encoded@) is None,
        },
{
    let kp: mls_spec::key_package::KeyPackage = mls_spec::Parsable::from_tls_bytes(encoded)?;
    let leaf = mls_spec::Serializable::to_tls_bytes(&kp.leaf_node)?;
    Ok((kp.version as u16, *kp.cipher_suite, kp.init_key.to_vec(), leaf))
}

} // verus!
