//! The nodes of an MLS ratchet tree, held as the plain values that the tree
//! logic and the validation rules read.
use vstd::prelude::*;
use crate::suites::UtilError;
use crate::tls::{leaf_node_keys, leaf_node_keys_of, leaf_node_source, leaf_node_source_of, leaf_node_types, leaf_node_types_of};

verus! {

/// What a member's client supports.
pub struct Capabilities {
    pub extensions: Vec<u16>,
    pub proposals: Vec<u16>,
    pub credentials: Vec<u16>,
}

pub struct CapabilitiesView {
    pub extensions: Seq<u16>,
    pub proposals: Seq<u16>,
    pub credentials: Seq<u16>,
}

impl View for Capabilities {
    type V = CapabilitiesView;

    open spec fn view(&self) -> CapabilitiesView {
        CapabilitiesView {
            extensions: self.extensions@,
            proposals: self.proposals@,
            credentials: self.credentials@,
        }
    }
}

/// How a leaf node entered the tree.
pub enum LeafNodeSource {
    KeyPackage { not_before: u64, not_after: u64 },
    Update,
    Commit { parent_hash: Vec<u8> },
}

pub enum LeafNodeSourceView {
    KeyPackage { not_before: u64, not_after: u64 },
    Update,
    Commit { parent_hash: Seq<u8> },
}

impl View for LeafNodeSource {
    type V = LeafNodeSourceView;

    open spec fn view(&self) -> LeafNodeSourceView {
        match self {
            LeafNodeSource::KeyPackage { not_before, not_after } => LeafNodeSourceView::KeyPackage {
                not_before: *not_before,
                not_after: *not_after,
            },
            LeafNodeSource::Update => LeafNodeSourceView::Update,
            LeafNodeSource::Commit { parent_hash } => LeafNodeSourceView::Commit {
                parent_hash: parent_hash@,
            },
        }
    }
}

/// A member of the group, as held in a leaf of the tree.
pub struct LeafNode {
    pub encryption_key: Vec<u8>,
    pub signature_key: Vec<u8>,
    /// The encoded credential of the member.
    pub credential: Vec<u8>,
    pub capabilities: Capabilities,
    pub source: LeafNodeSource,
    /// The types of the extensions the leaf carries.
    pub extensions: Vec<u16>,
    /// The whole leaf node as MLS encodes it: what the tree hash covers.
    pub encoded: Vec<u8>,
}

pub struct LeafNodeView {
    pub encryption_key: Seq<u8>,
    pub signature_key: Seq<u8>,
    pub credential: Seq<u8>,
    pub capabilities: CapabilitiesView,
    pub source: LeafNodeSourceView,
    pub extensions: Seq<u16>,
    pub encoded: Seq<u8>,
}

impl View for LeafNode {
    type V = LeafNodeView;

    open spec fn view(&self) -> LeafNodeView {
        LeafNodeView {
            encryption_key: self.encryption_key@,
            signature_key: self.signature_key@,
            credential: self.credential@,
            capabilities: self.capabilities@,
            source: self.source@,
            extensions: self.extensions@,
            encoded: self.encoded@,
        }
    }
}

/// An inner node of the tree.
pub struct ParentNode {
    pub encryption_key: Vec<u8>,
    pub parent_hash: Vec<u8>,
    /// Leaves that joined below this node since it was last updated.
    pub unmerged_leaves: Vec<u32>,
}

pub struct ParentNodeView {
    pub encryption_key: Seq<u8>,
    pub parent_hash: Seq<u8>,
    pub unmerged_leaves: Seq<u32>,
}

impl View for ParentNode {
    type V = ParentNodeView;

    open spec fn view(&self) -> ParentNodeView {
        ParentNodeView {
            encryption_key: self.encryption_key@,
            parent_hash: self.parent_hash@,
            unmerged_leaves: self.unmerged_leaves@,
        }
    }
}

pub enum TreeNode {
    LeafNode(LeafNode),
    ParentNode(ParentNode),
}

pub enum TreeNodeView {
    LeafNode(LeafNodeView),
    ParentNode(ParentNodeView),
}

impl View for TreeNode {
    type V = TreeNodeView;

    open spec fn view(&self) -> TreeNodeView {
        match self {
            TreeNode::LeafNode(l) => TreeNodeView::LeafNode(l@),
            TreeNode::ParentNode(p) => TreeNodeView::ParentNode(p@),
        }
    }
}

/// The view of a possibly blank node.
pub open spec fn node_view(n: Option<TreeNode>) -> Option<TreeNodeView> {
    match n {
        Some(t) => Some(t@),
        None => None,
    }
}

/// The nodes of the tree in array order; `None` is a blank node.
pub struct RatchetTree(pub Vec<Option<TreeNode>>);

impl View for RatchetTree {
    type V = Seq<Option<TreeNodeView>>;

    open spec fn view(&self) -> Seq<Option<TreeNodeView>> {
        self.0@.map_values(|n: Option<TreeNode>| node_view(n))
    }
}

impl LeafNode {
    /// The fields hold what the leaf's encoding holds: its keys, credential,
    /// capabilities, source and extension types.
    pub open spec fn agrees_with_encoding(&self) -> bool {
        &&& leaf_node_keys(self.encoded@) == Some((self.encryption_key@, self.signature_key@, self.credential@))
        &&& leaf_node_types(self.encoded@) == Some((self.capabilities@, self.extensions@))
        &&& leaf_node_source(self.encoded@) == Some(self.source@)
    }

    /// Reads a leaf node from its MLS encoding: the fields the rules read,
    /// and the encoding itself. Fails where the bytes do not read as a leaf
    /// node.
    pub fn from_encoded(encoded: &[u8]) -> (r: Result<LeafNode, UtilError>)
        ensures
            r is Ok <==> (leaf_node_keys(encoded@) is Some && leaf_node_types(encoded@) is Some
                && leaf_node_source(encoded@) is Some),
            r matches Ok(l) ==> l.agrees_with_encoding() && l.encoded@ == encoded@,
            r matches Err(e) ==> e is MlsSpecError,
    {
        let (encryption_key, signature_key, credential) = match leaf_node_keys_of(encoded) {
            Ok(k) => k,
            Err(e) => {
                return Err(UtilError::MlsSpecError(e));
            },
        };
        let (capabilities, extensions) = match leaf_node_types_of(encoded) {
            Ok(t) => t,
            Err(e) => {
                return Err(UtilError::MlsSpecError(e));
            },
        };
        let source = match leaf_node_source_of(encoded) {
            Ok(x) => x,
            Err(e) => {
                return Err(UtilError::MlsSpecError(e));
            },
        };
        Ok(LeafNode {
            encryption_key,
            signature_key,
            credential,
            capabilities,
            source,
            extensions,
            encoded: vstd::slice::slice_to_vec(encoded),
        })
    }

    /// The leaf is signed together with its group and position: it comes
    /// from an update or a commit.
    pub fn needs_member_info(&self) -> (r: bool)
        ensures
            r == (self.source@ is Update || self.source@ is Commit),
    {
        match self.source {
            LeafNodeSource::Update | LeafNodeSource::Commit { .. } => true,
            LeafNodeSource::KeyPackage { .. } => false,
        }
    }
}

impl TreeNode {
    pub fn as_leaf_node(&self) -> (r: Option<&LeafNode>)
        ensures
            r == (match self {
                TreeNode::LeafNode(l) => Some(l),
                TreeNode::ParentNode(_) => None,
            }),
    {
        match self {
            TreeNode::LeafNode(l) => Some(l),
            TreeNode::ParentNode(_) => None,
        }
    }

    pub fn as_parent_node(&self) -> (r: Option<&ParentNode>)
        ensures
            r == (match self {
                TreeNode::ParentNode(p) => Some(p),
                TreeNode::LeafNode(_) => None,
            }),
    {
        match self {
            TreeNode::ParentNode(p) => Some(p),
            TreeNode::LeafNode(_) => None,
        }
    }
}

} // verus!

verus! {

/// Position `i` holds a non-blank leaf.
pub open spec fn occupied_leaf(s: Seq<Option<TreeNodeView>>, i: int) -> bool {
    0 <= i < s.len() && i % 2 == 0 && s[i] is Some
}

/// The last non-blank leaf position below `upto`.
pub open spec fn last_occupied_leaf(s: Seq<Option<TreeNodeView>>, upto: int) -> Option<int>
    decreases upto,
{
    if upto <= 0 {
        None
    } else if occupied_leaf(s, upto - 1) {
        Some(upto - 1)
    } else {
        last_occupied_leaf(s, upto - 1)
    }
}

/// Leaves sit at even positions and inner nodes at odd ones.
pub open spec fn well_formed(s: Seq<Option<TreeNodeView>>) -> bool {
    forall|i: int|
        0 <= i < s.len() && #[trigger] s[i] is Some ==> ((i % 2 == 0) <==> (s[i]->0 is LeafNode))
}

pub proof fn lemma_last_occupied_leaf(s: Seq<Option<TreeNodeView>>, upto: int)
    requires
        upto <= s.len(),
    ensures
        match last_occupied_leaf(s, upto) {
            Some(i) => occupied_leaf(s, i) && i < upto && forall|j: int|
                i < j < upto ==> !occupied_leaf(s, j),
            None => forall|j: int| 0 <= j < upto ==> !occupied_leaf(s, j),
        },
    decreases upto,
{
    if upto > 0 {
        lemma_last_occupied_leaf(s, upto - 1);
    }
}

} // verus!

verus! {

impl Clone for Capabilities {
    fn clone(&self) -> (r: Self)
        ensures
            r@ == self@,
    {
        Capabilities {
            extensions: self.extensions.clone(),
            proposals: self.proposals.clone(),
            credentials: self.credentials.clone(),
        }
    }
}

impl Clone for LeafNodeSource {
    fn clone(&self) -> (r: Self)
        ensures
            r@ == self@,
    {
        match self {
            LeafNodeSource::KeyPackage { not_before, not_after } => LeafNodeSource::KeyPackage {
                not_before: *not_before,
                not_after: *not_after,
            },
            LeafNodeSource::Update => LeafNodeSource::Update,
            LeafNodeSource::Commit { parent_hash } => LeafNodeSource::Commit {
                parent_hash: parent_hash.clone(),
            },
        }
    }
}

impl Clone for LeafNode {
    fn clone(&self) -> (r: Self)
        ensures
            r@ == self@,
    {
        LeafNode {
            encryption_key: self.encryption_key.clone(),
            signature_key: self.signature_key.clone(),
            credential: self.credential.clone(),
            capabilities: self.capabilities.clone(),
            source: self.source.clone(),
            extensions: self.extensions.clone(),
            encoded: self.encoded.clone(),
        }
    }
}

} // verus!
