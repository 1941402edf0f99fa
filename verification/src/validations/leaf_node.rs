//! Validation of leaf nodes (RFC 9420, section 7.3).
use vstd::prelude::*;
use crate::bytes::{bytes_eq, codes_contain};
use crate::mls::{is_default_extension, is_default_proposal, is_grease, is_grease_value, is_spec_default_extension,
    is_spec_default_proposal, required_caps_from, GroupContext};
use crate::ratchet_tree::{LeafNode, LeafNodeSource};
use crate::validations::key_package::KeyPackageValidationContext;
use crate::validations::{InvalidSignatureItem, ValidationError, signature_label, leaf_node_label};
use crate::signatures::{verify_with_label, accepts, has_signer};
use crate::suites::named_ciphersuite;
use crate::tls::{VL_MAX, labelled, vl_bytes, be32, member_info_bytes, leaf_node_parts, leaf_node_tbs_parts};
use vstd::utf8::encode_utf8;

verus! {

/// A member of a group: the group's context and the member's leaf index.
#[derive(Clone, Copy)]
pub struct GroupMemberValidationContext<'a> {
    pub group_context: &'a GroupContext,
    pub leaf_index: &'a u32,
}

/// Where a leaf node being validated appears.
#[derive(Clone, Copy)]
pub enum LeafNodeValidationContext<'a> {
    KeyPackage(&'a KeyPackageValidationContext),
    Commit(GroupMemberValidationContext<'a>),
    Update {
        ctx: GroupMemberValidationContext<'a>,
        previous_encryption_key: &'a [u8],
        previous_signature_key: &'a [u8],
    },
}

/// Where a leaf node appears, with the values its validation reads.
pub enum LeafContextView {
    KeyPackage(KeyPackageValidationContext),
    Commit { group_context: GroupContext, leaf_index: u32 },
    Update { group_context: GroupContext, leaf_index: u32, previous_encryption_key: Seq<u8>, previous_signature_key: Seq<u8> },
}

impl<'a> View for LeafNodeValidationContext<'a> {
    type V = LeafContextView;

    open spec fn view(&self) -> LeafContextView {
        match *self {
            LeafNodeValidationContext::KeyPackage(kp) => LeafContextView::KeyPackage(*kp),
            LeafNodeValidationContext::Commit(c) => LeafContextView::Commit { group_context: *c.group_context, leaf_index: *c.leaf_index },
            LeafNodeValidationContext::Update { ctx, previous_encryption_key, previous_signature_key } => LeafContextView::Update {
                group_context: *ctx.group_context,
                leaf_index: *ctx.leaf_index,
                previous_encryption_key: previous_encryption_key@,
                previous_signature_key: previous_signature_key@,
            },
        }
    }
}

/// Each of `types` is a GREASE value, a type RFC 9420 defines (where
/// `defaults` counts) or one of `supported`.
pub open spec fn extensions_supported(types: Seq<u16>, supported: Seq<u16>) -> bool {
    forall|i: int|
        0 <= i < types.len() ==> is_grease(#[trigger] types[i]) || is_default_extension(types[i])
            || supported.contains(types[i])
}

pub open spec fn proposals_supported(types: Seq<u16>, supported: Seq<u16>) -> bool {
    forall|i: int|
        0 <= i < types.len() ==> is_grease(#[trigger] types[i]) || is_default_proposal(types[i])
            || supported.contains(types[i])
}

pub open spec fn credentials_supported(types: Seq<u16>, supported: Seq<u16>) -> bool {
    forall|i: int| 0 <= i < types.len() ==> is_grease(#[trigger] types[i]) || supported.contains(types[i])
}

fn check_extensions_supported(types: &[u16], supported: &[u16]) -> (r: bool)
    ensures
        r == extensions_supported(types@, supported@),
{
    let mut i: usize = 0;
    while i < types.len()
        invariant
            i <= types@.len(),
            extensions_supported(types@.take(i as int), supported@),
        decreases types@.len() - i,
    {
        let t = types[i];
        if !(is_grease_value(t) || is_spec_default_extension(t) || codes_contain(supported, t)) {
            assert(!(is_grease(types@[i as int]) || is_default_extension(types@[i as int]) || supported@.contains(types@[i as int])));
            return false;
        }
        i += 1;
        assert forall|k: int| 0 <= k < i implies is_grease(#[trigger] types@.take(i as int)[k]) || is_default_extension(types@.take(i as int)[k])
            || supported@.contains(types@.take(i as int)[k]) by {
            if k < i - 1 {
                assert(types@.take(i as int)[k] == types@.take(i - 1)[k]);
            }
        }
    }
    assert(types@.take(types@.len() as int) =~= types@);
    true
}

fn check_proposals_supported(types: &[u16], supported: &[u16]) -> (r: bool)
    ensures
        r == proposals_supported(types@, supported@),
{
    let mut i: usize = 0;
    while i < types.len()
        invariant
            i <= types@.len(),
            proposals_supported(types@.take(i as int), supported@),
        decreases types@.len() - i,
    {
        let t = types[i];
        if !(is_grease_value(t) || is_spec_default_proposal(t) || codes_contain(supported, t)) {
            assert(!(is_grease(types@[i as int]) || is_default_proposal(types@[i as int]) || supported@.contains(types@[i as int])));
            return false;
        }
        i += 1;
        assert forall|k: int| 0 <= k < i implies is_grease(#[trigger] types@.take(i as int)[k]) || is_default_proposal(types@.take(i as int)[k])
            || supported@.contains(types@.take(i as int)[k]) by {
            if k < i - 1 {
                assert(types@.take(i as int)[k] == types@.take(i - 1)[k]);
            }
        }
    }
    assert(types@.take(types@.len() as int) =~= types@);
    true
}

fn check_credentials_supported(types: &[u16], supported: &[u16]) -> (r: bool)
    ensures
        r == credentials_supported(types@, supported@),
{
    let mut i: usize = 0;
    while i < types.len()
        invariant
            i <= types@.len(),
            credentials_supported(types@.take(i as int), supported@),
        decreases types@.len() - i,
    {
        let t = types[i];
        if !(is_grease_value(t) || codes_contain(supported, t)) {
            assert(!(is_grease(types@[i as int]) || supported@.contains(types@[i as int])));
            return false;
        }
        i += 1;
        assert forall|k: int| 0 <= k < i implies is_grease(#[trigger] types@.take(i as int)[k])
            || supported@.contains(types@.take(i as int)[k]) by {
            if k < i - 1 {
                assert(types@.take(i as int)[k] == types@.take(i - 1)[k]);
            }
        }
    }
    assert(types@.take(types@.len() as int) =~= types@);
    true
}

/// The group context of a validation context, where there is one.
pub open spec fn context_group(ctx: LeafContextView) -> Option<GroupContext> {
    match ctx {
        LeafContextView::KeyPackage(_) => None,
        LeafContextView::Commit { group_context, .. } => Some(group_context),
        LeafContextView::Update { group_context, .. } => Some(group_context),
    }
}

/// The ciphersuite of a validation context, where there is one.
pub open spec fn context_ciphersuite(ctx: LeafContextView) -> Option<u16> {
    match ctx {
        LeafContextView::KeyPackage(kp) => kp.cipher_suite,
        LeafContextView::Commit { group_context, .. } => Some(group_context.cipher_suite),
        LeafContextView::Update { group_context, .. } => Some(group_context.cipher_suite),
    }
}

/// The leaf node lists in its capabilities whatever the group requires.
pub open spec fn meets_required_caps(ctx: LeafContextView, ln: LeafNode) -> bool {
    match context_group(ctx) {
        None => true,
        Some(gc) => match required_caps_from(gc.extensions@, 0) {
            None => true,
            Some(i) => {
                let rc = gc.extensions@[i]->RequiredCapabilities_0;
                &&& extensions_supported(rc.extension_types@, ln.capabilities.extensions@)
                &&& proposals_supported(rc.proposal_types@, ln.capabilities.proposals@)
                &&& credentials_supported(rc.credential_types@, ln.capabilities.credentials@)
            },
        },
    }
}

/// The leaf is signed together with its group and position: it comes from
/// an update or a commit.
pub open spec fn needs_member_info(ln: LeafNode) -> bool {
    ln.source@ is Update || ln.source@ is Commit
}

/// What validating a leaf node gives, given whether the authentication
/// service accepts its credential and whether its signature verifies.
pub open spec fn leaf_node_outcome(
    ctx: LeafContextView,
    ln: LeafNode,
    credential_valid: bool,
    signature_valid: bool,
    skip_signature_check: bool,
) -> Result<(), ValidationError> {
    if !credential_valid {
        Err(ValidationError::InvalidCredential)
    } else if context_ciphersuite(ctx) is None {
        Err(ValidationError::NoCiphersuite)
    } else if !skip_signature_check && needs_member_info(ln) && ctx is KeyPackage {
        Err(ValidationError::MalformedStructure)
    } else if !skip_signature_check && !signature_valid {
        Err(ValidationError::InvalidSignature(InvalidSignatureItem::LeafNode))
    } else if !extensions_supported(ln.extensions@, ln.capabilities.extensions@) {
        Err(ValidationError::InsufficientCapabilities)
    } else if !meets_required_caps(ctx, ln) {
        Err(ValidationError::InsufficientCapabilities)
    } else {
        match ctx {
            LeafContextView::KeyPackage(kp) => if !kp.lifetime_ok(ln.source@) {
                Err(ValidationError::ExpiredKeyPackage)
            } else {
                Ok(())
            },
            LeafContextView::Commit { .. } => if !(ln.source@ is Commit) {
                Err(ValidationError::MalformedStructure)
            } else {
                Ok(())
            },
            LeafContextView::Update { previous_encryption_key, previous_signature_key, .. } => if !(
            ln.source@ is Update) {
                Err(ValidationError::MalformedStructure)
            } else if ln.signature_key@ != previous_signature_key {
                Err(ValidationError::UpdateWithDifferentSignatureKeys)
            } else if ln.encryption_key@ == previous_encryption_key {
                Err(ValidationError::StaleEncryptionKey)
            } else {
                Ok(())
            },
        }
    }
}

/// The protocol version a leaf node is signed in: its group's, or MLS 1.0
/// for a key package.
pub open spec fn leaf_version(ctx: LeafContextView) -> u16 {
    match context_group(ctx) {
        Some(gc) => gc.version,
        None => 1,
    }
}

/// The group and leaf index of a member's leaf, where the context has them.
pub open spec fn member_of(ctx: LeafNodeValidationContext) -> Option<(Seq<u8>, u32)> {
    match ctx {
        LeafNodeValidationContext::KeyPackage(_) => None,
        LeafNodeValidationContext::Commit(c) => Some((c.group_context.group_id@, *c.leaf_index)),
        LeafNodeValidationContext::Update { ctx, .. } => Some((ctx.group_context.group_id@, *ctx.leaf_index)),
    }
}

/// What a leaf node's signature covers: its encoded content, then, for a
/// leaf from an update or a commit, its group as a vector and its leaf
/// index.
pub open spec fn leaf_tbs(ctx: LeafNodeValidationContext, ln: LeafNode, content: Seq<u8>) -> Seq<u8> {
    match member_of(ctx) {
        Some((g, i)) => if needs_member_info(ln) {
            content + vl_bytes(g) + be32(i)
        } else {
            content
        },
        None => content,
    }
}

/// The leaf's signature key accepts `signature` on what the leaf's
/// signature covers, under the ciphersuite of the context (a leaf from an
/// update or a commit is signed only within a group).
pub open spec fn leaf_signature_ok(ctx: LeafNodeValidationContext, ln: LeafNode, content: Seq<u8>, signature: Seq<u8>) -> bool {
    match context_ciphersuite(ctx@) {
        Some(cs) => {
            &&& !needs_member_info(ln) || member_of(ctx) is Some
            &&& has_signer(named_ciphersuite(cs))
            &&& accepts(
                named_ciphersuite(cs),
                ln.signature_key@,
                labelled(encode_utf8(signature_label(leaf_version(ctx@), "LeafNodeTBS"@)), leaf_tbs(ctx, ln, content)),
                signature,
            )
        },
        None => false,
    }
}

/// The signed content, with the group and leaf index where the context has
/// them, fits an MLS vector.
pub open spec fn leaf_content_fits(ctx: LeafNodeValidationContext, content: Seq<u8>) -> bool {
    match member_of(ctx) {
        Some((g, _)) => content.len() + g.len() + 8 <= VL_MAX,
        None => content.len() <= VL_MAX,
    }
}

/// The encodings fit MLS vectors, and the group's protocol version is
/// known.
pub open spec fn leaf_inputs_fit(ctx: LeafNodeValidationContext, content: Seq<u8>) -> bool {
    &&& leaf_version(ctx@) <= 1
    &&& leaf_content_fits(ctx, content)
}

/// The leaf node's own signature verifies: what it signs and its signature
/// are read from the leaf's encoding. A leaf whose encoding does not read
/// as a leaf node, or whose signed content is too long to sign, does not
/// verify.
pub open spec fn leaf_signature_holds(ctx: LeafNodeValidationContext, ln: LeafNode) -> bool {
    match leaf_node_parts(ln.encoded@) {
        Some((content, signature)) => leaf_content_fits(ctx, content) && leaf_signature_ok(ctx, ln, content, signature),
        None => false,
    }
}

impl<'a> LeafNodeValidationContext<'a> {
    pub fn ciphersuite(&self) -> (r: Option<u16>)
        ensures
            r == context_ciphersuite(self@),
    {
        match self {
            LeafNodeValidationContext::KeyPackage(ctx) => ctx.cipher_suite,
            LeafNodeValidationContext::Commit(ctx) => Some(ctx.group_context.cipher_suite),
            LeafNodeValidationContext::Update { ctx, .. } => Some(ctx.group_context.cipher_suite),
        }
    }

    pub fn group_context(&self) -> (r: Option<&'a GroupContext>)
        ensures
            match r {
                Some(gc) => context_group(self@) == Some(*gc),
                None => context_group(self@) is None,
            },
    {
        match self {
            LeafNodeValidationContext::KeyPackage(_) => None,
            LeafNodeValidationContext::Commit(ctx) => Some(ctx.group_context),
            LeafNodeValidationContext::Update { ctx, .. } => Some(ctx.group_context),
        }
    }

    /// The group of the member and the member's leaf index, where the leaf
    /// belongs to a member.
    pub fn member_info(&self) -> (r: Option<(&'a Vec<u8>, u32)>)
        ensures
            match *self {
                LeafNodeValidationContext::KeyPackage(_) => r is None,
                LeafNodeValidationContext::Commit(c) => r matches Some((g, i)) && g@ == c.group_context.group_id@
                    && i == *c.leaf_index,
                LeafNodeValidationContext::Update { ctx, .. } => r matches Some((g, i)) && g@
                    == ctx.group_context.group_id@ && i == *ctx.leaf_index,
            },
    {
        match self {
            LeafNodeValidationContext::Commit(ctx) => Some((&ctx.group_context.group_id, *ctx.leaf_index)),
            LeafNodeValidationContext::Update { ctx, .. } => Some(
                (&ctx.group_context.group_id, *ctx.leaf_index),
            ),
            LeafNodeValidationContext::KeyPackage(_) => None,
        }
    }

    /// The leaf node lists in its capabilities whatever the group requires.
    pub fn check_required_caps(&self, leaf_node: &LeafNode) -> (r: Result<(), ValidationError>)
        ensures
            r matches Ok(()) <==> meets_required_caps(self@, *leaf_node),
            r matches Err(e) ==> e == ValidationError::InsufficientCapabilities,
    {
        let group_context = match self.group_context() {
            Some(gc) => gc,
            None => {
                return Ok(());
            },
        };
        let required_caps = match group_context.required_capabilities() {
            Some(rc) => rc,
            None => {
                return Ok(());
            },
        };
        if !check_extensions_supported(
            required_caps.extension_types.as_slice(),
            leaf_node.capabilities.extensions.as_slice(),
        ) {
            return Err(ValidationError::InsufficientCapabilities);
        }
        if !check_proposals_supported(
            required_caps.proposal_types.as_slice(),
            leaf_node.capabilities.proposals.as_slice(),
        ) {
            return Err(ValidationError::InsufficientCapabilities);
        }
        if !check_credentials_supported(
            required_caps.credential_types.as_slice(),
            leaf_node.capabilities.credentials.as_slice(),
        ) {
            return Err(ValidationError::InsufficientCapabilities);
        }
        Ok(())
    }

    /// https://www.rfc-editor.org/rfc/rfc9420.html#name-leaf-node-validation
    ///
    /// `credential_valid` is what the authentication service says of the
    /// leaf's credential; `signature_valid` whether the leaf's signature
    /// verifies under its signature key.
    pub fn validate_leaf_node_internal(
        &self,
        leaf_node: &LeafNode,
        credential_valid: bool,
        signature_valid: bool,
        skip_signature_check: bool,
    ) -> (r: Result<(), ValidationError>)
        ensures
            r == leaf_node_outcome(self@, *leaf_node, credential_valid, signature_valid, skip_signature_check),
    {
        if !credential_valid {
            return Err(ValidationError::InvalidCredential);
        }
        if self.ciphersuite().is_none() {
            return Err(ValidationError::NoCiphersuite);
        }
        if !skip_signature_check && leaf_node.needs_member_info() && self.member_info().is_none() {
            return Err(ValidationError::MalformedStructure);
        }
        if !skip_signature_check && !signature_valid {
            return Err(ValidationError::InvalidSignature(InvalidSignatureItem::LeafNode));
        }
        if !check_extensions_supported(leaf_node.extensions.as_slice(), leaf_node.capabilities.extensions.as_slice()) {
            return Err(ValidationError::InsufficientCapabilities);
        }
        if let Err(e) = self.check_required_caps(leaf_node) {
            return Err(e);
        }
        match self {
            LeafNodeValidationContext::KeyPackage(kp_ctx) => {
                if !kp_ctx.validate_keypackage_lifetime(&leaf_node.source) {
                    return Err(ValidationError::ExpiredKeyPackage);
                }
            },
            LeafNodeValidationContext::Commit(_) => {
                match leaf_node.source {
                    LeafNodeSource::Commit { .. } => {},
                    _ => {
                        return Err(ValidationError::MalformedStructure);
                    },
                }
            },
            LeafNodeValidationContext::Update { previous_encryption_key, previous_signature_key, .. } => {
                match leaf_node.source {
                    LeafNodeSource::Update => {},
                    _ => {
                        return Err(ValidationError::MalformedStructure);
                    },
                }
                if !bytes_eq(leaf_node.signature_key.as_slice(), previous_signature_key) {
                    return Err(ValidationError::UpdateWithDifferentSignatureKeys);
                }
                if bytes_eq(leaf_node.encryption_key.as_slice(), previous_encryption_key) {
                    return Err(ValidationError::StaleEncryptionKey);
                }
            },
        }
        Ok(())
    }

    /// Whether `signature` verifies on `content`, the leaf's encoded
    /// content; the group and leaf index are appended for a leaf from an
    /// update or a commit.
    fn leaf_signature_over(&self, leaf_node: &LeafNode, content: &[u8], signature: &[u8]) -> (r: bool)
        requires
            leaf_inputs_fit(*self, content@),
        ensures
            r == leaf_signature_ok(*self, *leaf_node, content@, signature@),
    {
        let cs = match self.ciphersuite() {
            Some(cs) => cs,
            None => {
                return false;
            },
        };
        let mut tbs = vstd::slice::slice_to_vec(content);
        if leaf_node.needs_member_info() {
            match self.member_info() {
                Some((group_id, leaf_index)) => match member_info_bytes(group_id.as_slice(), leaf_index) {
                    Ok(mut extra) => {
                        tbs.append(&mut extra);
                    },
                    Err(_) => {
                        return false;
                    },
                },
                None => {
                    return false;
                },
            }
        }
        let version = match self.group_context() {
            Some(gc) => gc.version,
            None => 1,
        };
        let label = leaf_node_label(version);
        proof {
            assert(tbs@ == leaf_tbs(*self, *leaf_node, content@));
        }
        verify_with_label(leaf_node.signature_key.as_slice(), cs, tbs.as_slice(), label, signature).is_ok()
    }

    /// Whether the leaf node's own signature verifies under its signature
    /// key: what it signs and its signature are read from its encoding.
    pub fn leaf_signature_valid(&self, leaf_node: &LeafNode) -> (r: bool)
        requires
            leaf_version(self@) <= 1,
        ensures
            r == leaf_signature_holds(*self, *leaf_node),
    {
        let (content, signature) = match leaf_node_tbs_parts(leaf_node.encoded.as_slice()) {
            Ok(parts) => parts,
            Err(_) => {
                return false;
            },
        };
        let fits = match self.member_info() {
            Some((g, _)) => content.len() <= VL_MAX && g.len() <= VL_MAX && content.len() + g.len() + 8 <= VL_MAX,
            None => content.len() <= VL_MAX,
        };
        if !fits {
            return false;
        }
        self.leaf_signature_over(leaf_node, content.as_slice(), signature.as_slice())
    }

    /// Validates a leaf node by the rules of RFC 9420, checking its own
    /// signature; `credential_valid` is what the authentication service
    /// says of its credential.
    pub fn validate_leaf_node_signed(&self, leaf_node: &LeafNode, credential_valid: bool) -> (r: Result<
        (),
        ValidationError,
    >)
        requires
            leaf_version(self@) <= 1,
        ensures
            r == leaf_node_outcome(self@, *leaf_node, credential_valid, leaf_signature_holds(*self, *leaf_node), false),
    {
        let signature_valid = self.leaf_signature_valid(leaf_node);
        self.validate_leaf_node_internal(leaf_node, credential_valid, signature_valid, false)
    }

    /// Validates a leaf node by the rules of RFC 9420, its signature
    /// included.
    pub fn validate_leaf_node(&self, leaf_node: &LeafNode, credential_valid: bool, signature_valid: bool) -> (r: Result<
        (),
        ValidationError,
    >)
        ensures
            r == leaf_node_outcome(self@, *leaf_node, credential_valid, signature_valid, false),
    {
        self.validate_leaf_node_internal(leaf_node, credential_valid, signature_valid, false)
    }
}

/// A leaf node is accepted only if the authentication service accepts its
/// credential, the context has a ciphersuite, its signature verifies (unless
/// the check is skipped), each of its extensions is a GREASE value, one
/// RFC 9420 defines or one its capabilities list, and its source fits where
/// it appears: a key package's leaf comes from a key package whose lifetime
/// holds, a commit's from a commit, and an update's from an update with the
/// member's signature key and a new encryption key.
pub proof fn lemma_accepted_leaf(
    ctx: LeafContextView,
    ln: LeafNode,
    credential_valid: bool,
    signature_valid: bool,
    skip_signature_check: bool,
)
    ensures
        leaf_node_outcome(ctx, ln, credential_valid, signature_valid, skip_signature_check) is Ok ==> {
            &&& credential_valid
            &&& context_ciphersuite(ctx) is Some
            &&& !skip_signature_check ==> signature_valid
            &&& forall|i: int|
                0 <= i < ln.extensions@.len() ==> is_grease(#[trigger] ln.extensions@[i]) || is_default_extension(
                    ln.extensions@[i],
                ) || ln.capabilities.extensions@.contains(ln.extensions@[i])
            &&& ctx matches LeafContextView::KeyPackage(kp) ==> ln.source@ is KeyPackage && kp.lifetime_ok(ln.source@)
            &&& ctx is Commit ==> ln.source@ is Commit
            &&& ctx matches LeafContextView::Update { previous_encryption_key, previous_signature_key, .. } ==> {
                &&& ln.source@ is Update
                &&& ln.signature_key@ == previous_signature_key
                &&& ln.encryption_key@ != previous_encryption_key
            }
        },
{
}

} // verus!
