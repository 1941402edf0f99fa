//! Validation of the framing of a message: which key must have signed it
//! (RFC 9420, section 6.1).
use vstd::prelude::*;
use crate::mls::{external_allowed, external_senders_from, is_allowed_in_external_proposals, type_of,
    GroupContext, Proposal, Sender, UpdatePath};
use crate::ratchet_tree::RatchetTree;
use crate::tree_reader::leaf_at;
use crate::validations::proposals::{leaf_at_index, ProposalListValidationContext, ProposalSenderPair};
use crate::validations::{InvalidSignatureItem, ValidationError, signature_label, framed_content_label};
use crate::signatures::{verify_with_label, accepts, has_signer};
use crate::suites::named_ciphersuite;
use crate::tls::{VL_MAX, labelled, framed_content_parts, framed_content_tbs_parts};
use vstd::utf8::encode_utf8;

verus! {

/// A proposal in a commit, given in full or by reference.
pub enum ProposalOrRef {
    Proposal(Proposal),
    Reference(Vec<u8>),
}

/// A commit: the proposals it covers and its path.
pub struct Commit {
    pub proposals: Vec<ProposalOrRef>,
    pub path: Option<UpdatePath>,
}

/// What a message carries.
pub enum ContentTypeInner {
    Application(Vec<u8>),
    Proposal(Proposal),
    Commit(Commit),
}

/// A framed message, as far as the choice of its signing key reads it.
pub struct FramedContent {
    pub sender: Sender,
    pub content: ContentTypeInner,
}

/// A framed message with its authentication: what the rules read of it,
/// and the whole message as MLS encodes it (wire format, framed content and
/// authentication data), from which what it signs and its signature are
/// read.
pub struct AuthenticatedContent {
    pub content: FramedContent,
    pub encoded: Vec<u8>,
}

/// What a message is checked against.
#[derive(Clone, Copy)]
pub struct ContentValidationContext<'a> {
    pub group_context: &'a GroupContext,
    pub ratchet_tree: &'a RatchetTree,
}

/// The signature keys of a group's external senders.
pub open spec fn external_sender_keys(gc: GroupContext) -> Seq<Vec<u8>> {
    match external_senders_from(gc.extensions@, 0) {
        Some(i) => gc.extensions@[i]->ExternalSenders_0@,
        None => Seq::empty(),
    }
}

/// Some proposal of the commit is given by reference.
pub open spec fn has_reference(c: Commit) -> bool {
    exists|i: int| 0 <= i < c.proposals@.len() && #[trigger] c.proposals@[i] is Reference
}

/// The proposals of a commit given in full, each with the commit's sender.
pub open spec fn commit_pairs<'b>(c: Commit, sender: Sender) -> Seq<ProposalSenderPair<'b>> {
    c.proposals@.map_values(|p: ProposalOrRef| ProposalSenderPair { proposal: &p->Proposal_0, sender: &sender })
}

impl<'a> ContentValidationContext<'a> {
    /// The context that checks the proposals of an external commit.
    pub fn proposal_validation_ctx_for_ext_commit(&self, update_path: Option<&'a UpdatePath>) -> (r:
        ProposalListValidationContext<'a>)
        ensures
            r.ratchet_tree == self.ratchet_tree,
            r.group_context == self.group_context,
            *r.sender == Sender::NewMemberCommit,
            r.update_path == update_path,
            r.own_leaf_index is None,
    {
        ProposalListValidationContext {
            ratchet_tree: self.ratchet_tree,
            group_context: self.group_context,
            sender: &Sender::NewMemberCommit,
            update_path,
            own_leaf_index: None,
        }
    }

    /// The key that must have signed a message, or why there is none: a
    /// member's leaf key; an external sender's key, for a proposal external
    /// senders may make; the key of the path of a valid external commit; the
    /// key of the key package a joiner proposes to add.
    pub open spec fn key_outcome(&self, content: FramedContent) -> Result<Seq<u8>, ValidationError> {
        match content.sender {
            Sender::Member(i) => match leaf_at(self.ratchet_tree@, i * 2) {
                Some(l) => Ok(l.signature_key),
                None => Err(ValidationError::NoSuchLeafNode(i)),
            },
            Sender::External(j) => match content.content {
                ContentTypeInner::Proposal(p) => if !external_allowed(type_of(p)) {
                    Err(ValidationError::MalformedStructure)
                } else if j < external_sender_keys(*self.group_context).len() {
                    Ok(external_sender_keys(*self.group_context)[j as int]@)
                } else {
                    Err(ValidationError::NoSuchExternalSender(j))
                },
                _ => Err(ValidationError::MalformedStructure),
            },
            Sender::NewMemberCommit => match content.content {
                ContentTypeInner::Commit(c) => if has_reference(c) {
                    Err(ValidationError::MalformedStructure)
                } else {
                    match self.external_commit_context(c).commit_outcome(commit_pairs(c, Sender::NewMemberCommit)) {
                        Err(e) => Err(e),
                        Ok(_) => match c.path {
                            Some(p) => Ok(p.leaf_node.signature_key@),
                            None => Err(ValidationError::NoUpdatePath),
                        },
                    }
                },
                _ => Err(ValidationError::MalformedStructure),
            },
            Sender::NewMemberProposal => match content.content {
                ContentTypeInner::Proposal(Proposal::Add { key_package }) => Ok(key_package.leaf_node.signature_key@),
                _ => Err(ValidationError::MalformedStructure),
            },
        }
    }

    /// The context that checks the proposals of the external commit `c`.
    pub open spec fn external_commit_context(&self, c: Commit) -> ProposalListValidationContext<'a> {
        ProposalListValidationContext {
            ratchet_tree: self.ratchet_tree,
            group_context: self.group_context,
            sender: &Sender::NewMemberCommit,
            update_path: match c.path {
                Some(p) => Some(&p),
                None => None,
            },
            own_leaf_index: None,
        }
    }

    /// The key that must have signed a message, where there is one.
    pub fn signature_public_key<'b>(&self, content: &'b FramedContent) -> (r: Result<&'b Vec<u8>, ValidationError>)
        where 'a: 'b
        ensures
            match self.key_outcome(*content) {
                Ok(k) => r matches Ok(x) && x@ == k,
                Err(e) => r == Err::<&Vec<u8>, ValidationError>(e),
            },
    {
        match &content.sender {
            Sender::Member(leaf_index) => {
                match leaf_at_index(self.ratchet_tree, *leaf_index) {
                    Some(l) => Ok(&l.signature_key),
                    None => Err(ValidationError::NoSuchLeafNode(*leaf_index)),
                }
            },
            Sender::External(ext_sender_index) => {
                let proposal = match &content.content {
                    ContentTypeInner::Proposal(p) => p,
                    _ => {
                        return Err(ValidationError::MalformedStructure);
                    },
                };
                if !is_allowed_in_external_proposals(proposal.proposal_type()) {
                    return Err(ValidationError::MalformedStructure);
                }
                let senders = self.group_context.external_senders();
                let j = *ext_sender_index as usize;
                if (*ext_sender_index as u64) < senders.len() as u64 && j < senders.len() {
                    Ok(&senders[j])
                } else {
                    Err(ValidationError::NoSuchExternalSender(*ext_sender_index))
                }
            },
            Sender::NewMemberCommit => {
                let commit = match &content.content {
                    ContentTypeInner::Commit(c) => c,
                    _ => {
                        return Err(ValidationError::MalformedStructure);
                    },
                };
                let mut pairs: Vec<ProposalSenderPair<'b>> = Vec::new();
                let mut i: usize = 0;
                while i < commit.proposals.len()
                    invariant
                        i <= commit.proposals@.len(),
                        content.content == ContentTypeInner::Commit(*commit),
                        content.sender == Sender::NewMemberCommit,
                        forall|k: int| 0 <= k < i ==> !(#[trigger] commit.proposals@[k] is Reference),
                        pairs@ =~= commit_pairs(*commit, content.sender).take(i as int),
                    decreases commit.proposals@.len() - i,
                {
                    match &commit.proposals[i] {
                        ProposalOrRef::Proposal(p) => {
                            pairs.push(ProposalSenderPair { proposal: p, sender: &content.sender });
                        },
                        ProposalOrRef::Reference(_) => {
                            assert(commit.proposals@[i as int] is Reference);
                            assert(has_reference(*commit));
                            return Err(ValidationError::MalformedStructure);
                        },
                    }
                    i += 1;
                }
                assert(pairs@ =~= commit_pairs(*commit, content.sender));
                let ctx = self.proposal_validation_ctx_for_ext_commit(
                    match &commit.path {
                        Some(p) => Some(p),
                        None => None,
                    },
                );
                proof {
                    ctx.lemma_external_no_support_error(pairs@);
                }
                if let Err(e) = ctx.validate_commit(pairs.as_slice()) {
                    return Err(e);
                }
                match &commit.path {
                    Some(up) => Ok(&up.leaf_node.signature_key),
                    None => Err(ValidationError::NoUpdatePath),
                }
            },
            Sender::NewMemberProposal => {
                match &content.content {
                    ContentTypeInner::Proposal(Proposal::Add { key_package }) => Ok(&key_package.leaf_node.signature_key),
                    _ => Err(ValidationError::MalformedStructure),
                }
            },
        }
    }

    /// `key` accepts `signature` on `tbs`, the encoded content to be
    /// signed, under the group's ciphersuite and protocol version.
    pub open spec fn content_signature_ok(&self, key: Seq<u8>, tbs: Seq<u8>, signature: Seq<u8>) -> bool {
        &&& has_signer(named_ciphersuite(self.group_context.cipher_suite))
        &&& accepts(
            named_ciphersuite(self.group_context.cipher_suite),
            key,
            labelled(encode_utf8(signature_label(self.group_context.version, "FramedContentTBS"@)), tbs),
            signature,
        )
    }

    /// The message's signature verifies under `key`: what it signs (within
    /// the group's encoded context) and its signature are read from its
    /// encoding. A message whose encoding does not read, or whose signed
    /// part is too long to sign, does not verify.
    pub open spec fn content_signature_holds(&self, key: Seq<u8>, ac: AuthenticatedContent) -> bool {
        match framed_content_parts(ac.encoded@, self.group_context.encoded@) {
            Some((tbs, signature)) => tbs.len() <= VL_MAX && self.content_signature_ok(key, tbs, signature),
            None => false,
        }
    }

    /// Checks the framing of a message and its signature, under the key
    /// that must have signed it.
    pub fn validate_authenticated_content_signed(&self, ac: &AuthenticatedContent) -> (r: Result<(), ValidationError>)
        requires
            self.group_context.version <= 1,
        ensures
            match self.key_outcome(ac.content) {
                Err(e) => r == Err::<(), ValidationError>(e),
                Ok(key) => r == if self.content_signature_holds(key, *ac) {
                    Ok::<(), ValidationError>(())
                } else {
                    Err(ValidationError::InvalidSignature(InvalidSignatureItem::AuthenticatedContent))
                },
            },
    {
        let key = match self.signature_public_key(&ac.content) {
            Ok(k) => k,
            Err(e) => {
                return Err(e);
            },
        };
        let valid = match framed_content_tbs_parts(ac.encoded.as_slice(), self.group_context.encoded.as_slice()) {
            Ok((tbs, signature)) => {
                if tbs.len() > VL_MAX {
                    false
                } else {
                    let label = framed_content_label(self.group_context.version);
                    verify_with_label(key.as_slice(), self.group_context.cipher_suite, tbs.as_slice(), label, signature.as_slice()).is_ok()
                }
            },
            Err(_) => false,
        };
        self.validate_authenticated_content(&ac.content, valid)
    }

    /// Checks the framing of a message: its signing key must exist as
    /// above, and `signature_valid` tells whether the message's signature
    /// verifies under that key.
    pub fn validate_authenticated_content(&self, content: &FramedContent, signature_valid: bool) -> (r: Result<
        (),
        ValidationError,
    >)
        ensures
            match self.key_outcome(*content) {
                Err(e) => r == Err::<(), ValidationError>(e),
                Ok(_) => r == if signature_valid {
                    Ok::<(), ValidationError>(())
                } else {
                    Err(ValidationError::InvalidSignature(InvalidSignatureItem::AuthenticatedContent))
                },
            },
    {
        let key = self.signature_public_key(content);
        if let Err(e) = key {
            return Err(e);
        }
        if !signature_valid {
            return Err(ValidationError::InvalidSignature(InvalidSignatureItem::AuthenticatedContent));
        }
        Ok(())
    }
}

impl<'a> ContentValidationContext<'a> {
    /// An external sender signs with the key the group lists for it, for
    /// exactly the proposals RFC 9420 lets an external sender make (Add,
    /// Remove, PreSharedKey, ReInit and GroupContextExtensions, and the
    /// application data proposals); an Update, ExternalInit or SelfRemove
    /// from an external sender is malformed, whether or not it is listed.
    pub proof fn lemma_external_sender_key(&self, j: u32, p: Proposal)
        ensures
            ({
                let outcome = self.key_outcome(
                    FramedContent { sender: Sender::External(j), content: ContentTypeInner::Proposal(p) },
                );
                let keys = external_sender_keys(*self.group_context);
                &&& (p is Add || p is Remove || p is PreSharedKey || p is ReInit || p is GroupContextExtensions
                    || p is AppDataUpdate || p is AppEphemeral) ==> outcome == if j < keys.len() {
                    Ok::<Seq<u8>, ValidationError>(keys[j as int]@)
                } else {
                    Err(ValidationError::NoSuchExternalSender(j))
                }
                &&& (p is Update || p is ExternalInit || p is SelfRemove) ==> outcome == Err::<Seq<u8>, ValidationError>(
                    ValidationError::MalformedStructure,
                )
            }),
    {
    }

    /// A member signs with the signature key of the leaf at its index, and
    /// a message from an index without a leaf names no key; a new member's
    /// proposal can only be an Add, signed with the key of the added leaf.
    pub proof fn lemma_member_and_joiner_keys(&self, c: FramedContent)
        ensures
            c.sender matches Sender::Member(i) ==> self.key_outcome(c) == match leaf_at(
                self.ratchet_tree@,
                i * 2,
            ) {
                Some(l) => Ok::<Seq<u8>, ValidationError>(l.signature_key),
                None => Err(ValidationError::NoSuchLeafNode(i)),
            },
            c.sender is NewMemberProposal ==> self.key_outcome(c) == match c.content {
                ContentTypeInner::Proposal(Proposal::Add { key_package }) => Ok::<Seq<u8>, ValidationError>(
                    key_package.leaf_node.signature_key@,
                ),
                _ => Err(ValidationError::MalformedStructure),
            },
    {
    }
}

} // verus!
