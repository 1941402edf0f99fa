//! Validation of the proposals a commit covers (RFC 9420, section 12.2).
use vstd::prelude::*;
use std::collections::BTreeMap;
use crate::bytes::bytes_eq;
use crate::mls::{
    contains_extension, has_extension, is_default_proposal, is_spec_default_proposal, needs_path,
    needs_update_path, type_of, PROPOSAL_ADD, PROPOSAL_APP_DATA_UPDATE, PROPOSAL_APP_EPHEMERAL,
    PROPOSAL_EXTERNAL_INIT, PROPOSAL_GROUP_CONTEXT_EXTENSIONS, PROPOSAL_PSK, PROPOSAL_REINIT,
    PROPOSAL_SELF_REMOVE, PROPOSAL_UPDATE,
    GroupContext, KeyPackage, Proposal, Sender, UpdatePath, EXTENSION_APPLICATION_DATA_DICTIONARY,
    PROPOSAL_REMOVE,
};
use crate::ratchet_tree::{LeafNode, RatchetTree, TreeNode, TreeNodeView};
use crate::tree_reader::{leaf_at, ref_leaf_view};
use crate::validations::ValidationError;
use crate::validations::key_package::KeyPackageValidationContext;
use crate::validations::leaf_node::{GroupMemberValidationContext, LeafContextView, LeafNodeValidationContext, leaf_node_outcome, leaf_signature_holds};

verus! {

broadcast use vstd::std_specs::btree::group_btree_axioms;

/// What changed a leaf.
#[derive(Debug, Clone, Copy, PartialEq, Eq, Structural)]
pub enum MutationSource {
    Proposal(u16),
    UpdatePath,
}

/// What a valid commit does: the leaves it changes and by what, whether it
/// needs a path, and whether it starts a reinitialization.
#[derive(Debug)]
pub struct CommitSummary {
    pub mutated_leaves: BTreeMap<u32, Vec<MutationSource>>,
    pub needs_update_path: bool,
    pub reinit_pending: bool,
}

pub type Mutations = Map<u32, Seq<MutationSource>>;

impl CommitSummary {
    pub open spec fn mutations(&self) -> Mutations {
        self.mutated_leaves@.map_values(|v: Vec<MutationSource>| v@)
    }
}

/// `m` with `x` recorded last for leaf `k`.
pub open spec fn push_mutation(m: Mutations, k: u32, x: MutationSource) -> Mutations {
    m.insert(k, history(m, k).push(x))
}

/// What changed leaf `k` so far.
pub open spec fn history(m: Mutations, k: u32) -> Seq<MutationSource> {
    if m.contains_key(k) {
        m[k]
    } else {
        Seq::empty()
    }
}

/// A proposal and who sent it.
#[derive(Clone, Copy)]
pub struct ProposalSenderPair<'a> {
    pub proposal: &'a Proposal,
    pub sender: &'a Sender,
}

/// What a proposal list is checked against.
pub struct ProposalListValidationContext<'a> {
    pub ratchet_tree: &'a RatchetTree,
    pub group_context: &'a GroupContext,
    pub sender: &'a Sender,
    pub update_path: Option<&'a UpdatePath>,
    pub own_leaf_index: Option<&'a u32>,
}

/// The leaf at leaf index `i`, if the tree holds one there.
pub fn leaf_at_index<'a>(rt: &'a RatchetTree, i: u32) -> (r: Option<&'a LeafNode>)
    ensures
        ref_leaf_view(r) == leaf_at(rt@, i * 2),
{
    let n = rt.0.len();
    assert(rt@.len() == n);
    if (i as u64) * 2 >= n as u64 {
        return None;
    }
    let k = (i as usize) * 2;
    match &rt.0[k] {
        Some(TreeNode::LeafNode(l)) => Some(l),
        _ => None,
    }
}

/// Some leaf of the tree holds signature key `key`.
pub open spec fn tree_has_signature_key(s: Seq<Option<TreeNodeView>>, key: Seq<u8>) -> bool {
    exists|i: int|
        0 <= i < s.len() && i % 2 == 0 && (#[trigger] s[i] matches Some(TreeNodeView::LeafNode(l))
            && l.signature_key == key)
}

fn tree_holds_signature_key(rt: &RatchetTree, key: &Vec<u8>) -> (r: bool)
    ensures
        r == tree_has_signature_key(rt@, key@),
{
    let mut i: usize = 0;
    while i < rt.0.len()
        invariant
            i <= rt.0@.len(),
            rt@.len() == rt.0@.len(),
            forall|j: int|
                0 <= j < i && j % 2 == 0 ==> !(#[trigger] rt@[j] matches Some(TreeNodeView::LeafNode(l))
                    && l.signature_key == key@),
        decreases rt.0@.len() - i,
    {
        if i % 2 == 0 {
            if let Some(TreeNode::LeafNode(l)) = &rt.0[i] {
                assert(rt@[i as int] == Some(TreeNodeView::LeafNode(l@)));
                if bytes_eq(l.signature_key.as_slice(), key.as_slice()) {
                    return true;
                }
            }
        }
        i += 1;
    }
    false
}

/// The byte strings of a list of borrowed byte strings.
pub open spec fn byte_views(v: Seq<&Vec<u8>>) -> Seq<Seq<u8>> {
    v.map_values(|x: &Vec<u8>| x@)
}

fn holds_bytes(list: &Vec<&Vec<u8>>, x: &Vec<u8>) -> (r: bool)
    ensures
        r == byte_views(list@).contains(x@),
{
    let mut i: usize = 0;
    while i < list.len()
        invariant
            i <= list@.len(),
            forall|j: int| 0 <= j < i ==> byte_views(list@)[j] != x@,
        decreases list@.len() - i,
    {
        if bytes_eq(list[i].as_slice(), x.as_slice()) {
            assert(byte_views(list@)[i as int] == x@);
            return true;
        }
        i += 1;
    }
    false
}

fn holds_source(list: &Vec<MutationSource>, x: MutationSource) -> (r: bool)
    ensures
        r == list@.contains(x),
{
    let mut i: usize = 0;
    while i < list.len()
        invariant
            i <= list@.len(),
            forall|j: int| 0 <= j < i ==> list@[j] != x,
        decreases list@.len() - i,
    {
        if list[i] == x {
            return true;
        }
        i += 1;
    }
    false
}

/// Takes the history of leaf `k` out of the summary.
fn take_history(m: &mut BTreeMap<u32, Vec<MutationSource>>, k: u32) -> (r: Vec<MutationSource>)
    ensures
        r@ == history(old(m)@.map_values(|v: Vec<MutationSource>| v@), k),
        final(m)@ == old(m)@.remove(k),
{
    match m.remove(&k) {
        Some(v) => v,
        None => Vec::new(),
    }
}

/// Records `x` last for leaf `k`.
fn record(m: &mut BTreeMap<u32, Vec<MutationSource>>, k: u32, x: MutationSource)
    ensures
        final(m)@.map_values(|v: Vec<MutationSource>| v@) == push_mutation(
            old(m)@.map_values(|v: Vec<MutationSource>| v@),
            k,
            x,
        ),
{
    let ghost before = m@.map_values(|v: Vec<MutationSource>| v@);
    let mut h = take_history(m, k);
    h.push(x);
    m.insert(k, h);
    assert(m@.map_values(|v: Vec<MutationSource>| v@) =~= push_mutation(before, k, x));
}

/// The state of the checks of an external commit after some proposals.
pub struct ExternalState {
    pub mutations: Mutations,
    pub has_self_remove: bool,
    pub has_external_init: bool,
}

impl<'a> ProposalListValidationContext<'a> {
    /// One proposal of an external commit.
    pub open spec fn external_step(&self, st: ExternalState, p: ProposalSenderPair) -> Result<
        ExternalState,
        ValidationError,
    > {
        if *p.sender != *self.sender {
            Err(ValidationError::MalformedStructure)
        } else {
            match *p.proposal {
                Proposal::ExternalInit => if st.has_external_init {
                    Err(ValidationError::MultipleExternalInit)
                } else {
                    Ok(ExternalState { has_external_init: true, ..st })
                },
                Proposal::SelfRemove => if st.has_self_remove {
                    Err(ValidationError::MutipleSelfRemove)
                } else {
                    match self.own_leaf_index {
                        None => Err(ValidationError::ExternalCommitRemovesUnownedNode),
                        Some(own) => Ok(
                            ExternalState {
                                mutations: push_mutation(
                                    st.mutations,
                                    *own,
                                    MutationSource::Proposal(PROPOSAL_REMOVE),
                                ),
                                has_self_remove: true,
                                ..st
                            },
                        ),
                    }
                },
                Proposal::Remove { removed } => if st.has_self_remove {
                    Err(ValidationError::MutipleSelfRemove)
                } else {
                    match leaf_at(self.ratchet_tree@, removed * 2) {
                        None => Err(ValidationError::NoSuchLeafNode(removed)),
                        Some(l) => match self.update_path {
                            None => Err(ValidationError::NoUpdatePath),
                            Some(up) => if up.leaf_node.signature_key@ != l.signature_key {
                                Err(ValidationError::ExternalCommitRemovesUnownedNode)
                            } else {
                                Ok(
                                    ExternalState {
                                        mutations: push_mutation(
                                            st.mutations,
                                            removed,
                                            MutationSource::Proposal(PROPOSAL_REMOVE),
                                        ),
                                        has_self_remove: true,
                                        ..st
                                    },
                                )
                            },
                        },
                    }
                },
                Proposal::PreSharedKey { .. } => Ok(st),
                Proposal::AppDataUpdate => Ok(st),
                _ => Err(ValidationError::InvalidProposal(type_of(*p.proposal))),
            }
        }
    }

    /// The checks of an external commit over a list of proposals, stopping
    /// at the first failure.
    pub open spec fn external_run(&self, ps: Seq<ProposalSenderPair>) -> Result<ExternalState, ValidationError>
        decreases ps.len(),
    {
        if ps.len() == 0 {
            Ok(ExternalState { mutations: Map::empty(), has_self_remove: false, has_external_init: false })
        } else {
            match self.external_run(ps.drop_last()) {
                Err(e) => Err(e),
                Ok(st) => self.external_step(st, ps.last()),
            }
        }
    }

    /// What validating an external commit gives: the leaves it removes,
    /// with a path needed, or the first rule it breaks.
    pub open spec fn external_commit_outcome(&self, ps: Seq<ProposalSenderPair>) -> Result<
        (Mutations, bool, bool),
        ValidationError,
    > {
        if *self.sender != Sender::NewMemberCommit {
            Err(ValidationError::ApiMisuse("Not an external commit in `validate_external_commit()`"))
        } else if self.update_path is None {
            Err(ValidationError::NoUpdatePath)
        } else {
            match self.external_run(ps) {
                Err(e) => Err(e),
                Ok(st) => if !st.has_external_init {
                    Err(ValidationError::NoExternalInit)
                } else {
                    Ok((st.mutations, true, false))
                },
            }
        }
    }

    /// An external commit is never refused for member support of proposal
    /// types: only regular commits check it.
    pub proof fn lemma_external_no_support_error(&self, ps: Seq<ProposalSenderPair>)
        ensures
            !(self.external_run(ps) matches Err(ValidationError::NotAllMembersSupportProposalTypes(_))),
            !(self.external_commit_outcome(ps) matches Err(ValidationError::NotAllMembersSupportProposalTypes(_))),
        decreases ps.len(),
    {
        if ps.len() > 0 {
            self.lemma_external_no_support_error(ps.drop_last());
        }
    }

    /// A failure part way through a list is the failure of the whole list.
    pub proof fn lemma_external_failure_sticks(&self, ps: Seq<ProposalSenderPair>, k: int)
        requires
            0 <= k <= ps.len(),
            self.external_run(ps.take(k)) is Err,
        ensures
            self.external_run(ps) == self.external_run(ps.take(k)),
        decreases ps.len() - k,
    {
        if k == ps.len() {
            assert(ps.take(k) =~= ps);
        } else {
            assert(ps.take(k + 1).drop_last() =~= ps.take(k));
            self.lemma_external_failure_sticks(ps, k + 1);
        }
    }

    /// Checks one proposal of an external commit and records what it does.
    fn external_step_exec(
        &self,
        pair: ProposalSenderPair,
        mutated: &mut BTreeMap<u32, Vec<MutationSource>>,
        has_self_remove: &mut bool,
        has_external_init: &mut bool,
    ) -> (r: Result<(), ValidationError>)
        ensures
            match self.external_step(
                ExternalState {
                    mutations: old(mutated)@.map_values(|v: Vec<MutationSource>| v@),
                    has_self_remove: *old(has_self_remove),
                    has_external_init: *old(has_external_init),
                },
                pair,
            ) {
                Ok(st) => r is Ok && st == (ExternalState {
                    mutations: final(mutated)@.map_values(|v: Vec<MutationSource>| v@),
                    has_self_remove: *final(has_self_remove),
                    has_external_init: *final(has_external_init),
                }),
                Err(e) => r == Err::<(), ValidationError>(e),
            },
    {
        if *pair.sender != *self.sender {
            return Err(ValidationError::MalformedStructure);
        }
        match pair.proposal {
            Proposal::ExternalInit => {
                if *has_external_init {
                    return Err(ValidationError::MultipleExternalInit);
                }
                *has_external_init = true;
            },
            Proposal::SelfRemove => {
                if *has_self_remove {
                    return Err(ValidationError::MutipleSelfRemove);
                }
                let own = match self.own_leaf_index {
                    Some(own) => *own,
                    None => {
                        return Err(ValidationError::ExternalCommitRemovesUnownedNode);
                    },
                };
                record(mutated, own, MutationSource::Proposal(PROPOSAL_REMOVE));
                *has_self_remove = true;
            },
            Proposal::Remove { removed } => {
                if *has_self_remove {
                    return Err(ValidationError::MutipleSelfRemove);
                }
                let removed_leaf = match leaf_at_index(self.ratchet_tree, *removed) {
                    Some(l) => l,
                    None => {
                        return Err(ValidationError::NoSuchLeafNode(*removed));
                    },
                };
                let update_path = match self.update_path {
                    Some(up) => up,
                    None => {
                        return Err(ValidationError::NoUpdatePath);
                    },
                };
                if !bytes_eq(
                    update_path.leaf_node.signature_key.as_slice(),
                    removed_leaf.signature_key.as_slice(),
                ) {
                    return Err(ValidationError::ExternalCommitRemovesUnownedNode);
                }
                record(mutated, *removed, MutationSource::Proposal(PROPOSAL_REMOVE));
                *has_self_remove = true;
            },
            Proposal::PreSharedKey { .. } | Proposal::AppDataUpdate => {},
            _ => {
                return Err(ValidationError::InvalidProposal(pair.proposal.proposal_type()));
            },
        }
        Ok(())
    }

    /// https://www.rfc-editor.org/rfc/rfc9420.html#section-12.2-5
    pub fn validate_external_commit(&self, proposals: &[ProposalSenderPair]) -> (r: Result<
        CommitSummary,
        ValidationError,
    >)
        ensures
            summary_matches(r, self.external_commit_outcome(proposals@)),
    {
        match self.sender {
            Sender::NewMemberCommit => {},
            _ => {
                return Err(
                    ValidationError::ApiMisuse("Not an external commit in `validate_external_commit()`"),
                );
            },
        }
        if self.update_path.is_none() {
            return Err(ValidationError::NoUpdatePath);
        }
        let mut mutated: BTreeMap<u32, Vec<MutationSource>> = BTreeMap::new();
        let mut has_self_remove = false;
        let mut has_external_init = false;
        let mut i: usize = 0;
        assert(mutated@.map_values(|v: Vec<MutationSource>| v@) =~= Map::<u32, Seq<MutationSource>>::empty());
        assert(proposals@.take(0) =~= Seq::<ProposalSenderPair>::empty());
        while i < proposals.len()
            invariant
                i <= proposals@.len(),
                *self.sender == Sender::NewMemberCommit,
                self.update_path is Some,
                self.external_run(proposals@.take(i as int)) == Ok::<ExternalState, ValidationError>(
                    ExternalState {
                        mutations: mutated@.map_values(|v: Vec<MutationSource>| v@),
                        has_self_remove,
                        has_external_init,
                    },
                ),
            decreases proposals@.len() - i,
        {
            let pair = proposals[i];
            assert(proposals@.take(i + 1).drop_last() =~= proposals@.take(i as int));
            assert(proposals@.take(i + 1).last() == pair);
            let ghost st = ExternalState {
                mutations: mutated@.map_values(|v: Vec<MutationSource>| v@),
                has_self_remove,
                has_external_init,
            };
            let step = self.external_step_exec(pair, &mut mutated, &mut has_self_remove, &mut has_external_init);
            if let Err(e) = step {
                proof {
                    assert(self.external_run(proposals@.take(i + 1)) == self.external_step(st, pair));
                    self.lemma_external_failure_sticks(proposals@, i + 1);
                }
                return Err(e);
            }
            i += 1;
        }
        assert(proposals@.take(proposals@.len() as int) =~= proposals@);
        if !has_external_init {
            return Err(ValidationError::NoExternalInit);
        }
        Ok(CommitSummary { mutated_leaves: mutated, needs_update_path: true, reinit_pending: false })
    }
}

/// A proposal that may come before a reinitialization.
pub open spec fn reinit_compatible(p: Proposal) -> bool {
    p is ReInit || p is AppDataUpdate || p is AppEphemeral
}

/// The summary returned is the one `outcome` describes, or the error is.
pub open spec fn summary_matches(
    r: Result<CommitSummary, ValidationError>,
    outcome: Result<(Mutations, bool, bool), ValidationError>,
) -> bool {
    match outcome {
        Ok((m, path, reinit)) => r matches Ok(s) && s.mutations() == m && s.needs_update_path == path
            && s.reinit_pending == reinit,
        Err(ValidationError::NotAllMembersSupportProposalTypes(v)) => r matches Err(
            ValidationError::NotAllMembersSupportProposalTypes(w),
        ) && w@ == v@,
        Err(e) => r == Err::<CommitSummary, ValidationError>(e),
    }
}

} // verus!

verus! {

/// The state of the checks of a regular commit after some proposals.
pub struct RegularState {
    pub gce_count: nat,
    pub psks: Seq<Seq<u8>>,
    pub added: Seq<Seq<u8>>,
    pub has_others: bool,
    pub mutations: Mutations,
    pub needs_path: bool,
    pub reinit: bool,
}

impl<'a> ProposalListValidationContext<'a> {
    /// One proposal of a regular commit by `own`'s group; `commit_self`
    /// tells whether the commit's sender is `own`.
    pub open spec fn regular_step(&self, own: u32, commit_self: bool, st: RegularState, p: ProposalSenderPair) -> Result<
        RegularState,
        ValidationError,
    > {
        let proposal_self = *p.sender == *self.sender;
        let t = type_of(*p.proposal);
        let st = RegularState { needs_path: st.needs_path || needs_path(t), ..st };
        match *p.proposal {
            Proposal::Add { key_package } => {
                let key = key_package.leaf_node.signature_key@;
                if tree_has_signature_key(self.ratchet_tree@, key) || st.added.contains(key) {
                    Err(ValidationError::DuplicateClient)
                } else {
                    Ok(RegularState { has_others: true, added: st.added.push(key), ..st })
                }
            },
            Proposal::Update { .. } => if commit_self && proposal_self {
                Err(ValidationError::CannotApplySelfUpdate)
            } else {
                match *p.sender {
                    Sender::Member(leaf) => if history(st.mutations, leaf).len() > 0 {
                        Err(ValidationError::MultipleUpdateOrRemoveOnLeaf)
                    } else {
                        Ok(
                            RegularState {
                                has_others: true,
                                mutations: push_mutation(st.mutations, leaf, MutationSource::Proposal(t)),
                                ..st
                            },
                        )
                    },
                    _ => Err(ValidationError::IncorrectTargetLeaf),
                }
            },
            Proposal::SelfRemove => if commit_self {
                Err(ValidationError::CannotApplySelfRemoval)
            } else if history(st.mutations, own).len() > 0 {
                Err(ValidationError::MultipleUpdateOrRemoveOnLeaf)
            } else {
                Ok(
                    RegularState {
                        has_others: true,
                        mutations: push_mutation(st.mutations, own, MutationSource::Proposal(PROPOSAL_REMOVE)),
                        ..st
                    },
                )
            },
            Proposal::Remove { removed } => if commit_self && removed == own {
                Err(ValidationError::CannotApplySelfRemoval)
            } else if history(st.mutations, removed).len() > 0 {
                Err(ValidationError::MultipleUpdateOrRemoveOnLeaf)
            } else {
                Ok(
                    RegularState {
                        has_others: true,
                        mutations: push_mutation(st.mutations, removed, MutationSource::Proposal(t)),
                        ..st
                    },
                )
            },
            Proposal::PreSharedKey { psk } => if st.psks.contains(psk@) {
                Err(ValidationError::PreSharedKeyMultipleAdd)
            } else {
                Ok(RegularState { has_others: true, psks: st.psks.push(psk@), ..st })
            },
            Proposal::ReInit => if st.has_others {
                Err(ValidationError::ReInitWithOtherProposals)
            } else {
                Ok(RegularState { reinit: true, ..st })
            },
            Proposal::ExternalInit => Err(ValidationError::InvalidProposal(t)),
            Proposal::GroupContextExtensions { extensions } => if st.gce_count + 1 > 1 {
                Err(ValidationError::MultipleGroupContextExtensions)
            } else if has_extension(self.group_context.extensions@, EXTENSION_APPLICATION_DATA_DICTIONARY)
                && has_extension(extensions@, EXTENSION_APPLICATION_DATA_DICTIONARY) {
                Err(ValidationError::ForbiddenGceAppDataDictUpdate)
            } else {
                Ok(RegularState { has_others: true, gce_count: st.gce_count + 1, ..st })
            },
            Proposal::AppDataUpdate => Ok(st),
            Proposal::AppEphemeral => Ok(st),
        }
    }

    /// The checks of a regular commit over a list of proposals, stopping at
    /// the first failure.
    pub open spec fn regular_run(&self, own: u32, commit_self: bool, ps: Seq<ProposalSenderPair>) -> Result<
        RegularState,
        ValidationError,
    >
        decreases ps.len(),
    {
        if ps.len() == 0 {
            Ok(
                RegularState {
                    gce_count: 0,
                    psks: Seq::empty(),
                    added: Seq::empty(),
                    has_others: false,
                    mutations: Map::empty(),
                    needs_path: false,
                    reinit: false,
                },
            )
        } else {
            match self.regular_run(own, commit_self, ps.drop_last()) {
                Err(e) => Err(e),
                Ok(st) => self.regular_step(own, commit_self, st, ps.last()),
            }
        }
    }

    /// What validating a regular commit gives: the leaves it updates and
    /// removes, whether it needs a path and starts a reinitialization, or the
    /// first rule it breaks.
    pub open spec fn regular_commit_outcome(&self, ps: Seq<ProposalSenderPair>) -> Result<
        (Mutations, bool, bool),
        ValidationError,
    > {
        match self.own_leaf_index {
            None => Err(ValidationError::ApiMisuse("Not a regular commit in `validate_regular_commit()`")),
            Some(own) => {
                let commit_self = *self.sender == Sender::Member(*own);
                let types = non_default_types(ps);
                if !members_support(self.ratchet_tree@, types) {
                    Err(
                        ValidationError::NotAllMembersSupportProposalTypes(
                            choose|v: Vec<u16>| v@ == types,
                        ),
                    )
                } else {
                match self.regular_run(*own, commit_self, ps) {
                    Err(e) => Err(e),
                    Ok(st) => if st.needs_path && self.update_path is None {
                        Err(ValidationError::NoUpdatePath)
                    } else {
                        Ok((st.mutations, st.needs_path, st.reinit))
                    },
                }
                }
            },
        }
    }

    pub proof fn lemma_regular_failure_sticks(
        &self,
        own: u32,
        commit_self: bool,
        ps: Seq<ProposalSenderPair>,
        k: int,
    )
        requires
            0 <= k <= ps.len(),
            self.regular_run(own, commit_self, ps.take(k)) is Err,
        ensures
            self.regular_run(own, commit_self, ps) == self.regular_run(own, commit_self, ps.take(k)),
        decreases ps.len() - k,
    {
        if k == ps.len() {
            assert(ps.take(k) =~= ps);
        } else {
            assert(ps.take(k + 1).drop_last() =~= ps.take(k));
            self.lemma_regular_failure_sticks(own, commit_self, ps, k + 1);
        }
    }

    /// Checks one proposal of a regular commit and records what it does.
    fn regular_step_exec(
        &self,
        own: u32,
        commit_self: bool,
        pair: ProposalSenderPair<'a>,
        gce_count: &mut usize,
        seen_psks: &mut Vec<&'a Vec<u8>>,
        added: &mut Vec<&'a Vec<u8>>,
        has_others: &mut bool,
        mutated: &mut BTreeMap<u32, Vec<MutationSource>>,
        needs_update: &mut bool,
        reinit: &mut bool,
    ) -> (r: Result<(), ValidationError>)
        requires
            *old(gce_count) <= 1,
        ensures
            *final(gce_count) <= 1,
            match self.regular_step(
                own,
                commit_self,
                RegularState {
                    gce_count: *old(gce_count) as nat,
                    psks: byte_views(old(seen_psks)@),
                    added: byte_views(old(added)@),
                    has_others: *old(has_others),
                    mutations: old(mutated)@.map_values(|v: Vec<MutationSource>| v@),
                    needs_path: *old(needs_update),
                    reinit: *old(reinit),
                },
                pair,
            ) {
                Ok(st) => r is Ok && st == (RegularState {
                    gce_count: *final(gce_count) as nat,
                    psks: byte_views(final(seen_psks)@),
                    added: byte_views(final(added)@),
                    has_others: *final(has_others),
                    mutations: final(mutated)@.map_values(|v: Vec<MutationSource>| v@),
                    needs_path: *final(needs_update),
                    reinit: *final(reinit),
                }),
                Err(e) => r == Err::<(), ValidationError>(e),
            },
    {
        let proposal_self = *pair.sender == *self.sender;
        let t = pair.proposal.proposal_type();
        *needs_update = *needs_update || needs_update_path(t);
        match pair.proposal {
            Proposal::Add { key_package } => {
                let key = &key_package.leaf_node.signature_key;
                if tree_holds_signature_key(self.ratchet_tree, key) {
                    return Err(ValidationError::DuplicateClient);
                }
                if holds_bytes(added, key) {
                    return Err(ValidationError::DuplicateClient);
                }
                let ghost before = added@;
                added.push(key);
                assert(byte_views(added@) =~= byte_views(before).push(key@));
                *has_others = true;
            },
            Proposal::Update { .. } => {
                if commit_self && proposal_self {
                    return Err(ValidationError::CannotApplySelfUpdate);
                }
                let leaf = match pair.sender {
                    Sender::Member(leaf) => *leaf,
                    _ => {
                        return Err(ValidationError::IncorrectTargetLeaf);
                    },
                };
                let ghost m = mutated@.map_values(|v: Vec<MutationSource>| v@);
                let mut h = take_history(mutated, leaf);
                if h.len() > 0 {
                    return Err(ValidationError::MultipleUpdateOrRemoveOnLeaf);
                }
                let source = MutationSource::Proposal(t);
                h.push(source);
                mutated.insert(leaf, h);
                assert(mutated@.map_values(|v: Vec<MutationSource>| v@) =~= push_mutation(m, leaf, source));
                *has_others = true;
            },
            Proposal::SelfRemove => {
                if commit_self {
                    return Err(ValidationError::CannotApplySelfRemoval);
                }
                let ghost m = mutated@.map_values(|v: Vec<MutationSource>| v@);
                let mut h = take_history(mutated, own);
                let source = MutationSource::Proposal(PROPOSAL_REMOVE);
                if h.len() > 0 {
                    return Err(ValidationError::MultipleUpdateOrRemoveOnLeaf);
                }
                h.push(source);
                mutated.insert(own, h);
                assert(mutated@.map_values(|v: Vec<MutationSource>| v@) =~= push_mutation(m, own, source));
                *has_others = true;
            },
            Proposal::Remove { removed } => {
                if commit_self && *removed == own {
                    return Err(ValidationError::CannotApplySelfRemoval);
                }
                let ghost m = mutated@.map_values(|v: Vec<MutationSource>| v@);
                let mut h = take_history(mutated, *removed);
                let source = MutationSource::Proposal(t);
                if h.len() > 0 {
                    return Err(ValidationError::MultipleUpdateOrRemoveOnLeaf);
                }
                h.push(source);
                mutated.insert(*removed, h);
                assert(mutated@.map_values(|v: Vec<MutationSource>| v@) =~= push_mutation(m, *removed, source));
                *has_others = true;
            },
            Proposal::PreSharedKey { psk } => {
                if holds_bytes(seen_psks, psk) {
                    return Err(ValidationError::PreSharedKeyMultipleAdd);
                }
                let ghost before = seen_psks@;
                seen_psks.push(psk);
                assert(byte_views(seen_psks@) =~= byte_views(before).push(psk@));
                *has_others = true;
            },
            Proposal::ReInit => {
                if *has_others {
                    return Err(ValidationError::ReInitWithOtherProposals);
                }
                *reinit = true;
            },
            Proposal::ExternalInit => {
                return Err(ValidationError::InvalidProposal(t));
            },
            Proposal::GroupContextExtensions { extensions } => {
                if *gce_count >= 1 {
                    return Err(ValidationError::MultipleGroupContextExtensions);
                }
                if contains_extension(&self.group_context.extensions, EXTENSION_APPLICATION_DATA_DICTIONARY)
                    && contains_extension(extensions, EXTENSION_APPLICATION_DATA_DICTIONARY) {
                    return Err(ValidationError::ForbiddenGceAppDataDictUpdate);
                }
                *gce_count = *gce_count + 1;
                *has_others = true;
            },
            Proposal::AppDataUpdate => {},
            Proposal::AppEphemeral => {},
        }
        Ok(())
    }
}

} // verus!

verus! {

/// Every member of the tree lists each of `types` among the proposals it
/// supports.
pub open spec fn members_support(s: Seq<Option<TreeNodeView>>, types: Seq<u16>) -> bool {
    forall|i: int, j: int|
        0 <= i < s.len() && i % 2 == 0 && 0 <= j < types.len() ==> (#[trigger] s[i] matches Some(
            TreeNodeView::LeafNode(l),
        ) ==> l.capabilities.proposals.contains(#[trigger] types[j]))
}

fn all_members_support(rt: &RatchetTree, types: &Vec<u16>) -> (r: bool)
    ensures
        r == members_support(rt@, types@),
{
    let mut i: usize = 0;
    while i < rt.0.len()
        invariant
            i <= rt.0@.len(),
            rt@.len() == rt.0@.len(),
            members_support(rt@.take(i as int), types@),
        decreases rt.0@.len() - i,
    {
        if i % 2 == 0 {
            if let Some(TreeNode::LeafNode(l)) = &rt.0[i] {
                assert(rt@[i as int] == Some(TreeNodeView::LeafNode(l@)));
                let mut j: usize = 0;
                while j < types.len()
                    invariant
                        j <= types@.len(),
                        i < rt@.len(),
                        i % 2 == 0,
                        rt@.len() == rt.0@.len(),
                        rt@[i as int] == Some(TreeNodeView::LeafNode(l@)),
                        members_support(rt@.take(i as int), types@),
                        forall|k: int| 0 <= k < j ==> l.capabilities.proposals@.contains(#[trigger] types@[k]),
                    decreases types@.len() - j,
                {
                    if !crate::bytes::codes_contain(l.capabilities.proposals.as_slice(), types[j]) {
                        assert(!l@.capabilities.proposals.contains(types@[j as int]));
                        return false;
                    }
                    j += 1;
                }
            }
        }
        assert(members_support(rt@.take(i + 1), types@)) by {
            assert forall|a: int, b: int|
                0 <= a < i + 1 && a % 2 == 0 && 0 <= b < types@.len() implies (#[trigger] rt@.take(i + 1)[a] matches Some(
                TreeNodeView::LeafNode(l),
            ) ==> l.capabilities.proposals.contains(#[trigger] types@[b])) by {
                if a < i {
                    assert(rt@.take(i as int)[a] == rt@.take(i + 1)[a]);
                }
            }
        }
        i += 1;
    }
    assert(rt@.take(rt@.len() as int) =~= rt@);
    true
}

/// The proposal types of the list that RFC 9420 does not define.
pub open spec fn non_default_types(ps: Seq<ProposalSenderPair>) -> Seq<u16>
    decreases ps.len(),
{
    if ps.len() == 0 {
        Seq::empty()
    } else {
        let rest = non_default_types(ps.drop_last());
        let t = type_of(*ps.last().proposal);
        if is_default_proposal(t) { rest } else { rest.push(t) }
    }
}

fn non_default_proposal_types(proposals: &[ProposalSenderPair]) -> (r: Vec<u16>)
    ensures
        r@ == non_default_types(proposals@),
{
    let mut out: Vec<u16> = Vec::new();
    let mut i: usize = 0;
    while i < proposals.len()
        invariant
            i <= proposals@.len(),
            out@ == non_default_types(proposals@.take(i as int)),
        decreases proposals@.len() - i,
    {
        assert(proposals@.take(i + 1).drop_last() =~= proposals@.take(i as int));
        let t = proposals[i].proposal.proposal_type();
        if !is_spec_default_proposal(t) {
            out.push(t);
        }
        i += 1;
    }
    assert(proposals@.take(proposals@.len() as int) =~= proposals@);
    out
}

impl<'a> ProposalListValidationContext<'a> {
    /// https://www.rfc-editor.org/rfc/rfc9420.html#section-12.2-2
    pub fn validate_regular_commit(&self, proposals: &[ProposalSenderPair<'a>]) -> (r: Result<
        CommitSummary,
        ValidationError,
    >)
        ensures
            summary_matches(r, self.regular_commit_outcome(proposals@)),
    {
        let own = match self.own_leaf_index {
            Some(own) => *own,
            None => {
                return Err(ValidationError::ApiMisuse("Not a regular commit in `validate_regular_commit()`"));
            },
        };
        let commit_self = match self.sender {
            Sender::Member(idx) => *idx == own,
            _ => false,
        };
        // Every group member must support the proposal types outside RFC
        // 9420 that the commit holds.
        let non_default = non_default_proposal_types(proposals);
        if !all_members_support(self.ratchet_tree, &non_default) {
            assert(exists|v: Vec<u16>| v@ == non_default_types(proposals@));
            return Err(ValidationError::NotAllMembersSupportProposalTypes(non_default));
        }
        let mut gce_count: usize = 0;
        let mut seen_psks: Vec<&'a Vec<u8>> = Vec::new();
        let mut added: Vec<&'a Vec<u8>> = Vec::new();
        let mut has_others = false;
        let mut mutated: BTreeMap<u32, Vec<MutationSource>> = BTreeMap::new();
        let mut needs_update = false;
        let mut reinit = false;
        assert(mutated@.map_values(|v: Vec<MutationSource>| v@) =~= Map::<u32, Seq<MutationSource>>::empty());
        assert(proposals@.take(0) =~= Seq::<ProposalSenderPair>::empty());
        assert(byte_views(seen_psks@) =~= Seq::<Seq<u8>>::empty());
        assert(byte_views(added@) =~= Seq::<Seq<u8>>::empty());
        let mut i: usize = 0;
        while i < proposals.len()
            invariant
                i <= proposals@.len(),
                self.own_leaf_index == Some(&own),
                commit_self == (*self.sender == Sender::Member(own)),
                members_support(self.ratchet_tree@, non_default_types(proposals@)),
                gce_count <= 1,
                self.regular_run(own, commit_self, proposals@.take(i as int)) == Ok::<
                    RegularState,
                    ValidationError,
                >(
                    RegularState {
                        gce_count: gce_count as nat,
                        psks: byte_views(seen_psks@),
                        added: byte_views(added@),
                        has_others,
                        mutations: mutated@.map_values(|v: Vec<MutationSource>| v@),
                        needs_path: needs_update,
                        reinit,
                    },
                ),
            decreases proposals@.len() - i,
        {
            let pair = proposals[i];
            assert(proposals@.take(i + 1).drop_last() =~= proposals@.take(i as int));
            assert(proposals@.take(i + 1).last() == pair);
            let ghost st = RegularState {
                gce_count: gce_count as nat,
                psks: byte_views(seen_psks@),
                added: byte_views(added@),
                has_others,
                mutations: mutated@.map_values(|v: Vec<MutationSource>| v@),
                needs_path: needs_update,
                reinit,
            };
            let step = self.regular_step_exec(
                own,
                commit_self,
                pair,
                &mut gce_count,
                &mut seen_psks,
                &mut added,
                &mut has_others,
                &mut mutated,
                &mut needs_update,
                &mut reinit,
            );
            if let Err(e) = step {
                proof {
                    assert(self.regular_run(own, commit_self, proposals@.take(i + 1)) == self.regular_step(
                        own,
                        commit_self,
                        st,
                        pair,
                    ));
                    self.lemma_regular_failure_sticks(own, commit_self, proposals@, i + 1);
                }
                return Err(e);
            }
            i += 1;
        }
        assert(proposals@.take(proposals@.len() as int) =~= proposals@);
        if needs_update && self.update_path.is_none() {
            return Err(ValidationError::NoUpdatePath);
        }
        Ok(CommitSummary { mutated_leaves: mutated, needs_update_path: needs_update, reinit_pending: reinit })
    }

    /// What validating the proposals of a commit gives, by who sent it.
    pub open spec fn commit_outcome(&self, ps: Seq<ProposalSenderPair>) -> Result<
        (Mutations, bool, bool),
        ValidationError,
    > {
        match *self.sender {
            Sender::Member(_) => self.regular_commit_outcome(ps),
            Sender::NewMemberCommit => self.external_commit_outcome(ps),
            _ => Err(ValidationError::ApiMisuse("`validate_commit` called on...not a Commit")),
        }
    }

    /// https://www.rfc-editor.org/rfc/rfc9420.html#name-proposal-list-validation
    pub fn validate_commit(&self, proposals: &[ProposalSenderPair<'a>]) -> (r: Result<
        CommitSummary,
        ValidationError,
    >)
        ensures
            summary_matches(r, self.commit_outcome(proposals@)),
    {
        match self.sender {
            Sender::Member(_) => self.validate_regular_commit(proposals),
            Sender::NewMemberCommit => self.validate_external_commit(proposals),
            _ => Err(ValidationError::ApiMisuse("`validate_commit` called on...not a Commit")),
        }
    }

    /// <https://www.rfc-editor.org/rfc/rfc9420.html#section-12.3-1>
    pub fn sorting_order_for_proposal_type(pt: u16) -> (r: usize)
        ensures
            r == sorting_order(pt),
    {
        match pt {
            0x0007 => 0,
            0x0002 => 1,
            0x000A => 2,
            0x0003 => 3,
            0x0001 => 4,
            0x0004 => 5,
            0x0006 => 6,
            0x0005 => 7,
            0x0009 => 8,
            0x0008 => 9,
            _ => usize::MAX,
        }
    }
}

/// The rank of a proposal type in the order proposals are applied:
/// group context extensions, updates, self removals, removals, adds,
/// pre-shared keys, external inits, reinitializations, ephemeral and
/// data-update application proposals, then the rest.
pub open spec fn sorting_order(pt: u16) -> usize {
    if pt == PROPOSAL_GROUP_CONTEXT_EXTENSIONS {
        0
    } else if pt == PROPOSAL_UPDATE {
        1
    } else if pt == PROPOSAL_SELF_REMOVE {
        2
    } else if pt == PROPOSAL_REMOVE {
        3
    } else if pt == PROPOSAL_ADD {
        4
    } else if pt == PROPOSAL_PSK {
        5
    } else if pt == PROPOSAL_EXTERNAL_INIT {
        6
    } else if pt == PROPOSAL_REINIT {
        7
    } else if pt == PROPOSAL_APP_EPHEMERAL {
        8
    } else if pt == PROPOSAL_APP_DATA_UPDATE {
        9
    } else {
        usize::MAX
    }
}

} // verus!

verus! {

/// `h` records a removal at most once.
pub open spec fn removed_at_most_once(h: Seq<MutationSource>) -> bool {
    forall|a: int, b: int|
        0 <= a < b < h.len() ==> !(#[trigger] h[a] == MutationSource::Proposal(PROPOSAL_REMOVE) && #[trigger] h[b]
            == MutationSource::Proposal(PROPOSAL_REMOVE))
}

/// Some proposal of the list has type `t`.
pub open spec fn has_type(ps: Seq<ProposalSenderPair>, t: u16) -> bool {
    exists|i: int| 0 <= i < ps.len() && type_of(*(#[trigger] ps[i]).proposal) == t
}

/// Some proposal of the list needs a path.
pub open spec fn some_needs_path(ps: Seq<ProposalSenderPair>) -> bool {
    exists|i: int| 0 <= i < ps.len() && needs_path(type_of(*(#[trigger] ps[i]).proposal))
}

/// The added clients' signature keys of a list of proposals.
pub open spec fn added_keys(ps: Seq<ProposalSenderPair>) -> Seq<Seq<u8>>
    decreases ps.len(),
{
    if ps.len() == 0 {
        Seq::empty()
    } else {
        let rest = added_keys(ps.drop_last());
        match *ps.last().proposal {
            Proposal::Add { key_package } => rest.push(key_package.leaf_node.signature_key@),
            _ => rest,
        }
    }
}

impl<'a> ProposalListValidationContext<'a> {
    proof fn lemma_regular_run_facts(&self, own: u32, commit_self: bool, ps: Seq<ProposalSenderPair>)
        ensures
            self.regular_run(own, commit_self, ps) matches Ok(st) ==> {
                &&& st.needs_path == some_needs_path(ps)
                &&& st.gce_count <= 1
                &&& (st.gce_count == 1 <==> has_type(ps, PROPOSAL_GROUP_CONTEXT_EXTENSIONS))
                &&& st.added == added_keys(ps)
                &&& st.added.no_duplicates()
                &&& forall|i: int| 0 <= i < st.added.len() ==> !tree_has_signature_key(self.ratchet_tree@, #[trigger] st.added[i])
                &&& forall|k: u32| removed_at_most_once(#[trigger] history(st.mutations, k))
                &&& forall|k: u32| #[trigger] history(st.mutations, k).len() <= 1
            },
        decreases ps.len(),
    {
        if ps.len() > 0 {
            let prev = ps.drop_last();
            self.lemma_regular_run_facts(own, commit_self, prev);
            if let Ok(st0) = self.regular_run(own, commit_self, prev) {
                let p = ps.last();
                assert forall|i: int| 0 <= i < prev.len() implies #[trigger] prev[i] == ps[i] by {}
                assert(some_needs_path(ps) == (some_needs_path(prev) || needs_path(type_of(*p.proposal)))) by {
                    if some_needs_path(ps) {
                        let i = choose|i: int| 0 <= i < ps.len() && needs_path(type_of(*(#[trigger] ps[i]).proposal));
                        if i < prev.len() {
                            assert(prev[i] == ps[i]);
                        }
                    }
                    if some_needs_path(prev) {
                        let i = choose|i: int| 0 <= i < prev.len() && needs_path(type_of(*(#[trigger] prev[i]).proposal));
                        assert(ps[i] == prev[i]);
                    }
                    assert(ps[ps.len() - 1] == p);
                }
                assert(has_type(ps, PROPOSAL_GROUP_CONTEXT_EXTENSIONS) == (has_type(prev, PROPOSAL_GROUP_CONTEXT_EXTENSIONS)
                    || type_of(*p.proposal) == PROPOSAL_GROUP_CONTEXT_EXTENSIONS)) by {
                    if has_type(ps, PROPOSAL_GROUP_CONTEXT_EXTENSIONS) {
                        let i = choose|i: int| 0 <= i < ps.len() && type_of(*(#[trigger] ps[i]).proposal) == PROPOSAL_GROUP_CONTEXT_EXTENSIONS;
                        if i < prev.len() {
                            assert(prev[i] == ps[i]);
                        }
                    }
                    if has_type(prev, PROPOSAL_GROUP_CONTEXT_EXTENSIONS) {
                        let i = choose|i: int| 0 <= i < prev.len() && type_of(*(#[trigger] prev[i]).proposal) == PROPOSAL_GROUP_CONTEXT_EXTENSIONS;
                        assert(ps[i] == prev[i]);
                    }
                    assert(ps[ps.len() - 1] == p);
                }
                if let Ok(st) = self.regular_run(own, commit_self, ps) {
                    assert forall|k: u32| removed_at_most_once(#[trigger] history(st.mutations, k)) by {
                        assert(removed_at_most_once(history(st0.mutations, k)));
                    }
                    assert forall|k: u32| #[trigger] history(st.mutations, k).len() <= 1 by {
                        assert(history(st0.mutations, k).len() <= 1);
                    }
                    match *p.proposal {
                        Proposal::Add { key_package } => {
                            assert(!st0.added.contains(key_package.leaf_node.signature_key@));
                        },
                        _ => {},
                    }
                }
            }
        }
    }

    /// What a valid regular commit satisfies: it needs a path exactly when
    /// one of its proposals does, and then has one; it holds at most one
    /// group context extensions proposal; the clients it adds are new to the
    /// group and to each other; every member supports the proposal types
    /// outside RFC 9420 that it holds; each leaf is updated or removed at
    /// most once, and so removed at most once.
    pub proof fn lemma_regular_commit_rules(&self, ps: Seq<ProposalSenderPair>)
        ensures
            self.regular_commit_outcome(ps) matches Ok((m, path, reinit)) ==> {
                &&& members_support(self.ratchet_tree@, non_default_types(ps))
                &&& forall|k: u32| #[trigger] history(m, k).len() <= 1
                &&& path == some_needs_path(ps)
                &&& path ==> self.update_path is Some
                &&& added_keys(ps).no_duplicates()
                &&& forall|i: int|
                    0 <= i < added_keys(ps).len() ==> !tree_has_signature_key(
                        self.ratchet_tree@,
                        #[trigger] added_keys(ps)[i],
                    )
                &&& forall|k: u32| removed_at_most_once(#[trigger] history(m, k))
            },
    {
        if let Some(own) = self.own_leaf_index {
            self.lemma_regular_run_facts(*own, *self.sender == Sender::Member(*own), ps);
        }
    }

    /// A valid regular commit holds at most one group context extensions
    /// proposal.
    pub proof fn lemma_regular_commit_single_gce(&self, ps: Seq<ProposalSenderPair>, i: int, j: int)
        requires
            self.regular_commit_outcome(ps) is Ok,
            0 <= i < j < ps.len(),
            type_of(*ps[i].proposal) == PROPOSAL_GROUP_CONTEXT_EXTENSIONS,
        ensures
            type_of(*ps[j].proposal) != PROPOSAL_GROUP_CONTEXT_EXTENSIONS,
    {
        let own = *self.own_leaf_index.unwrap();
        let cs = *self.sender == Sender::Member(own);
        let pre = ps.take(j + 1);
        self.lemma_regular_run_facts(own, cs, pre.drop_last());
        if self.regular_run(own, cs, pre) is Err {
            self.lemma_regular_failure_sticks(own, cs, ps, j + 1);
        }
        assert(pre.drop_last()[i] == ps[i]);
        assert(has_type(pre.drop_last(), PROPOSAL_GROUP_CONTEXT_EXTENSIONS));
        assert(pre.last() == ps[j]);
    }

    proof fn lemma_regular_run_reinit(&self, own: u32, commit_self: bool, ps: Seq<ProposalSenderPair>)
        ensures
            self.regular_run(own, commit_self, ps) matches Ok(st) ==> {
                &&& st.has_others <==> exists|i: int|
                    0 <= i < ps.len() && !reinit_compatible(*(#[trigger] ps[i]).proposal)
                &&& st.reinit <==> exists|i: int| 0 <= i < ps.len() && (*(#[trigger] ps[i]).proposal is ReInit)
                &&& forall|i: int| 0 <= i < ps.len() ==> !(*(#[trigger] ps[i]).proposal is ExternalInit)
                &&& forall|i: int, j: int|
                    0 <= i < j < ps.len() && (*(#[trigger] ps[j]).proposal is ReInit) ==> reinit_compatible(
                        *(#[trigger] ps[i]).proposal,
                    )
            },
        decreases ps.len(),
    {
        if ps.len() > 0 {
            let prev = ps.drop_last();
            let p = ps.last();
            self.lemma_regular_run_reinit(own, commit_self, prev);
            assert forall|i: int| 0 <= i < prev.len() implies #[trigger] prev[i] == ps[i] by {}
            assert(ps[ps.len() - 1] == p);
            if let Ok(st) = self.regular_run(own, commit_self, ps) {
                let st0 = self.regular_run(own, commit_self, prev)->Ok_0;
                if st.has_others {
                    if !st0.has_others {
                        assert(!reinit_compatible(*ps[ps.len() - 1].proposal));
                    } else {
                        let i = choose|i: int| 0 <= i < prev.len() && !reinit_compatible(*(#[trigger] prev[i]).proposal);
                        assert(ps[i] == prev[i]);
                    }
                }
                if exists|i: int| 0 <= i < ps.len() && !reinit_compatible(*(#[trigger] ps[i]).proposal) {
                    let i = choose|i: int| 0 <= i < ps.len() && !reinit_compatible(*(#[trigger] ps[i]).proposal);
                    if i < prev.len() {
                        assert(prev[i] == ps[i]);
                    }
                }
                if st.reinit {
                    if !st0.reinit {
                        assert(*ps[ps.len() - 1].proposal is ReInit);
                    } else {
                        let i = choose|i: int| 0 <= i < prev.len() && (*(#[trigger] prev[i]).proposal is ReInit);
                        assert(ps[i] == prev[i]);
                    }
                }
                if exists|i: int| 0 <= i < ps.len() && (*(#[trigger] ps[i]).proposal is ReInit) {
                    let i = choose|i: int| 0 <= i < ps.len() && (*(#[trigger] ps[i]).proposal is ReInit);
                    if i < prev.len() {
                        assert(prev[i] == ps[i]);
                    }
                }
                assert forall|i: int| 0 <= i < ps.len() implies !(*(#[trigger] ps[i]).proposal is ExternalInit) by {
                    if i < prev.len() {
                        assert(prev[i] == ps[i]);
                    }
                }
                assert forall|i: int, j: int|
                    0 <= i < j < ps.len() && (*(#[trigger] ps[j]).proposal is ReInit) implies reinit_compatible(
                        *(#[trigger] ps[i]).proposal,
                    ) by {
                    if j < prev.len() {
                        assert(prev[i] == ps[i] && prev[j] == ps[j]);
                    } else {
                        assert(!st0.has_others);
                        if !reinit_compatible(*ps[i].proposal) {
                            assert(prev[i] == ps[i]);
                        }
                    }
                }
            }
        }
    }

    /// The rules each proposal of an accepted regular commit by `own`'s
    /// group keeps, `commit_self` telling whether the committer is `own`.
    pub open spec fn regular_proposal_kept(&self, own: u32, commit_self: bool, pair: ProposalSenderPair) -> bool {
        let q = *pair.proposal;
        &&& !(q is ExternalInit)
        &&& q is Update ==> (*pair.sender is Member && !(commit_self && *pair.sender == *self.sender))
        &&& commit_self ==> !(q is SelfRemove)
        &&& (q matches Proposal::Remove { removed } ==> !(commit_self && removed == own))
        &&& (q matches Proposal::GroupContextExtensions { extensions } ==> !(has_extension(
            self.group_context.extensions@,
            EXTENSION_APPLICATION_DATA_DICTIONARY,
        ) && has_extension(extensions@, EXTENSION_APPLICATION_DATA_DICTIONARY)))
    }

    proof fn lemma_regular_run_kept(&self, own: u32, commit_self: bool, ps: Seq<ProposalSenderPair>)
        ensures
            self.regular_run(own, commit_self, ps) matches Ok(st) ==> {
                &&& forall|i: int| 0 <= i < ps.len() ==> self.regular_proposal_kept(own, commit_self, #[trigger] ps[i])
                &&& forall|x: Seq<u8>| st.psks.contains(x) <==> exists|i: int|
                    0 <= i < ps.len() && (*(#[trigger] ps[i]).proposal matches Proposal::PreSharedKey { psk } && psk@ == x)
                &&& forall|i: int, j: int|
                    0 <= i < j < ps.len() && (*(#[trigger] ps[i]).proposal is PreSharedKey) && (*(
                    #[trigger] ps[j]).proposal is PreSharedKey) ==> (*ps[i].proposal)->psk@ != (*ps[j].proposal)->psk@
            },
        decreases ps.len(),
    {
        if ps.len() > 0 {
            let prev = ps.drop_last();
            let p = ps.last();
            self.lemma_regular_run_kept(own, commit_self, prev);
            assert forall|i: int| 0 <= i < prev.len() implies #[trigger] prev[i] == ps[i] by {}
            assert(ps[ps.len() - 1] == p);
            if let Ok(st) = self.regular_run(own, commit_self, ps) {
                let st0 = self.regular_run(own, commit_self, prev)->Ok_0;
                assert forall|i: int| 0 <= i < ps.len() implies self.regular_proposal_kept(own, commit_self, #[trigger] ps[i]) by {
                    if i < prev.len() {
                        assert(prev[i] == ps[i]);
                    }
                }
                assert forall|x: Seq<u8>| st.psks.contains(x) <==> exists|i: int|
                    0 <= i < ps.len() && (*(#[trigger] ps[i]).proposal matches Proposal::PreSharedKey { psk } && psk@ == x) by {
                    match *p.proposal {
                        Proposal::PreSharedKey { psk } => {
                            assert(st.psks == st0.psks.push(psk@));
                            let a = st0.psks;
                            if a.push(psk@).contains(x) {
                                let k = choose|k: int| 0 <= k < a.push(psk@).len() && a.push(psk@)[k] == x;
                                if k < a.len() {
                                    assert(a[k] == x);
                                }
                            }
                            if a.contains(x) {
                                let k = choose|k: int| 0 <= k < a.len() && a[k] == x;
                                assert(a.push(psk@)[k] == x);
                            }
                            if x == psk@ {
                                assert(a.push(psk@)[a.len() as int] == x);
                            }
                            assert(st.psks.contains(x) <==> (st0.psks.contains(x) || x == psk@));
                        },
                        _ => {
                            assert(st.psks == st0.psks);
                        },
                    }
                    if st.psks.contains(x) {
                        if st0.psks.contains(x) {
                            let i = choose|i: int|
                                0 <= i < prev.len() && (*(#[trigger] prev[i]).proposal matches Proposal::PreSharedKey { psk } && psk@ == x);
                            assert(ps[i] == prev[i]);
                        } else {
                            assert(ps[ps.len() - 1] == p);
                        }
                    }
                    if exists|i: int|
                        0 <= i < ps.len() && (*(#[trigger] ps[i]).proposal matches Proposal::PreSharedKey { psk } && psk@ == x) {
                        let i = choose|i: int|
                            0 <= i < ps.len() && (*(#[trigger] ps[i]).proposal matches Proposal::PreSharedKey { psk } && psk@ == x);
                        if i < prev.len() {
                            assert(prev[i] == ps[i]);
                            assert(st0.psks.contains(x));
                        }
                    }
                }
                assert forall|i: int, j: int|
                    0 <= i < j < ps.len() && (*(#[trigger] ps[i]).proposal is PreSharedKey) && (*(
                    #[trigger] ps[j]).proposal is PreSharedKey) implies (*ps[i].proposal)->psk@ != (*ps[j].proposal)->psk@ by {
                    assert(prev[i] == ps[i]);
                    if j < prev.len() {
                        assert(prev[j] == ps[j]);
                    } else {
                        assert(st0.psks.contains((*ps[i].proposal)->psk@));
                    }
                }
            }
        }
    }

    /// In an accepted regular commit: no proposal is an ExternalInit; every
    /// Update comes from a member other than a committer updating itself;
    /// a committer removes neither itself nor, by SelfRemove, its own leaf;
    /// no GroupContextExtensions proposal touches an application data
    /// dictionary the group already has; and no pre-shared key is proposed
    /// twice.
    pub proof fn lemma_regular_commit_proposal_rules(&self, ps: Seq<ProposalSenderPair>)
        ensures
            self.regular_commit_outcome(ps) is Ok ==> {
                let own = *self.own_leaf_index.unwrap();
                let commit_self = *self.sender == Sender::Member(own);
                &&& forall|i: int| 0 <= i < ps.len() ==> self.regular_proposal_kept(own, commit_self, #[trigger] ps[i])
                &&& forall|i: int, j: int|
                    0 <= i < j < ps.len() && (*(#[trigger] ps[i]).proposal is PreSharedKey) && (*(
                    #[trigger] ps[j]).proposal is PreSharedKey) ==> (*ps[i].proposal)->psk@ != (*ps[j].proposal)->psk@
            },
    {
        if let Some(own) = self.own_leaf_index {
            self.lemma_regular_run_kept(*own, *self.sender == Sender::Member(*own), ps);
        }
    }

    /// A reinitialization comes first in an accepted regular commit: every
    /// proposal before a ReInit is a ReInit or an application data proposal,
    /// so no Add, Update, Remove, SelfRemove, PreSharedKey or
    /// GroupContextExtensions proposal precedes one; and the commit reports
    /// a pending reinitialization exactly when it holds a ReInit.
    pub proof fn lemma_regular_commit_reinit_first(&self, ps: Seq<ProposalSenderPair>)
        ensures
            self.regular_commit_outcome(ps) matches Ok((_, _, reinit)) ==> {
                &&& reinit <==> exists|i: int| 0 <= i < ps.len() && (*(#[trigger] ps[i]).proposal is ReInit)
                &&& forall|i: int, j: int|
                    0 <= i < j < ps.len() && (*(#[trigger] ps[j]).proposal is ReInit) ==> {
                        let q = *(#[trigger] ps[i]).proposal;
                        q is ReInit || q is AppDataUpdate || q is AppEphemeral
                    }
            },
    {
        if let Some(own) = self.own_leaf_index {
            self.lemma_regular_run_reinit(*own, *self.sender == Sender::Member(*own), ps);
        }
    }
}

} // verus!

verus! {

impl<'a> ProposalListValidationContext<'a> {
    proof fn lemma_external_run_facts(&self, ps: Seq<ProposalSenderPair>)
        ensures
            self.external_run(ps) matches Ok(st) ==> {
                &&& st.has_external_init == has_type(ps, PROPOSAL_EXTERNAL_INIT)
                &&& forall|i: int| 0 <= i < ps.len() ==> *(#[trigger] ps[i]).sender == *self.sender
                &&& !st.has_self_remove ==> st.mutations == Map::<u32, Seq<MutationSource>>::empty()
                &&& st.has_self_remove ==> exists|k: u32|
                    st.mutations == Map::<u32, Seq<MutationSource>>::empty().insert(
                        k,
                        seq![MutationSource::Proposal(PROPOSAL_REMOVE)],
                    )
            },
        decreases ps.len(),
    {
        if ps.len() > 0 {
            let prev = ps.drop_last();
            self.lemma_external_run_facts(prev);
            if let Ok(st0) = self.external_run(prev) {
                let p = ps.last();
                assert forall|i: int| 0 <= i < prev.len() implies #[trigger] prev[i] == ps[i] by {}
                assert(has_type(ps, PROPOSAL_EXTERNAL_INIT) == (has_type(prev, PROPOSAL_EXTERNAL_INIT)
                    || type_of(*p.proposal) == PROPOSAL_EXTERNAL_INIT)) by {
                    if has_type(ps, PROPOSAL_EXTERNAL_INIT) {
                        let i = choose|i: int| 0 <= i < ps.len() && type_of(*(#[trigger] ps[i]).proposal) == PROPOSAL_EXTERNAL_INIT;
                        if i < prev.len() {
                            assert(prev[i] == ps[i]);
                        }
                    }
                    if has_type(prev, PROPOSAL_EXTERNAL_INIT) {
                        let i = choose|i: int| 0 <= i < prev.len() && type_of(*(#[trigger] prev[i]).proposal) == PROPOSAL_EXTERNAL_INIT;
                        assert(ps[i] == prev[i]);
                    }
                    assert(ps[ps.len() - 1] == p);
                }
                if let Ok(st) = self.external_run(ps) {
                    assert forall|i: int| 0 <= i < ps.len() implies *(#[trigger] ps[i]).sender == *self.sender by {
                        if i < prev.len() {
                            assert(prev[i] == ps[i]);
                        }
                    }
                    if st.has_self_remove && !st0.has_self_remove {
                        match *p.proposal {
                            Proposal::SelfRemove => {
                                let k = *self.own_leaf_index.unwrap();
                                assert(st.mutations =~= Map::<u32, Seq<MutationSource>>::empty().insert(
                                    k,
                                    seq![MutationSource::Proposal(PROPOSAL_REMOVE)],
                                ));
                            },
                            Proposal::Remove { removed } => {
                                assert(st.mutations =~= Map::<u32, Seq<MutationSource>>::empty().insert(
                                    removed,
                                    seq![MutationSource::Proposal(PROPOSAL_REMOVE)],
                                ));
                            },
                            _ => {},
                        }
                    }
                }
            }
        }
    }

    /// What a valid external commit satisfies: it has a path, starts no
    /// reinitialization, holds an external init, comes wholly from the
    /// joiner, and removes at most one leaf, once.
    pub proof fn lemma_external_commit_rules(&self, ps: Seq<ProposalSenderPair>)
        ensures
            self.external_commit_outcome(ps) matches Ok((m, path, reinit)) ==> {
                &&& path
                &&& !reinit
                &&& self.update_path is Some
                &&& has_type(ps, PROPOSAL_EXTERNAL_INIT)
                &&& forall|i: int| 0 <= i < ps.len() ==> *(#[trigger] ps[i]).sender == Sender::NewMemberCommit
                &&& (m == Map::<u32, Seq<MutationSource>>::empty() || exists|k: u32|
                    m == Map::<u32, Seq<MutationSource>>::empty().insert(
                        k,
                        seq![MutationSource::Proposal(PROPOSAL_REMOVE)],
                    ))
            },
    {
        self.lemma_external_run_facts(ps);
    }
}

} // verus!

verus! {

/// What the checks that run outside the library said of the key package or
/// leaf node a proposal carries: whether the authentication service accepts
/// its credential, whether the leaf node's signature verifies, and whether
/// the key package's own signature does.
#[derive(Debug, Clone, Copy, PartialEq, Eq, Structural)]
pub struct ProposalEvidence {
    pub credential_valid: bool,
    pub leaf_signature_valid: bool,
    pub signature_valid: bool,
}

impl<'a> ProposalListValidationContext<'a> {
    /// The key package check that an added client must pass.
    pub open spec fn add_outcome(&self, kp: KeyPackage, ev: ProposalEvidence) -> Result<(), ValidationError> {
        KeyPackageValidationContext { time: None, acceptable_range: None, cipher_suite: Some(self.group_context.cipher_suite) }.key_package_outcome(
            kp,
            ev.credential_valid,
            ev.leaf_signature_valid,
            ev.signature_valid,
        )
    }

    /// One standalone proposal, by the sender of the list.
    pub open spec fn standalone_step(&self, p: Proposal, ev: ProposalEvidence) -> Result<(), ValidationError> {
        let t = type_of(p);
        match *self.sender {
            Sender::Member(leaf_index) => match p {
                Proposal::Add { key_package } => if self.add_outcome(key_package, ev) is Err {
                    Err(ValidationError::InvalidProposal(t))
                } else {
                    Ok(())
                },
                Proposal::Update { leaf_node } => match leaf_at(self.ratchet_tree@, leaf_index * 2) {
                    None => Err(ValidationError::InvalidProposal(t)),
                    Some(prev) => if leaf_node_outcome(
                        LeafContextView::Update {
                            group_context: *self.group_context,
                            leaf_index: leaf_index,
                            previous_encryption_key: prev.encryption_key,
                            previous_signature_key: prev.signature_key,
                        },
                        leaf_node,
                        ev.credential_valid,
                        ev.leaf_signature_valid,
                        false,
                    ) is Err {
                        Err(ValidationError::InvalidProposal(t))
                    } else {
                        Ok(())
                    },
                },
                Proposal::Remove { removed } => if leaf_at(self.ratchet_tree@, removed * 2) is None {
                    Err(ValidationError::InvalidProposal(t))
                } else {
                    Ok(())
                },
                Proposal::ReInit => Err(ValidationError::InvalidProposal(t)),
                Proposal::AppEphemeral => Err(ValidationError::InvalidProposal(t)),
                _ => Ok(()),
            },
            Sender::External(_) => match p {
                Proposal::Add { key_package } => if self.add_outcome(key_package, ev) is Err {
                    Err(ValidationError::InvalidProposal(t))
                } else {
                    Ok(())
                },
                Proposal::Remove { removed } => if leaf_at(self.ratchet_tree@, removed * 2) is None {
                    Err(ValidationError::InvalidProposal(t))
                } else {
                    Ok(())
                },
                Proposal::PreSharedKey { .. } => Ok(()),
                Proposal::ReInit => Ok(()),
                Proposal::GroupContextExtensions { .. } => Ok(()),
                _ => Err(ValidationError::InvalidProposal(t)),
            },
            _ => Ok(()),
        }
    }

    /// The first failure among standalone proposals, checked in order.
    pub open spec fn standalone_run(&self, ps: Seq<&Proposal>, evs: Seq<ProposalEvidence>) -> Result<(), ValidationError>
        decreases ps.len(),
    {
        if ps.len() == 0 {
            Ok(())
        } else {
            match self.standalone_run(ps.drop_last(), evs) {
                Err(e) => Err(e),
                Ok(()) => self.standalone_step(*ps.last(), evs[ps.len() - 1]),
            }
        }
    }

    /// What validating proposals sent on their own gives, by who sent them.
    pub open spec fn standalone_outcome(&self, ps: Seq<&Proposal>, evs: Seq<ProposalEvidence>) -> Result<(), ValidationError> {
        match *self.sender {
            Sender::Member(_) => self.standalone_run(ps, evs),
            Sender::External(_) => self.standalone_run(ps, evs),
            Sender::NewMemberProposal => if ps.len() != 1 {
                Err(ValidationError::InvalidExternalJoinProposal)
            } else {
                match *ps[0] {
                    Proposal::Add { key_package } => if self.add_outcome(key_package, evs[0]) is Err {
                        Err(ValidationError::InvalidExternalJoinProposal)
                    } else {
                        Ok(())
                    },
                    _ => Err(ValidationError::InvalidExternalJoinProposal),
                }
            },
            Sender::NewMemberCommit => Err(ValidationError::ApiMisuse("`validate_standalone_proposals` called on a Commit")),
        }
    }

    fn standalone_step_exec(&self, p: &Proposal, ev: ProposalEvidence) -> (r: Result<(), ValidationError>)
        requires
            !(*self.sender is NewMemberProposal),
            !(*self.sender is NewMemberCommit),
        ensures
            r == self.standalone_step(*p, ev),
    {
        let kp_ctx = KeyPackageValidationContext::default().with_ciphersuite(self.group_context.cipher_suite);
        match self.sender {
            Sender::Member(leaf_index) => match p {
                Proposal::Add { key_package } => {
                    if kp_ctx.validate(key_package, ev.credential_valid, ev.leaf_signature_valid, ev.signature_valid).is_err() {
                        return Err(ValidationError::InvalidProposal(p.proposal_type()));
                    }
                    Ok(())
                },
                Proposal::Update { leaf_node } => {
                    let prev = match leaf_at_index(self.ratchet_tree, *leaf_index) {
                        Some(l) => l,
                        None => {
                            return Err(ValidationError::InvalidProposal(p.proposal_type()));
                        },
                    };
                    let ctx = LeafNodeValidationContext::Update {
                        ctx: GroupMemberValidationContext { group_context: self.group_context, leaf_index },
                        previous_encryption_key: prev.encryption_key.as_slice(),
                        previous_signature_key: prev.signature_key.as_slice(),
                    };
                    if ctx.validate_leaf_node(leaf_node, ev.credential_valid, ev.leaf_signature_valid).is_err() {
                        return Err(ValidationError::InvalidProposal(p.proposal_type()));
                    }
                    Ok(())
                },
                Proposal::Remove { removed } => {
                    if leaf_at_index(self.ratchet_tree, *removed).is_none() {
                        return Err(ValidationError::InvalidProposal(p.proposal_type()));
                    }
                    Ok(())
                },
                Proposal::ReInit | Proposal::AppEphemeral => Err(ValidationError::InvalidProposal(p.proposal_type())),
                _ => Ok(()),
            },
            _ => match p {
                Proposal::Add { key_package } => {
                    if kp_ctx.validate(key_package, ev.credential_valid, ev.leaf_signature_valid, ev.signature_valid).is_err() {
                        return Err(ValidationError::InvalidProposal(p.proposal_type()));
                    }
                    Ok(())
                },
                Proposal::Remove { removed } => {
                    if leaf_at_index(self.ratchet_tree, *removed).is_none() {
                        return Err(ValidationError::InvalidProposal(p.proposal_type()));
                    }
                    Ok(())
                },
                Proposal::PreSharedKey { .. } | Proposal::ReInit | Proposal::GroupContextExtensions { .. } => Ok(()),
                _ => Err(ValidationError::InvalidProposal(p.proposal_type())),
            },
        }
    }

    /// Validates proposals sent outside a commit
    /// (https://www.rfc-editor.org/rfc/rfc9420.html#name-proposal-list-validation).
    /// `evidence[i]` is what the checks run outside the library said of
    /// the key package or leaf node of `proposals[i]`.
    pub fn validate_standalone_proposals(&self, proposals: &[&Proposal], evidence: &[ProposalEvidence]) -> (r: Result<
        (),
        ValidationError,
    >)
        requires
            evidence@.len() == proposals@.len(),
        ensures
            r == self.standalone_outcome(proposals@, evidence@),
    {
        match self.sender {
            Sender::NewMemberProposal => {
                if proposals.len() != 1 {
                    return Err(ValidationError::InvalidExternalJoinProposal);
                }
                let key_package = match proposals[0] {
                    Proposal::Add { key_package } => key_package,
                    _ => {
                        return Err(ValidationError::InvalidExternalJoinProposal);
                    },
                };
                let ev = evidence[0];
                let kp_ctx = KeyPackageValidationContext::default().with_ciphersuite(self.group_context.cipher_suite);
                if kp_ctx.validate(key_package, ev.credential_valid, ev.leaf_signature_valid, ev.signature_valid).is_err() {
                    return Err(ValidationError::InvalidExternalJoinProposal);
                }
                return Ok(());
            },
            Sender::NewMemberCommit => {
                return Err(ValidationError::ApiMisuse("`validate_standalone_proposals` called on a Commit"));
            },
            _ => {},
        }
        let mut i: usize = 0;
        while i < proposals.len()
            invariant
                i <= proposals@.len(),
                evidence@.len() == proposals@.len(),
                !(*self.sender is NewMemberProposal),
                !(*self.sender is NewMemberCommit),
                self.standalone_run(proposals@.take(i as int), evidence@) == Ok::<(), ValidationError>(()),
            decreases proposals@.len() - i,
        {
            assert(proposals@.take(i + 1).drop_last() =~= proposals@.take(i as int));
            let step = self.standalone_step_exec(proposals[i], evidence[i]);
            if let Err(e) = step {
                proof {
                    self.lemma_standalone_failure_sticks(proposals@, evidence@, i + 1);
                }
                return Err(e);
            }
            i += 1;
        }
        assert(proposals@.take(proposals@.len() as int) =~= proposals@);
        Ok(())
    }

    pub proof fn lemma_standalone_failure_sticks(&self, ps: Seq<&Proposal>, evs: Seq<ProposalEvidence>, k: int)
        requires
            0 <= k <= ps.len(),
            self.standalone_run(ps.take(k), evs) is Err,
        ensures
            self.standalone_run(ps, evs) == self.standalone_run(ps.take(k), evs),
        decreases ps.len() - k,
    {
        if k == ps.len() {
            assert(ps.take(k) =~= ps);
        } else {
            assert(ps.take(k + 1).drop_last() =~= ps.take(k));
            self.lemma_standalone_failure_sticks(ps, evs, k + 1);
        }
    }
}


/// What the authentication service says of the credential of a proposal's
/// key package or leaf node; the signatures themselves are read from their
/// encodings.
pub struct ProposalSignatures {
    pub credential_valid: bool,
}

impl<'a> ProposalListValidationContext<'a> {
    /// The key package context an added client is checked in.
    pub open spec fn add_context(&self) -> KeyPackageValidationContext {
        KeyPackageValidationContext { time: None, acceptable_range: None, cipher_suite: Some(self.group_context.cipher_suite) }
    }

    /// What the signatures a proposal carries establish.
    pub open spec fn signed_evidence(&self, p: Proposal, s: ProposalSignatures) -> ProposalEvidence {
        match p {
            Proposal::Add { key_package } => ProposalEvidence {
                credential_valid: s.credential_valid,
                leaf_signature_valid: leaf_signature_holds(
                    LeafNodeValidationContext::KeyPackage(&self.add_context()),
                    key_package.leaf_node,
                ),
                signature_valid: self.add_context().key_package_signature_holds(key_package),
            },
            Proposal::Update { leaf_node } => match *self.sender {
                Sender::Member(idx) => ProposalEvidence {
                    credential_valid: s.credential_valid,
                    leaf_signature_valid: leaf_signature_holds(
                        LeafNodeValidationContext::Commit(
                            GroupMemberValidationContext { group_context: self.group_context, leaf_index: &idx },
                        ),
                        leaf_node,
                    ),
                    signature_valid: false,
                },
                _ => ProposalEvidence { credential_valid: s.credential_valid, leaf_signature_valid: false, signature_valid: false },
            },
            _ => ProposalEvidence { credential_valid: s.credential_valid, leaf_signature_valid: false, signature_valid: false },
        }
    }

    /// Checks the signatures a proposal carries.
    pub fn check_signatures(&self, p: &Proposal, s: &ProposalSignatures) -> (r: ProposalEvidence)
        requires
            self.group_context.version <= 1,
        ensures
            r == self.signed_evidence(*p, *s),
    {
        match p {
            Proposal::Add { key_package } => {
                let kp_ctx = KeyPackageValidationContext::default().with_ciphersuite(self.group_context.cipher_suite);
                let leaf_ctx = LeafNodeValidationContext::KeyPackage(&kp_ctx);
                let leaf_ok = leaf_ctx.leaf_signature_valid(&key_package.leaf_node);
                let kp_ok = kp_ctx.key_package_signature_valid(key_package);
                ProposalEvidence { credential_valid: s.credential_valid, leaf_signature_valid: leaf_ok, signature_valid: kp_ok }
            },
            Proposal::Update { leaf_node } => match self.sender {
                Sender::Member(idx) => {
                    let member = GroupMemberValidationContext { group_context: self.group_context, leaf_index: idx };
                    let leaf_ctx = LeafNodeValidationContext::Commit(member);
                    let leaf_ok = leaf_ctx.leaf_signature_valid(leaf_node);
                    ProposalEvidence { credential_valid: s.credential_valid, leaf_signature_valid: leaf_ok, signature_valid: false }
                },
                _ => ProposalEvidence { credential_valid: s.credential_valid, leaf_signature_valid: false, signature_valid: false },
            },
            _ => ProposalEvidence { credential_valid: s.credential_valid, leaf_signature_valid: false, signature_valid: false },
        }
    }

    /// Validates proposals sent outside a commit, checking the signatures
    /// of the key packages and leaf nodes they carry: `signatures[i]`
    /// belongs to `proposals[i]`.
    pub fn validate_standalone_proposals_signed(
        &self,
        proposals: &[&Proposal],
        signatures: &[ProposalSignatures],
    ) -> (r: Result<(), ValidationError>)
        requires
            signatures@.len() == proposals@.len(),
            self.group_context.version <= 1,
        ensures
            r == self.standalone_outcome(
                proposals@,
                Seq::new(proposals@.len(), |i: int| self.signed_evidence(*proposals@[i], signatures@[i])),
            ),
    {
        let mut evidence: Vec<ProposalEvidence> = Vec::new();
        let mut i: usize = 0;
        while i < proposals.len()
            invariant
                i <= proposals@.len(),
                signatures@.len() == proposals@.len(),
                self.group_context.version <= 1,
                evidence@ == Seq::new(i as nat, |k: int| self.signed_evidence(*proposals@[k], signatures@[k])),
            decreases proposals@.len() - i,
        {
            let ev = self.check_signatures(proposals[i], &signatures[i]);
            evidence.push(ev);
            i += 1;
            assert(evidence@ =~= Seq::new(i as nat, |k: int| self.signed_evidence(*proposals@[k], signatures@[k])));
        }
        self.validate_standalone_proposals(proposals, evidence.as_slice())
    }
}

} // verus!
