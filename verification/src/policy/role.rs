//! The definition of a role in a room policy: its capabilities, the role
//! changes its holders may make, and limits on how many hold it.
use vstd::prelude::*;
use crate::policy::capability::StdCapability;
use crate::policy::user_role::{role_index, role_indices, UserRole};

verus! {

/// A role change that holders of a role may make: from one role to any of
/// the targets.
#[derive(Debug, Clone, PartialEq, Eq)]
pub struct RoleChange {
    pub from_role_index: u32,
    pub target_role_indexes: Vec<u32>,
}

#[derive(Debug, Clone, PartialEq, Eq)]
pub struct Role {
    pub role_index: u32,
    pub role_name: String,
    pub role_description: String,
    /// Each capability at most once.
    pub role_capabilities: Vec<StdCapability>,
    pub minimum_participants_constraint: u32,
    pub maximum_participants_constraint: Option<u32>,
    pub minimum_active_participants_constraint: u32,
    pub maximum_active_participants_constraint: Option<u32>,
    pub authorized_role_changes: Vec<RoleChange>,
}

#[verifier::ext_equal]
pub struct RoleView {
    pub role_index: u32,
    pub role_name: Seq<char>,
    pub role_description: Seq<char>,
    /// The capabilities, in the order they were given.
    pub capabilities: Seq<StdCapability>,
    pub minimum_participants_constraint: u32,
    pub maximum_participants_constraint: Option<u32>,
    pub minimum_active_participants_constraint: u32,
    pub maximum_active_participants_constraint: Option<u32>,
    pub authorized_role_changes: Seq<(u32, Seq<u32>)>,
}

impl View for Role {
    type V = RoleView;

    open spec fn view(&self) -> RoleView {
        RoleView {
            role_index: self.role_index,
            role_name: self.role_name@,
            role_description: self.role_description@,
            capabilities: self.role_capabilities@,
            minimum_participants_constraint: self.minimum_participants_constraint,
            maximum_participants_constraint: self.maximum_participants_constraint,
            minimum_active_participants_constraint: self.minimum_active_participants_constraint,
            maximum_active_participants_constraint: self.maximum_active_participants_constraint,
            authorized_role_changes: self.authorized_role_changes@.map_values(
                |c: RoleChange| (c.from_role_index, c.target_role_indexes@),
            ),
        }
    }
}

/// `a` followed by each capability of `b`, in order, that is not listed
/// yet.
pub open spec fn added(a: Seq<StdCapability>, b: Seq<StdCapability>) -> Seq<StdCapability>
    decreases b.len(),
{
    if b.len() == 0 {
        a
    } else {
        let x = added(a, b.drop_last());
        if x.contains(b.last()) {
            x
        } else {
            x.push(b.last())
        }
    }
}

/// A capability is in `added(a, b)` exactly when it is in `a` or in `b`;
/// adding keeps a list without repeats free of them.
pub broadcast proof fn lemma_added(a: Seq<StdCapability>, b: Seq<StdCapability>)
    ensures
        #[trigger] added(a, b).to_set() == a.to_set() + b.to_set(),
        a.no_duplicates() ==> added(a, b).no_duplicates(),
        forall|c: StdCapability| #[trigger] added(a, b).contains(c) <==> (a.contains(c) || b.contains(c)),
    decreases b.len(),
{
    if b.len() == 0 {
        assert(b.to_set() =~= Set::<StdCapability>::empty());
        assert(a.to_set() + b.to_set() =~= a.to_set());
    } else {
        let d = b.drop_last();
        let c = b.last();
        lemma_added(a, d);
        let x = added(a, d);
        assert(b =~= d.push(c));
        d.lemma_push_to_set_commute(c);
        if !x.contains(c) {
            x.lemma_push_to_set_commute(c);
            if x.no_duplicates() {
                assert forall|i: int, j: int| 0 <= i < j < x.push(c).len() implies x.push(c)[i] != x.push(c)[j] by {
                    if j == x.len() {
                        assert(x.push(c)[i] == x[i]);
                    }
                }
            }
        } else {
            assert(x.to_set() =~= x.to_set().insert(c));
        }
        assert(added(a, b).to_set() =~= a.to_set() + b.to_set());
        assert forall|e: StdCapability| #[trigger] added(a, b).contains(e) <==> (a.contains(e) || b.contains(e)) by {
            assert(added(a, b).contains(e) <==> added(a, b).to_set().contains(e));
            assert(a.contains(e) <==> a.to_set().contains(e));
            assert(b.contains(e) <==> b.to_set().contains(e));
        }
    }
}

/// A capability is in `added(a, b)` exactly when it is in `a` or in `b`.
pub broadcast proof fn lemma_added_contains(a: Seq<StdCapability>, b: Seq<StdCapability>, c: StdCapability)
    ensures
        #[trigger] added(a, b).contains(c) <==> (a.contains(c) || b.contains(c)),
{
    lemma_added(a, b);
}

/// Adds each capability of `add` that `caps` does not hold yet, in order.
fn add_capabilities(caps: &mut Vec<StdCapability>, add: &Vec<StdCapability>)
    requires
        old(caps)@.no_duplicates(),
    ensures
        final(caps)@.no_duplicates(),
        final(caps)@ == added(old(caps)@, add@),
{
    let ghost start = caps@;
    proof {
        lemma_added(start, add@);
    }
    let mut i: usize = 0;
    while i < add.len()
        invariant
            i <= add@.len(),
            start.no_duplicates(),
            caps@.no_duplicates(),
            caps@ == added(start, add@.take(i as int)),
        decreases add@.len() - i,
    {
        let c = add[i];
        let mut found = false;
        let mut j: usize = 0;
        while j < caps.len()
            invariant
                j <= caps@.len(),
                found <==> exists|k: int| 0 <= k < j && caps@[k] == c,
            decreases caps@.len() - j,
        {
            if caps[j] == c {
                found = true;
            }
            j += 1;
        }
        let ghost before = caps@;
        assert(add@.take(i + 1).drop_last() =~= add@.take(i as int));
        assert(add@.take(i + 1).last() == c);
        if !found {
            caps.push(c);
            assert(!before.contains(c));
        } else {
            assert(exists|k: int| 0 <= k < j && before[k] == c);
            assert(before.contains(c));
        }
        proof {
            lemma_added(start, add@.take(i + 1));
        }
        i += 1;
    }
    assert(add@.take(add@.len() as int) =~= add@);
}

impl Role {
    /// The view of a role with an index and a name, and nothing else.
    pub open spec fn empty_view(index: u32, name: Seq<char>) -> RoleView {
        RoleView {
            role_index: index,
            role_name: name,
            role_description: name,
            capabilities: Seq::empty(),
            minimum_participants_constraint: 0,
            maximum_participants_constraint: None,
            minimum_active_participants_constraint: 0,
            maximum_active_participants_constraint: None,
            authorized_role_changes: Seq::empty(),
        }
    }

    /// No capability is listed twice.
    pub open spec fn well_formed(&self) -> bool {
        self.role_capabilities@.no_duplicates()
    }

    pub fn new(role_index: u32, role_name: &str, role_description: &str) -> (r: Self)
        ensures
            r@ == (RoleView {
                role_index,
                role_name: role_name@,
                role_description: role_description@,
                capabilities: Seq::empty(),
                minimum_participants_constraint: 0,
                maximum_participants_constraint: None,
                minimum_active_participants_constraint: 0,
                maximum_active_participants_constraint: None,
                authorized_role_changes: Seq::empty(),
            }),
            r.well_formed(),
    {
        let r = Role {
            role_index,
            role_name: role_name.to_owned(),
            role_description: role_description.to_owned(),
            role_capabilities: Vec::new(),
            minimum_participants_constraint: 0,
            maximum_participants_constraint: None,
            minimum_active_participants_constraint: 0,
            maximum_active_participants_constraint: None,
            authorized_role_changes: Vec::new(),
        };
        assert(r.role_capabilities@ =~= Seq::<StdCapability>::empty());
        assert(r@.authorized_role_changes =~= Seq::empty());
        r
    }

    /// Adds capabilities to the role.
    pub fn with_capabilities(self, caps: Vec<StdCapability>) -> (r: Self)
        requires
            self.well_formed(),
        ensures
            r@ == (RoleView { capabilities: added(self@.capabilities, caps@), ..self@ }),
            r.well_formed(),
    {
        let mut r = self;
        add_capabilities(&mut r.role_capabilities, &caps);
        r
    }

    /// Adds the capabilities of another role to this one.
    pub fn inherit_capabilities(self, other: &Role) -> (r: Self)
        requires
            self.well_formed(),
        ensures
            r@ == (RoleView { capabilities: added(self@.capabilities, other@.capabilities), ..self@ }),
            r.well_formed(),
    {
        let mut r = self;
        add_capabilities(&mut r.role_capabilities, &other.role_capabilities);
        r
    }

    /// Lets holders of the role move users from `from` to any of `to`.
    pub fn with_authorized_role_change(self, from: UserRole, to: Vec<UserRole>) -> (r: Self)
        requires
            self.well_formed(),
        ensures
            r@ == (RoleView {
                authorized_role_changes: self@.authorized_role_changes.push(
                    (role_index(from), role_indices(to@)),
                ),
                ..self@
            }),
            r.well_formed(),
    {
        let mut r = self;
        let change = RoleChange { from_role_index: from.index(), target_role_indexes: UserRole::indices(&to) };
        let ghost before = r.authorized_role_changes@;
        r.authorized_role_changes.push(change);
        assert(r@.authorized_role_changes =~= self@.authorized_role_changes.push(
            (role_index(from), role_indices(to@)),
        ));
        r
    }

    pub fn with_minimum_participants_constraint(self, n: u32) -> (r: Self)
        ensures
            r@ == (RoleView { minimum_participants_constraint: n, ..self@ }),
            r.well_formed() == self.well_formed(),
    {
        let mut r = self;
        r.minimum_participants_constraint = n;
        r
    }

    pub fn with_maximum_participants_constraint(self, n: u32) -> (r: Self)
        ensures
            r@ == (RoleView { maximum_participants_constraint: Some(n), ..self@ }),
            r.well_formed() == self.well_formed(),
    {
        let mut r = self;
        r.maximum_participants_constraint = Some(n);
        r
    }

    pub fn with_maximum_active_participants_constraint(self, n: u32) -> (r: Self)
        ensures
            r@ == (RoleView { maximum_active_participants_constraint: Some(n), ..self@ }),
            r.well_formed() == self.well_formed(),
    {
        let mut r = self;
        r.maximum_active_participants_constraint = Some(n);
        r
    }

    /// The role holds capability `c`.
    pub fn has_capability(&self, c: StdCapability) -> (r: bool)
        ensures
            r == self@.capabilities.contains(c),
    {
        let mut i: usize = 0;
        while i < self.role_capabilities.len()
            invariant
                i <= self.role_capabilities@.len(),
                forall|j: int| 0 <= j < i ==> self.role_capabilities@[j] != c,
            decreases self.role_capabilities@.len() - i,
        {
            if self.role_capabilities[i] == c {
                assert(self.role_capabilities@.contains(c));
                return true;
            }
            i += 1;
        }
        false
    }
}

/// The role definitions of a room.
#[derive(Debug, Clone, PartialEq, Eq)]
pub struct RoleData {
    pub roles: Vec<Role>,
}

impl RoleData {
    /// The first role defined with index `index`.
    pub fn get_role(&self, index: u32) -> (r: Option<&Role>)
        ensures
            match r {
                Some(role) => exists|i: int|
                    0 <= i < self.roles@.len() && self.roles@[i] == *role && role.role_index == index
                        && forall|j: int| 0 <= j < i ==> self.roles@[j].role_index != index,
                None => forall|j: int| 0 <= j < self.roles@.len() ==> self.roles@[j].role_index != index,
            },
    {
        let mut i: usize = 0;
        while i < self.roles.len()
            invariant
                i <= self.roles@.len(),
                forall|j: int| 0 <= j < i ==> self.roles@[j].role_index != index,
            decreases self.roles@.len() - i,
        {
            if self.roles[i].role_index == index {
                return Some(&self.roles[i]);
            }
            i += 1;
        }
        None
    }
}

} // verus!
