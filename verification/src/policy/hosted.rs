//! Which kinds of room grant which of the capabilities that differ between
//! hosted rooms, waiting rooms and direct messages.
use vstd::prelude::*;
use crate::identifiers::uri::mimi_uri;
use crate::identifiers::user::UserId;

verus! {

/// The kinds of room.
#[derive(Debug)]
pub enum RoomKind {
    BasicHostedRoom { is_open: bool, other_users: Vec<UserId> },
    BasicRoomWithWaiting { other_users: Vec<UserId> },
    Dm { other_users: Vec<UserId> },
    /// The hidden room of a user
    SelfRoom,
}

/// A room kind, its users written as their URIs.
pub enum RoomKindView {
    BasicHostedRoom { is_open: bool, other_users: Seq<Seq<char>> },
    BasicRoomWithWaiting { other_users: Seq<Seq<char>> },
    Dm { other_users: Seq<Seq<char>> },
    SelfRoom,
}

/// The URI of a user: `mimi://{domain}/u/{id}`.
pub open spec fn user_uri(u: UserId) -> Seq<char> {
    mimi_uri(u.domain@, 'u', u.id@)
}

pub open spec fn user_uris(users: Seq<UserId>) -> Seq<Seq<char>> {
    users.map_values(|u: UserId| user_uri(u))
}

impl View for RoomKind {
    type V = RoomKindView;

    open spec fn view(&self) -> RoomKindView {
        match *self {
            RoomKind::BasicHostedRoom { is_open, other_users } => RoomKindView::BasicHostedRoom {
                is_open,
                other_users: user_uris(other_users@),
            },
            RoomKind::BasicRoomWithWaiting { other_users } => RoomKindView::BasicRoomWithWaiting {
                other_users: user_uris(other_users@),
            },
            RoomKind::Dm { other_users } => RoomKindView::Dm { other_users: user_uris(other_users@) },
            RoomKind::SelfRoom => RoomKindView::SelfRoom,
        }
    }
}

impl Clone for RoomKind {
    fn clone(&self) -> (r: Self)
        ensures
            r@ == self@,
    {
        match self {
            RoomKind::BasicHostedRoom { is_open, other_users } => RoomKind::BasicHostedRoom {
                is_open: *is_open,
                other_users: clone_users(other_users),
            },
            RoomKind::BasicRoomWithWaiting { other_users } => RoomKind::BasicRoomWithWaiting {
                other_users: clone_users(other_users),
            },
            RoomKind::Dm { other_users } => RoomKind::Dm { other_users: clone_users(other_users) },
            RoomKind::SelfRoom => RoomKind::SelfRoom,
        }
    }
}

/// Two users are the same: same domain and identifier.
pub open spec fn same_user(a: UserId, b: UserId) -> bool {
    a.domain@ == b.domain@ && a.id@ == b.id@
}

pub open spec fn same_users(a: Seq<UserId>, b: Seq<UserId>) -> bool {
    a.len() == b.len() && forall|i: int| 0 <= i < a.len() ==> same_user(#[trigger] a[i], b[i])
}

/// Copies a list of users.
pub fn clone_users(users: &[UserId]) -> (r: Vec<UserId>)
    ensures
        same_users(r@, users@),
        user_uris(r@) == user_uris(users@),
{
    let mut out: Vec<UserId> = Vec::new();
    let mut i: usize = 0;
    while i < users.len()
        invariant
            i <= users@.len(),
            out@.len() == i,
            forall|j: int| 0 <= j < i ==> same_user(#[trigger] out@[j], users@[j]),
        decreases users@.len() - i,
    {
        out.push(users[i].clone());
        i += 1;
    }
    assert(user_uris(out@) =~= user_uris(users@));
    out
}

/// Hosted room kinds (excluding DMs and self rooms).
pub open spec fn basic_hosted(kind: RoomKindView) -> bool {
    kind is BasicHostedRoom || kind is BasicRoomWithWaiting
}

pub open spec fn waiting(kind: RoomKindView) -> bool {
    kind is BasicRoomWithWaiting
}

/// Members may add participants in standard hosted rooms, but not in
/// waiting rooms or DMs.
pub open spec fn members_add_participants(kind: RoomKindView) -> bool {
    kind is BasicHostedRoom
}

/// NoRole users get knock/join-code capabilities in hosted rooms and DMs,
/// but not waiting rooms.
pub open spec fn lobby_access(kind: RoomKindView) -> bool {
    kind is BasicHostedRoom || kind is Dm
}

/// RoomAdmin may swap role definitions when toggling waiting room mode.
pub open spec fn admin_changes_definitions(kind: RoomKindView) -> bool {
    ||| kind is BasicRoomWithWaiting
    ||| kind matches RoomKindView::BasicHostedRoom { is_open, .. } && is_open
}

/// RoomAdmin gets knock acceptance in hosted rooms except waiting rooms.
pub open spec fn admin_accepts_knock(kind: RoomKindView) -> bool {
    basic_hosted(kind) && !waiting(kind)
}

/// Returns true for hosted room kinds (excluding DMs and self rooms).
pub fn is_basic_hosted(kind: &RoomKind) -> (r: bool)
    ensures
        r == basic_hosted(kind@),
{
    match kind {
        RoomKind::BasicHostedRoom { .. } | RoomKind::BasicRoomWithWaiting { .. } => true,
        _ => false,
    }
}

pub fn is_waiting_room(kind: &RoomKind) -> (r: bool)
    ensures
        r == waiting(kind@),
{
    match kind {
        RoomKind::BasicRoomWithWaiting { .. } => true,
        _ => false,
    }
}

/// Members may add participants in standard hosted rooms, but not in waiting
/// rooms or DMs.
pub fn member_can_add_participant(kind: &RoomKind) -> (r: bool)
    ensures
        r == members_add_participants(kind@),
{
    match kind {
        RoomKind::BasicHostedRoom { .. } => true,
        _ => false,
    }
}

/// NoRole users get knock/join-code capabilities in hosted rooms and DMs,
/// but not waiting rooms.
pub fn no_role_has_lobby_access(kind: &RoomKind) -> (r: bool)
    ensures
        r == lobby_access(kind@),
{
    match kind {
        RoomKind::BasicHostedRoom { .. } | RoomKind::Dm { .. } => true,
        _ => false,
    }
}

/// RoomAdmin may swap role definitions when toggling waiting room mode.
pub fn admin_can_change_role_definitions(kind: &RoomKind) -> (r: bool)
    ensures
        r == admin_changes_definitions(kind@),
{
    match kind {
        RoomKind::BasicRoomWithWaiting { .. } => true,
        RoomKind::BasicHostedRoom { is_open, .. } => *is_open,
        _ => false,
    }
}

/// RoomAdmin gets knock acceptance in hosted rooms except waiting rooms.
pub fn admin_can_accept_knock(kind: &RoomKind) -> (r: bool)
    ensures
        r == admin_accepts_knock(kind@),
{
    is_basic_hosted(kind) && !is_waiting_room(kind)
}

} // verus!
