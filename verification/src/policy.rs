//! Room policies: which roles exist in a room, what each may do, who holds
//! which at creation, and which claims grant a role on joining.
use vstd::prelude::*;

pub mod capability;
pub mod user_role;
pub mod role;
pub mod hosted;
pub mod defaults;
pub mod rooms;
pub mod laws;

verus! {

} // verus!
