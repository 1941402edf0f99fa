//! The claims a Proton credential carries: roles, providers, client types
//! and what a user says of themself.
use vstd::prelude::*;

pub mod role;
pub mod kinds;
pub mod about;
pub mod value;
pub mod meeting;
pub mod proton;

verus! {

} // verus!
