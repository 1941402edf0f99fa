//! Identifiers, ratchet-tree arithmetic, room policies and validation rules
//! for MIMI rooms over MLS.
use vstd::prelude::*;

pub mod bytes;
pub mod tree_index;
pub mod ratchet_tree;
pub mod tree_reader;
pub mod tree_writer;
pub mod identifiers;
pub mod digest;
pub mod claims;
pub mod policy;
pub mod mls;
pub mod validations;
pub mod suites;
pub mod tls;
pub mod signatures;
pub mod pke;
pub mod transcript;
pub mod naming;
pub mod meet;

verus! {

} // verus!
