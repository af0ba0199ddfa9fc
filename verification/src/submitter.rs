//! Submitters: the addresses that records are submitted from.
use vstd::prelude::*;

verus! {

#[derive(Debug, Hash, Copy, Clone, PartialEq, Eq, Structural)]
pub struct Submitter {
    pub id: i32,
    pub banned: bool,
}

} // verus!
