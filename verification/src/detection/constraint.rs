//! What collision tracking hands to the solver.

use vstd::prelude::*;
use crate::detection::contact::Contact;

verus! {

/// A constraint between bodies, each addressed by its place in the list of bodies.
#[derive(Clone, Copy, Debug, PartialEq, Eq)]
pub enum Constraint {
    /// A contact between two rigid bodies.
    RBRB(usize, usize, Contact),
}

} // verus!
