//! The identifier of a consensus round.

use vstd::prelude::*;

verus! {

/// Which round of consensus a chain is in.
///
/// The variants form a strict precedence order,
/// `Fast < MultiLeader < SingleLeader < Validator`, each secondarily ordered
/// by index; escalation only ever moves forward in this order.
#[derive(Clone, Copy, PartialEq, Eq, Structural, PartialOrd, Ord, Hash, Debug)]
pub enum Round {
    /// The single privileged first round, usable only by super owners.
    Fast,
    /// A round in which every (regular) owner may propose, indexed from zero.
    MultiLeader(u32),
    /// A round restricted to one leader chosen by weighted round-robin.
    SingleLeader(u32),
    /// A fallback round driven by the validator set rather than chain owners.
    Validator(u32),
}

} // verus!
