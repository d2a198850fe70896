//! Small values that requests carry.
use vstd::prelude::*;

verus! {

/// A kind of mention that may be parsed out of a message's content and
/// allowed to ping.
#[derive(Clone, Copy, Debug, PartialEq, Eq, Structural, Hash)]
pub enum ParseValue {
    Everyone,
    Users,
    Roles,
}

} // verus!
