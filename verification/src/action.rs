use vstd::prelude::*;

verus! {

/// Marker for types that represent a logical action to be bound to a button
/// press, e.g. jump, attack, or move forward. The binding tables work on
/// [`ActionId`], the canonical such identifier; an application maps its own
/// action type to and from `ActionId` values.
pub trait Action: Copy {

}

/// A logical action identifier. Two identifiers denote the same action
/// exactly when their codes are equal.
#[derive(Clone, Copy, Debug, Eq, Hash, Ord, PartialEq, PartialOrd, Structural)]
pub struct ActionId(pub u32);

impl Action for ActionId {

}

} // verus!
