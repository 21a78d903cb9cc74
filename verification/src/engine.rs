//! Handles of the engine layer built on top of the device core: stable
//! identities for scene objects and the joints between them.

use vstd::prelude::*;

verus! {

/// How a joint binds two objects: a soft joint is solved by impulses, a
/// hard joint by a multibody link.
#[derive(Clone, Copy, Debug, Eq, Hash, PartialEq, Structural)]
pub enum JointKind {
    Soft,
    Hard,
}

/// A stable handle to a scene object: the slot-table index the object was
/// inserted at.
#[derive(Clone, Copy, Debug, Eq, Ord, PartialEq, PartialOrd, Hash, Structural)]
pub struct ObjectHandle(pub usize);

} // verus!
