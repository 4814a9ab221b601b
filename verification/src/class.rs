//! What a user-declared class tells the host about itself.

use vstd::prelude::*;

verus! {

/// A type that is registered with the host as a class.
///
/// The name is whatever the implementation hands out; contracts that depend on it say
/// so through `call_ensures`, and promise nothing more of it.
pub trait GodotClass: Sized {
    /// The name under which the host knows the class.
    fn class_name() -> String;
}

} // verus!
