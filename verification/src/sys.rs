//! The host's pointer to one of its objects, as this layer holds it.

use vstd::prelude::*;

verus! {

/// The bytes of a host object pointer. This layer stores them, compares them and hands
/// them back; it never looks behind them.
#[derive(Clone, Copy, Debug, PartialEq, Eq, Structural)]
pub struct OpaqueObject {
    pub addr: usize,
}

impl OpaqueObject {
    /// Whether these are the bytes of the null pointer.
    pub open spec fn spec_is_null(&self) -> bool {
        self.addr == 0
    }

    /// The null pointer: the host's answer when it has no object to give.
    pub fn null() -> (opaque: OpaqueObject)
        ensures
            opaque.spec_is_null(),
            opaque.addr == 0,
    {
        OpaqueObject { addr: 0 }
    }

    /// Whether these are the bytes of the null pointer.
    #[verifier::when_used_as_spec(spec_is_null)]
    pub fn is_null(&self) -> (null: bool)
        ensures
            null == self.spec_is_null(),
    {
        self.addr == 0
    }
}

} // verus!
