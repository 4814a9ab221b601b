//! The dynamic value, as far as object handles convert to and from it.

use vstd::prelude::*;
use crate::sys::OpaqueObject;

verus! {

/// The type tags that this layer tells apart.
#[derive(Clone, Copy, Debug, PartialEq, Eq, Structural)]
pub enum VariantType {
    /// The value holds nothing.
    Nil,
    /// The value holds an object pointer.
    Object,
}

/// A dynamic value: nothing, or a pointer to a host object.
#[derive(Clone, Copy, Debug, PartialEq, Eq, Structural)]
pub enum Variant {
    Nil,
    Object(OpaqueObject),
}

impl Variant {
    /// The tag of the value.
    pub open spec fn spec_variant_type(&self) -> VariantType {
        match self {
            Variant::Nil => VariantType::Nil,
            Variant::Object(_) => VariantType::Object,
        }
    }

    /// The tag of the value.
    #[verifier::when_used_as_spec(spec_variant_type)]
    pub fn variant_type(&self) -> (tag: VariantType)
        ensures
            tag == self.spec_variant_type(),
    {
        match self {
            Variant::Nil => VariantType::Nil,
            Variant::Object(_) => VariantType::Object,
        }
    }
}

/// The object pointer that a dynamic value holds; null for a value that holds none.
pub open spec fn spec_object_from_variant(variant: Variant) -> OpaqueObject {
    match variant {
        Variant::Object(obj) => obj,
        Variant::Nil => OpaqueObject { addr: 0 },
    }
}

/// The host's converter from an object pointer to a dynamic value.
pub fn object_to_variant(obj: OpaqueObject) -> (variant: Variant)
    ensures
        variant == Variant::Object(obj),
{
    Variant::Object(obj)
}

/// The host's converter from a dynamic value to an object pointer.
pub fn object_from_variant(variant: &Variant) -> (obj: OpaqueObject)
    ensures
        obj == spec_object_from_variant(*variant),
{
    match variant {
        Variant::Object(obj) => *obj,
        Variant::Nil => OpaqueObject::null(),
    }
}

} // verus!
