//! The record that describes a property to the host's class registry.

use vstd::prelude::*;
use crate::variant::VariantType;

verus! {

/// Usage flags of a property when nothing overrides them.
pub const PROPERTY_USAGE_DEFAULT: u32 = 7;

/// The hint of a property that has none.
pub const PROPERTY_HINT_NONE: u32 = 0;

/// What the host's registry is told of one property. The record is made for one
/// registration call and not kept.
#[derive(Debug, PartialEq, Eq)]
pub struct PropertyInfo {
    /// The tag of the property's dynamic type.
    pub variant_type: VariantType,
    /// The property's name.
    pub name: String,
    /// The name of the class behind the property's type.
    pub class_name: String,
    /// A value of the host's hint enumeration.
    pub hint: u32,
    /// The hint's description; none where the host expects a null string.
    pub hint_string: Option<String>,
    /// The usage flags.
    pub usage: u32,
}

} // verus!
