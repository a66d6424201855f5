//! The data model of shredded variant values: a variant value split into an
//! optional opaque encoded part and an optional typed part, per element and
//! per object field.

use vstd::prelude::*;

verus! {

/// A shredded array value.
#[derive(Debug, Clone)]
pub struct ShreddedArray {
}

/// A shredded object value.
#[derive(Debug, Clone)]
pub struct ShreddedObject {
}

/// One shredded element: the leftover encoded variant bytes, the typed
/// value, or both (a partially shredded element).
#[derive(Debug, Clone)]
pub struct ShreddedElement {
    pub value: Option<Vec<u8>>,
    pub typed_value: Option<String>,
}

impl ShreddedElement {
    /// An element with neither an encoded nor a typed part carries no
    /// value at all.
    pub fn missing_value(&self) -> (r: bool)
        ensures
            r == (self.value is None && self.typed_value is None),
    {
        self.value.is_none() && self.typed_value.is_none()
    }

    /// An element with both an encoded and a typed part is partially
    /// shredded.
    pub fn partially_shredded(&self) -> (r: bool)
        ensures
            r == (self.value is Some && self.typed_value is Some),
    {
        self.value.is_some() && self.typed_value.is_some()
    }
}

/// One shredded object field: its key and its shredded element.
#[derive(Debug, Clone)]
pub struct ShreddedField {
    pub key: String,
    pub value: ShreddedElement,
}

} // verus!
