//! Small conversion helpers.

use vstd::prelude::*;

verus! {

/// Renders any printable value — typically an error — as its display
/// string.
pub fn ref_into_string<T: core::fmt::Display>(value: T) -> (r: String) {
    value.to_string()
}

} // verus!
