//! Seals the engine surface: outside crates can name these types but not
//! stand in for them.

use vstd::prelude::*;

verus! {

/// Marks a type as part of this crate's sealed engine surface.
pub trait Sealed {

}

impl Sealed for crate::js_engine::quick_js::Engine {

}

impl Sealed for crate::value::Value {

}

} // verus!
