//! The engine abstraction: adapters that run script text and exchange
//! [`crate::value::Value`] data with an embedded engine.
//!
//! Exactly one backing engine is active in a build of this crate: the
//! QuickJS adapter in [`quick_js`], whose values are converted to owned
//! host data as soon as they cross the boundary. The [`scoped`] adapter
//! wraps it in the scope discipline needed for engines whose values stay
//! bound to the context that produced them: every value carries the token
//! of its origin scope, and an operation handed a value from another scope
//! fails with a reference-mismatch error instead of reinterpreting it.

pub mod private;
pub mod quick_js;
pub mod scoped;

pub use self::quick_js::Engine;
