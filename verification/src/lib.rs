//! Interchange layer between a channel-major matrix buffer representation
//! (fixed element depth, implicit trailing channel axis, possibly strided
//! memory) and a flat, typed, shape-annotated view suitable for a generic
//! n-dimensional array consumer.
//!
//! The library offers three pieces:
//! - a closed registry mapping each supported scalar element type to a
//!   unique runtime depth tag (`element_type`),
//! - a depth- and layout-checked typed view over a buffer's elements
//!   (`mat`), and
//! - shape reconciliation between "spatial sizes + channel count" and a
//!   flat full shape, including reconstruction of a buffer from a flat
//!   slice (`shape`).

pub mod element_type;
pub mod error;
pub mod mat;
pub mod shape;
