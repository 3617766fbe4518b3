//! Morton-code (Z-order curve) keys for 3D spatial indexing.
//!
//! A Morton code interleaves the bits of three coordinates (x, y, z) into
//! one packed unsigned integer, so that spatial locality along the curve
//! corresponds to numeric locality of the packed value.  This crate is the
//! arithmetic core of such an index: it increments or decrements a single
//! coordinate axis directly on the packed representation, without decoding
//! to (x, y, z) and re-encoding, in O(1) time.
//!
//! Two fixed bit layouts are provided: a 64-bit word with 21 levels
//! ([`morton64::Morton3D`]) and a 32-bit word with 10 levels
//! ([`morton32::Morton3D32`]).  In both, the most-significant bit is a flag
//! bit orthogonal to the coordinate payload.

pub mod morton32;
pub mod morton64;

pub use morton64::Morton3D;
pub use morton64::MAX_DEPTH;
pub use morton64::NUM_BITS;
pub use morton32::Morton3D32;
