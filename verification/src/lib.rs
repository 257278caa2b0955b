//! A callback bridge that lets native code supply image data on demand to a
//! GUI rendering engine across a language boundary.
//!
//! The bridge has three parts, leaves first:
//!
//! - [`buffer`]: the handoff protocol for a byte buffer whose ownership
//!   crosses the boundary, released exactly once by the receiver;
//! - [`ident`] and [`trampoline`]: the boundary-crossing fetch and release
//!   operations, which decode a caller-supplied identifier, invoke the
//!   native supplier, and hand its bytes off;
//! - [`pixel`], [`adapter`] and [`engine`]: the provider side, which serves
//!   one image request as an independent fetch, decode, release cycle, and
//!   the registry that holds one provider adapter per registered name.

pub mod buffer;
pub mod ident;
pub mod pixel;
pub mod trampoline;
pub mod adapter;
pub mod engine;
