//! Safe adaptation layer in front of a native hierarchical
//! configuration-tree engine.
//!
//! The engine itself (file parsing, tree storage, serialization) is an
//! external collaborator reached through a narrow call interface; this
//! crate holds the logic that makes that interface safe: the
//! configuration-flag bitmask, the typed error taxonomy, translation of
//! the engine's out-of-band error state, validation of strings before
//! they cross the call boundary, and the decision rules that turn each
//! raw call outcome into a typed result.

pub mod error;
pub mod flags;
pub mod marshal;
pub mod ops;

pub use error::{AugeasError, Error, ErrorCode, NulError, ParseError};
pub use flags::{AugFlags, Flags};
