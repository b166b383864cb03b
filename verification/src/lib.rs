//! A verified configuration persistence layer and file-operation router.
//!
//! The crate models a single human-editable configuration document: it is
//! loaded from a resolved configuration root, read or mutated through typed
//! accessors (boolean feature flags and a constrained personality setting),
//! and persisted back as a whole. A separate router decides, per call,
//! whether a logical file operation is served locally or forwarded to a
//! remote backend.

pub mod codec;
pub mod config;
pub mod export;
pub mod router;
pub mod store;
pub mod text;
