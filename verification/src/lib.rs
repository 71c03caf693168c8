//! Semantic lowering for a hierarchical state machine macro.
//!
//! A machine is described by one handler per state (and, optionally, per
//! superstate) plus free-standing entry/exit actions. Lowering cross-links
//! states to their declared superstates and actions by name, infers the
//! event and context types from handler signatures, resolves whether the
//! machine is awaitable or blocking, and filters the shared-storage type's
//! generic parameters down to those each generated type actually needs.

pub mod generics;
pub mod infer;
pub mod ir;
pub mod laws;
pub mod link;
pub mod lower;
pub mod model;
pub mod name;
pub mod variant;
