//! A registry of user complaints and the evidence attached to them.
//!
//! Every complaint moves through a small lifecycle. While it is active,
//! evidence may be attached and its status may change; once it is resolved
//! or rejected it is frozen for good. All operations are total: a call that
//! is not accepted returns `false` and leaves the registry as it was.
//!
//! Identifiers, hashes and timestamps are opaque text and are stored as
//! they come. A status is one of four states; a change of status that
//! names none of them is refused.
//!
//! - [`registry`] holds the registry and its operations;
//! - [`rules`] says, on maps from identifiers to records, which calls are
//!   accepted and what they leave behind;
//! - [`laws`] proves what follows from the rules for every registry;
//! - [`record`] and [`status`] hold the records and the states;
//! - [`key_order`] and [`listing`] fix the order in which complaints are
//!   listed;
//! - [`operations`] names the operations and their parameters.

pub mod key_order;
pub mod laws;
pub mod listing;
pub mod operations;
pub mod record;
pub mod registry;
pub mod rules;
pub mod status;

pub use operations::{Operation, Parameter};
pub use record::{ComplaintInfo, ComplaintRecord, ProofInfo, ProofRecord};
pub use registry::AuditLayerContractState;
pub use status::ComplaintStatus;
