//! A static-analysis rule that flags database query operations executed
//! inside loop bodies — a common source of N+1 query performance bugs.
//!
//! The rule cooperates with a host analysis driver's single pass over a
//! syntax tree. Four components combine:
//!
//! - [`scope`]: the loop scope tracker, which records whether the
//!   traversal currently stands inside a loop body;
//! - [`classify`]: the operation classifier, which decides whether a
//!   call's operation name denotes a data-fetch or execute action;
//! - [`matcher`]: the receiver type matcher, which decides whether a
//!   call's receiver denotes a database connection, pool, transaction or
//!   query-builder value;
//! - [`finding`]: the diagnostic emitter, which builds the structured
//!   finding for a full match.
//!
//! [`rule`] wires them together: for each visited call expression it
//! produces a finding exactly when the call stands inside a loop, its
//! operation name is a query operation, and its receiver's resolved type
//! carries a database marker. [`site`] holds the data a call site carries,
//! and [`text`] the verified string utilities the classifiers rest on.
//!
//! The host's parser, type checker and diagnostic reporting stay outside
//! this crate; they feed it plain traversal events and take plain finding
//! records back.

pub mod classify;
pub mod finding;
pub mod matcher;
pub mod rule;
pub mod scope;
pub mod site;
pub mod text;
