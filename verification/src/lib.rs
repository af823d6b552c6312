//! A dispatch bridge between a sandboxed contract-execution context and a
//! privileged asset ledger.
//!
//! The bridge is the sole path by which sandboxed code reaches the ledger: it
//! routes a 32-bit selector to a handler, decodes caller-supplied bytes into a
//! typed request, charges an estimated weight for mutating operations before
//! they run, invokes the ledger through the [`ledger::Ledger`] capability
//! interface, and encodes results back into the caller's output buffer.
//! Failures are narrowed to a coarse, stable signal before they cross the
//! trust boundary.

pub mod account;
pub mod codec;
pub mod dispatch;
pub mod error;
pub mod ledger;
pub mod location;
pub mod memory;
pub mod weight;
