//! Two-tier failure representation and the error translator.
//!
//! Inside the bridge every failure is a [`DispatchCause`], rich enough for
//! operator diagnostics: it names the operation, the offending selector, the
//! weight that could not be charged, or the ledger's own error. Across the
//! trust boundary the sandboxed caller only ever sees the narrowed
//! [`DispatchError`], a coarse, stable cause tag with no further payload, so
//! no internal detail leaks and the caller-facing contract survives internal
//! change.

use vstd::prelude::*;

use crate::ledger::LedgerError;

verus! {

/// The bridge operations, named for diagnostics.
#[derive(Clone, Copy, Debug, PartialEq, Eq, Structural)]
pub enum Operation {
    TokenName,
    TokenSymbol,
    TokenDecimals,
    TotalSupply,
    BalanceOf,
    Allowance,
    Transfer,
    TransferFrom,
    Approve,
}

/// The rich, operator-facing failure record. Never returned to the sandboxed
/// caller; the caller sees only [`DispatchCause::narrowed`].
#[derive(Clone, Copy, Debug, PartialEq, Eq, Structural)]
pub enum DispatchCause {
    /// The selector is not part of the protocol.
    UnknownSelector { selector: u32 },
    /// The selector is recognized but not wired to a handler.
    Unimplemented { selector: u32 },
    /// The caller's buffer did not decode into the operation's request.
    DecodeFailed { op: Operation },
    /// The encoded result exceeds the caller-declared output capacity.
    OutputTooLarge { op: Operation, needed: usize, capacity: usize },
    /// The caller's weight budget did not cover the estimated cost.
    OutOfWeight { op: Operation, estimate: u64 },
    /// The ledger refused the operation.
    Ledger { op: Operation, error: LedgerError },
}

/// The narrow, caller-visible failure signal: a coarse cause tag and nothing
/// more.
#[derive(Clone, Copy, Debug, PartialEq, Eq, Structural)]
pub enum DispatchError {
    UnknownSelector,
    Unimplemented,
    DecodeFailed,
    OutputTooLarge,
    OutOfWeight,
    LedgerFailure,
}

impl DispatchCause {
    /// The narrowing policy: each internal cause maps to its coarse tag, and
    /// every payload is dropped.
    pub open spec fn narrowed(self) -> DispatchError {
        match self {
            DispatchCause::UnknownSelector { .. } => DispatchError::UnknownSelector,
            DispatchCause::Unimplemented { .. } => DispatchError::Unimplemented,
            DispatchCause::DecodeFailed { .. } => DispatchError::DecodeFailed,
            DispatchCause::OutputTooLarge { .. } => DispatchError::OutputTooLarge,
            DispatchCause::OutOfWeight { .. } => DispatchError::OutOfWeight,
            DispatchCause::Ledger { .. } => DispatchError::LedgerFailure,
        }
    }

    /// Narrows this cause to the caller-visible signal.
    pub fn narrow(&self) -> (e: DispatchError)
        ensures
            e == self.narrowed(),
    {
        match self {
            DispatchCause::UnknownSelector { .. } => DispatchError::UnknownSelector,
            DispatchCause::Unimplemented { .. } => DispatchError::Unimplemented,
            DispatchCause::DecodeFailed { .. } => DispatchError::DecodeFailed,
            DispatchCause::OutputTooLarge { .. } => DispatchError::OutputTooLarge,
            DispatchCause::OutOfWeight { .. } => DispatchError::OutOfWeight,
            DispatchCause::Ledger { .. } => DispatchError::LedgerFailure,
        }
    }

    /// A short operator-facing description of the failure. The structured
    /// payloads stay available on the variant itself.
    pub fn describe(&self) -> (s: &'static str) {
        match self {
            DispatchCause::UnknownSelector { .. } => "called an unregistered selector",
            DispatchCause::Unimplemented { .. } => "selector is recognized but unimplemented",
            DispatchCause::DecodeFailed { .. } => "request buffer failed to decode",
            DispatchCause::OutputTooLarge { .. } => "result exceeds declared output capacity",
            DispatchCause::OutOfWeight { .. } => "weight budget below estimated cost",
            DispatchCause::Ledger { .. } => "ledger refused the operation",
        }
    }
}

} // verus!
