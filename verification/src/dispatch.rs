//! The dispatcher: selector-based routing over the fixed operation table.
//!
//! A dispatch receives a 32-bit selector, the caller's input bytes, the
//! caller-declared output capacity and the caller's identity, and runs the
//! selected operation against the ledger: codec, then — for mutating
//! operations — the weight meter, then the ledger adapter, then the codec
//! again for the result. The whole behaviour is pinned down by
//! [`spec_dispatch`], the mathematical form of the selector table.
//!
//! [`dispatch`] reports failures as the rich, operator-facing
//! [`DispatchCause`]; [`Psp22Extension::call`] is the trust-boundary entry
//! point, which narrows every failure to the coarse [`DispatchError`] before
//! it reaches the sandboxed caller.

use vstd::prelude::*;
use vstd::bytes::*;

use crate::account::AccountId;
use crate::codec::{
    decode_allowance, decode_approve, decode_asset, decode_balance_of, decode_transfer,
    decode_transfer_from, encode_byte_string, spec_decode_allowance, spec_decode_approve,
    spec_decode_asset, spec_decode_balance_of, spec_decode_transfer, spec_decode_transfer_from,
    spec_encode_byte_string, BALANCE_LEN, TRANSFER_LEN,
};
use crate::error::{DispatchCause, DispatchError, Operation};
use crate::ledger::{Ledger, LedgerModel};
use crate::weight::{estimated_cost, surcharged, WeightMeter, WeightSchedule};

verus! {

// ---------------------------------------------------------------------------
// The selector table. The numeric values are the external wire contract and
// must never be renumbered.
// ---------------------------------------------------------------------------

/// Token name query.
pub const TOKEN_NAME_SELECTOR: u32 = 0x3d26_1bd4;

/// Token symbol query.
pub const TOKEN_SYMBOL_SELECTOR: u32 = 0x3420_5be5;

/// Token decimals query.
pub const TOKEN_DECIMALS_SELECTOR: u32 = 0x7271_b782;

/// Total supply query.
pub const TOTAL_SUPPLY_SELECTOR: u32 = 0x162d_f8c2;

/// Balance query.
pub const BALANCE_OF_SELECTOR: u32 = 0x6568_382f;

/// Allowance query.
pub const ALLOWANCE_SELECTOR: u32 = 0x4d47_d921;

/// Transfer from the caller.
pub const TRANSFER_SELECTOR: u32 = 0xdb20_f9f5;

/// Transfer drawing on the caller's allowance.
pub const TRANSFER_FROM_SELECTOR: u32 = 0x54b3_c76e;

/// Approval of a spender.
pub const APPROVE_SELECTOR: u32 = 0xb20f_1bbd;

/// Allowance increase: an alias routed to the approve handler, with
/// identical ledger effect for identical inputs.
pub const INCREASE_ALLOWANCE_SELECTOR: u32 = 0x96d6_b57a;

/// Allowance decrease: part of the protocol, recognized but not wired to a
/// handler.
pub const DECREASE_ALLOWANCE_SELECTOR: u32 = 0xfecb_57d5;

/// What the selector table says about a selector: the handler it routes to,
/// or that it is recognized-but-unimplemented, or unknown.
#[derive(Clone, Copy, Debug, PartialEq, Eq, Structural)]
pub enum SelectorClass {
    TokenName,
    TokenSymbol,
    TokenDecimals,
    TotalSupply,
    BalanceOf,
    Allowance,
    Transfer,
    TransferFrom,
    Approve,
    DecreaseAllowance,
    Unknown,
}

/// The routing truth: which class each selector belongs to. Both approve
/// selectors route to the same class.
pub open spec fn spec_classify(selector: u32) -> SelectorClass {
    if selector == TOKEN_NAME_SELECTOR {
        SelectorClass::TokenName
    } else if selector == TOKEN_SYMBOL_SELECTOR {
        SelectorClass::TokenSymbol
    } else if selector == TOKEN_DECIMALS_SELECTOR {
        SelectorClass::TokenDecimals
    } else if selector == TOTAL_SUPPLY_SELECTOR {
        SelectorClass::TotalSupply
    } else if selector == BALANCE_OF_SELECTOR {
        SelectorClass::BalanceOf
    } else if selector == ALLOWANCE_SELECTOR {
        SelectorClass::Allowance
    } else if selector == TRANSFER_SELECTOR {
        SelectorClass::Transfer
    } else if selector == TRANSFER_FROM_SELECTOR {
        SelectorClass::TransferFrom
    } else if selector == APPROVE_SELECTOR || selector == INCREASE_ALLOWANCE_SELECTOR {
        SelectorClass::Approve
    } else if selector == DECREASE_ALLOWANCE_SELECTOR {
        SelectorClass::DecreaseAllowance
    } else {
        SelectorClass::Unknown
    }
}

/// Looks a selector up in the table.
pub fn classify(selector: u32) -> (c: SelectorClass)
    ensures
        c == spec_classify(selector),
{
    if selector == TOKEN_NAME_SELECTOR {
        SelectorClass::TokenName
    } else if selector == TOKEN_SYMBOL_SELECTOR {
        SelectorClass::TokenSymbol
    } else if selector == TOKEN_DECIMALS_SELECTOR {
        SelectorClass::TokenDecimals
    } else if selector == TOTAL_SUPPLY_SELECTOR {
        SelectorClass::TotalSupply
    } else if selector == BALANCE_OF_SELECTOR {
        SelectorClass::BalanceOf
    } else if selector == ALLOWANCE_SELECTOR {
        SelectorClass::Allowance
    } else if selector == TRANSFER_SELECTOR {
        SelectorClass::Transfer
    } else if selector == TRANSFER_FROM_SELECTOR {
        SelectorClass::TransferFrom
    } else if selector == APPROVE_SELECTOR || selector == INCREASE_ALLOWANCE_SELECTOR {
        SelectorClass::Approve
    } else if selector == DECREASE_ALLOWANCE_SELECTOR {
        SelectorClass::DecreaseAllowance
    } else {
        SelectorClass::Unknown
    }
}

/// Whether a class names a mutating operation, which must be metered before
/// it runs.
pub open spec fn spec_is_mutating(c: SelectorClass) -> bool {
    c == SelectorClass::Transfer || c == SelectorClass::TransferFrom || c
        == SelectorClass::Approve
}

// ---------------------------------------------------------------------------
// The mathematical model of one dispatch.
// ---------------------------------------------------------------------------

/// Everything one dispatch does, at the level of the models: the outcome
/// handed back (output bytes, or the rich failure cause), the weight budget
/// left, and the ledger state after the call.
pub struct DispatchStep {
    pub outcome: Result<Seq<u8>, DispatchCause>,
    pub weight_remaining: u64,
    pub ledger: LedgerModel,
}

/// The step of a read-only query: no metering, no ledger change; the encoded
/// result is written only if it fits the declared capacity.
pub open spec fn spec_query_step(
    op: Operation,
    encoded: Option<Seq<u8>>,
    capacity: usize,
    budget: u64,
    m: LedgerModel,
) -> DispatchStep {
    match encoded {
        None => DispatchStep {
            outcome: Err(DispatchCause::DecodeFailed { op }),
            weight_remaining: budget,
            ledger: m,
        },
        Some(bytes) => if bytes.len() <= capacity {
            DispatchStep { outcome: Ok(bytes), weight_remaining: budget, ledger: m }
        } else {
            DispatchStep {
                outcome: Err(
                    DispatchCause::OutputTooLarge {
                        op,
                        needed: bytes.len() as usize,
                        capacity,
                    },
                ),
                weight_remaining: budget,
                ledger: m,
            }
        },
    }
}

/// The step of a mutating operation, after its weight was charged: decode,
/// then apply the declared effect; a mutating operation writes no output.
pub open spec fn spec_mutate_step(
    op: Operation,
    effect: Option<Result<LedgerModel, crate::ledger::LedgerError>>,
    remaining: u64,
    m: LedgerModel,
) -> DispatchStep {
    match effect {
        None => DispatchStep {
            outcome: Err(DispatchCause::DecodeFailed { op }),
            weight_remaining: remaining,
            ledger: m,
        },
        Some(Ok(m2)) => DispatchStep {
            outcome: Ok(Seq::empty()),
            weight_remaining: remaining,
            ledger: m2,
        },
        Some(Err(e)) => DispatchStep {
            outcome: Err(DispatchCause::Ledger { op, error: e }),
            weight_remaining: remaining,
            ledger: m,
        },
    }
}

/// The full mathematical model of one dispatch of `selector` with input
/// `input`, a declared output capacity, the caller's identity, the weight
/// schedule, the weight `budget` still available, and the ledger model `m`.
///
/// The order is the one the bridge guarantees: route, then — for mutating
/// operations — charge the surcharged estimate, then decode, then apply the
/// ledger effect. A mutating operation that fails after the charge keeps the
/// charge; nothing else ever changes the budget, and only a successfully
/// applied effect changes the ledger.
pub open spec fn spec_dispatch<L: Ledger>(
    selector: u32,
    input: Seq<u8>,
    capacity: usize,
    caller: Seq<u8>,
    schedule: WeightSchedule,
    budget: u64,
    m: LedgerModel,
) -> DispatchStep {
    match spec_classify(selector) {
        SelectorClass::TokenName => spec_query_step(
            Operation::TokenName,
            match spec_decode_asset(input) {
                Some(a) => Some(spec_encode_byte_string(m.name_of(a))),
                None => None,
            },
            capacity,
            budget,
            m,
        ),
        SelectorClass::TokenSymbol => spec_query_step(
            Operation::TokenSymbol,
            match spec_decode_asset(input) {
                Some(a) => Some(spec_encode_byte_string(m.symbol_of(a))),
                None => None,
            },
            capacity,
            budget,
            m,
        ),
        SelectorClass::TokenDecimals => spec_query_step(
            Operation::TokenDecimals,
            match spec_decode_asset(input) {
                Some(a) => Some(seq![m.decimals_of(a)]),
                None => None,
            },
            capacity,
            budget,
            m,
        ),
        SelectorClass::TotalSupply => spec_query_step(
            Operation::TotalSupply,
            match spec_decode_asset(input) {
                Some(a) => Some(spec_u128_to_le_bytes(m.supply_of(a))),
                None => None,
            },
            capacity,
            budget,
            m,
        ),
        SelectorClass::BalanceOf => spec_query_step(
            Operation::BalanceOf,
            match spec_decode_balance_of(input) {
                Some(v) => Some(spec_u128_to_le_bytes(m.balance_of(v.asset_id, v.owner))),
                None => None,
            },
            capacity,
            budget,
            m,
        ),
        SelectorClass::Allowance => spec_query_step(
            Operation::Allowance,
            match spec_decode_allowance(input) {
                Some(v) => Some(
                    spec_u128_to_le_bytes(m.allowance_of(v.asset_id, v.owner, v.spender)),
                ),
                None => None,
            },
            capacity,
            budget,
            m,
        ),
        SelectorClass::Transfer => {
            let cost = surcharged(schedule.transfer);
            if cost > budget {
                DispatchStep {
                    outcome: Err(
                        DispatchCause::OutOfWeight { op: Operation::Transfer, estimate: cost },
                    ),
                    weight_remaining: budget,
                    ledger: m,
                }
            } else {
                spec_mutate_step(
                    Operation::Transfer,
                    match spec_decode_transfer(input) {
                        Some(v) => Some(
                            L::transfer_effect(m, v.asset_id, caller, v.to, v.value, true),
                        ),
                        None => None,
                    },
                    (budget - cost) as u64,
                    m,
                )
            }
        },
        SelectorClass::TransferFrom => {
            let cost = surcharged(schedule.transfer);
            if cost > budget {
                DispatchStep {
                    outcome: Err(
                        DispatchCause::OutOfWeight { op: Operation::TransferFrom, estimate: cost },
                    ),
                    weight_remaining: budget,
                    ledger: m,
                }
            } else {
                spec_mutate_step(
                    Operation::TransferFrom,
                    match spec_decode_transfer_from(input) {
                        Some(v) => Some(
                            L::transfer_from_effect(m, v.asset_id, caller, v.from, v.to, v.value),
                        ),
                        None => None,
                    },
                    (budget - cost) as u64,
                    m,
                )
            }
        },
        SelectorClass::Approve => {
            let cost = surcharged(schedule.approve);
            if cost > budget {
                DispatchStep {
                    outcome: Err(
                        DispatchCause::OutOfWeight { op: Operation::Approve, estimate: cost },
                    ),
                    weight_remaining: budget,
                    ledger: m,
                }
            } else {
                spec_mutate_step(
                    Operation::Approve,
                    match spec_decode_approve(input) {
                        Some(v) => Some(
                            L::approve_effect(m, v.asset_id, caller, v.spender, v.value),
                        ),
                        None => None,
                    },
                    (budget - cost) as u64,
                    m,
                )
            }
        },
        SelectorClass::DecreaseAllowance => DispatchStep {
            outcome: Err(DispatchCause::Unimplemented { selector }),
            weight_remaining: budget,
            ledger: m,
        },
        SelectorClass::Unknown => DispatchStep {
            outcome: Err(DispatchCause::UnknownSelector { selector }),
            weight_remaining: budget,
            ledger: m,
        },
    }
}

// ---------------------------------------------------------------------------
// The executable dispatcher.
// ---------------------------------------------------------------------------

/// A successful dispatch: the single convergent status value handed back to
/// the sandboxed caller, and the bytes written into its output buffer.
#[derive(Clone, Debug, PartialEq)]
pub struct DispatchSuccess {
    /// Always zero: the convergent success status.
    pub status: u32,
    /// The bytes written, at most the caller-declared capacity.
    pub output: Vec<u8>,
}

/// Hands `bytes` back as the written output if they fit the declared
/// capacity, and refuses with the rich cause otherwise — a result is never
/// silently truncated.
fn write_bounded(op: Operation, bytes: Vec<u8>, capacity: usize) -> (r: Result<
    DispatchSuccess,
    DispatchCause,
>)
    ensures
        bytes@.len() <= capacity ==> (r matches Ok(s) && s.status == 0 && s.output@ == bytes@),
        bytes@.len() > capacity ==> r == Err::<DispatchSuccess, DispatchCause>(
            (DispatchCause::OutputTooLarge { op, needed: bytes@.len() as usize, capacity }),
        ),
{
    if bytes.len() <= capacity {
        Ok(DispatchSuccess { status: 0, output: bytes })
    } else {
        Err(DispatchCause::OutputTooLarge { op, needed: bytes.len(), capacity })
    }
}

/// Routes one call and runs it to completion, reporting failures as the
/// rich, operator-facing [`DispatchCause`]. The result, the weight budget
/// left in the meter and the ledger state after the call are exactly those
/// of [`spec_dispatch`].
pub fn dispatch<L: Ledger>(
    selector: u32,
    input: &[u8],
    output_capacity: usize,
    caller: &AccountId,
    schedule: &WeightSchedule,
    meter: &mut WeightMeter,
    ledger: &mut L,
) -> (r: Result<DispatchSuccess, DispatchCause>)
    requires
        caller.wf(),
    ensures
        ({
            let step = spec_dispatch::<L>(
                selector,
                input@,
                output_capacity,
                caller@,
                *schedule,
                old(meter).spec_remaining(),
                old(ledger).model(),
            );
            &&& final(meter).spec_remaining() == step.weight_remaining
            &&& final(ledger).model() == step.ledger
            &&& match r {
                Ok(s) => step.outcome matches Ok(b) && s.status == 0 && s.output@ == b
                    && s.output@.len() <= output_capacity,
                Err(c) => step.outcome matches Err(c2) && c == c2,
            }
        }),
{
    match classify(selector) {
        SelectorClass::TokenName => match decode_asset(input) {
            None => Err(DispatchCause::DecodeFailed { op: Operation::TokenName }),
            Some(asset_id) => {
                let name = ledger.name(asset_id);
                write_bounded(Operation::TokenName, encode_byte_string(&name), output_capacity)
            },
        },
        SelectorClass::TokenSymbol => match decode_asset(input) {
            None => Err(DispatchCause::DecodeFailed { op: Operation::TokenSymbol }),
            Some(asset_id) => {
                let symbol = ledger.symbol(asset_id);
                write_bounded(Operation::TokenSymbol, encode_byte_string(&symbol), output_capacity)
            },
        },
        SelectorClass::TokenDecimals => match decode_asset(input) {
            None => Err(DispatchCause::DecodeFailed { op: Operation::TokenDecimals }),
            Some(asset_id) => {
                let d = ledger.decimals(asset_id);
                let mut bytes: Vec<u8> = Vec::new();
                bytes.push(d);
                proof {
                    assert(bytes@ =~= seq![ledger.model().decimals_of(asset_id)]);
                }
                write_bounded(Operation::TokenDecimals, bytes, output_capacity)
            },
        },
        SelectorClass::TotalSupply => match decode_asset(input) {
            None => Err(DispatchCause::DecodeFailed { op: Operation::TotalSupply }),
            Some(asset_id) => {
                let supply = ledger.total_supply(asset_id);
                write_bounded(Operation::TotalSupply, u128_to_le_bytes(supply), output_capacity)
            },
        },
        SelectorClass::BalanceOf => match decode_balance_of(input) {
            None => Err(DispatchCause::DecodeFailed { op: Operation::BalanceOf }),
            Some(req) => {
                let balance = ledger.balance(req.asset_id, &req.owner);
                write_bounded(Operation::BalanceOf, u128_to_le_bytes(balance), output_capacity)
            },
        },
        SelectorClass::Allowance => match decode_allowance(input) {
            None => Err(DispatchCause::DecodeFailed { op: Operation::Allowance }),
            Some(req) => {
                let allowance = ledger.allowance(req.asset_id, &req.owner, &req.spender);
                write_bounded(Operation::Allowance, u128_to_le_bytes(allowance), output_capacity)
            },
        },
        SelectorClass::Transfer => {
            let cost = estimated_cost(schedule.transfer);
            match meter.charge(cost) {
                Err(_) => Err(DispatchCause::OutOfWeight { op: Operation::Transfer, estimate: cost }),
                Ok(_) => match decode_transfer(input) {
                    None => Err(DispatchCause::DecodeFailed { op: Operation::Transfer }),
                    Some(req) => match ledger.transfer(req.asset_id, caller, &req.to, req.value, true) {
                        Ok(_) => Ok(DispatchSuccess { status: 0, output: Vec::new() }),
                        Err(e) => Err(DispatchCause::Ledger { op: Operation::Transfer, error: e }),
                    },
                },
            }
        },
        SelectorClass::TransferFrom => {
            let cost = estimated_cost(schedule.transfer);
            match meter.charge(cost) {
                Err(_) => Err(
                    DispatchCause::OutOfWeight { op: Operation::TransferFrom, estimate: cost },
                ),
                Ok(_) => match decode_transfer_from(input) {
                    None => Err(DispatchCause::DecodeFailed { op: Operation::TransferFrom }),
                    Some(req) => match ledger.transfer_from(
                        req.asset_id,
                        caller,
                        &req.from,
                        &req.to,
                        req.value,
                    ) {
                        Ok(_) => Ok(DispatchSuccess { status: 0, output: Vec::new() }),
                        Err(e) => Err(
                            DispatchCause::Ledger { op: Operation::TransferFrom, error: e },
                        ),
                    },
                },
            }
        },
        SelectorClass::Approve => {
            let cost = estimated_cost(schedule.approve);
            match meter.charge(cost) {
                Err(_) => Err(DispatchCause::OutOfWeight { op: Operation::Approve, estimate: cost }),
                Ok(_) => match decode_approve(input) {
                    None => Err(DispatchCause::DecodeFailed { op: Operation::Approve }),
                    Some(req) => match ledger.approve(req.asset_id, caller, &req.spender, req.value) {
                        Ok(_) => Ok(DispatchSuccess { status: 0, output: Vec::new() }),
                        Err(e) => Err(DispatchCause::Ledger { op: Operation::Approve, error: e }),
                    },
                },
            }
        },
        SelectorClass::DecreaseAllowance => Err(DispatchCause::Unimplemented { selector }),
        SelectorClass::Unknown => Err(DispatchCause::UnknownSelector { selector }),
    }
}

/// The chain-extension entry point the sandboxed caller reaches.
pub struct Psp22Extension;

impl Psp22Extension {
    /// Dispatches one call across the trust boundary. Behaves as
    /// [`dispatch`], but every failure is narrowed to the coarse, stable
    /// [`DispatchError`] before it is handed to the sandboxed caller; the
    /// rich cause stays inside the bridge.
    pub fn call<L: Ledger>(
        selector: u32,
        input: &[u8],
        output_capacity: usize,
        caller: &AccountId,
        schedule: &WeightSchedule,
        meter: &mut WeightMeter,
        ledger: &mut L,
    ) -> (r: Result<DispatchSuccess, DispatchError>)
        requires
            caller.wf(),
        ensures
            ({
                let step = spec_dispatch::<L>(
                    selector,
                    input@,
                    output_capacity,
                    caller@,
                    *schedule,
                    old(meter).spec_remaining(),
                    old(ledger).model(),
                );
                &&& final(meter).spec_remaining() == step.weight_remaining
                &&& final(ledger).model() == step.ledger
                &&& match r {
                    Ok(s) => step.outcome matches Ok(b) && s.status == 0 && s.output@ == b
                        && s.output@.len() <= output_capacity,
                    Err(e) => step.outcome matches Err(c) && e == c.narrowed(),
                }
            }),
    {
        match dispatch(selector, input, output_capacity, caller, schedule, meter, ledger) {
            Ok(s) => Ok(s),
            Err(cause) => Err(cause.narrow()),
        }
    }

    /// The extension is always enabled.
    pub fn enabled() -> (b: bool)
        ensures
            b,
    {
        true
    }
}

// ---------------------------------------------------------------------------
// Laws of the dispatcher, each proved from the model above.
// ---------------------------------------------------------------------------

/// Law: a selector that does not route to a mutating handler — the queries,
/// the recognized-but-unimplemented selector, and every unknown selector —
/// leaves the ledger and the weight budget exactly as they were.
pub proof fn lemma_read_only_preserves_state<L: Ledger>(
    selector: u32,
    input: Seq<u8>,
    capacity: usize,
    caller: Seq<u8>,
    schedule: WeightSchedule,
    budget: u64,
    m: LedgerModel,
)
    requires
        !spec_is_mutating(spec_classify(selector)),
    ensures
        spec_dispatch::<L>(selector, input, capacity, caller, schedule, budget, m).ledger == m,
        spec_dispatch::<L>(selector, input, capacity, caller, schedule, budget, m).weight_remaining
            == budget,
{
}

/// Law: the ledger never changes without the weight meter having been
/// charged first. Whenever a dispatch leaves the ledger different from how
/// it found it, the selector routed to a mutating handler and the full
/// surcharged estimate of that handler's base cost was deducted.
pub proof fn lemma_no_unmetered_mutation<L: Ledger>(
    selector: u32,
    input: Seq<u8>,
    capacity: usize,
    caller: Seq<u8>,
    schedule: WeightSchedule,
    budget: u64,
    m: LedgerModel,
)
    ensures
        ({
            let step = spec_dispatch::<L>(selector, input, capacity, caller, schedule, budget, m);
            step.ledger != m ==> spec_is_mutating(spec_classify(selector)) && ({
                let base = if spec_classify(selector) == SelectorClass::Approve {
                    schedule.approve
                } else {
                    schedule.transfer
                };
                surcharged(base) <= budget && step.weight_remaining == budget - surcharged(base)
            })
        }),
{
}

/// Law: no dispatch ever refunds weight. Whatever the selector, the input
/// and the outcome, the budget after the call is at most the budget before
/// it.
pub proof fn lemma_budget_never_grows<L: Ledger>(
    selector: u32,
    input: Seq<u8>,
    capacity: usize,
    caller: Seq<u8>,
    schedule: WeightSchedule,
    budget: u64,
    m: LedgerModel,
)
    ensures
        spec_dispatch::<L>(selector, input, capacity, caller, schedule, budget, m).weight_remaining
            <= budget,
{
}

/// Law: a balance query reports the ledger's current balance of the owner
/// the request names, and mutates nothing. With a well-formed buffer and an
/// output capacity that holds an encoded balance, the outcome is exactly the
/// canonical encoding of that balance.
pub proof fn lemma_balance_of_query<L: Ledger>(
    input: Seq<u8>,
    capacity: usize,
    caller: Seq<u8>,
    schedule: WeightSchedule,
    budget: u64,
    m: LedgerModel,
)
    requires
        spec_decode_balance_of(input) is Some,
        BALANCE_LEN <= capacity,
    ensures
        ({
            let step = spec_dispatch::<L>(
                BALANCE_OF_SELECTOR,
                input,
                capacity,
                caller,
                schedule,
                budget,
                m,
            );
            let v = spec_decode_balance_of(input).unwrap();
            &&& step.outcome == Ok::<Seq<u8>, DispatchCause>(
                spec_u128_to_le_bytes(m.balance_of(v.asset_id, v.owner)),
            )
            &&& step.ledger == m
            &&& step.weight_remaining == budget
        }),
{
    lemma_auto_spec_u128_to_from_le_bytes();
}

/// Law: a transfer dispatched against a weight budget below the surcharged
/// estimate fails with the out-of-weight cause, every ledger balance is left
/// unchanged, and nothing is deducted from the budget.
pub proof fn lemma_transfer_out_of_weight<L: Ledger>(
    input: Seq<u8>,
    capacity: usize,
    caller: Seq<u8>,
    schedule: WeightSchedule,
    budget: u64,
    m: LedgerModel,
)
    requires
        surcharged(schedule.transfer) > budget,
    ensures
        ({
            let step = spec_dispatch::<L>(
                TRANSFER_SELECTOR,
                input,
                capacity,
                caller,
                schedule,
                budget,
                m,
            );
            &&& step.outcome == Err::<Seq<u8>, DispatchCause>(
                (DispatchCause::OutOfWeight {
                    op: Operation::Transfer,
                    estimate: surcharged(schedule.transfer),
                }),
            )
            &&& step.ledger == m
            &&& step.weight_remaining == budget
        }),
{
}

/// Law: an unregistered selector fails with the unknown-selector cause,
/// writes no output bytes, and has no effect on the ledger or the budget.
pub proof fn lemma_unknown_selector<L: Ledger>(
    selector: u32,
    input: Seq<u8>,
    capacity: usize,
    caller: Seq<u8>,
    schedule: WeightSchedule,
    budget: u64,
    m: LedgerModel,
)
    requires
        spec_classify(selector) == SelectorClass::Unknown,
    ensures
        ({
            let step = spec_dispatch::<L>(selector, input, capacity, caller, schedule, budget, m);
            &&& step.outcome == Err::<Seq<u8>, DispatchCause>(
                (DispatchCause::UnknownSelector { selector }),
            )
            &&& step.ledger == m
            &&& step.weight_remaining == budget
        }),
{
}

/// Law: the allowance-decrease selector is recognized but unimplemented, and
/// its narrowed, caller-visible signal differs from the one an unknown
/// selector produces — integrators can tell "recognized but not wired" from
/// "not part of the protocol".
pub proof fn lemma_decrease_allowance_unimplemented<L: Ledger>(
    input: Seq<u8>,
    capacity: usize,
    caller: Seq<u8>,
    schedule: WeightSchedule,
    budget: u64,
    m: LedgerModel,
)
    ensures
        ({
            let step = spec_dispatch::<L>(
                DECREASE_ALLOWANCE_SELECTOR,
                input,
                capacity,
                caller,
                schedule,
                budget,
                m,
            );
            &&& step.outcome == Err::<Seq<u8>, DispatchCause>(
                (DispatchCause::Unimplemented { selector: DECREASE_ALLOWANCE_SELECTOR }),
            )
            &&& step.outcome->Err_0.narrowed() == DispatchError::Unimplemented
            &&& step.outcome->Err_0.narrowed() != DispatchError::UnknownSelector
            &&& step.ledger == m
            &&& step.weight_remaining == budget
        }),
{
}

/// Law: the approve selector and the allowance-increase selector route to
/// the same handler; with the same input, caller, schedule, budget and
/// ledger they produce the same outcome, the same remaining budget and the
/// same resulting ledger — in particular, identical resulting allowances.
pub proof fn lemma_approve_aliases_agree<L: Ledger>(
    input: Seq<u8>,
    capacity: usize,
    caller: Seq<u8>,
    schedule: WeightSchedule,
    budget: u64,
    m: LedgerModel,
)
    ensures
        spec_dispatch::<L>(APPROVE_SELECTOR, input, capacity, caller, schedule, budget, m)
            == spec_dispatch::<L>(
            INCREASE_ALLOWANCE_SELECTOR,
            input,
            capacity,
            caller,
            schedule,
            budget,
            m,
        ),
{
}

/// Law: the weight charge precedes decoding. A malformed transfer buffer
/// dispatched against a sufficient budget still consumes the full surcharged
/// transfer estimate, even though the call fails with the decode cause; the
/// ledger is untouched.
pub proof fn lemma_malformed_transfer_still_charged<L: Ledger>(
    input: Seq<u8>,
    capacity: usize,
    caller: Seq<u8>,
    schedule: WeightSchedule,
    budget: u64,
    m: LedgerModel,
)
    requires
        input.len() < TRANSFER_LEN,
        surcharged(schedule.transfer) <= budget,
    ensures
        ({
            let step = spec_dispatch::<L>(
                TRANSFER_SELECTOR,
                input,
                capacity,
                caller,
                schedule,
                budget,
                m,
            );
            &&& step.outcome == Err::<Seq<u8>, DispatchCause>(
                (DispatchCause::DecodeFailed { op: Operation::Transfer }),
            )
            &&& step.weight_remaining == budget - surcharged(schedule.transfer)
            &&& step.ledger == m
        }),
{
}

} // verus!
