//! The ledger capability interface consumed by the bridge.
//!
//! The bridge never owns token state: balances, allowances and metadata live
//! in a privileged ledger module reached only through the [`Ledger`] trait.
//! An implementation exposes its durable state as a mathematical
//! [`LedgerModel`] and declares the effect of each mutating operation as a
//! function of that model, so every mutation is atomic — it either applies
//! the declared effect in full or reports an error and leaves the model
//! untouched.

use vstd::prelude::*;

use crate::account::AccountId;
use crate::codec::MAX_BYTE_STRING_LEN;

verus! {

/// An opaque failure reported by the ledger. The bridge never interprets the
/// code; it is carried only for operator-facing diagnostics.
#[derive(Clone, Copy, Debug, PartialEq, Eq, Structural)]
pub struct LedgerError {
    pub code: u32,
}

/// The mathematical state of the ledger, as far as the bridge observes it:
/// per-asset balances, allowances, total supplies and metadata. Accounts are
/// identified by the bytes of their identifier. A key absent from a map reads
/// as zero (or as the empty byte string for metadata).
pub struct LedgerModel {
    pub balances: Map<(u32, Seq<u8>), u128>,
    pub allowances: Map<(u32, Seq<u8>, Seq<u8>), u128>,
    pub supplies: Map<u32, u128>,
    pub names: Map<u32, Seq<u8>>,
    pub symbols: Map<u32, Seq<u8>>,
    pub decimals: Map<u32, u8>,
}

impl LedgerModel {
    /// The balance of `account` in `asset_id`.
    pub open spec fn balance_of(self, asset_id: u32, account: Seq<u8>) -> u128 {
        if self.balances.contains_key((asset_id, account)) {
            self.balances[(asset_id, account)]
        } else {
            0
        }
    }

    /// How much `spender` may still draw from `owner` in `asset_id`.
    pub open spec fn allowance_of(self, asset_id: u32, owner: Seq<u8>, spender: Seq<u8>) -> u128 {
        if self.allowances.contains_key((asset_id, owner, spender)) {
            self.allowances[(asset_id, owner, spender)]
        } else {
            0
        }
    }

    /// The total issuance of `asset_id`.
    pub open spec fn supply_of(self, asset_id: u32) -> u128 {
        if self.supplies.contains_key(asset_id) {
            self.supplies[asset_id]
        } else {
            0
        }
    }

    /// The token name of `asset_id`.
    pub open spec fn name_of(self, asset_id: u32) -> Seq<u8> {
        if self.names.contains_key(asset_id) {
            self.names[asset_id]
        } else {
            Seq::empty()
        }
    }

    /// The token symbol of `asset_id`.
    pub open spec fn symbol_of(self, asset_id: u32) -> Seq<u8> {
        if self.symbols.contains_key(asset_id) {
            self.symbols[asset_id]
        } else {
            Seq::empty()
        }
    }

    /// The decimal places of `asset_id`.
    pub open spec fn decimals_of(self, asset_id: u32) -> u8 {
        if self.decimals.contains_key(asset_id) {
            self.decimals[asset_id]
        } else {
            0
        }
    }

    /// This model with its balances replaced.
    pub open spec fn with_balances(self, balances: Map<(u32, Seq<u8>), u128>) -> LedgerModel {
        LedgerModel { balances, ..self }
    }

    /// This model with its allowances replaced.
    pub open spec fn with_allowances(
        self,
        allowances: Map<(u32, Seq<u8>, Seq<u8>), u128>,
    ) -> LedgerModel {
        LedgerModel { allowances, ..self }
    }
}

/// How the outcome of a mutating call relates to its declared effect: on
/// success the new model is exactly the effect's result, and on failure the
/// reported error is the effect's error and the model is unchanged —
/// all-or-nothing application.
pub open spec fn applies(
    r: Result<(), LedgerError>,
    effect: Result<LedgerModel, LedgerError>,
    pre: LedgerModel,
    post: LedgerModel,
) -> bool {
    match effect {
        Ok(m2) => r is Ok && post == m2,
        Err(e) => (r matches Err(e2) && e2 == e) && post == pre,
    }
}

/// The capability interface of the privileged asset ledger.
///
/// Queries report the current model and leave it untouched (they take the
/// ledger by shared reference). Each mutating operation is a deterministic
/// function of the current model, declared by the implementation through the
/// `*_effect` functions, and applies atomically as [`applies`] states. The
/// bridge makes no further assumption about the ledger's accounting rules.
pub trait Ledger: Sized {
    /// The current mathematical state of the ledger.
    spec fn model(&self) -> LedgerModel;

    /// The declared effect of a transfer of `value` from `from` to `to`.
    spec fn transfer_effect(
        m: LedgerModel,
        asset_id: u32,
        from: Seq<u8>,
        to: Seq<u8>,
        value: u128,
        keep_alive: bool,
    ) -> Result<LedgerModel, LedgerError>;

    /// The declared effect of `spender` moving `value` from `from` to `to`
    /// against its allowance.
    spec fn transfer_from_effect(
        m: LedgerModel,
        asset_id: u32,
        spender: Seq<u8>,
        from: Seq<u8>,
        to: Seq<u8>,
        value: u128,
    ) -> Result<LedgerModel, LedgerError>;

    /// The declared effect of `owner` approving `spender` for `value`.
    spec fn approve_effect(
        m: LedgerModel,
        asset_id: u32,
        owner: Seq<u8>,
        spender: Seq<u8>,
        value: u128,
    ) -> Result<LedgerModel, LedgerError>;

    /// The token name of `asset_id`; bounded so its length always has a
    /// compact encoding.
    fn name(&self, asset_id: u32) -> (r: Vec<u8>)
        ensures
            r@ == self.model().name_of(asset_id),
            r@.len() < MAX_BYTE_STRING_LEN,
    ;

    /// The token symbol of `asset_id`; bounded like the name.
    fn symbol(&self, asset_id: u32) -> (r: Vec<u8>)
        ensures
            r@ == self.model().symbol_of(asset_id),
            r@.len() < MAX_BYTE_STRING_LEN,
    ;

    /// The decimal places of `asset_id`.
    fn decimals(&self, asset_id: u32) -> (r: u8)
        ensures
            r == self.model().decimals_of(asset_id),
    ;

    /// The total issuance of `asset_id`.
    fn total_supply(&self, asset_id: u32) -> (r: u128)
        ensures
            r == self.model().supply_of(asset_id),
    ;

    /// The balance of `owner` in `asset_id`.
    fn balance(&self, asset_id: u32, owner: &AccountId) -> (r: u128)
        ensures
            r == self.model().balance_of(asset_id, owner@),
    ;

    /// How much `spender` may still draw from `owner` in `asset_id`.
    fn allowance(&self, asset_id: u32, owner: &AccountId, spender: &AccountId) -> (r: u128)
        ensures
            r == self.model().allowance_of(asset_id, owner@, spender@),
    ;

    /// Moves `value` of `asset_id` from `from` to `to`, applying
    /// [`Ledger::transfer_effect`] atomically.
    fn transfer(
        &mut self,
        asset_id: u32,
        from: &AccountId,
        to: &AccountId,
        value: u128,
        keep_alive: bool,
    ) -> (r: Result<(), LedgerError>)
        ensures
            applies(
                r,
                Self::transfer_effect(old(self).model(), asset_id, from@, to@, value, keep_alive),
                old(self).model(),
                final(self).model(),
            ),
    ;

    /// Moves `value` of `asset_id` from `from` to `to` on behalf of
    /// `spender`, applying [`Ledger::transfer_from_effect`] atomically.
    fn transfer_from(
        &mut self,
        asset_id: u32,
        spender: &AccountId,
        from: &AccountId,
        to: &AccountId,
        value: u128,
    ) -> (r: Result<(), LedgerError>)
        ensures
            applies(
                r,
                Self::transfer_from_effect(
                    old(self).model(),
                    asset_id,
                    spender@,
                    from@,
                    to@,
                    value,
                ),
                old(self).model(),
                final(self).model(),
            ),
    ;

    /// Approves `spender` to draw up to `value` of `asset_id` from `owner`,
    /// applying [`Ledger::approve_effect`] atomically.
    fn approve(
        &mut self,
        asset_id: u32,
        owner: &AccountId,
        spender: &AccountId,
        value: u128,
    ) -> (r: Result<(), LedgerError>)
        ensures
            applies(
                r,
                Self::approve_effect(old(self).model(), asset_id, owner@, spender@, value),
                old(self).model(),
                final(self).model(),
            ),
    ;
}

} // verus!
