//! An in-memory asset ledger.
//!
//! [`MemoryLedger`] implements the [`Ledger`] capability with the simplest
//! accounting that honours the interface: balances, allowances, supplies and
//! metadata are kept as append-only entry lists where the newest entry for a
//! key shadows the older ones, and every mutating operation either applies
//! its declared effect in full or reports an error and changes nothing. It
//! serves as the reference implementation of the capability and as the
//! ledger behind the test suite; a production runtime supplies its own.

use vstd::prelude::*;

use crate::account::AccountId;
use crate::codec::MAX_BYTE_STRING_LEN;
use crate::ledger::{Ledger, LedgerError, LedgerModel};

verus! {

/// The error code a [`MemoryLedger`] reports when the source balance does
/// not cover a transfer.
pub const SHORT_BALANCE_CODE: u32 = 1;

/// The error code a [`MemoryLedger`] reports when a transfer would push the
/// beneficiary's balance past the balance range.
pub const BALANCE_OVERFLOW_CODE: u32 = 2;

/// The error code a [`MemoryLedger`] reports when the caller's allowance
/// does not cover a transfer-from.
pub const SHORT_ALLOWANCE_CODE: u32 = 3;

// ---------------------------------------------------------------------------
// The entry lists fold into the maps of the ledger model: each entry is one
// recorded write, and the newest entry for a key wins.
// ---------------------------------------------------------------------------

pub open spec fn balances_map(entries: Seq<(u32, AccountId, u128)>) -> Map<(u32, Seq<u8>), u128>
    decreases entries.len(),
{
    if entries.len() == 0 {
        Map::empty()
    } else {
        balances_map(entries.drop_last()).insert(
            (entries.last().0, entries.last().1@),
            entries.last().2,
        )
    }
}

pub open spec fn allowances_map(entries: Seq<(u32, AccountId, AccountId, u128)>) -> Map<
    (u32, Seq<u8>, Seq<u8>),
    u128,
>
    decreases entries.len(),
{
    if entries.len() == 0 {
        Map::empty()
    } else {
        allowances_map(entries.drop_last()).insert(
            (entries.last().0, entries.last().1@, entries.last().2@),
            entries.last().3,
        )
    }
}

pub open spec fn supplies_map(entries: Seq<(u32, u128)>) -> Map<u32, u128>
    decreases entries.len(),
{
    if entries.len() == 0 {
        Map::empty()
    } else {
        supplies_map(entries.drop_last()).insert(entries.last().0, entries.last().1)
    }
}

/// A metadata byte string as the ledger serves it: a string at or above the
/// codec's bound reads as empty, so every served string stays encodable.
/// The setters only record bounded strings, which read back unchanged.
pub open spec fn bounded_bytes(b: Seq<u8>) -> Seq<u8> {
    if b.len() < MAX_BYTE_STRING_LEN {
        b
    } else {
        Seq::empty()
    }
}

pub open spec fn byte_strings_map(entries: Seq<(u32, Vec<u8>)>) -> Map<u32, Seq<u8>>
    decreases entries.len(),
{
    if entries.len() == 0 {
        Map::empty()
    } else {
        byte_strings_map(entries.drop_last()).insert(
            entries.last().0,
            bounded_bytes(entries.last().1@),
        )
    }
}

pub open spec fn decimals_map(entries: Seq<(u32, u8)>) -> Map<u32, u8>
    decreases entries.len(),
{
    if entries.len() == 0 {
        Map::empty()
    } else {
        decimals_map(entries.drop_last()).insert(entries.last().0, entries.last().1)
    }
}

/// The in-memory ledger.
pub struct MemoryLedger {
    balances: Vec<(u32, AccountId, u128)>,
    allowances: Vec<(u32, AccountId, AccountId, u128)>,
    supplies: Vec<(u32, u128)>,
    names: Vec<(u32, Vec<u8>)>,
    symbols: Vec<(u32, Vec<u8>)>,
    decimals: Vec<(u32, u8)>,
}

impl MemoryLedger {
    /// An empty ledger: every balance, allowance and supply is zero, every
    /// name and symbol empty, every decimals value zero.
    pub fn new() -> (r: MemoryLedger)
        ensures
            r.model() == (LedgerModel {
                balances: Map::empty(),
                allowances: Map::empty(),
                supplies: Map::empty(),
                names: Map::empty(),
                symbols: Map::empty(),
                decimals: Map::empty(),
            }),
    {
        MemoryLedger {
            balances: Vec::new(),
            allowances: Vec::new(),
            supplies: Vec::new(),
            names: Vec::new(),
            symbols: Vec::new(),
            decimals: Vec::new(),
        }
    }

    /// Records `value` as the balance of `who` in `asset_id`.
    pub fn set_balance(&mut self, asset_id: u32, who: &AccountId, value: u128)
        ensures
            final(self).model() == old(self).model().with_balances(
                old(self).model().balances.insert((asset_id, who@), value),
            ),
    {
        self.balances.push((asset_id, who.clone_id(), value));
        proof {
            assert(self.balances@.drop_last() =~= old(self).balances@);
        }
    }

    /// Records `value` as the allowance of `spender` from `owner` in
    /// `asset_id`.
    pub fn set_allowance(&mut self, asset_id: u32, owner: &AccountId, spender: &AccountId, value: u128)
        ensures
            final(self).model() == old(self).model().with_allowances(
                old(self).model().allowances.insert((asset_id, owner@, spender@), value),
            ),
    {
        self.allowances.push((asset_id, owner.clone_id(), spender.clone_id(), value));
        proof {
            assert(self.allowances@.drop_last() =~= old(self).allowances@);
        }
    }

    /// Records `value` as the total supply of `asset_id`.
    pub fn set_total_supply(&mut self, asset_id: u32, value: u128)
        ensures
            final(self).model() == (LedgerModel {
                supplies: old(self).model().supplies.insert(asset_id, value),
                ..old(self).model()
            }),
    {
        self.supplies.push((asset_id, value));
        proof {
            assert(self.supplies@.drop_last() =~= old(self).supplies@);
        }
    }

    /// Records the token name of `asset_id`.
    pub fn set_name(&mut self, asset_id: u32, name: Vec<u8>)
        requires
            name@.len() < MAX_BYTE_STRING_LEN,
        ensures
            final(self).model() == (LedgerModel {
                names: old(self).model().names.insert(asset_id, name@),
                ..old(self).model()
            }),
    {
        self.names.push((asset_id, name));
        proof {
            assert(self.names@.drop_last() =~= old(self).names@);
        }
    }

    /// Records the token symbol of `asset_id`.
    pub fn set_symbol(&mut self, asset_id: u32, symbol: Vec<u8>)
        requires
            symbol@.len() < MAX_BYTE_STRING_LEN,
        ensures
            final(self).model() == (LedgerModel {
                symbols: old(self).model().symbols.insert(asset_id, symbol@),
                ..old(self).model()
            }),
    {
        self.symbols.push((asset_id, symbol));
        proof {
            assert(self.symbols@.drop_last() =~= old(self).symbols@);
        }
    }

    /// Records the decimal places of `asset_id`.
    pub fn set_decimals(&mut self, asset_id: u32, value: u8)
        ensures
            final(self).model() == (LedgerModel {
                decimals: old(self).model().decimals.insert(asset_id, value),
                ..old(self).model()
            }),
    {
        self.decimals.push((asset_id, value));
        proof {
            assert(self.decimals@.drop_last() =~= old(self).decimals@);
        }
    }
}

impl Ledger for MemoryLedger {
    closed spec fn model(&self) -> LedgerModel {
        LedgerModel {
            balances: balances_map(self.balances@),
            allowances: allowances_map(self.allowances@),
            supplies: supplies_map(self.supplies@),
            names: byte_strings_map(self.names@),
            symbols: byte_strings_map(self.symbols@),
            decimals: decimals_map(self.decimals@),
        }
    }

    /// A transfer succeeds when the source covers the amount and the
    /// beneficiary's balance stays in range; a transfer to oneself holds
    /// every balance still.
    open spec fn transfer_effect(
        m: LedgerModel,
        asset_id: u32,
        from: Seq<u8>,
        to: Seq<u8>,
        value: u128,
        keep_alive: bool,
    ) -> Result<LedgerModel, LedgerError> {
        if m.balance_of(asset_id, from) < value {
            Err(LedgerError { code: SHORT_BALANCE_CODE })
        } else if from == to {
            Ok(m)
        } else if m.balance_of(asset_id, to) + value > u128::MAX {
            Err(LedgerError { code: BALANCE_OVERFLOW_CODE })
        } else {
            Ok(
                m.with_balances(
                    m.balances.insert(
                        (asset_id, from),
                        (m.balance_of(asset_id, from) - value) as u128,
                    ).insert((asset_id, to), (m.balance_of(asset_id, to) + value) as u128),
                ),
            )
        }
    }

    /// A transfer-from additionally needs the spender's allowance from the
    /// source to cover the amount, and always consumes that much of it.
    open spec fn transfer_from_effect(
        m: LedgerModel,
        asset_id: u32,
        spender: Seq<u8>,
        from: Seq<u8>,
        to: Seq<u8>,
        value: u128,
    ) -> Result<LedgerModel, LedgerError> {
        if m.allowance_of(asset_id, from, spender) < value {
            Err(LedgerError { code: SHORT_ALLOWANCE_CODE })
        } else if m.balance_of(asset_id, from) < value {
            Err(LedgerError { code: SHORT_BALANCE_CODE })
        } else if from != to && m.balance_of(asset_id, to) + value > u128::MAX {
            Err(LedgerError { code: BALANCE_OVERFLOW_CODE })
        } else {
            let reduced = m.with_allowances(
                m.allowances.insert(
                    (asset_id, from, spender),
                    (m.allowance_of(asset_id, from, spender) - value) as u128,
                ),
            );
            if from == to {
                Ok(reduced)
            } else {
                Ok(
                    reduced.with_balances(
                        reduced.balances.insert(
                            (asset_id, from),
                            (m.balance_of(asset_id, from) - value) as u128,
                        ).insert((asset_id, to), (m.balance_of(asset_id, to) + value) as u128),
                    ),
                )
            }
        }
    }

    /// An approval overwrites the allowance and always succeeds.
    open spec fn approve_effect(
        m: LedgerModel,
        asset_id: u32,
        owner: Seq<u8>,
        spender: Seq<u8>,
        value: u128,
    ) -> Result<LedgerModel, LedgerError> {
        Ok(m.with_allowances(m.allowances.insert((asset_id, owner, spender), value)))
    }

    fn name(&self, asset_id: u32) -> (r: Vec<u8>) {
        lookup_byte_string(&self.names, asset_id)
    }

    fn symbol(&self, asset_id: u32) -> (r: Vec<u8>) {
        lookup_byte_string(&self.symbols, asset_id)
    }

    fn decimals(&self, asset_id: u32) -> (r: u8) {
        let n: usize = self.decimals.len();
        let mut i: usize = n;
        proof {
            assert(self.decimals@.take(n as int) =~= self.decimals@);
        }
        while i > 0
            invariant
                i <= n,
                n == self.decimals@.len(),
                map_u8_at(decimals_map(self.decimals@.take(i as int)), asset_id) == map_u8_at(
                    decimals_map(self.decimals@),
                    asset_id,
                ),
            decreases i,
        {
            proof {
                assert(self.decimals@.take(i as int).drop_last() =~= self.decimals@.take(
                    i as int - 1,
                ));
            }
            let entry = &self.decimals[i - 1];
            if entry.0 == asset_id {
                return entry.1;
            }
            i = i - 1;
        }
        proof {
            assert(self.decimals@.take(0).len() == 0);
        }
        0
    }

    fn total_supply(&self, asset_id: u32) -> (r: u128) {
        let n: usize = self.supplies.len();
        let mut i: usize = n;
        proof {
            assert(self.supplies@.take(n as int) =~= self.supplies@);
        }
        while i > 0
            invariant
                i <= n,
                n == self.supplies@.len(),
                map_u128_at(supplies_map(self.supplies@.take(i as int)), asset_id) == map_u128_at(
                    supplies_map(self.supplies@),
                    asset_id,
                ),
            decreases i,
        {
            proof {
                assert(self.supplies@.take(i as int).drop_last() =~= self.supplies@.take(
                    i as int - 1,
                ));
            }
            let entry = &self.supplies[i - 1];
            if entry.0 == asset_id {
                return entry.1;
            }
            i = i - 1;
        }
        proof {
            assert(self.supplies@.take(0).len() == 0);
        }
        0
    }

    fn balance(&self, asset_id: u32, owner: &AccountId) -> (r: u128) {
        let n: usize = self.balances.len();
        let mut i: usize = n;
        proof {
            assert(self.balances@.take(n as int) =~= self.balances@);
        }
        while i > 0
            invariant
                i <= n,
                n == self.balances@.len(),
                map_balance_at(
                    balances_map(self.balances@.take(i as int)),
                    (asset_id, owner@),
                ) == map_balance_at(balances_map(self.balances@), (asset_id, owner@)),
            decreases i,
        {
            proof {
                assert(self.balances@.take(i as int).drop_last() =~= self.balances@.take(
                    i as int - 1,
                ));
            }
            let entry = &self.balances[i - 1];
            if entry.0 == asset_id && entry.1.equals(owner) {
                return entry.2;
            }
            i = i - 1;
        }
        proof {
            assert(self.balances@.take(0).len() == 0);
        }
        0
    }

    fn allowance(&self, asset_id: u32, owner: &AccountId, spender: &AccountId) -> (r: u128) {
        let n: usize = self.allowances.len();
        let mut i: usize = n;
        proof {
            assert(self.allowances@.take(n as int) =~= self.allowances@);
        }
        while i > 0
            invariant
                i <= n,
                n == self.allowances@.len(),
                map_allowance_at(
                    allowances_map(self.allowances@.take(i as int)),
                    (asset_id, owner@, spender@),
                ) == map_allowance_at(
                    allowances_map(self.allowances@),
                    (asset_id, owner@, spender@),
                ),
            decreases i,
        {
            proof {
                assert(self.allowances@.take(i as int).drop_last() =~= self.allowances@.take(
                    i as int - 1,
                ));
            }
            let entry = &self.allowances[i - 1];
            if entry.0 == asset_id && entry.1.equals(owner) && entry.2.equals(spender) {
                return entry.3;
            }
            i = i - 1;
        }
        proof {
            assert(self.allowances@.take(0).len() == 0);
        }
        0
    }

    fn transfer(
        &mut self,
        asset_id: u32,
        from: &AccountId,
        to: &AccountId,
        value: u128,
        keep_alive: bool,
    ) -> (r: Result<(), LedgerError>) {
        let from_balance = self.balance(asset_id, from);
        if from_balance < value {
            return Err(LedgerError { code: SHORT_BALANCE_CODE });
        }
        if from.equals(to) {
            return Ok(());
        }
        let to_balance = self.balance(asset_id, to);
        if to_balance > u128::MAX - value {
            return Err(LedgerError { code: BALANCE_OVERFLOW_CODE });
        }
        self.set_balance(asset_id, from, from_balance - value);
        self.set_balance(asset_id, to, to_balance + value);
        Ok(())
    }

    fn transfer_from(
        &mut self,
        asset_id: u32,
        spender: &AccountId,
        from: &AccountId,
        to: &AccountId,
        value: u128,
    ) -> (r: Result<(), LedgerError>) {
        let allowed = self.allowance(asset_id, from, spender);
        if allowed < value {
            return Err(LedgerError { code: SHORT_ALLOWANCE_CODE });
        }
        let from_balance = self.balance(asset_id, from);
        if from_balance < value {
            return Err(LedgerError { code: SHORT_BALANCE_CODE });
        }
        if from.equals(to) {
            self.set_allowance(asset_id, from, spender, allowed - value);
            return Ok(());
        }
        let to_balance = self.balance(asset_id, to);
        if to_balance > u128::MAX - value {
            return Err(LedgerError { code: BALANCE_OVERFLOW_CODE });
        }
        self.set_allowance(asset_id, from, spender, allowed - value);
        self.set_balance(asset_id, from, from_balance - value);
        self.set_balance(asset_id, to, to_balance + value);
        Ok(())
    }

    fn approve(
        &mut self,
        asset_id: u32,
        owner: &AccountId,
        spender: &AccountId,
        value: u128,
    ) -> (r: Result<(), LedgerError>) {
        self.set_allowance(asset_id, owner, spender, value);
        Ok(())
    }
}

// ---------------------------------------------------------------------------
// Lookup helpers shared by the query methods.
// ---------------------------------------------------------------------------

pub open spec fn map_balance_at(map: Map<(u32, Seq<u8>), u128>, key: (u32, Seq<u8>)) -> u128 {
    if map.contains_key(key) {
        map[key]
    } else {
        0
    }
}

pub open spec fn map_allowance_at(
    map: Map<(u32, Seq<u8>, Seq<u8>), u128>,
    key: (u32, Seq<u8>, Seq<u8>),
) -> u128 {
    if map.contains_key(key) {
        map[key]
    } else {
        0
    }
}

pub open spec fn map_u128_at(map: Map<u32, u128>, key: u32) -> u128 {
    if map.contains_key(key) {
        map[key]
    } else {
        0
    }
}

pub open spec fn map_u8_at(map: Map<u32, u8>, key: u32) -> u8 {
    if map.contains_key(key) {
        map[key]
    } else {
        0
    }
}

pub open spec fn map_bytes_at(map: Map<u32, Seq<u8>>, key: u32) -> Seq<u8> {
    if map.contains_key(key) {
        map[key]
    } else {
        Seq::empty()
    }
}

/// Finds the newest metadata entry for `asset_id`, or the empty string.
fn lookup_byte_string(entries: &Vec<(u32, Vec<u8>)>, asset_id: u32) -> (r: Vec<u8>)
    ensures
        r@ == map_bytes_at(byte_strings_map(entries@), asset_id),
        r@.len() < MAX_BYTE_STRING_LEN,
{
    let n: usize = entries.len();
    let mut i: usize = n;
    proof {
        assert(entries@.take(n as int) =~= entries@);
    }
    while i > 0
        invariant
            i <= n,
            n == entries@.len(),
            map_bytes_at(byte_strings_map(entries@.take(i as int)), asset_id) == map_bytes_at(
                byte_strings_map(entries@),
                asset_id,
            ),
        decreases i,
    {
        proof {
            assert(entries@.take(i as int).drop_last() =~= entries@.take(i as int - 1));
        }
        let entry = &entries[i - 1];
        if entry.0 == asset_id {
            if entry.1.len() >= MAX_BYTE_STRING_LEN {
                return Vec::new();
            }
            let out = entry.1.clone();
            proof {
                assert forall|j: int| 0 <= j < out@.len() implies out@[j] == entry.1@[j] by {
                    assert(cloned::<u8>(entry.1[j], out[j]));
                }
                assert(out@ =~= entry.1@);
            }
            return out;
        }
        i = i - 1;
    }
    proof {
        assert(entries@.take(0).len() == 0);
    }
    Vec::new()
}

} // verus!
