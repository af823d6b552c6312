//! The argument codec: typed requests and their canonical fixed encoding.
//!
//! Every request is a fixed sequence of protocol scalars — a 4-byte asset
//! identifier, 32-byte account identifiers and a 16-byte balance, each encoded
//! little-endian — concatenated in field order with no padding. Decoding reads
//! the fields from the front of the caller's buffer and is permissive about
//! trailing bytes: a buffer that holds at least the encoded length of the
//! request decodes to the request spelled by its leading bytes, and any bytes
//! after them are ignored. A truncated buffer is rejected.

use vstd::prelude::*;
use vstd::bytes::*;
use vstd::slice::*;

use crate::account::{AccountId, ACCOUNT_ID_LEN};

verus! {

/// Encoded length of an asset identifier.
pub const ASSET_ID_LEN: usize = 4;

/// Encoded length of a balance amount.
pub const BALANCE_LEN: usize = 16;

/// Encoded length of a balance-of request: asset, owner.
pub const BALANCE_OF_LEN: usize = 36;

/// Encoded length of an allowance request: asset, owner, spender.
pub const ALLOWANCE_LEN: usize = 68;

/// Encoded length of a transfer request: asset, beneficiary, amount.
pub const TRANSFER_LEN: usize = 52;

/// Encoded length of a transfer-from request: asset, source, beneficiary,
/// amount.
pub const TRANSFER_FROM_LEN: usize = 84;

/// Encoded length of an approve request: asset, spender, amount.
pub const APPROVE_LEN: usize = 52;

// ---------------------------------------------------------------------------
// Mathematical views of the request types.
// ---------------------------------------------------------------------------

/// View of a balance-of request.
pub struct BalanceOfView {
    pub asset_id: u32,
    pub owner: Seq<u8>,
}

/// View of an allowance request.
pub struct AllowanceView {
    pub asset_id: u32,
    pub owner: Seq<u8>,
    pub spender: Seq<u8>,
}

/// View of a transfer request.
pub struct TransferView {
    pub asset_id: u32,
    pub to: Seq<u8>,
    pub value: u128,
}

/// View of a transfer-from request.
pub struct TransferFromView {
    pub asset_id: u32,
    pub from: Seq<u8>,
    pub to: Seq<u8>,
    pub value: u128,
}

/// View of an approve request.
pub struct ApproveView {
    pub asset_id: u32,
    pub spender: Seq<u8>,
    pub value: u128,
}

impl BalanceOfView {
    pub open spec fn wf(self) -> bool {
        self.owner.len() == ACCOUNT_ID_LEN
    }
}

impl AllowanceView {
    pub open spec fn wf(self) -> bool {
        self.owner.len() == ACCOUNT_ID_LEN && self.spender.len() == ACCOUNT_ID_LEN
    }
}

impl TransferView {
    pub open spec fn wf(self) -> bool {
        self.to.len() == ACCOUNT_ID_LEN
    }
}

impl TransferFromView {
    pub open spec fn wf(self) -> bool {
        self.from.len() == ACCOUNT_ID_LEN && self.to.len() == ACCOUNT_ID_LEN
    }
}

impl ApproveView {
    pub open spec fn wf(self) -> bool {
        self.spender.len() == ACCOUNT_ID_LEN
    }
}

// ---------------------------------------------------------------------------
// Canonical encodings, as sequences of bytes.
// ---------------------------------------------------------------------------

/// Encoding of a bare asset identifier, as read by the metadata and
/// total-supply queries.
pub open spec fn spec_encode_asset(asset_id: u32) -> Seq<u8> {
    spec_u32_to_le_bytes(asset_id)
}

pub open spec fn spec_encode_balance_of(v: BalanceOfView) -> Seq<u8> {
    spec_u32_to_le_bytes(v.asset_id) + v.owner
}

pub open spec fn spec_encode_allowance(v: AllowanceView) -> Seq<u8> {
    spec_u32_to_le_bytes(v.asset_id) + v.owner + v.spender
}

pub open spec fn spec_encode_transfer(v: TransferView) -> Seq<u8> {
    spec_u32_to_le_bytes(v.asset_id) + v.to + spec_u128_to_le_bytes(v.value)
}

pub open spec fn spec_encode_transfer_from(v: TransferFromView) -> Seq<u8> {
    spec_u32_to_le_bytes(v.asset_id) + v.from + v.to + spec_u128_to_le_bytes(v.value)
}

pub open spec fn spec_encode_approve(v: ApproveView) -> Seq<u8> {
    spec_u32_to_le_bytes(v.asset_id) + v.spender + spec_u128_to_le_bytes(v.value)
}

// ---------------------------------------------------------------------------
// Canonical decodings. A request decodes from any buffer long enough to hold
// it; the fields are read from the front and trailing bytes are ignored.
// ---------------------------------------------------------------------------

pub open spec fn spec_decode_asset(b: Seq<u8>) -> Option<u32> {
    if b.len() >= 4 {
        Some(spec_u32_from_le_bytes(b.subrange(0, 4)))
    } else {
        None
    }
}

pub open spec fn spec_decode_balance_of(b: Seq<u8>) -> Option<BalanceOfView> {
    if b.len() >= BALANCE_OF_LEN {
        Some(
            BalanceOfView {
                asset_id: spec_u32_from_le_bytes(b.subrange(0, 4)),
                owner: b.subrange(4, 36),
            },
        )
    } else {
        None
    }
}

pub open spec fn spec_decode_allowance(b: Seq<u8>) -> Option<AllowanceView> {
    if b.len() >= ALLOWANCE_LEN {
        Some(
            AllowanceView {
                asset_id: spec_u32_from_le_bytes(b.subrange(0, 4)),
                owner: b.subrange(4, 36),
                spender: b.subrange(36, 68),
            },
        )
    } else {
        None
    }
}

pub open spec fn spec_decode_transfer(b: Seq<u8>) -> Option<TransferView> {
    if b.len() >= TRANSFER_LEN {
        Some(
            TransferView {
                asset_id: spec_u32_from_le_bytes(b.subrange(0, 4)),
                to: b.subrange(4, 36),
                value: spec_u128_from_le_bytes(b.subrange(36, 52)),
            },
        )
    } else {
        None
    }
}

pub open spec fn spec_decode_transfer_from(b: Seq<u8>) -> Option<TransferFromView> {
    if b.len() >= TRANSFER_FROM_LEN {
        Some(
            TransferFromView {
                asset_id: spec_u32_from_le_bytes(b.subrange(0, 4)),
                from: b.subrange(4, 36),
                to: b.subrange(36, 68),
                value: spec_u128_from_le_bytes(b.subrange(68, 84)),
            },
        )
    } else {
        None
    }
}

pub open spec fn spec_decode_approve(b: Seq<u8>) -> Option<ApproveView> {
    if b.len() >= APPROVE_LEN {
        Some(
            ApproveView {
                asset_id: spec_u32_from_le_bytes(b.subrange(0, 4)),
                spender: b.subrange(4, 36),
                value: spec_u128_from_le_bytes(b.subrange(36, 52)),
            },
        )
    } else {
        None
    }
}

// ---------------------------------------------------------------------------
// Byte strings (token name and symbol) are encoded as a compact length
// prefix followed by the bytes. The prefix stores the length shifted left by
// two bits; the low two bits select the prefix width (one, two or four
// bytes), so every length below 2^30 has exactly one encoding.
// ---------------------------------------------------------------------------

/// Byte strings at or above this length have no compact length prefix at the
/// widths the codec writes; the ledger keeps metadata below it.
pub const MAX_BYTE_STRING_LEN: usize = 0x4000_0000;

/// The compact length prefix for a byte string of length `n`.
pub open spec fn spec_compact_len_prefix(n: nat) -> Seq<u8>
    recommends
        n < MAX_BYTE_STRING_LEN,
{
    if n < 0x40 {
        seq![(n * 4) as u8]
    } else if n < 0x4000 {
        spec_u16_to_le_bytes((n * 4 + 1) as u16)
    } else if n < 0x4000_0000 {
        spec_u32_to_le_bytes((n * 4 + 2) as u32)
    } else {
        Seq::empty()
    }
}

/// The encoding of a byte string: its compact length prefix, then its bytes.
pub open spec fn spec_encode_byte_string(b: Seq<u8>) -> Seq<u8>
    recommends
        b.len() < MAX_BYTE_STRING_LEN,
{
    spec_compact_len_prefix(b.len()) + b
}

/// Encodes a byte string in its canonical form.
pub fn encode_byte_string(data: &Vec<u8>) -> (out: Vec<u8>)
    requires
        data@.len() < MAX_BYTE_STRING_LEN,
    ensures
        out@ == spec_encode_byte_string(data@),
{
    let n: usize = data.len();
    let mut out: Vec<u8>;
    if n < 0x40 {
        out = Vec::new();
        out.push((n * 4) as u8);
        proof {
            assert(out@ =~= spec_compact_len_prefix(data@.len()));
        }
    } else if n < 0x4000 {
        let v: u16 = (n * 4 + 1) as u16;
        out = u16_to_le_bytes(v);
    } else {
        let v: u32 = ((n as u64) * 4 + 2) as u32;
        out = u32_to_le_bytes(v);
    }
    append_bytes(&mut out, data);
    out
}

// ---------------------------------------------------------------------------
// The typed request values.
// ---------------------------------------------------------------------------

/// A balance-of request: the balance of `owner` in asset `asset_id`.
#[derive(Clone, Debug, PartialEq)]
pub struct Psp22BalanceOfInput {
    pub asset_id: u32,
    pub owner: AccountId,
}

/// An allowance request: how much `spender` may draw from `owner` in asset
/// `asset_id`.
#[derive(Clone, Debug, PartialEq)]
pub struct Psp22AllowanceInput {
    pub asset_id: u32,
    pub owner: AccountId,
    pub spender: AccountId,
}

/// A transfer request: move `value` of `asset_id` from the caller to `to`.
#[derive(Clone, Debug, PartialEq)]
pub struct Psp22TransferInput {
    pub asset_id: u32,
    pub to: AccountId,
    pub value: u128,
}

/// A transfer-from request: the caller moves `value` of `asset_id` from
/// `from` to `to`, drawing on its allowance.
#[derive(Clone, Debug, PartialEq)]
pub struct Psp22TransferFromInput {
    pub asset_id: u32,
    pub from: AccountId,
    pub to: AccountId,
    pub value: u128,
}

/// An approve request: let `spender` draw up to `value` of `asset_id` from
/// the caller.
#[derive(Clone, Debug, PartialEq)]
pub struct Psp22ApproveInput {
    pub asset_id: u32,
    pub spender: AccountId,
    pub value: u128,
}

impl View for Psp22BalanceOfInput {
    type V = BalanceOfView;

    open spec fn view(&self) -> BalanceOfView {
        BalanceOfView { asset_id: self.asset_id, owner: self.owner@ }
    }
}

impl View for Psp22AllowanceInput {
    type V = AllowanceView;

    open spec fn view(&self) -> AllowanceView {
        AllowanceView { asset_id: self.asset_id, owner: self.owner@, spender: self.spender@ }
    }
}

impl View for Psp22TransferInput {
    type V = TransferView;

    open spec fn view(&self) -> TransferView {
        TransferView { asset_id: self.asset_id, to: self.to@, value: self.value }
    }
}

impl View for Psp22TransferFromInput {
    type V = TransferFromView;

    open spec fn view(&self) -> TransferFromView {
        TransferFromView {
            asset_id: self.asset_id,
            from: self.from@,
            to: self.to@,
            value: self.value,
        }
    }
}

impl View for Psp22ApproveInput {
    type V = ApproveView;

    open spec fn view(&self) -> ApproveView {
        ApproveView { asset_id: self.asset_id, spender: self.spender@, value: self.value }
    }
}

// ---------------------------------------------------------------------------
// Encoding.
// ---------------------------------------------------------------------------

/// Appends every byte of `b` to `out`, in order.
fn append_bytes(out: &mut Vec<u8>, b: &Vec<u8>)
    ensures
        final(out)@ == old(out)@ + b@,
{
    let mut i: usize = 0;
    while i < b.len()
        invariant
            i <= b@.len(),
            out@ == old(out)@ + b@.take(i as int),
        decreases b@.len() - i,
    {
        out.push(b[i]);
        proof {
            assert(old(out)@ + b@.take(i as int) + seq![b@[i as int]] =~= old(out)@ + b@.take(
                i as int + 1,
            ));
        }
        i = i + 1;
    }
    proof {
        assert(b@.take(b@.len() as int) =~= b@);
    }
}

/// Encodes a bare asset identifier.
pub fn encode_asset(asset_id: u32) -> (out: Vec<u8>)
    ensures
        out@ == spec_encode_asset(asset_id),
{
    u32_to_le_bytes(asset_id)
}

impl Psp22BalanceOfInput {
    pub open spec fn wf(&self) -> bool {
        self.owner.wf()
    }

    /// Encodes the request in its canonical form.
    pub fn encode(&self) -> (out: Vec<u8>)
        ensures
            out@ == spec_encode_balance_of(self@),
    {
        let mut out = u32_to_le_bytes(self.asset_id);
        append_bytes(&mut out, self.owner.as_bytes());
        out
    }
}

impl Psp22AllowanceInput {
    pub open spec fn wf(&self) -> bool {
        self.owner.wf() && self.spender.wf()
    }

    /// Encodes the request in its canonical form.
    pub fn encode(&self) -> (out: Vec<u8>)
        ensures
            out@ == spec_encode_allowance(self@),
    {
        let mut out = u32_to_le_bytes(self.asset_id);
        append_bytes(&mut out, self.owner.as_bytes());
        append_bytes(&mut out, self.spender.as_bytes());
        out
    }
}

impl Psp22TransferInput {
    pub open spec fn wf(&self) -> bool {
        self.to.wf()
    }

    /// Encodes the request in its canonical form.
    pub fn encode(&self) -> (out: Vec<u8>)
        ensures
            out@ == spec_encode_transfer(self@),
    {
        let mut out = u32_to_le_bytes(self.asset_id);
        append_bytes(&mut out, self.to.as_bytes());
        let tail = u128_to_le_bytes(self.value);
        append_bytes(&mut out, &tail);
        out
    }
}

impl Psp22TransferFromInput {
    pub open spec fn wf(&self) -> bool {
        self.from.wf() && self.to.wf()
    }

    /// Encodes the request in its canonical form.
    pub fn encode(&self) -> (out: Vec<u8>)
        ensures
            out@ == spec_encode_transfer_from(self@),
    {
        let mut out = u32_to_le_bytes(self.asset_id);
        append_bytes(&mut out, self.from.as_bytes());
        append_bytes(&mut out, self.to.as_bytes());
        let tail = u128_to_le_bytes(self.value);
        append_bytes(&mut out, &tail);
        out
    }
}

impl Psp22ApproveInput {
    pub open spec fn wf(&self) -> bool {
        self.spender.wf()
    }

    /// Encodes the request in its canonical form.
    pub fn encode(&self) -> (out: Vec<u8>)
        ensures
            out@ == spec_encode_approve(self@),
    {
        let mut out = u32_to_le_bytes(self.asset_id);
        append_bytes(&mut out, self.spender.as_bytes());
        let tail = u128_to_le_bytes(self.value);
        append_bytes(&mut out, &tail);
        out
    }
}

// ---------------------------------------------------------------------------
// Decoding.
// ---------------------------------------------------------------------------

/// Reads the asset identifier at byte offset `off`.
fn read_u32_at(input: &[u8], off: usize) -> (r: u32)
    requires
        off + 4 <= input@.len(),
    ensures
        r == spec_u32_from_le_bytes(input@.subrange(off as int, off as int + 4)),
{
    let n: usize = input.len();
    proof {
        assert(off + 4 <= n);
    }
    u32_from_le_bytes(slice_subrange(input, off, off + 4))
}

/// Reads the balance amount at byte offset `off`.
fn read_u128_at(input: &[u8], off: usize) -> (r: u128)
    requires
        off + 16 <= input@.len(),
    ensures
        r == spec_u128_from_le_bytes(input@.subrange(off as int, off as int + 16)),
{
    let n: usize = input.len();
    proof {
        assert(off + 16 <= n);
    }
    u128_from_le_bytes(slice_subrange(input, off, off + 16))
}

/// Reads the account identifier at byte offset `off`.
fn read_account_at(input: &[u8], off: usize) -> (r: AccountId)
    requires
        off + ACCOUNT_ID_LEN <= input@.len(),
    ensures
        r.wf(),
        r@ == input@.subrange(off as int, off as int + ACCOUNT_ID_LEN as int),
{
    let n: usize = input.len();
    proof {
        assert(off + ACCOUNT_ID_LEN <= n);
    }
    let bytes = slice_to_vec(slice_subrange(input, off, off + ACCOUNT_ID_LEN));
    AccountId::from_raw(bytes)
}

/// Decodes a bare asset identifier; `None` is a decode failure.
pub fn decode_asset(input: &[u8]) -> (r: Option<u32>)
    ensures
        r == spec_decode_asset(input@),
{
    if input.len() >= ASSET_ID_LEN {
        Some(read_u32_at(input, 0))
    } else {
        None
    }
}

/// Decodes a balance-of request; `None` is a decode failure.
pub fn decode_balance_of(input: &[u8]) -> (r: Option<Psp22BalanceOfInput>)
    ensures
        input@.len() >= BALANCE_OF_LEN ==> (r matches Some(x) && x.wf() && Some(x@)
            == spec_decode_balance_of(input@)),
        input@.len() < BALANCE_OF_LEN ==> r is None,
{
    if input.len() >= BALANCE_OF_LEN {
        Some(
            Psp22BalanceOfInput {
                asset_id: read_u32_at(input, 0),
                owner: read_account_at(input, 4),
            },
        )
    } else {
        None
    }
}

/// Decodes an allowance request; `None` is a decode failure.
pub fn decode_allowance(input: &[u8]) -> (r: Option<Psp22AllowanceInput>)
    ensures
        input@.len() >= ALLOWANCE_LEN ==> (r matches Some(x) && x.wf() && Some(x@)
            == spec_decode_allowance(input@)),
        input@.len() < ALLOWANCE_LEN ==> r is None,
{
    if input.len() >= ALLOWANCE_LEN {
        Some(
            Psp22AllowanceInput {
                asset_id: read_u32_at(input, 0),
                owner: read_account_at(input, 4),
                spender: read_account_at(input, 36),
            },
        )
    } else {
        None
    }
}

/// Decodes a transfer request; `None` is a decode failure.
pub fn decode_transfer(input: &[u8]) -> (r: Option<Psp22TransferInput>)
    ensures
        input@.len() >= TRANSFER_LEN ==> (r matches Some(x) && x.wf() && Some(x@)
            == spec_decode_transfer(input@)),
        input@.len() < TRANSFER_LEN ==> r is None,
{
    if input.len() >= TRANSFER_LEN {
        Some(
            Psp22TransferInput {
                asset_id: read_u32_at(input, 0),
                to: read_account_at(input, 4),
                value: read_u128_at(input, 36),
            },
        )
    } else {
        None
    }
}

/// Decodes a transfer-from request; `None` is a decode failure.
pub fn decode_transfer_from(input: &[u8]) -> (r: Option<Psp22TransferFromInput>)
    ensures
        input@.len() >= TRANSFER_FROM_LEN ==> (r matches Some(x) && x.wf() && Some(x@)
            == spec_decode_transfer_from(input@)),
        input@.len() < TRANSFER_FROM_LEN ==> r is None,
{
    if input.len() >= TRANSFER_FROM_LEN {
        Some(
            Psp22TransferFromInput {
                asset_id: read_u32_at(input, 0),
                from: read_account_at(input, 4),
                to: read_account_at(input, 36),
                value: read_u128_at(input, 68),
            },
        )
    } else {
        None
    }
}

/// Decodes an approve request; `None` is a decode failure.
pub fn decode_approve(input: &[u8]) -> (r: Option<Psp22ApproveInput>)
    ensures
        input@.len() >= APPROVE_LEN ==> (r matches Some(x) && x.wf() && Some(x@)
            == spec_decode_approve(input@)),
        input@.len() < APPROVE_LEN ==> r is None,
{
    if input.len() >= APPROVE_LEN {
        Some(
            Psp22ApproveInput {
                asset_id: read_u32_at(input, 0),
                spender: read_account_at(input, 4),
                value: read_u128_at(input, 36),
            },
        )
    } else {
        None
    }
}

// ---------------------------------------------------------------------------
// Round-trip laws: decoding an encoded request yields the request back, for
// every well-formed request value. The general form also shows the documented
// trailing-byte tolerance: any bytes after the encoded request are ignored.
// ---------------------------------------------------------------------------

/// Decoding an encoded bare asset identifier, with any trailing bytes, yields
/// the identifier back.
pub proof fn lemma_asset_decode_encode(asset_id: u32, extra: Seq<u8>)
    ensures
        spec_decode_asset(spec_encode_asset(asset_id) + extra) == Some(asset_id),
{
    lemma_auto_spec_u32_to_from_le_bytes();
    let e = spec_encode_asset(asset_id) + extra;
    assert(e.subrange(0, 4) =~= spec_u32_to_le_bytes(asset_id));
}

/// Round-trip identity for bare asset identifiers.
pub proof fn lemma_asset_round_trip(asset_id: u32)
    ensures
        spec_decode_asset(spec_encode_asset(asset_id)) == Some(asset_id),
{
    lemma_asset_decode_encode(asset_id, Seq::empty());
    assert(spec_encode_asset(asset_id) + Seq::<u8>::empty() =~= spec_encode_asset(asset_id));
}

/// Decoding an encoded balance-of request, with any trailing bytes, yields
/// the request back.
pub proof fn lemma_balance_of_decode_encode(v: BalanceOfView, extra: Seq<u8>)
    requires
        v.wf(),
    ensures
        spec_decode_balance_of(spec_encode_balance_of(v) + extra) == Some(v),
{
    lemma_auto_spec_u32_to_from_le_bytes();
    let e = spec_encode_balance_of(v) + extra;
    assert(e.subrange(0, 4) =~= spec_u32_to_le_bytes(v.asset_id));
    assert(e.subrange(4, 36) =~= v.owner);
}

/// Round-trip identity for balance-of requests.
pub proof fn lemma_balance_of_round_trip(v: BalanceOfView)
    requires
        v.wf(),
    ensures
        spec_decode_balance_of(spec_encode_balance_of(v)) == Some(v),
{
    lemma_balance_of_decode_encode(v, Seq::empty());
    assert(spec_encode_balance_of(v) + Seq::<u8>::empty() =~= spec_encode_balance_of(v));
}

/// Decoding an encoded allowance request, with any trailing bytes, yields the
/// request back.
pub proof fn lemma_allowance_decode_encode(v: AllowanceView, extra: Seq<u8>)
    requires
        v.wf(),
    ensures
        spec_decode_allowance(spec_encode_allowance(v) + extra) == Some(v),
{
    lemma_auto_spec_u32_to_from_le_bytes();
    let e = spec_encode_allowance(v) + extra;
    assert(e.subrange(0, 4) =~= spec_u32_to_le_bytes(v.asset_id));
    assert(e.subrange(4, 36) =~= v.owner);
    assert(e.subrange(36, 68) =~= v.spender);
}

/// Round-trip identity for allowance requests.
pub proof fn lemma_allowance_round_trip(v: AllowanceView)
    requires
        v.wf(),
    ensures
        spec_decode_allowance(spec_encode_allowance(v)) == Some(v),
{
    lemma_allowance_decode_encode(v, Seq::empty());
    assert(spec_encode_allowance(v) + Seq::<u8>::empty() =~= spec_encode_allowance(v));
}

/// Decoding an encoded transfer request, with any trailing bytes, yields the
/// request back.
pub proof fn lemma_transfer_decode_encode(v: TransferView, extra: Seq<u8>)
    requires
        v.wf(),
    ensures
        spec_decode_transfer(spec_encode_transfer(v) + extra) == Some(v),
{
    lemma_auto_spec_u32_to_from_le_bytes();
    lemma_auto_spec_u128_to_from_le_bytes();
    let e = spec_encode_transfer(v) + extra;
    assert(e.subrange(0, 4) =~= spec_u32_to_le_bytes(v.asset_id));
    assert(e.subrange(4, 36) =~= v.to);
    assert(e.subrange(36, 52) =~= spec_u128_to_le_bytes(v.value));
}

/// Round-trip identity for transfer requests.
pub proof fn lemma_transfer_round_trip(v: TransferView)
    requires
        v.wf(),
    ensures
        spec_decode_transfer(spec_encode_transfer(v)) == Some(v),
{
    lemma_transfer_decode_encode(v, Seq::empty());
    assert(spec_encode_transfer(v) + Seq::<u8>::empty() =~= spec_encode_transfer(v));
}

/// Decoding an encoded transfer-from request, with any trailing bytes, yields
/// the request back.
pub proof fn lemma_transfer_from_decode_encode(v: TransferFromView, extra: Seq<u8>)
    requires
        v.wf(),
    ensures
        spec_decode_transfer_from(spec_encode_transfer_from(v) + extra) == Some(v),
{
    lemma_auto_spec_u32_to_from_le_bytes();
    lemma_auto_spec_u128_to_from_le_bytes();
    let e = spec_encode_transfer_from(v) + extra;
    assert(e.subrange(0, 4) =~= spec_u32_to_le_bytes(v.asset_id));
    assert(e.subrange(4, 36) =~= v.from);
    assert(e.subrange(36, 68) =~= v.to);
    assert(e.subrange(68, 84) =~= spec_u128_to_le_bytes(v.value));
}

/// Round-trip identity for transfer-from requests.
pub proof fn lemma_transfer_from_round_trip(v: TransferFromView)
    requires
        v.wf(),
    ensures
        spec_decode_transfer_from(spec_encode_transfer_from(v)) == Some(v),
{
    lemma_transfer_from_decode_encode(v, Seq::empty());
    assert(spec_encode_transfer_from(v) + Seq::<u8>::empty() =~= spec_encode_transfer_from(v));
}

/// Decoding an encoded approve request, with any trailing bytes, yields the
/// request back.
pub proof fn lemma_approve_decode_encode(v: ApproveView, extra: Seq<u8>)
    requires
        v.wf(),
    ensures
        spec_decode_approve(spec_encode_approve(v) + extra) == Some(v),
{
    lemma_auto_spec_u32_to_from_le_bytes();
    lemma_auto_spec_u128_to_from_le_bytes();
    let e = spec_encode_approve(v) + extra;
    assert(e.subrange(0, 4) =~= spec_u32_to_le_bytes(v.asset_id));
    assert(e.subrange(4, 36) =~= v.spender);
    assert(e.subrange(36, 52) =~= spec_u128_to_le_bytes(v.value));
}

/// Round-trip identity for approve requests.
pub proof fn lemma_approve_round_trip(v: ApproveView)
    requires
        v.wf(),
    ensures
        spec_decode_approve(spec_encode_approve(v)) == Some(v),
{
    lemma_approve_decode_encode(v, Seq::empty());
    assert(spec_encode_approve(v) + Seq::<u8>::empty() =~= spec_encode_approve(v));
}

} // verus!
