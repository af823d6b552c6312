use psp22_chain_ext::account::AccountId;
use psp22_chain_ext::codec::{
    decode_allowance, decode_approve, decode_asset, decode_balance_of, decode_transfer,
    decode_transfer_from, encode_asset, encode_byte_string, Psp22AllowanceInput,
    Psp22ApproveInput, Psp22BalanceOfInput, Psp22TransferFromInput, Psp22TransferInput,
};

fn account(fill: u8) -> AccountId {
    AccountId::new(vec![fill; 32]).expect("32 bytes is a well-formed account id")
}

#[test]
fn account_id_rejects_wrong_length() {
    assert!(AccountId::new(vec![1u8; 31]).is_none());
    assert!(AccountId::new(vec![1u8; 33]).is_none());
    assert!(AccountId::new(Vec::new()).is_none());
    assert!(AccountId::new(vec![1u8; 32]).is_some());
}

#[test]
fn round_trip_asset() {
    let bytes = encode_asset(0xdead_beef);
    assert_eq!(bytes, vec![0xef, 0xbe, 0xad, 0xde]);
    assert_eq!(decode_asset(&bytes), Some(0xdead_beef));
}

#[test]
fn round_trip_balance_of() {
    let req = Psp22BalanceOfInput { asset_id: 7, owner: account(0xaa) };
    let bytes = req.encode();
    assert_eq!(bytes.len(), 36);
    assert_eq!(decode_balance_of(&bytes).unwrap(), req);
}

#[test]
fn round_trip_allowance() {
    let req = Psp22AllowanceInput { asset_id: 7, owner: account(0xaa), spender: account(0xbb) };
    let bytes = req.encode();
    assert_eq!(bytes.len(), 68);
    assert_eq!(decode_allowance(&bytes).unwrap(), req);
}

#[test]
fn round_trip_transfer() {
    let req = Psp22TransferInput { asset_id: 1, to: account(0x11), value: u128::MAX - 5 };
    let bytes = req.encode();
    assert_eq!(bytes.len(), 52);
    assert_eq!(decode_transfer(&bytes).unwrap(), req);
}

#[test]
fn round_trip_transfer_from() {
    let req = Psp22TransferFromInput {
        asset_id: 42,
        from: account(0x22),
        to: account(0x33),
        value: 123_456_789,
    };
    let bytes = req.encode();
    assert_eq!(bytes.len(), 84);
    assert_eq!(decode_transfer_from(&bytes).unwrap(), req);
}

#[test]
fn round_trip_approve() {
    let req = Psp22ApproveInput { asset_id: 42, spender: account(0x44), value: 0 };
    let bytes = req.encode();
    assert_eq!(bytes.len(), 52);
    assert_eq!(decode_approve(&bytes).unwrap(), req);
}

#[test]
fn transfer_encoding_layout_is_little_endian_field_order() {
    let req = Psp22TransferInput { asset_id: 0x0102_0304, to: account(0x55), value: 0x0a0b };
    let bytes = req.encode();
    // asset id, little-endian
    assert_eq!(&bytes[0..4], &[0x04, 0x03, 0x02, 0x01]);
    // beneficiary, raw bytes
    assert_eq!(&bytes[4..36], &[0x55u8; 32][..]);
    // amount, little-endian with high zero bytes
    assert_eq!(&bytes[36..38], &[0x0b, 0x0a]);
    assert_eq!(&bytes[38..52], &[0u8; 14][..]);
}

#[test]
fn trailing_bytes_are_ignored() {
    let req = Psp22TransferInput { asset_id: 9, to: account(0x66), value: 77 };
    let mut bytes = req.encode();
    bytes.extend_from_slice(&[0xff, 0x00, 0x12]);
    assert_eq!(decode_transfer(&bytes).unwrap(), req);
}

#[test]
fn truncated_buffers_are_rejected() {
    let req = Psp22TransferInput { asset_id: 9, to: account(0x66), value: 77 };
    let mut bytes = req.encode();
    bytes.pop();
    assert!(decode_transfer(&bytes).is_none());
    assert!(decode_balance_of(&[]).is_none());
    assert!(decode_allowance(&[0u8; 67]).is_none());
    assert!(decode_transfer_from(&[0u8; 83]).is_none());
    assert!(decode_approve(&[0u8; 51]).is_none());
    assert!(decode_asset(&[1, 2, 3]).is_none());
}

#[test]
fn byte_string_encoding_single_byte_prefix() {
    let data = vec![b'h', b'i'];
    let out = encode_byte_string(&data);
    // length 2, mode 0: one prefix byte holding 2 << 2
    assert_eq!(out, vec![8, b'h', b'i']);
}

#[test]
fn byte_string_encoding_empty() {
    let out = encode_byte_string(&Vec::new());
    assert_eq!(out, vec![0]);
}

#[test]
fn byte_string_encoding_two_byte_prefix() {
    let data = vec![0xabu8; 100];
    let out = encode_byte_string(&data);
    // length 100, mode 1: 100 * 4 + 1 == 401 == 0x0191, little-endian
    assert_eq!(out.len(), 102);
    assert_eq!(&out[0..2], &[0x91, 0x01]);
    assert_eq!(&out[2..], &data[..]);
}

#[test]
fn byte_string_encoding_four_byte_prefix() {
    let data = vec![0x07u8; 0x5000];
    let out = encode_byte_string(&data);
    // length 0x5000, mode 2: 0x5000 * 4 + 2 == 0x14002, little-endian
    assert_eq!(out.len(), 0x5000 + 4);
    assert_eq!(&out[0..4], &[0x02, 0x40, 0x01, 0x00]);
    assert_eq!(&out[4..], &data[..]);
}
