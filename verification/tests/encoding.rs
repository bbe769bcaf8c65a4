//! The canonical encoding, byte for byte: exact layouts, determinism,
//! and that distinct payloads never collide.

use xpbridge::actions::{
    encode_pause_data, encode_transfer_nft_data, encode_transfer_tx, encode_unfreeze_nft_data,
    encode_update_groupkey_data, encode_whitelist_data, encode_withdraw_fee_data, PauseData,
    TokenMetadata, TransferNftData, TransferTx, UnfreezeNftData, UpdateGroupkeyData,
    WhitelistData, WithdrawFeeData,
};
use xpbridge::oracle::{encode_oracle_groupkey_data, encode_update_data_payload, UpdateData};

fn bytes(s: &str) -> Vec<u8> {
    s.as_bytes().to_vec()
}

fn le16(x: u128) -> Vec<u8> {
    x.to_le_bytes().to_vec()
}

fn le4(x: u32) -> Vec<u8> {
    x.to_le_bytes().to_vec()
}

fn le32(x: u128) -> Vec<u8> {
    let mut v = x.to_le_bytes().to_vec();
    v.extend_from_slice(&[0u8; 16]);
    v
}

fn with_len(s: &str) -> Vec<u8> {
    let mut v = le4(s.len() as u32);
    v.extend_from_slice(s.as_bytes());
    v
}

#[test]
fn pause_payload_layout() {
    let enc = encode_pause_data(&PauseData { action_id: 1 });
    assert_eq!(enc, le16(1));
}

#[test]
fn groupkey_payload_layout() {
    let key = [7u8; 32];
    let enc = encode_update_groupkey_data(&UpdateGroupkeyData { action_id: 300, group_key: key });
    let mut expected = le16(300);
    expected.extend_from_slice(&key);
    assert_eq!(enc, expected);
}

#[test]
fn whitelist_payload_layout() {
    let enc = encode_whitelist_data(&WhitelistData {
        action_id: 2,
        token_contract: bytes("nft.near"),
    });
    let mut expected = le16(2);
    expected.extend_from_slice(&with_len("nft.near"));
    assert_eq!(enc, expected);
}

#[test]
fn withdraw_fee_payload_layout() {
    let enc = encode_withdraw_fee_data(&WithdrawFeeData {
        action_id: 9,
        account_id: bytes("treasury.near"),
    });
    let mut expected = le16(9);
    expected.extend_from_slice(&with_len("treasury.near"));
    assert_eq!(enc, expected);
}

#[test]
fn transfer_tx_layout() {
    let enc = encode_transfer_tx(&TransferTx {
        value: 5,
        from_chain: 31,
        to_chain: 4,
        token_contract: bytes("c"),
        token_id: bytes("t"),
        to: bytes("dest"),
    });
    let mut expected = le16(5);
    expected.push(31);
    expected.push(4);
    expected.extend_from_slice(&with_len("c"));
    expected.extend_from_slice(&with_len("t"));
    expected.extend_from_slice(&with_len("dest"));
    assert_eq!(enc, expected);
}

#[test]
fn transfer_nft_payload_layout() {
    let data = TransferNftData {
        action_id: 6,
        mint_with: bytes("xpnft"),
        token_id: bytes("tok"),
        owner_id: bytes("alice"),
        token_metadata: TokenMetadata {
            title: Some(bytes("title")),
            description: None,
            media: None,
            media_hash: None,
            copies: Some(3),
            issued_at: None,
            expires_at: None,
            starts_at: None,
            updated_at: None,
            extra: None,
            reference: None,
            reference_hash: None,
        },
    };
    let enc = encode_transfer_nft_data(&data);
    let mut expected = le16(6);
    expected.extend_from_slice(&with_len("xpnft"));
    expected.extend_from_slice(&with_len("tok"));
    expected.extend_from_slice(&with_len("alice"));
    // title present...
    expected.push(1);
    expected.extend_from_slice(&with_len("title"));
    // description, media, media_hash absent...
    expected.extend_from_slice(&[0, 0, 0]);
    // copies present, eight bytes...
    expected.push(1);
    expected.extend_from_slice(&3u64.to_le_bytes());
    // the seven remaining optional fields absent.
    expected.extend_from_slice(&[0, 0, 0, 0, 0, 0, 0]);
    assert_eq!(enc, expected);
}

#[test]
fn unfreeze_payload_layout() {
    let enc = encode_unfreeze_nft_data(&UnfreezeNftData {
        action_id: 8,
        token_contract: bytes("c"),
        token_id: bytes("t"),
        receiver_id: bytes("r"),
    });
    let mut expected = le16(8);
    expected.extend_from_slice(&with_len("c"));
    expected.extend_from_slice(&with_len("t"));
    expected.extend_from_slice(&with_len("r"));
    assert_eq!(enc, expected);
}

#[test]
fn oracle_update_layout() {
    let enc = encode_update_data_payload(&UpdateData {
        new_data: vec![(5, 7)],
        action_id: 11,
    });
    let mut expected = le4(1);
    expected.extend_from_slice(&5u16.to_le_bytes());
    expected.extend_from_slice(&le32(7));
    expected.extend_from_slice(&le32(11));
    assert_eq!(enc, expected);
}

#[test]
fn oracle_groupkey_layout() {
    let key = [9u8; 32];
    let enc = encode_oracle_groupkey_data(&xpbridge::oracle::UpdateGroupkeyData {
        action_id: 12,
        group_key: key,
    });
    let mut expected = le32(12);
    expected.extend_from_slice(&key);
    assert_eq!(enc, expected);
}

// Encoding is deterministic: the same payload always gives the same
// bytes.
#[test]
fn encoding_is_deterministic() {
    let data = TransferNftData {
        action_id: 42,
        mint_with: bytes("xpnft"),
        token_id: bytes("tok"),
        owner_id: bytes("alice"),
        token_metadata: TokenMetadata {
            title: Some(bytes("t")),
            description: Some(bytes("d")),
            media: None,
            media_hash: None,
            copies: None,
            issued_at: None,
            expires_at: None,
            starts_at: None,
            updated_at: None,
            extra: Some(bytes("e")),
            reference: None,
            reference_hash: None,
        },
    };
    assert_eq!(encode_transfer_nft_data(&data), encode_transfer_nft_data(&data));
}

// Payloads differing in a single field encode differently, including
// the cases a naive length-free encoding would conflate.
#[test]
fn distinct_payloads_encode_differently() {
    let a = WhitelistData { action_id: 1, token_contract: bytes("ab") };
    let b = WhitelistData { action_id: 1, token_contract: bytes("ac") };
    assert_ne!(encode_whitelist_data(&a), encode_whitelist_data(&b));

    let c = UnfreezeNftData {
        action_id: 1,
        token_contract: bytes("ab"),
        token_id: bytes("c"),
        receiver_id: bytes("r"),
    };
    let d = UnfreezeNftData {
        action_id: 1,
        token_contract: bytes("a"),
        token_id: bytes("bc"),
        receiver_id: bytes("r"),
    };
    assert_ne!(encode_unfreeze_nft_data(&c), encode_unfreeze_nft_data(&d));

    let e = UpdateData { new_data: vec![(1, 2)], action_id: 3 };
    let f = UpdateData { new_data: vec![(1, 3)], action_id: 3 };
    assert_ne!(
        encode_update_data_payload(&e),
        encode_update_data_payload(&f)
    );
}

// A metadata field moved from one optional slot to another changes the
// bytes: the presence markers pin every field to its place.
#[test]
fn metadata_fields_are_position_bound() {
    let mut m1 = TokenMetadata {
        title: Some(bytes("x")),
        description: None,
        media: None,
        media_hash: None,
        copies: None,
        issued_at: None,
        expires_at: None,
        starts_at: None,
        updated_at: None,
        extra: None,
        reference: None,
        reference_hash: None,
    };
    let base = TransferNftData {
        action_id: 1,
        mint_with: bytes("m"),
        token_id: bytes("t"),
        owner_id: bytes("o"),
        token_metadata: m1.clone(),
    };
    m1.title = None;
    m1.description = Some(bytes("x"));
    let moved = TransferNftData { token_metadata: m1, ..base.clone() };
    assert_ne!(encode_transfer_nft_data(&base), encode_transfer_nft_data(&moved));
}

// Edge cases: empty byte fields and the largest action id keep their
// exact layout.
#[test]
fn empty_and_extreme_values() {
    let enc = encode_whitelist_data(&WhitelistData { action_id: 0, token_contract: Vec::new() });
    let mut expected = le16(0);
    expected.extend_from_slice(&le4(0));
    assert_eq!(enc, expected);

    let enc = encode_pause_data(&PauseData { action_id: u128::MAX });
    assert_eq!(enc, vec![0xff; 16]);

    let enc = encode_update_data_payload(&UpdateData { new_data: vec![], action_id: 0 });
    assert_eq!(enc, [le4(0), le32(0)].concat());
}

// The event wrappers carry the exact tags the indexers watch for.
#[test]
fn event_type_tags() {
    let ev = xpbridge::events::TransferNftEvent {
        chain_nonce: 1,
        to: bytes("d"),
        mint_with: bytes("m"),
        action_id: 1,
        amt: 2,
        token_id: bytes("t"),
        contract: bytes("c"),
    };
    let wrapped = ev.wrapped();
    assert_eq!(wrapped.event_type, bytes("TransferUnique"));
    assert_eq!(wrapped.event.action_id, 1);

    let ev = xpbridge::events::UnfreezeNftEvent {
        chain_nonce: 1,
        to: bytes("d"),
        action_id: 3,
        amt: 2,
        token: None,
        contract: bytes("c"),
    };
    let wrapped = ev.wrapped();
    assert_eq!(wrapped.event_type, bytes("UnfreezeUnique"));
    assert_eq!(wrapped.event.action_id, 3);
}
