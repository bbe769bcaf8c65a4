//! The oracle's signed table updates and the fee estimate.

use ed25519_compact::{KeyPair, Seed};
use sha2::Digest;
use xpbridge::bridge::BridgeError;
use xpbridge::oracle::{
    encode_oracle_groupkey_data, encode_update_data_payload, CurrencyDataOracle, UpdateData,
    UpdateGroupkeyData,
};
use xpbridge::table::ChainTable;

fn keypair(seed: u8) -> KeyPair {
    KeyPair::from_seed(Seed::new([seed; 32]))
}

fn sign_tagged(kp: &KeyPair, tag: &[u8], payload: &[u8]) -> Vec<u8> {
    let mut hasher = sha2::Sha512::new();
    hasher.update(tag);
    hasher.update(payload);
    let digest = hasher.finalize();
    kp.sk.sign(digest, None).to_vec()
}

fn table(entries: &[(u16, u128)]) -> ChainTable {
    let mut t = ChainTable::new();
    for (k, v) in entries {
        t.set(*k, *v);
    }
    t
}

fn sample_oracle(group_key: [u8; 32]) -> CurrencyDataOracle {
    CurrencyDataOracle::initialize(
        group_key,
        table(&[(1, 100), (2, 100)]),
        table(&[(1, 50), (2, 200)]),
        table(&[(2, 1000)]),
        table(&[]),
    )
}

// The fee formula on one concrete configuration:
// to_tx_fee = 1000; in dollars: 1000 * 200 / 100 = 2000; plus the
// half-unit commission 50 -> 2050; back in origin units:
// 2050 * 100 / 50 * (100 / 100) = 4100.
#[test]
fn estimate_fees_exact_value() {
    let oracle = sample_oracle(*keypair(1).pk);
    assert_eq!(oracle.estimate_fees(1, 2), Some(4100));
}

// An extra fee on the destination chain joins the transaction fee.
#[test]
fn estimate_fees_includes_other_fees() {
    let kp = keypair(2);
    let oracle = CurrencyDataOracle::initialize(
        *kp.pk,
        table(&[(1, 100), (2, 100)]),
        table(&[(1, 50), (2, 200)]),
        table(&[(2, 1000)]),
        table(&[(2, 500)]),
    );
    // to_tx_fee = 1500 -> 3000 usd -> 3050 -> 6100.
    assert_eq!(oracle.estimate_fees(1, 2), Some(6100));
}

// Whenever a required table lacks an entry for either chain, the
// estimate degrades to None instead of failing.
#[test]
fn estimate_fees_degrades_on_missing_entries() {
    let key = *keypair(3).pk;
    let decimals = [(1u16, 100u128), (2, 100)];
    let prices = [(1u16, 50u128), (2, 200)];
    let tx_fees = [(2u16, 1000u128)];

    // Missing decimal for the origin chain.
    let oracle = CurrencyDataOracle::initialize(
        key,
        table(&[(2, 100)]),
        table(&prices),
        table(&tx_fees),
        table(&[]),
    );
    assert_eq!(oracle.estimate_fees(1, 2), None);

    // Missing decimal for the destination chain.
    let oracle = CurrencyDataOracle::initialize(
        key,
        table(&[(1, 100)]),
        table(&prices),
        table(&tx_fees),
        table(&[]),
    );
    assert_eq!(oracle.estimate_fees(1, 2), None);

    // Missing price for the origin chain.
    let oracle = CurrencyDataOracle::initialize(
        key,
        table(&decimals),
        table(&[(2, 200)]),
        table(&tx_fees),
        table(&[]),
    );
    assert_eq!(oracle.estimate_fees(1, 2), None);

    // Missing price for the destination chain.
    let oracle = CurrencyDataOracle::initialize(
        key,
        table(&decimals),
        table(&[(1, 50)]),
        table(&tx_fees),
        table(&[]),
    );
    assert_eq!(oracle.estimate_fees(1, 2), None);

    // Missing transaction fee for the destination chain.
    let oracle = CurrencyDataOracle::initialize(
        key,
        table(&decimals),
        table(&prices),
        table(&[]),
        table(&[]),
    );
    assert_eq!(oracle.estimate_fees(1, 2), None);

    // A missing extra-fee entry alone is fine.
    let oracle = sample_oracle(key);
    assert_eq!(oracle.estimate_fees(1, 2), Some(4100));
}

// A zero divisor in the configuration degrades to None too.
#[test]
fn estimate_fees_degrades_on_zero_divisor() {
    let key = *keypair(4).pk;
    let oracle = CurrencyDataOracle::initialize(
        key,
        table(&[(1, 100), (2, 0)]),
        table(&[(1, 50), (2, 200)]),
        table(&[(2, 1000)]),
        table(&[]),
    );
    assert_eq!(oracle.estimate_fees(1, 2), None);
}

// A signed price update lands in the table; a later entry for the same
// chain overrides an earlier one.
#[test]
fn signed_price_update() {
    let kp = keypair(5);
    let mut oracle = sample_oracle(*kp.pk);

    let data = UpdateData { new_data: vec![(1, 75), (3, 10), (1, 80)], action_id: 1 };
    let sig = sign_tagged(&kp, b"UpdatePriceData", &encode_update_data_payload(&data));
    oracle.validate_update_prices(data, &sig).unwrap();

    let all = oracle.get_all_price_data();
    assert_eq!(all.get(1), Some(80));
    assert_eq!(all.get(3), Some(10));
    assert_eq!(all.get(2), Some(200));
}

// Each table update consumes its action id exactly once.
#[test]
fn duplicate_update_is_refused() {
    let kp = keypair(6);
    let mut oracle = sample_oracle(*kp.pk);

    let data = UpdateData { new_data: vec![(1, 75)], action_id: 9 };
    let sig = sign_tagged(&kp, b"UpdatePriceData", &encode_update_data_payload(&data));
    oracle.validate_update_prices(data.clone(), &sig).unwrap();
    assert_eq!(
        oracle.validate_update_prices(data, &sig),
        Err(BridgeError::Duplicate)
    );
}

// An unsigned or wrongly signed update changes nothing.
#[test]
fn unauthorized_update_changes_nothing() {
    let kp = keypair(7);
    let intruder = keypair(8);
    let mut oracle = sample_oracle(*kp.pk);

    let data = UpdateData { new_data: vec![(1, 75)], action_id: 2 };
    let bad = sign_tagged(&intruder, b"UpdatePriceData", &encode_update_data_payload(&data));
    assert_eq!(
        oracle.validate_update_prices(data.clone(), &bad),
        Err(BridgeError::Unauthorized)
    );
    assert_eq!(oracle.get_all_price_data().get(1), Some(50));

    // The id stayed free for the honest signer.
    let good = sign_tagged(&kp, b"UpdatePriceData", &encode_update_data_payload(&data));
    oracle.validate_update_prices(data, &good).unwrap();
    assert_eq!(oracle.get_all_price_data().get(1), Some(75));
}

// The decimal update runs under its own context tag: a signature for the
// generic update tag does not authorize it.
#[test]
fn decimal_update_has_its_own_tag() {
    let kp = keypair(9);
    let mut oracle = sample_oracle(*kp.pk);

    let data = UpdateData { new_data: vec![(1, 18)], action_id: 3 };
    let wrong_tag = sign_tagged(&kp, b"UpdatePriceData", &encode_update_data_payload(&data));
    assert_eq!(
        oracle.validate_update_decimal(data.clone(), &wrong_tag),
        Err(BridgeError::Unauthorized)
    );

    let right_tag = sign_tagged(&kp, b"AddDecimalData", &encode_update_data_payload(&data));
    oracle.validate_update_decimal(data, &right_tag).unwrap();
    assert_eq!(oracle.get_all_decimal_data().get(1), Some(18));
}

// Transaction-fee and extra-fee updates land in their own tables.
#[test]
fn fee_table_updates() {
    let kp = keypair(10);
    let mut oracle = sample_oracle(*kp.pk);

    let data = UpdateData { new_data: vec![(2, 2000)], action_id: 4 };
    let sig = sign_tagged(&kp, b"UpdateTxFeeData", &encode_update_data_payload(&data));
    oracle.validate_update_tx_fees(data, &sig).unwrap();
    assert_eq!(oracle.get_all_tx_fee_data().get(2), Some(2000));

    let data = UpdateData { new_data: vec![(2, 300)], action_id: 5 };
    let sig = sign_tagged(&kp, b"UpdateOtherFeeData", &encode_update_data_payload(&data));
    oracle.validate_update_other_fees(data, &sig).unwrap();
    assert_eq!(oracle.get_all_other_fee_data().get(2), Some(300));
}

// Rotating the oracle's group key hands authority to the new key.
#[test]
fn oracle_group_key_rotation() {
    let kp = keypair(11);
    let new_kp = keypair(12);
    let mut oracle = sample_oracle(*kp.pk);

    let data = UpdateGroupkeyData { action_id: 6, group_key: *new_kp.pk };
    let sig = sign_tagged(&kp, b"SetGroupKey", &encode_oracle_groupkey_data(&data));
    oracle.validate_update_group_key(data, &sig).unwrap();
    assert_eq!(*new_kp.pk, oracle.get_group_key());

    // The old key no longer signs updates.
    let update = UpdateData { new_data: vec![(1, 1)], action_id: 7 };
    let old_sig = sign_tagged(&kp, b"UpdatePriceData", &encode_update_data_payload(&update));
    assert_eq!(
        oracle.validate_update_prices(update.clone(), &old_sig),
        Err(BridgeError::Unauthorized)
    );
    let new_sig = sign_tagged(&new_kp, b"UpdatePriceData", &encode_update_data_payload(&update));
    oracle.validate_update_prices(update, &new_sig).unwrap();
}

// The pairwise getters agree with the stored tables.
#[test]
fn pairwise_getters() {
    let oracle = sample_oracle(*keypair(13).pk);
    assert_eq!(oracle.get_price_data(1, 2), (50, 200));
    assert_eq!(oracle.get_decimal_data(1, 2), (100, 100));
    let cd = oracle.get_currency_data(1, 2);
    assert_eq!(cd.from_chain_price, 50);
    assert_eq!(cd.to_chain_price, 200);
    assert_eq!(cd.from_chain_decimal, 100);
    assert_eq!(cd.to_chain_decimal, 100);
}

// Every oracle update runs under its own context tag: a signature
// collected for the price table drives no other table.
#[test]
fn update_tags_are_separate() {
    let kp = keypair(14);
    let mut oracle = sample_oracle(*kp.pk);

    let data = UpdateData { new_data: vec![(2, 9999)], action_id: 20 };
    let price_sig = sign_tagged(&kp, b"UpdatePriceData", &encode_update_data_payload(&data));
    assert_eq!(
        oracle.validate_update_tx_fees(data.clone(), &price_sig),
        Err(BridgeError::Unauthorized)
    );
    assert_eq!(
        oracle.validate_update_other_fees(data.clone(), &price_sig),
        Err(BridgeError::Unauthorized)
    );
    assert_eq!(
        oracle.validate_update_decimal(data.clone(), &price_sig),
        Err(BridgeError::Unauthorized)
    );
    assert_eq!(oracle.get_all_tx_fee_data().get(2), Some(1000));
    assert_eq!(oracle.get_all_other_fee_data().get(2), None);

    // The same signature authorizes only its own operation.
    oracle.validate_update_prices(data, &price_sig).unwrap();
    assert_eq!(oracle.get_all_price_data().get(2), Some(9999));
}

// Intermediate products past 128 bits are carried exactly, as the
// host's 256-bit registers would: a 24-decimal chain with large prices
// still gets a fee, not a refusal.
#[test]
fn estimate_fees_wide_intermediates() {
    let kp = keypair(15);
    let dec: u128 = 1_000_000_000_000_000_000_000_000; // 10^24
    let price: u128 = 1_000_000_000_000_000_000_000_000_000_000; // 10^30
    let oracle = CurrencyDataOracle::initialize(
        *kp.pk,
        table(&[(1, dec), (2, dec)]),
        table(&[(1, price), (2, price)]),
        table(&[(2, price)]),
        table(&[]),
    );
    // tx fee 10^30 at price 10^30 over 10^24 decimals: 10^36 dollars,
    // commission 5 * 10^23, converted back over price 10^30:
    // 10^30 + 5 * 10^17 origin units.
    assert_eq!(
        oracle.estimate_fees(1, 2),
        Some(1_000_000_000_000_500_000_000_000_000_000)
    );
}
