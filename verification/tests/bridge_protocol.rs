//! The bridge's signed entry points, driven end to end with real
//! signatures: keys from ed25519-compact, digests from sha2.

use ed25519_compact::{KeyPair, Seed};
use sha2::Digest;
use xpbridge::actions::{
    encode_pause_data, encode_transfer_nft_data, encode_unfreeze_nft_data, encode_unpause_data,
    encode_update_groupkey_data, encode_whitelist_data, PauseData, TokenMetadata, TransferNftData,
    UnfreezeNftData, UnpauseData, UpdateGroupkeyData, WhitelistData,
};
use xpbridge::bridge::{
    BridgeError, FreezeResolution, FreezeStep, XpBridge, GAS_FOR_FREEZE_NFT,
    GAS_FOR_VALIDATE_TRANSFER, GAS_FOR_VALIDATE_UNFREEZE, GAS_FOR_WITHDRAW_NFT,
};

const NEAR: u128 = 1000000000000000000000000;

fn keypair(seed: u8) -> KeyPair {
    KeyPair::from_seed(Seed::new([seed; 32]))
}

fn sign_tagged(kp: &KeyPair, tag: &[u8], payload: &[u8]) -> Vec<u8> {
    let mut hasher = sha2::Sha512::new();
    hasher.update(tag);
    hasher.update(payload);
    let digest = hasher.finalize();
    kp.sk.sign(digest, None).to_vec()
}

fn bytes(s: &str) -> Vec<u8> {
    s.as_bytes().to_vec()
}

fn empty_meta() -> TokenMetadata {
    TokenMetadata {
        title: None,
        description: None,
        media: None,
        media_hash: None,
        copies: None,
        issued_at: None,
        expires_at: None,
        starts_at: None,
        updated_at: None,
        extra: None,
        reference: None,
        reference_hash: None,
    }
}

fn init_func(group_key: [u8; 32]) -> XpBridge {
    XpBridge::initialize(group_key, group_key)
}

#[test]
fn init() {
    let kp = keypair(1);
    let group_key: [u8; 32] = *kp.pk;

    let contract = init_func(group_key);

    assert_eq!(group_key, contract.get_group_key());
}

#[test]
fn pause_unpause() {
    let kp = keypair(2);
    let group_key: [u8; 32] = *kp.pk;

    let mut contract = init_func(group_key);

    let data = PauseData { action_id: 1 };
    let sig = sign_tagged(&kp, b"SetPause", &encode_pause_data(&data));
    contract.validate_pause(data, &sig).unwrap();

    assert_eq!(true, contract.is_paused());

    let data = UnpauseData { action_id: 2 };
    let sig = sign_tagged(&kp, b"SetUnpause", &encode_unpause_data(&data));
    contract.validate_unpause(data, &sig).unwrap();

    assert_eq!(false, contract.is_paused());
}

#[test]
fn update_group_key() {
    let kp = keypair(3);
    let group_key: [u8; 32] = *kp.pk;

    let mut contract = init_func(group_key);

    let new_kp = keypair(4);
    let new_group_key: [u8; 32] = *new_kp.pk;

    let data = UpdateGroupkeyData { action_id: 3, group_key: new_group_key };
    let sig = sign_tagged(&kp, b"SetGroupKey", &encode_update_groupkey_data(&data));
    contract.validate_update_group_key(data, &sig).unwrap();

    assert_eq!(new_group_key, contract.get_group_key());
}

#[test]
fn freeze_unfreeze_nft() {
    let kp = keypair(5);
    let group_key: [u8; 32] = *kp.pk;

    let mut contract = init_func(group_key);

    // The token contract must be whitelisted before its tokens can move.
    let wl = WhitelistData { action_id: 77, token_contract: bytes("foreign_nft_contract") };
    let sig = sign_tagged(&kp, b"WhitelistNft", &encode_whitelist_data(&wl));
    contract.validate_whitelist(wl, &sig).unwrap();

    // Freeze: fee statement, fee-key check, custody transfer, commit.
    let tx = contract
        .freeze_nft(
            bytes("foreign_nft_contract"),
            bytes("test_nft"),
            0x0,
            bytes("address_of_foreign"),
            1 * NEAR,
            GAS_FOR_FREEZE_NFT,
        )
        .unwrap();
    let fee_sig = {
        let payload = xpbridge::actions::encode_transfer_tx(&tx);
        let mut hasher = sha2::Sha512::new();
        hasher.update(&payload);
        let digest = hasher.finalize();
        kp.sk.sign(digest, None).to_vec()
    };
    let fee_ok = contract.verify_paid_amount_by_sig(&tx, &fee_sig);
    assert!(fee_ok);
    let step = contract.check_enough_fees_callback_for_transfer(
        bytes("foreign_nft_contract"),
        bytes("test_nft"),
        1 * NEAR,
        bytes("sender"),
        fee_ok,
    );
    assert!(matches!(step, FreezeStep::Custody(_)));
    let resolution = contract.freeze_callback(
        bytes("foreign_nft_contract"),
        bytes("test_nft"),
        0x0,
        bytes("address_of_foreign"),
        bytes("foreign_nft_contract"),
        1 * NEAR,
        bytes("sender"),
        true,
    );
    assert!(matches!(resolution, FreezeResolution::Committed(_)));

    // Release the custodied token through a signed unfreeze action.
    let data = UnfreezeNftData {
        action_id: 1,
        token_contract: bytes("foreign_nft_contract"),
        token_id: bytes("test_nft"),
        receiver_id: bytes("sender"),
    };
    let sig = sign_tagged(&kp, b"ValidateUnfreezeNft", &encode_unfreeze_nft_data(&data));
    let cmd = contract
        .validate_unfreeze_nft(data, &sig, GAS_FOR_VALIDATE_UNFREEZE)
        .unwrap();
    assert_eq!(cmd.token_id, bytes("test_nft"));
    contract.validate_unfreeze_callback(1, true);
}

#[test]
fn mint_burn_nft() {
    let kp = keypair(6);
    let group_key: [u8; 32] = *kp.pk;

    let mut contract = init_func(group_key);

    let mut meta = empty_meta();
    meta.title = Some(bytes("title"));
    meta.description = Some(bytes("description"));
    let data = TransferNftData {
        action_id: 1,
        mint_with: bytes("xpnft"),
        token_id: bytes("test_nft"),
        owner_id: bytes("sender"),
        token_metadata: meta,
    };
    let sig = sign_tagged(&kp, b"ValidateTransferNft", &encode_transfer_nft_data(&data));
    let mint = contract
        .validate_transfer_nft(data, &sig, 0, GAS_FOR_VALIDATE_TRANSFER)
        .unwrap();
    assert_eq!(mint.token_id, bytes("test_nft"));
    contract.validate_transfer_callback(1, bytes("sender"), 0, true);

    // Withdraw the wrapped token back towards its origin chain.
    let tx = contract
        .withdraw_nft(
            bytes("xpnft"),
            bytes("test_nft"),
            0x0,
            bytes("address_of_foreign"),
            1 * NEAR,
            GAS_FOR_WITHDRAW_NFT,
        )
        .unwrap();
    assert_eq!(tx.value, 1 * NEAR);
}

// Submitting the same signed action twice: the side effect runs once and
// the second call fails with Duplicate.
#[test]
fn duplicate_action_is_refused() {
    let kp = keypair(7);
    let mut contract = init_func(*kp.pk);

    let data = UpdateGroupkeyData { action_id: 9, group_key: *keypair(8).pk };
    let sig = sign_tagged(&kp, b"SetGroupKey", &encode_update_groupkey_data(&data));
    contract
        .validate_update_group_key(data.clone(), &sig)
        .unwrap();

    // Rotation succeeded, so the old key no longer signs; but the call
    // fails on the consumed id before any signature check.
    let second = contract.validate_update_group_key(data, &sig);
    assert_eq!(second, Err(BridgeError::Duplicate));
    assert_eq!(*keypair(8).pk, contract.get_group_key());
}

// An invalid signature leaves the ledger and all state unchanged: the
// same action id is still free for the correctly signed retry.
#[test]
fn unauthorized_action_leaves_no_trace() {
    let kp = keypair(9);
    let intruder = keypair(10);
    let mut contract = init_func(*kp.pk);

    let data = PauseData { action_id: 4 };
    let bad_sig = sign_tagged(&intruder, b"SetPause", &encode_pause_data(&data));
    let refused = contract.validate_pause(data.clone(), &bad_sig);
    assert_eq!(refused, Err(BridgeError::Unauthorized));
    assert_eq!(false, contract.is_paused());

    let good_sig = sign_tagged(&kp, b"SetPause", &encode_pause_data(&data));
    contract.validate_pause(data, &good_sig).unwrap();
    assert_eq!(true, contract.is_paused());
}

// A signature collected for one operation type cannot be replayed
// against another: the context tag separates the domains.
#[test]
fn cross_operation_replay_is_refused() {
    let kp = keypair(11);
    let mut contract = init_func(*kp.pk);

    // A pause and an unpause payload with the same id encode identically;
    // only the context tag differs.
    let pause_sig = sign_tagged(&kp, b"SetPause", &encode_pause_data(&PauseData { action_id: 5 }));
    contract
        .validate_pause(PauseData { action_id: 5 }, &pause_sig)
        .unwrap();

    let replay = contract.validate_unpause(UnpauseData { action_id: 6 }, &pause_sig);
    assert_eq!(replay, Err(BridgeError::Unauthorized));
    assert_eq!(true, contract.is_paused());
}

// While paused, every mutating operation except unpause is refused and
// changes nothing.
#[test]
fn pause_gates_operations() {
    let kp = keypair(12);
    let mut contract = init_func(*kp.pk);

    let sig = sign_tagged(&kp, b"SetPause", &encode_pause_data(&PauseData { action_id: 1 }));
    contract.validate_pause(PauseData { action_id: 1 }, &sig).unwrap();

    let rotate = UpdateGroupkeyData { action_id: 2, group_key: *keypair(13).pk };
    let rotate_sig = sign_tagged(&kp, b"SetGroupKey", &encode_update_groupkey_data(&rotate));
    assert_eq!(
        contract.validate_update_group_key(rotate, &rotate_sig),
        Err(BridgeError::Paused)
    );
    assert_eq!(*kp.pk, contract.get_group_key());

    let wl = WhitelistData { action_id: 3, token_contract: bytes("nft") };
    let wl_sig = sign_tagged(&kp, b"WhitelistNft", &encode_whitelist_data(&wl));
    assert_eq!(contract.validate_whitelist(wl, &wl_sig), Err(BridgeError::Paused));
    assert!(!contract.is_whitelist(&bytes("nft")));

    assert_eq!(
        contract.freeze_nft(
            bytes("nft"),
            bytes("t"),
            0,
            bytes("addr"),
            NEAR,
            GAS_FOR_FREEZE_NFT
        ),
        Err(BridgeError::Paused)
    );
    assert_eq!(
        contract.withdraw_nft(
            bytes("nft"),
            bytes("t"),
            0,
            bytes("addr"),
            NEAR,
            GAS_FOR_WITHDRAW_NFT
        ),
        Err(BridgeError::Paused)
    );

    let mint = TransferNftData {
        action_id: 4,
        mint_with: bytes("xpnft"),
        token_id: bytes("t"),
        owner_id: bytes("o"),
        token_metadata: empty_meta(),
    };
    let mint_sig = sign_tagged(&kp, b"ValidateTransferNft", &encode_transfer_nft_data(&mint));
    assert_eq!(
        contract.validate_transfer_nft(mint, &mint_sig, 0, GAS_FOR_VALIDATE_TRANSFER),
        Err(BridgeError::Paused)
    );

    // Paused wins even over a budget too small for the chain.
    assert_eq!(
        contract.freeze_nft(bytes("nft"), bytes("t"), 0, bytes("addr"), NEAR, 0),
        Err(BridgeError::Paused)
    );
}

// Too small a resource budget is refused before the action id is spent.
#[test]
fn insufficient_budget_is_refused_first() {
    let kp = keypair(14);
    let mut contract = init_func(*kp.pk);

    let mint = TransferNftData {
        action_id: 8,
        mint_with: bytes("xpnft"),
        token_id: bytes("t"),
        owner_id: bytes("o"),
        token_metadata: empty_meta(),
    };
    let sig = sign_tagged(&kp, b"ValidateTransferNft", &encode_transfer_nft_data(&mint));
    assert_eq!(
        contract.validate_transfer_nft(mint.clone(), &sig, 0, GAS_FOR_VALIDATE_TRANSFER - 1),
        Err(BridgeError::InsufficientBudget)
    );

    // The id was not consumed: the same action still goes through.
    contract
        .validate_transfer_nft(mint, &sig, 0, GAS_FOR_VALIDATE_TRANSFER)
        .unwrap();
}

// A failed mint rolls the action id back, refunds the attached value,
// and leaves counter and fee accumulator untouched; the same signed
// action can then be resubmitted.
#[test]
fn failed_mint_rolls_back() {
    let kp = keypair(15);
    let mut contract = init_func(*kp.pk);

    let mint = TransferNftData {
        action_id: 21,
        mint_with: bytes("xpnft"),
        token_id: bytes("t"),
        owner_id: bytes("o"),
        token_metadata: empty_meta(),
    };
    let sig = sign_tagged(&kp, b"ValidateTransferNft", &encode_transfer_nft_data(&mint));
    let cmd = contract
        .validate_transfer_nft(mint.clone(), &sig, 5 * NEAR, GAS_FOR_VALIDATE_TRANSFER)
        .unwrap();
    assert_eq!(cmd.attached, 5 * NEAR);

    // The external mint fails: the callback compensates.
    let refund = contract.validate_transfer_callback(21, bytes("caller"), 5 * NEAR, false);
    let refund = refund.expect("a failed mint refunds the caller");
    assert_eq!(refund.receiver, bytes("caller"));
    assert_eq!(refund.amount, 5 * NEAR);
    assert_eq!(contract.get_action_cnt(), 0);
    assert_eq!(contract.get_tx_fees(), 0);

    // The rollback freed the id: the very same signed action goes
    // through again.
    contract
        .validate_transfer_nft(mint, &sig, 5 * NEAR, GAS_FOR_VALIDATE_TRANSFER)
        .unwrap();
}

// A successful freeze commits exactly once: counter up by one, fee
// accumulator up by the attached amount, one transfer event carrying the
// new counter value.
#[test]
fn successful_freeze_commits() {
    let kp = keypair(16);
    let mut contract = init_func(*kp.pk);

    let wl = WhitelistData { action_id: 30, token_contract: bytes("nft") };
    let wl_sig = sign_tagged(&kp, b"WhitelistNft", &encode_whitelist_data(&wl));
    contract.validate_whitelist(wl, &wl_sig).unwrap();

    let tx = contract
        .freeze_nft(bytes("nft"), bytes("tok"), 3, bytes("dest"), 2 * NEAR, GAS_FOR_FREEZE_NFT)
        .unwrap();
    assert_eq!(tx.value, 2 * NEAR);
    assert_eq!(tx.from_chain, 31);
    assert_eq!(tx.to_chain, 3);

    let step = contract.check_enough_fees_callback_for_transfer(
        bytes("nft"),
        bytes("tok"),
        2 * NEAR,
        bytes("sender"),
        true,
    );
    let custody = match step {
        FreezeStep::Custody(c) => c,
        FreezeStep::Refund(_) => panic!("fee statement was verified"),
    };
    assert_eq!(custody.token_contract, bytes("nft"));

    let resolution = contract.freeze_callback(
        bytes("nft"),
        bytes("tok"),
        3,
        bytes("dest"),
        bytes("mint_with"),
        2 * NEAR,
        bytes("sender"),
        true,
    );
    let event = match resolution {
        FreezeResolution::Committed(ev) => ev,
        FreezeResolution::Refunded(_) => panic!("custody transfer succeeded"),
    };
    assert_eq!(contract.get_action_cnt(), 1);
    assert_eq!(contract.get_tx_fees(), 2 * NEAR);
    assert_eq!(event.action_id, 1);
    assert_eq!(event.amt, 2 * NEAR);
    assert_eq!(event.chain_nonce, 3);
    assert_eq!(event.to, bytes("dest"));
    assert_eq!(event.contract, bytes("nft"));
}

// A failed custody transfer commits nothing and refunds the sender.
#[test]
fn failed_freeze_refunds() {
    let kp = keypair(17);
    let mut contract = init_func(*kp.pk);

    let resolution = contract.freeze_callback(
        bytes("nft"),
        bytes("tok"),
        3,
        bytes("dest"),
        bytes("mint_with"),
        2 * NEAR,
        bytes("sender"),
        false,
    );
    match resolution {
        FreezeResolution::Committed(_) => panic!("custody transfer failed"),
        FreezeResolution::Refunded(cmd) => {
            assert_eq!(cmd.receiver, bytes("sender"));
            assert_eq!(cmd.amount, 2 * NEAR);
        },
    }
    assert_eq!(contract.get_action_cnt(), 0);
    assert_eq!(contract.get_tx_fees(), 0);
}

// A fee statement signed with the wrong key is refused.
#[test]
fn wrong_fee_key_is_refused() {
    let kp = keypair(18);
    let fee_kp = keypair(19);
    let intruder = keypair(20);
    let mut contract = XpBridge::initialize(*kp.pk, *fee_kp.pk);

    let wl = WhitelistData { action_id: 1, token_contract: bytes("nft") };
    let wl_sig = sign_tagged(&kp, b"WhitelistNft", &encode_whitelist_data(&wl));
    contract.validate_whitelist(wl, &wl_sig).unwrap();

    let tx = contract
        .freeze_nft(bytes("nft"), bytes("tok"), 1, bytes("dest"), NEAR, GAS_FOR_FREEZE_NFT)
        .unwrap();
    let payload = xpbridge::actions::encode_transfer_tx(&tx);
    let mut hasher = sha2::Sha512::new();
    hasher.update(&payload);
    let digest = hasher.finalize();

    let bad = intruder.sk.sign(digest, None).to_vec();
    assert!(!contract.verify_paid_amount_by_sig(&tx, &bad));

    let good = fee_kp.sk.sign(digest, None).to_vec();
    assert!(contract.verify_paid_amount_by_sig(&tx, &good));
}

// The concrete pause scenario: pause with id 1, a validly signed second
// pause under id 2 fails on the pause pre-check, unpause with id 2, and
// the replayed unpause under id 2 fails as a duplicate.
#[test]
fn pause_scenario() {
    let kp = keypair(21);
    let mut contract = init_func(*kp.pk);

    let sig1 = sign_tagged(&kp, b"SetPause", &encode_pause_data(&PauseData { action_id: 1 }));
    contract.validate_pause(PauseData { action_id: 1 }, &sig1).unwrap();
    assert_eq!(true, contract.is_paused());

    let sig2 = sign_tagged(&kp, b"SetPause", &encode_pause_data(&PauseData { action_id: 2 }));
    assert_eq!(
        contract.validate_pause(PauseData { action_id: 2 }, &sig2),
        Err(BridgeError::Paused)
    );
    assert_eq!(true, contract.is_paused());

    let un2 = sign_tagged(&kp, b"SetUnpause", &encode_unpause_data(&UnpauseData { action_id: 2 }));
    contract
        .validate_unpause(UnpauseData { action_id: 2 }, &un2)
        .unwrap();
    assert_eq!(false, contract.is_paused());

    assert_eq!(
        contract.validate_unpause(UnpauseData { action_id: 2 }, &un2),
        Err(BridgeError::Duplicate)
    );
    assert_eq!(false, contract.is_paused());
}

// Whitelist bookkeeping: add, refuse the double add, remove, refuse the
// unlisted removal.
#[test]
fn whitelist_and_blacklist() {
    let kp = keypair(22);
    let mut contract = init_func(*kp.pk);

    let add = WhitelistData { action_id: 1, token_contract: bytes("nft") };
    let add_sig = sign_tagged(&kp, b"WhitelistNft", &encode_whitelist_data(&add));
    contract.validate_whitelist(add, &add_sig).unwrap();
    assert!(contract.is_whitelist(&bytes("nft")));

    let again = WhitelistData { action_id: 2, token_contract: bytes("nft") };
    let again_sig = sign_tagged(&kp, b"WhitelistNft", &encode_whitelist_data(&again));
    assert_eq!(
        contract.validate_whitelist(again, &again_sig),
        Err(BridgeError::AlreadyWhitelisted)
    );

    let del = WhitelistData { action_id: 3, token_contract: bytes("nft") };
    let del_sig = sign_tagged(&kp, b"ValidateBlacklistNft", &encode_whitelist_data(&del));
    contract.validate_blacklist(del, &del_sig).unwrap();
    assert!(!contract.is_whitelist(&bytes("nft")));

    let gone = WhitelistData { action_id: 4, token_contract: bytes("nft") };
    let gone_sig = sign_tagged(&kp, b"ValidateBlacklistNft", &encode_whitelist_data(&gone));
    assert_eq!(
        contract.validate_blacklist(gone, &gone_sig),
        Err(BridgeError::NotWhitelisted)
    );
}

// An unfreeze of a token contract that was never whitelisted is refused.
#[test]
fn unfreeze_needs_whitelist() {
    let kp = keypair(23);
    let mut contract = init_func(*kp.pk);

    let data = UnfreezeNftData {
        action_id: 1,
        token_contract: bytes("unknown"),
        token_id: bytes("tok"),
        receiver_id: bytes("r"),
    };
    let sig = sign_tagged(&kp, b"ValidateUnfreezeNft", &encode_unfreeze_nft_data(&data));
    assert_eq!(
        contract.validate_unfreeze_nft(data, &sig, GAS_FOR_VALIDATE_UNFREEZE),
        Err(BridgeError::NotWhitelisted)
    );
}

// Withdrawing collected fees through a signed action, with the reserve
// kept back, and the accumulator reset only on the confirmed payout.
#[test]
fn withdraw_fees_flow() {
    let kp = keypair(24);
    let mut contract = init_func(*kp.pk);

    let data = xpbridge::actions::WithdrawFeeData {
        action_id: 1,
        account_id: bytes("treasury"),
    };
    let payload = xpbridge::actions::encode_withdraw_fee_data(&data);
    let sig = sign_tagged(&kp, b"WithdrawFees", &payload);
    let balance = 10 * NEAR;
    let cmd = contract
        .validate_withdraw_fees(
            data,
            &sig,
            xpbridge::bridge::GAS_FOR_VALIDATE_WITHDRAW,
            balance,
            1000,
            100,
        )
        .unwrap();
    assert_eq!(cmd.receiver, bytes("treasury"));
    assert_eq!(cmd.amount, balance - 1000 * 100 - NEAR);

    contract.withdraw_fee_callback(1, true);
    assert_eq!(contract.get_tx_fees(), 0);
}

// A failed fee payout rolls the action id back for resubmission.
#[test]
fn failed_fee_withdrawal_rolls_back() {
    let kp = keypair(25);
    let mut contract = init_func(*kp.pk);

    let data = xpbridge::actions::WithdrawFeeData {
        action_id: 6,
        account_id: bytes("treasury"),
    };
    let payload = xpbridge::actions::encode_withdraw_fee_data(&data);
    let sig = sign_tagged(&kp, b"WithdrawFees", &payload);
    contract
        .validate_withdraw_fees(
            data.clone(),
            &sig,
            xpbridge::bridge::GAS_FOR_VALIDATE_WITHDRAW,
            10 * NEAR,
            0,
            0,
        )
        .unwrap();
    contract.withdraw_fee_callback(6, false);

    // The id is free again.
    contract
        .validate_withdraw_fees(
            data,
            &sig,
            xpbridge::bridge::GAS_FOR_VALIDATE_WITHDRAW,
            10 * NEAR,
            0,
            0,
        )
        .unwrap();
}

// A signature of the wrong length is refused, not a panic.
#[test]
fn short_signature_is_refused() {
    let kp = keypair(26);
    let mut contract = init_func(*kp.pk);

    let data = PauseData { action_id: 1 };
    let stub: Vec<u8> = vec![1, 2, 3];
    assert_eq!(contract.validate_pause(data, &stub), Err(BridgeError::Unauthorized));
    assert_eq!(false, contract.is_paused());
}

// The withdraw chain end to end: fee check, token lookup, burn, commit
// with exactly one unfreeze event.
#[test]
fn successful_withdraw_commits() {
    let kp = keypair(27);
    let mut contract = init_func(*kp.pk);

    let tx = contract
        .withdraw_nft(bytes("xpnft"), bytes("tok"), 2, bytes("dest"), NEAR, GAS_FOR_WITHDRAW_NFT)
        .unwrap();
    let payload = xpbridge::actions::encode_transfer_tx(&tx);
    let mut hasher = sha2::Sha512::new();
    hasher.update(&payload);
    let fee_sig = kp.sk.sign(hasher.finalize(), None).to_vec();
    let fee_ok = contract.verify_paid_amount_by_sig(&tx, &fee_sig);
    assert!(fee_ok);

    let step = contract.check_enough_fees_callback_for_withdraw(
        bytes("xpnft"),
        bytes("tok"),
        NEAR,
        bytes("sender"),
        fee_ok,
    );
    let lookup = match step {
        xpbridge::bridge::WithdrawStep::Lookup(l) => l,
        xpbridge::bridge::WithdrawStep::Refund(_) => panic!("fee statement was verified"),
    };
    assert_eq!(lookup.token_contract, bytes("xpnft"));

    let burn_step = contract.token_callback(
        bytes("xpnft"),
        bytes("tok"),
        bytes("owner"),
        NEAR,
        bytes("sender"),
        true,
    );
    let burn = match burn_step {
        xpbridge::bridge::BurnStep::Burn(b) => b,
        xpbridge::bridge::BurnStep::Refund(_) => panic!("lookup answered"),
    };
    assert_eq!(burn.owner_id, bytes("owner"));

    let record = xpbridge::events::TokenRecord {
        token_id: bytes("tok"),
        owner_id: bytes("owner"),
    };
    let resolution = contract.withdraw_callback(
        bytes("xpnft"),
        Some(record.clone()),
        2,
        bytes("dest"),
        NEAR,
        bytes("sender"),
        true,
    );
    let event = match resolution {
        xpbridge::bridge::WithdrawResolution::Committed(ev) => ev,
        xpbridge::bridge::WithdrawResolution::Refunded(_) => panic!("burn succeeded"),
    };
    assert_eq!(event.action_id, 1);
    assert_eq!(event.amt, NEAR);
    assert_eq!(event.token, Some(record));
    assert_eq!(contract.get_action_cnt(), 1);
    assert_eq!(contract.get_tx_fees(), NEAR);
}

// A failed token lookup refunds and commits nothing.
#[test]
fn failed_lookup_refunds() {
    let kp = keypair(28);
    let contract = init_func(*kp.pk);

    let step = contract.token_callback(
        bytes("xpnft"),
        bytes("tok"),
        bytes("owner"),
        NEAR,
        bytes("sender"),
        false,
    );
    match step {
        xpbridge::bridge::BurnStep::Burn(_) => panic!("lookup failed"),
        xpbridge::bridge::BurnStep::Refund(cmd) => {
            assert_eq!(cmd.receiver, bytes("sender"));
            assert_eq!(cmd.amount, NEAR);
        },
    }
    assert_eq!(contract.get_action_cnt(), 0);
}

// The signer-side encode helpers produce exactly the bytes the verifier
// checks: a signature over them authorizes the action.
#[test]
fn encode_helpers_match_verifier() {
    let kp = keypair(29);
    let mut contract = init_func(*kp.pk);

    let payload = contract.encode_transfer_action(
        13,
        bytes("xpnft"),
        bytes("alice"),
        bytes("tok"),
        bytes("title"),
        bytes("description"),
        bytes("media"),
        bytes("extra"),
    );
    let sig = sign_tagged(&kp, b"ValidateTransferNft", &payload);
    let mut meta = empty_meta();
    meta.title = Some(bytes("title"));
    meta.description = Some(bytes("description"));
    meta.media = Some(bytes("media"));
    meta.extra = Some(bytes("extra"));
    let data = TransferNftData {
        action_id: 13,
        mint_with: bytes("xpnft"),
        token_id: bytes("tok"),
        owner_id: bytes("alice"),
        token_metadata: meta,
    };
    assert_eq!(payload, encode_transfer_nft_data(&data));
    contract
        .validate_transfer_nft(data, &sig, 0, GAS_FOR_VALIDATE_TRANSFER)
        .unwrap();

    let unfreeze_payload =
        contract.encode_unfreeze_action(14, bytes("tok"), bytes("alice"), bytes("c"));
    let expected = UnfreezeNftData {
        action_id: 14,
        token_contract: bytes("c"),
        token_id: bytes("tok"),
        receiver_id: bytes("alice"),
    };
    assert_eq!(unfreeze_payload, encode_unfreeze_nft_data(&expected));
}
