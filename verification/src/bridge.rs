//! The bridge contract: the action gate, the pause circuit breaker, and
//! the four cross-chain flows.
//!
//! Every signed entry point runs through `require_sig`: it refuses a
//! consumed action id, verifies the group-key signature over
//! the domain-separated digest of the canonical payload, and only then —
//! never before — marks the id consumed. The asynchronous cross-contract
//! steps are explicit values here: an entry point returns the command
//! for the next external call, and the host reports the call's outcome
//! to the matching callback, which commits counters and events on
//! success or compensates (refund, ledger rollback) on failure.

use vstd::prelude::*;
use crate::actions::{
    enc_pause_data, enc_transfer_nft_data, enc_transfer_tx, enc_unfreeze_nft_data,
    enc_unpause_data, enc_update_groupkey_data, enc_whitelist_data, enc_withdraw_fee_data,
    encode_pause_data, encode_transfer_nft_data, encode_transfer_tx, encode_unfreeze_nft_data,
    encode_unpause_data,
    encode_update_groupkey_data, encode_whitelist_data, encode_withdraw_fee_data,
    tag_blacklist_nft, tag_blacklist_nft_bytes, tag_set_fee_public_key,
    tag_set_fee_public_key_bytes, tag_set_group_key, tag_set_group_key_bytes, tag_set_pause,
    tag_set_pause_bytes, tag_set_unpause, tag_set_unpause_bytes, tag_validate_transfer_nft,
    tag_validate_transfer_nft_bytes, tag_validate_unfreeze_nft, tag_validate_unfreeze_nft_bytes,
    tag_whitelist_nft, tag_whitelist_nft_bytes, tag_withdraw_fees, tag_withdraw_fees_bytes,
    transfer_nft_data_wf, transfer_tx_wf, unfreeze_nft_data_wf, whitelist_data_wf,
    withdraw_fee_data_wf, PauseData, TokenMetadata, TransferNftData, TransferTx, UnfreezeNftData,
    UnpauseData, UpdateGroupkeyData, WhitelistData, WithdrawFeeData,
};
use crate::crypto::{action_authorized, sig_accepted, verify_action_sig, verify_hashed_sig};
use crate::events::{TokenRecord, TransferNftEvent, UnfreezeNftEvent};
use crate::ledger::{AccountSet, ActionLedger};

verus! {

/// Resource budget a caller must attach so the whole continuation chain
/// of an outbound freeze can run.
pub const GAS_FOR_FREEZE_NFT: u64 = 45_000_000_000_000;

/// Resource budget for the withdraw chain.
pub const GAS_FOR_WITHDRAW_NFT: u64 = 65_000_000_000_000;

/// Resource budget for the signed mint.
pub const GAS_FOR_VALIDATE_TRANSFER: u64 = 35_000_000_000_000;

/// Resource budget for the signed fee withdrawal.
pub const GAS_FOR_VALIDATE_WITHDRAW: u64 = 35_000_000_000_000;

/// Resource budget for the signed custody release.
pub const GAS_FOR_VALIDATE_UNFREEZE: u64 = 35_000_000_000_000;

/// One whole unit of the native currency, kept back when fees are
/// withdrawn so the contract's storage stays funded.
pub const ONE_NEAR: u128 = 1_000_000_000_000_000_000_000_000;

/// Why a call was refused. Every refusal is total: no state changed.
#[derive(Clone, Copy, PartialEq, Eq, Structural, Debug)]
pub enum BridgeError {
    /// The circuit breaker is engaged.
    Paused,
    /// Unpause was asked of a contract that is not paused.
    NotPaused,
    /// The action id was consumed before.
    Duplicate,
    /// The signature does not validate against the stored key.
    Unauthorized,
    /// The attached resource budget cannot carry the continuation chain.
    InsufficientBudget,
    /// The token contract is not whitelisted.
    NotWhitelisted,
    /// The token contract is already whitelisted.
    AlreadyWhitelisted,
}

/// An instruction to the host to pay `amount` to `receiver`: a refund or
/// a fee payout.
#[derive(Clone, PartialEq, Debug)]
pub struct TransferCommand {
    pub receiver: Vec<u8>,
    pub amount: u128,
}

/// An instruction to mint a wrapped token on the registry `mint_with`.
#[derive(Clone, PartialEq, Debug)]
pub struct MintCommand {
    pub mint_with: Vec<u8>,
    pub token_id: Vec<u8>,
    pub owner_id: Vec<u8>,
    pub token_metadata: TokenMetadata,
    pub attached: u128,
    pub action_id: u128,
}

/// An instruction to transfer a custodied token to `receiver_id`.
#[derive(Clone, PartialEq, Debug)]
pub struct NftTransferCommand {
    pub token_contract: Vec<u8>,
    pub token_id: Vec<u8>,
    pub receiver_id: Vec<u8>,
    pub action_id: u128,
}

/// An instruction to pull a token into bridge custody.
#[derive(Clone, PartialEq, Debug)]
pub struct CustodyCommand {
    pub token_contract: Vec<u8>,
    pub token_id: Vec<u8>,
}

/// An instruction to look a token up on its registry.
#[derive(Clone, PartialEq, Debug)]
pub struct LookupCommand {
    pub token_contract: Vec<u8>,
    pub token_id: Vec<u8>,
}

/// An instruction to burn a custodied token.
#[derive(Clone, PartialEq, Debug)]
pub struct BurnCommand {
    pub token_contract: Vec<u8>,
    pub token_id: Vec<u8>,
    pub owner_id: Vec<u8>,
}

/// The next step after the fee check of an outbound freeze.
#[derive(Clone, PartialEq, Debug)]
pub enum FreezeStep {
    /// Fee statement verified: pull the token into custody.
    Custody(CustodyCommand),
    /// Fee statement refused: return the attached amount.
    Refund(TransferCommand),
}

/// The outcome of the freeze chain.
#[derive(Clone, PartialEq, Debug)]
pub enum FreezeResolution {
    /// The custody transfer succeeded: state committed, event to emit.
    Committed(TransferNftEvent),
    /// The custody transfer failed: state untouched, refund to pay.
    Refunded(TransferCommand),
}

/// The next step after the fee check of a withdrawal.
#[derive(Clone, PartialEq, Debug)]
pub enum WithdrawStep {
    /// Fee statement verified: look the token up.
    Lookup(LookupCommand),
    /// Fee statement refused: return the attached amount.
    Refund(TransferCommand),
}

/// The next step after the token lookup of a withdrawal.
#[derive(Clone, PartialEq, Debug)]
pub enum BurnStep {
    /// The lookup answered: burn the token.
    Burn(BurnCommand),
    /// The lookup failed: return the attached amount.
    Refund(TransferCommand),
}

/// The outcome of the withdraw chain.
#[derive(Clone, PartialEq, Debug)]
pub enum WithdrawResolution {
    /// The burn succeeded: state committed, event to emit.
    Committed(UnfreezeNftEvent),
    /// The burn failed: state untouched, refund to pay.
    Refunded(TransferCommand),
}

/// The abstract bridge state: what every contract clause speaks of.
#[verifier::ext_equal]
pub ghost struct BridgeView {
    pub consumed: Set<u128>,
    pub paused: bool,
    pub tx_fees: u128,
    pub group_key: Seq<u8>,
    pub fee_pk: Seq<u8>,
    pub action_cnt: u128,
    pub whitelist: Set<Seq<u8>>,
}

/// Whether state `s` admits an action: the id is fresh and the
/// signature authorizes the tagged payload under the group key.
pub open spec fn gate_admits(
    s: BridgeView,
    action_id: u128,
    tag: Seq<u8>,
    payload: Seq<u8>,
    sig: Seq<u8>,
) -> bool {
    !s.consumed.contains(action_id) && action_authorized(s.group_key, tag, payload, sig)
}

/// The state after `action_id` has been consumed.
pub open spec fn gate_step(s: BridgeView, action_id: u128) -> BridgeView {
    BridgeView { consumed: s.consumed.insert(action_id), ..s }
}

/// Exactly-once: a consumed action id admits no action again —
/// whatever the payload and whoever signs it — until a compensating
/// rollback removes the id.
pub proof fn lemma_exactly_once(
    s: BridgeView,
    action_id: u128,
    tag1: Seq<u8>,
    payload1: Seq<u8>,
    sig1: Seq<u8>,
    tag2: Seq<u8>,
    payload2: Seq<u8>,
    sig2: Seq<u8>,
)
    requires
        gate_admits(s, action_id, tag1, payload1, sig1),
    ensures
        !gate_admits(gate_step(s, action_id), action_id, tag2, payload2, sig2),
{
}

/// The bridge contract state.
pub struct XpBridge {
    consumed_actions: ActionLedger,
    paused: bool,
    tx_fees: u128,
    group_key: [u8; 32],
    fee_pk: [u8; 32],
    action_cnt: u128,
    whitelist: AccountSet,
}

impl View for XpBridge {
    type V = BridgeView;

    closed spec fn view(&self) -> BridgeView {
        BridgeView {
            consumed: self.consumed_actions@,
            paused: self.paused,
            tx_fees: self.tx_fees,
            group_key: self.group_key@,
            fee_pk: self.fee_pk@,
            action_cnt: self.action_cnt,
            whitelist: self.whitelist@,
        }
    }
}

impl XpBridge {
    /// Creates the contract: active, empty ledger and whitelist, no fees
    /// collected. The host must let only the deploying identity call
    /// this, and only once.
    pub fn initialize(group_key: [u8; 32], fee_pk: [u8; 32]) -> (r: Self)
        ensures
            r@ == (BridgeView {
                consumed: Set::empty(),
                paused: false,
                tx_fees: 0,
                group_key: group_key@,
                fee_pk: fee_pk@,
                action_cnt: 0,
                whitelist: Set::empty(),
            }),
    {
        XpBridge {
            consumed_actions: ActionLedger::new(),
            paused: false,
            tx_fees: 0,
            group_key,
            fee_pk,
            action_cnt: 0,
            whitelist: AccountSet::new(),
        }
    }

    /// The action gate: refuses a consumed id, verifies the signature
    /// over the domain-separated digest, and marks the id consumed only
    /// after the signature held — an unauthorized action leaves no trace.
    pub fn require_sig(
        &mut self,
        action_id: u128,
        data: &Vec<u8>,
        sig_data: &Vec<u8>,
        context: &Vec<u8>,
    ) -> (r: Result<(), BridgeError>)
        ensures
            match r {
                Ok(()) => {
                    &&& gate_admits(old(self)@, action_id, context@, data@, sig_data@)
                    &&& final(self)@ == gate_step(old(self)@, action_id)
                },
                Err(BridgeError::Duplicate) => {
                    &&& old(self)@.consumed.contains(action_id)
                    &&& final(self)@ == old(self)@
                },
                Err(BridgeError::Unauthorized) => {
                    &&& !old(self)@.consumed.contains(action_id)
                    &&& !action_authorized(old(self)@.group_key, context@, data@, sig_data@)
                    &&& final(self)@ == old(self)@
                },
                Err(_) => false,
            },
    {
        if self.consumed_actions.contains(action_id) {
            return Err(BridgeError::Duplicate);
        }
        let ok = verify_action_sig(&self.group_key, context, data, sig_data);
        if !ok {
            return Err(BridgeError::Unauthorized);
        }
        self.consumed_actions.insert(action_id);
        Ok(())
    }

    /// Engages the circuit breaker. Refused when already paused; needs a
    /// fresh id and a signature over the pause payload.
    pub fn validate_pause(&mut self, data: PauseData, sig_data: &Vec<u8>) -> (r: Result<
        (),
        BridgeError,
    >)
        ensures
            match r {
                Ok(()) => {
                    &&& !old(self)@.paused
                    &&& gate_admits(
                        old(self)@,
                        data.action_id,
                        tag_set_pause(),
                        enc_pause_data(data),
                        sig_data@,
                    )
                    &&& final(self)@ == (BridgeView {
                        paused: true,
                        ..gate_step(old(self)@, data.action_id)
                    })
                },
                Err(BridgeError::Paused) => old(self)@.paused && final(self)@ == old(self)@,
                Err(BridgeError::Duplicate) => {
                    &&& !old(self)@.paused
                    &&& old(self)@.consumed.contains(data.action_id)
                    &&& final(self)@ == old(self)@
                },
                Err(BridgeError::Unauthorized) => {
                    &&& !old(self)@.paused
                    &&& !old(self)@.consumed.contains(data.action_id)
                    &&& !action_authorized(
                        old(self)@.group_key,
                        tag_set_pause(),
                        enc_pause_data(data),
                        sig_data@,
                    )
                    &&& final(self)@ == old(self)@
                },
                Err(_) => false,
            },
    {
        if self.paused {
            return Err(BridgeError::Paused);
        }
        let payload = encode_pause_data(&data);
        let tag = tag_set_pause_bytes();
        match self.require_sig(data.action_id, &payload, sig_data, &tag) {
            Ok(()) => {},
            Err(e) => {
                return Err(e);
            },
        }
        self.paused = true;
        Ok(())
    }

    /// Releases the circuit breaker. A consumed action id is refused as
    /// `Duplicate` before anything else — resubmitting the unpause that
    /// already ran never toggles the flag twice and names the right
    /// cause. A fresh id needs the contract paused and a signature over
    /// the unpause payload; this is the one signed operation that works
    /// while paused.
    pub fn validate_unpause(&mut self, data: UnpauseData, sig_data: &Vec<u8>) -> (r: Result<
        (),
        BridgeError,
    >)
        ensures
            match r {
                Ok(()) => {
                    &&& old(self)@.paused
                    &&& gate_admits(
                        old(self)@,
                        data.action_id,
                        tag_set_unpause(),
                        enc_unpause_data(data),
                        sig_data@,
                    )
                    &&& final(self)@ == (BridgeView {
                        paused: false,
                        ..gate_step(old(self)@, data.action_id)
                    })
                },
                Err(BridgeError::Duplicate) => {
                    &&& old(self)@.consumed.contains(data.action_id)
                    &&& final(self)@ == old(self)@
                },
                Err(BridgeError::NotPaused) => {
                    &&& !old(self)@.consumed.contains(data.action_id)
                    &&& !old(self)@.paused
                    &&& final(self)@ == old(self)@
                },
                Err(BridgeError::Unauthorized) => {
                    &&& !old(self)@.consumed.contains(data.action_id)
                    &&& old(self)@.paused
                    &&& !action_authorized(
                        old(self)@.group_key,
                        tag_set_unpause(),
                        enc_unpause_data(data),
                        sig_data@,
                    )
                    &&& final(self)@ == old(self)@
                },
                Err(_) => false,
            },
    {
        if self.consumed_actions.contains(data.action_id) {
            return Err(BridgeError::Duplicate);
        }
        if !self.paused {
            return Err(BridgeError::NotPaused);
        }
        let payload = encode_unpause_data(&data);
        let tag = tag_set_unpause_bytes();
        match self.require_sig(data.action_id, &payload, sig_data, &tag) {
            Ok(()) => {},
            Err(e) => {
                return Err(e);
            },
        }
        self.paused = false;
        Ok(())
    }

    /// Rotates the group key to the one in the payload.
    pub fn validate_update_group_key(
        &mut self,
        data: UpdateGroupkeyData,
        sig_data: &Vec<u8>,
    ) -> (r: Result<(), BridgeError>)
        ensures
            match r {
                Ok(()) => {
                    &&& !old(self)@.paused
                    &&& gate_admits(
                        old(self)@,
                        data.action_id,
                        tag_set_group_key(),
                        enc_update_groupkey_data(data),
                        sig_data@,
                    )
                    &&& final(self)@ == (BridgeView {
                        group_key: data.group_key@,
                        ..gate_step(old(self)@, data.action_id)
                    })
                },
                Err(BridgeError::Paused) => old(self)@.paused && final(self)@ == old(self)@,
                Err(BridgeError::Duplicate) => {
                    &&& !old(self)@.paused
                    &&& old(self)@.consumed.contains(data.action_id)
                    &&& final(self)@ == old(self)@
                },
                Err(BridgeError::Unauthorized) => {
                    &&& !old(self)@.paused
                    &&& !old(self)@.consumed.contains(data.action_id)
                    &&& !action_authorized(
                        old(self)@.group_key,
                        tag_set_group_key(),
                        enc_update_groupkey_data(data),
                        sig_data@,
                    )
                    &&& final(self)@ == old(self)@
                },
                Err(_) => false,
            },
    {
        if self.paused {
            return Err(BridgeError::Paused);
        }
        let payload = encode_update_groupkey_data(&data);
        let tag = tag_set_group_key_bytes();
        match self.require_sig(data.action_id, &payload, sig_data, &tag) {
            Ok(()) => {},
            Err(e) => {
                return Err(e);
            },
        }
        self.group_key = data.group_key;
        Ok(())
    }

    /// Rotates the fee key — the separate trust root that pre-authorizes
    /// attached transfer fees.
    pub fn validate_update_fee_public_key(
        &mut self,
        data: UpdateGroupkeyData,
        sig_data: &Vec<u8>,
    ) -> (r: Result<(), BridgeError>)
        ensures
            match r {
                Ok(()) => {
                    &&& !old(self)@.paused
                    &&& gate_admits(
                        old(self)@,
                        data.action_id,
                        tag_set_fee_public_key(),
                        enc_update_groupkey_data(data),
                        sig_data@,
                    )
                    &&& final(self)@ == (BridgeView {
                        fee_pk: data.group_key@,
                        ..gate_step(old(self)@, data.action_id)
                    })
                },
                Err(BridgeError::Paused) => old(self)@.paused && final(self)@ == old(self)@,
                Err(BridgeError::Duplicate) => {
                    &&& !old(self)@.paused
                    &&& old(self)@.consumed.contains(data.action_id)
                    &&& final(self)@ == old(self)@
                },
                Err(BridgeError::Unauthorized) => {
                    &&& !old(self)@.paused
                    &&& !old(self)@.consumed.contains(data.action_id)
                    &&& !action_authorized(
                        old(self)@.group_key,
                        tag_set_fee_public_key(),
                        enc_update_groupkey_data(data),
                        sig_data@,
                    )
                    &&& final(self)@ == old(self)@
                },
                Err(_) => false,
            },
    {
        if self.paused {
            return Err(BridgeError::Paused);
        }
        let payload = encode_update_groupkey_data(&data);
        let tag = tag_set_fee_public_key_bytes();
        match self.require_sig(data.action_id, &payload, sig_data, &tag) {
            Ok(()) => {},
            Err(e) => {
                return Err(e);
            },
        }
        self.fee_pk = data.group_key;
        Ok(())
    }

    /// Adds a token contract to the whitelist, so that its tokens can be
    /// frozen.
    pub fn validate_whitelist(&mut self, data: WhitelistData, sig_data: &Vec<u8>) -> (r: Result<
        (),
        BridgeError,
    >)
        requires
            whitelist_data_wf(data),
        ensures
            match r {
                Ok(()) => {
                    &&& !old(self)@.paused
                    &&& !old(self)@.whitelist.contains(data.token_contract@)
                    &&& gate_admits(
                        old(self)@,
                        data.action_id,
                        tag_whitelist_nft(),
                        enc_whitelist_data(data),
                        sig_data@,
                    )
                    &&& final(self)@ == (BridgeView {
                        whitelist: old(self)@.whitelist.insert(data.token_contract@),
                        ..gate_step(old(self)@, data.action_id)
                    })
                },
                Err(BridgeError::Paused) => old(self)@.paused && final(self)@ == old(self)@,
                Err(BridgeError::AlreadyWhitelisted) => {
                    &&& !old(self)@.paused
                    &&& old(self)@.whitelist.contains(data.token_contract@)
                    &&& final(self)@ == old(self)@
                },
                Err(BridgeError::Duplicate) => {
                    &&& !old(self)@.paused
                    &&& !old(self)@.whitelist.contains(data.token_contract@)
                    &&& old(self)@.consumed.contains(data.action_id)
                    &&& final(self)@ == old(self)@
                },
                Err(BridgeError::Unauthorized) => {
                    &&& !old(self)@.paused
                    &&& !old(self)@.whitelist.contains(data.token_contract@)
                    &&& !old(self)@.consumed.contains(data.action_id)
                    &&& !action_authorized(
                        old(self)@.group_key,
                        tag_whitelist_nft(),
                        enc_whitelist_data(data),
                        sig_data@,
                    )
                    &&& final(self)@ == old(self)@
                },
                Err(_) => false,
            },
    {
        if self.paused {
            return Err(BridgeError::Paused);
        }
        if self.whitelist.contains(&data.token_contract) {
            return Err(BridgeError::AlreadyWhitelisted);
        }
        let payload = encode_whitelist_data(&data);
        let tag = tag_whitelist_nft_bytes();
        match self.require_sig(data.action_id, &payload, sig_data, &tag) {
            Ok(()) => {},
            Err(e) => {
                return Err(e);
            },
        }
        self.whitelist.insert(&data.token_contract);
        Ok(())
    }

    /// Removes a token contract from the whitelist.
    pub fn validate_blacklist(&mut self, data: WhitelistData, sig_data: &Vec<u8>) -> (r: Result<
        (),
        BridgeError,
    >)
        requires
            whitelist_data_wf(data),
        ensures
            match r {
                Ok(()) => {
                    &&& !old(self)@.paused
                    &&& old(self)@.whitelist.contains(data.token_contract@)
                    &&& gate_admits(
                        old(self)@,
                        data.action_id,
                        tag_blacklist_nft(),
                        enc_whitelist_data(data),
                        sig_data@,
                    )
                    &&& final(self)@ == (BridgeView {
                        whitelist: old(self)@.whitelist.remove(data.token_contract@),
                        ..gate_step(old(self)@, data.action_id)
                    })
                },
                Err(BridgeError::Paused) => old(self)@.paused && final(self)@ == old(self)@,
                Err(BridgeError::NotWhitelisted) => {
                    &&& !old(self)@.paused
                    &&& !old(self)@.whitelist.contains(data.token_contract@)
                    &&& final(self)@ == old(self)@
                },
                Err(BridgeError::Duplicate) => {
                    &&& !old(self)@.paused
                    &&& old(self)@.whitelist.contains(data.token_contract@)
                    &&& old(self)@.consumed.contains(data.action_id)
                    &&& final(self)@ == old(self)@
                },
                Err(BridgeError::Unauthorized) => {
                    &&& !old(self)@.paused
                    &&& old(self)@.whitelist.contains(data.token_contract@)
                    &&& !old(self)@.consumed.contains(data.action_id)
                    &&& !action_authorized(
                        old(self)@.group_key,
                        tag_blacklist_nft(),
                        enc_whitelist_data(data),
                        sig_data@,
                    )
                    &&& final(self)@ == old(self)@
                },
                Err(_) => false,
            },
    {
        if self.paused {
            return Err(BridgeError::Paused);
        }
        if !self.whitelist.contains(&data.token_contract) {
            return Err(BridgeError::NotWhitelisted);
        }
        let payload = encode_whitelist_data(&data);
        let tag = tag_blacklist_nft_bytes();
        match self.require_sig(data.action_id, &payload, sig_data, &tag) {
            Ok(()) => {},
            Err(e) => {
                return Err(e);
            },
        }
        self.whitelist.remove(&data.token_contract);
        Ok(())
    }

    /// The stored group key.
    pub fn get_group_key(&self) -> (r: [u8; 32])
        ensures
            r@ == self@.group_key,
    {
        self.group_key
    }

    /// Whether `contract_id` is whitelisted.
    pub fn is_whitelist(&self, contract_id: &Vec<u8>) -> (r: bool)
        ensures
            r == self@.whitelist.contains(contract_id@),
    {
        self.whitelist.contains(contract_id)
    }

    /// Whether the circuit breaker is engaged.
    pub fn is_paused(&self) -> (r: bool)
        ensures
            r == self@.paused,
    {
        self.paused
    }

    /// How many bridge operations have completed.
    pub fn get_action_cnt(&self) -> (r: u128)
        ensures
            r == self@.action_cnt,
    {
        self.action_cnt
    }

    /// The fees collected so far and not yet withdrawn.
    pub fn get_tx_fees(&self) -> (r: u128)
        ensures
            r == self@.tx_fees,
    {
        self.tx_fees
    }
}


impl XpBridge {
    /// Withdraws the collected fees to the account the signed payload
    /// names, keeping one whole unit back for storage. The host performs
    /// the returned payment and reports the outcome to
    /// `withdraw_fee_callback`.
    pub fn validate_withdraw_fees(
        &mut self,
        data: WithdrawFeeData,
        sig_data: &Vec<u8>,
        budget: u64,
        balance: u128,
        storage_usage: u64,
        storage_byte_cost: u128,
    ) -> (r: Result<TransferCommand, BridgeError>)
        requires
            withdraw_fee_data_wf(data),
            (storage_usage as u128) * storage_byte_cost <= u128::MAX,
            balance >= (storage_usage as u128) * storage_byte_cost + ONE_NEAR,
        ensures
            match r {
                Ok(c) => {
                    &&& !old(self)@.paused
                    &&& budget >= GAS_FOR_VALIDATE_WITHDRAW
                    &&& gate_admits(
                        old(self)@,
                        data.action_id,
                        tag_withdraw_fees(),
                        enc_withdraw_fee_data(data),
                        sig_data@,
                    )
                    &&& final(self)@ == gate_step(old(self)@, data.action_id)
                    &&& c.receiver@ == data.account_id@
                    &&& c.amount == balance - (storage_usage as u128) * storage_byte_cost
                        - ONE_NEAR
                },
                Err(BridgeError::Paused) => old(self)@.paused && final(self)@ == old(self)@,
                Err(BridgeError::InsufficientBudget) => {
                    &&& !old(self)@.paused
                    &&& budget < GAS_FOR_VALIDATE_WITHDRAW
                    &&& final(self)@ == old(self)@
                },
                Err(BridgeError::Duplicate) => {
                    &&& !old(self)@.paused
                    &&& budget >= GAS_FOR_VALIDATE_WITHDRAW
                    &&& old(self)@.consumed.contains(data.action_id)
                    &&& final(self)@ == old(self)@
                },
                Err(BridgeError::Unauthorized) => {
                    &&& !old(self)@.paused
                    &&& budget >= GAS_FOR_VALIDATE_WITHDRAW
                    &&& !old(self)@.consumed.contains(data.action_id)
                    &&& !action_authorized(
                        old(self)@.group_key,
                        tag_withdraw_fees(),
                        enc_withdraw_fee_data(data),
                        sig_data@,
                    )
                    &&& final(self)@ == old(self)@
                },
                Err(_) => false,
            },
    {
        if self.paused {
            return Err(BridgeError::Paused);
        }
        if budget < GAS_FOR_VALIDATE_WITHDRAW {
            return Err(BridgeError::InsufficientBudget);
        }
        let payload = encode_withdraw_fee_data(&data);
        let tag = tag_withdraw_fees_bytes();
        match self.require_sig(data.action_id, &payload, sig_data, &tag) {
            Ok(()) => {},
            Err(e) => {
                return Err(e);
            },
        }
        let amt = balance - (storage_usage as u128) * storage_byte_cost - ONE_NEAR;
        Ok(TransferCommand { receiver: data.account_id, amount: amt })
    }

    /// Hears the outcome of the fee payout. On success the accumulator
    /// is reset; on failure the action id is rolled back so the payout
    /// can be resubmitted.
    pub fn withdraw_fee_callback(&mut self, action_id: u128, ok: bool)
        ensures
            ok ==> final(self)@ == (BridgeView { tx_fees: 0, ..old(self)@ }),
            !ok ==> final(self)@ == (BridgeView {
                consumed: old(self)@.consumed.remove(action_id),
                ..old(self)@
            }),
    {
        if ok {
            self.tx_fees = 0;
        } else {
            self.consumed_actions.remove(action_id);
        }
    }

    /// Admits a signed incoming transfer and hands back the mint for the
    /// host to perform; the outcome goes to `validate_transfer_callback`.
    pub fn validate_transfer_nft(
        &mut self,
        data: TransferNftData,
        sig_data: &Vec<u8>,
        attached: u128,
        budget: u64,
    ) -> (r: Result<MintCommand, BridgeError>)
        requires
            transfer_nft_data_wf(data),
        ensures
            match r {
                Ok(c) => {
                    &&& budget >= GAS_FOR_VALIDATE_TRANSFER
                    &&& !old(self)@.paused
                    &&& gate_admits(
                        old(self)@,
                        data.action_id,
                        tag_validate_transfer_nft(),
                        enc_transfer_nft_data(data),
                        sig_data@,
                    )
                    &&& final(self)@ == gate_step(old(self)@, data.action_id)
                    &&& c == (MintCommand {
                        mint_with: data.mint_with,
                        token_id: data.token_id,
                        owner_id: data.owner_id,
                        token_metadata: data.token_metadata,
                        attached,
                        action_id: data.action_id,
                    })
                },
                Err(BridgeError::Paused) => {
                    &&& old(self)@.paused
                    &&& final(self)@ == old(self)@
                },
                Err(BridgeError::InsufficientBudget) => {
                    &&& !old(self)@.paused
                    &&& budget < GAS_FOR_VALIDATE_TRANSFER
                    &&& final(self)@ == old(self)@
                },
                Err(BridgeError::Duplicate) => {
                    &&& budget >= GAS_FOR_VALIDATE_TRANSFER
                    &&& !old(self)@.paused
                    &&& old(self)@.consumed.contains(data.action_id)
                    &&& final(self)@ == old(self)@
                },
                Err(BridgeError::Unauthorized) => {
                    &&& budget >= GAS_FOR_VALIDATE_TRANSFER
                    &&& !old(self)@.paused
                    &&& !old(self)@.consumed.contains(data.action_id)
                    &&& !action_authorized(
                        old(self)@.group_key,
                        tag_validate_transfer_nft(),
                        enc_transfer_nft_data(data),
                        sig_data@,
                    )
                    &&& final(self)@ == old(self)@
                },
                Err(_) => false,
            },
    {
        if self.paused {
            return Err(BridgeError::Paused);
        }
        if budget < GAS_FOR_VALIDATE_TRANSFER {
            return Err(BridgeError::InsufficientBudget);
        }
        let payload = encode_transfer_nft_data(&data);
        let tag = tag_validate_transfer_nft_bytes();
        match self.require_sig(data.action_id, &payload, sig_data, &tag) {
            Ok(()) => {},
            Err(e) => {
                return Err(e);
            },
        }
        Ok(MintCommand {
            mint_with: data.mint_with,
            token_id: data.token_id,
            owner_id: data.owner_id,
            token_metadata: data.token_metadata,
            attached,
            action_id: data.action_id,
        })
    }

    /// Hears the outcome of the mint. A failure rolls the action id back
    /// out of the ledger — the same signed action may be resubmitted —
    /// and returns the caller's attached value; counters and fees are
    /// never touched here.
    pub fn validate_transfer_callback(
        &mut self,
        action_id: u128,
        caller: Vec<u8>,
        attached: u128,
        ok: bool,
    ) -> (r: Option<TransferCommand>)
        ensures
            ok ==> final(self)@ == old(self)@ && r is None,
            !ok ==> {
                &&& final(self)@ == (BridgeView {
                    consumed: old(self)@.consumed.remove(action_id),
                    ..old(self)@
                })
                &&& r == Some(TransferCommand { receiver: caller, amount: attached })
            },
    {
        if ok {
            None
        } else {
            self.consumed_actions.remove(action_id);
            Some(TransferCommand { receiver: caller, amount: attached })
        }
    }

    /// Admits a signed release of a custodied token and hands back the
    /// transfer for the host to perform; the outcome goes to
    /// `validate_unfreeze_callback`. The token contract must be
    /// whitelisted.
    pub fn validate_unfreeze_nft(
        &mut self,
        data: UnfreezeNftData,
        sig_data: &Vec<u8>,
        budget: u64,
    ) -> (r: Result<NftTransferCommand, BridgeError>)
        requires
            unfreeze_nft_data_wf(data),
        ensures
            match r {
                Ok(c) => {
                    &&& budget >= GAS_FOR_VALIDATE_UNFREEZE
                    &&& !old(self)@.paused
                    &&& old(self)@.whitelist.contains(data.token_contract@)
                    &&& gate_admits(
                        old(self)@,
                        data.action_id,
                        tag_validate_unfreeze_nft(),
                        enc_unfreeze_nft_data(data),
                        sig_data@,
                    )
                    &&& final(self)@ == gate_step(old(self)@, data.action_id)
                    &&& c == (NftTransferCommand {
                        token_contract: data.token_contract,
                        token_id: data.token_id,
                        receiver_id: data.receiver_id,
                        action_id: data.action_id,
                    })
                },
                Err(BridgeError::Paused) => {
                    &&& old(self)@.paused
                    &&& final(self)@ == old(self)@
                },
                Err(BridgeError::InsufficientBudget) => {
                    &&& !old(self)@.paused
                    &&& budget < GAS_FOR_VALIDATE_UNFREEZE
                    &&& final(self)@ == old(self)@
                },
                Err(BridgeError::NotWhitelisted) => {
                    &&& budget >= GAS_FOR_VALIDATE_UNFREEZE
                    &&& !old(self)@.paused
                    &&& !old(self)@.whitelist.contains(data.token_contract@)
                    &&& final(self)@ == old(self)@
                },
                Err(BridgeError::Duplicate) => {
                    &&& budget >= GAS_FOR_VALIDATE_UNFREEZE
                    &&& !old(self)@.paused
                    &&& old(self)@.whitelist.contains(data.token_contract@)
                    &&& old(self)@.consumed.contains(data.action_id)
                    &&& final(self)@ == old(self)@
                },
                Err(BridgeError::Unauthorized) => {
                    &&& budget >= GAS_FOR_VALIDATE_UNFREEZE
                    &&& !old(self)@.paused
                    &&& old(self)@.whitelist.contains(data.token_contract@)
                    &&& !old(self)@.consumed.contains(data.action_id)
                    &&& !action_authorized(
                        old(self)@.group_key,
                        tag_validate_unfreeze_nft(),
                        enc_unfreeze_nft_data(data),
                        sig_data@,
                    )
                    &&& final(self)@ == old(self)@
                },
                Err(_) => false,
            },
    {
        if self.paused {
            return Err(BridgeError::Paused);
        }
        if budget < GAS_FOR_VALIDATE_UNFREEZE {
            return Err(BridgeError::InsufficientBudget);
        }
        if !self.whitelist.contains(&data.token_contract) {
            return Err(BridgeError::NotWhitelisted);
        }
        let payload = encode_unfreeze_nft_data(&data);
        let tag = tag_validate_unfreeze_nft_bytes();
        match self.require_sig(data.action_id, &payload, sig_data, &tag) {
            Ok(()) => {},
            Err(e) => {
                return Err(e);
            },
        }
        Ok(NftTransferCommand {
            token_contract: data.token_contract,
            token_id: data.token_id,
            receiver_id: data.receiver_id,
            action_id: data.action_id,
        })
    }

    /// Hears the outcome of the custody release. A failure rolls the
    /// action id back so the same signed action may be resubmitted.
    pub fn validate_unfreeze_callback(&mut self, action_id: u128, ok: bool)
        ensures
            ok ==> final(self)@ == old(self)@,
            !ok ==> final(self)@ == (BridgeView {
                consumed: old(self)@.consumed.remove(action_id),
                ..old(self)@
            }),
    {
        if !ok {
            self.consumed_actions.remove(action_id);
        }
    }

    /// Begins an outbound freeze: after the budget, pause and whitelist
    /// checks it hands back the fee statement for the attached amount;
    /// the host verifies it with `verify_paid_amount_by_sig` and feeds
    /// the outcome to `check_enough_fees_callback_for_transfer`.
    pub fn freeze_nft(
        &self,
        token_contract: Vec<u8>,
        token_id: Vec<u8>,
        chain_nonce: u8,
        to: Vec<u8>,
        attached: u128,
        budget: u64,
    ) -> (r: Result<TransferTx, BridgeError>)
        ensures
            match r {
                Ok(tx) => {
                    &&& budget >= GAS_FOR_FREEZE_NFT
                    &&& !self@.paused
                    &&& self@.whitelist.contains(token_contract@)
                    &&& tx == (TransferTx {
                        value: attached,
                        from_chain: 31,
                        to_chain: chain_nonce,
                        token_contract,
                        token_id,
                        to,
                    })
                },
                Err(BridgeError::Paused) => self@.paused,
                Err(BridgeError::InsufficientBudget) => !self@.paused && budget
                    < GAS_FOR_FREEZE_NFT,
                Err(BridgeError::NotWhitelisted) => {
                    &&& !self@.paused
                    &&& budget >= GAS_FOR_FREEZE_NFT
                    &&& !self@.whitelist.contains(token_contract@)
                },
                Err(_) => false,
            },
    {
        if self.paused {
            return Err(BridgeError::Paused);
        }
        if budget < GAS_FOR_FREEZE_NFT {
            return Err(BridgeError::InsufficientBudget);
        }
        if !self.whitelist.contains(&token_contract) {
            return Err(BridgeError::NotWhitelisted);
        }
        Ok(TransferTx {
            value: attached,
            from_chain: 31,
            to_chain: chain_nonce,
            token_contract,
            token_id,
            to,
        })
    }

    /// Checks the relayer's fee statement: the attached amount and route
    /// must carry a signature under the fee key — the trust root separate
    /// from the group key.
    pub fn verify_paid_amount_by_sig(&self, data: &TransferTx, sig_data: &Vec<u8>) -> (r: bool)
        requires
            transfer_tx_wf(*data),
        ensures
            r == sig_accepted(self@.fee_pk, enc_transfer_tx(*data), sig_data@),
    {
        let payload = encode_transfer_tx(data);
        verify_hashed_sig(&self.fee_pk, &payload, sig_data)
    }

    /// Hears the fee check of an outbound freeze: verified, the token is
    /// pulled into custody; refused, the attached amount goes back.
    pub fn check_enough_fees_callback_for_transfer(
        &self,
        token_contract: Vec<u8>,
        token_id: Vec<u8>,
        amt: u128,
        sender: Vec<u8>,
        ok: bool,
    ) -> (r: FreezeStep)
        ensures
            ok ==> r == (FreezeStep::Custody(CustodyCommand { token_contract, token_id })),
            !ok ==> r == (FreezeStep::Refund(TransferCommand { receiver: sender, amount: amt })),
    {
        if ok {
            FreezeStep::Custody(CustodyCommand { token_contract, token_id })
        } else {
            FreezeStep::Refund(TransferCommand { receiver: sender, amount: amt })
        }
    }

    /// Hears the custody transfer of an outbound freeze. Success commits:
    /// the action counter steps once, the attached amount joins the fee
    /// accumulator, and exactly one transfer event carrying the new
    /// counter value is handed back for emission. Failure refunds the
    /// sender and commits nothing.
    pub fn freeze_callback(
        &mut self,
        token_contract: Vec<u8>,
        token_id: Vec<u8>,
        chain_nonce: u8,
        to: Vec<u8>,
        mint_with: Vec<u8>,
        amt: u128,
        sender: Vec<u8>,
        ok: bool,
    ) -> (r: FreezeResolution)
        requires
            ok ==> old(self)@.action_cnt < u128::MAX,
            ok ==> old(self)@.tx_fees + amt <= u128::MAX,
        ensures
            ok ==> {
                &&& final(self)@ == (BridgeView {
                    action_cnt: (old(self)@.action_cnt + 1) as u128,
                    tx_fees: (old(self)@.tx_fees + amt) as u128,
                    ..old(self)@
                })
                &&& r == (FreezeResolution::Committed(TransferNftEvent {
                    chain_nonce,
                    to,
                    mint_with,
                    action_id: (old(self)@.action_cnt + 1) as u128,
                    amt,
                    token_id,
                    contract: token_contract,
                }))
            },
            !ok ==> {
                &&& final(self)@ == old(self)@
                &&& r == (FreezeResolution::Refunded(TransferCommand {
                    receiver: sender,
                    amount: amt,
                }))
            },
    {
        if ok {
            self.action_cnt = self.action_cnt + 1;
            self.tx_fees = self.tx_fees + amt;
            FreezeResolution::Committed(TransferNftEvent {
                chain_nonce,
                to,
                mint_with,
                action_id: self.action_cnt,
                amt,
                token_id,
                contract: token_contract,
            })
        } else {
            FreezeResolution::Refunded(TransferCommand { receiver: sender, amount: amt })
        }
    }

    /// Begins a withdrawal of a custodied token: after the budget and
    /// pause checks it hands back the fee statement for the attached
    /// amount, verified as in the freeze flow.
    pub fn withdraw_nft(
        &self,
        token_contract: Vec<u8>,
        token_id: Vec<u8>,
        chain_nonce: u8,
        to: Vec<u8>,
        attached: u128,
        budget: u64,
    ) -> (r: Result<TransferTx, BridgeError>)
        ensures
            match r {
                Ok(tx) => {
                    &&& budget >= GAS_FOR_WITHDRAW_NFT
                    &&& !self@.paused
                    &&& tx == (TransferTx {
                        value: attached,
                        from_chain: 31,
                        to_chain: chain_nonce,
                        token_contract,
                        token_id,
                        to,
                    })
                },
                Err(BridgeError::Paused) => self@.paused,
                Err(BridgeError::InsufficientBudget) => !self@.paused && budget
                    < GAS_FOR_WITHDRAW_NFT,
                Err(_) => false,
            },
    {
        if self.paused {
            return Err(BridgeError::Paused);
        }
        if budget < GAS_FOR_WITHDRAW_NFT {
            return Err(BridgeError::InsufficientBudget);
        }
        Ok(TransferTx {
            value: attached,
            from_chain: 31,
            to_chain: chain_nonce,
            token_contract,
            token_id,
            to,
        })
    }

    /// Hears the fee check of a withdrawal: verified, the token is looked
    /// up on its registry; refused, the attached amount goes back.
    pub fn check_enough_fees_callback_for_withdraw(
        &self,
        token_contract: Vec<u8>,
        token_id: Vec<u8>,
        amt: u128,
        sender: Vec<u8>,
        ok: bool,
    ) -> (r: WithdrawStep)
        ensures
            ok ==> r == (WithdrawStep::Lookup(LookupCommand { token_contract, token_id })),
            !ok ==> r == (WithdrawStep::Refund(TransferCommand { receiver: sender, amount: amt })),
    {
        if ok {
            WithdrawStep::Lookup(LookupCommand { token_contract, token_id })
        } else {
            WithdrawStep::Refund(TransferCommand { receiver: sender, amount: amt })
        }
    }

    /// Hears the token lookup of a withdrawal: answered, the token is
    /// burned; failed, the attached amount goes back to the sender.
    pub fn token_callback(
        &self,
        token_contract: Vec<u8>,
        token_id: Vec<u8>,
        owner_id: Vec<u8>,
        amt: u128,
        sender: Vec<u8>,
        ok: bool,
    ) -> (r: BurnStep)
        ensures
            ok ==> r == (BurnStep::Burn(BurnCommand { token_contract, token_id, owner_id })),
            !ok ==> r == (BurnStep::Refund(TransferCommand { receiver: sender, amount: amt })),
    {
        if ok {
            BurnStep::Burn(BurnCommand { token_contract, token_id, owner_id })
        } else {
            BurnStep::Refund(TransferCommand { receiver: sender, amount: amt })
        }
    }

    /// Hears the burn of a withdrawal. Success commits: counter stepped
    /// once, fee accumulated, exactly one unfreeze event carrying the new
    /// counter value. Failure refunds the sender and commits nothing.
    pub fn withdraw_callback(
        &mut self,
        token_contract: Vec<u8>,
        token: Option<TokenRecord>,
        chain_nonce: u8,
        to: Vec<u8>,
        amt: u128,
        sender: Vec<u8>,
        ok: bool,
    ) -> (r: WithdrawResolution)
        requires
            ok ==> old(self)@.action_cnt < u128::MAX,
            ok ==> old(self)@.tx_fees + amt <= u128::MAX,
        ensures
            ok ==> {
                &&& final(self)@ == (BridgeView {
                    action_cnt: (old(self)@.action_cnt + 1) as u128,
                    tx_fees: (old(self)@.tx_fees + amt) as u128,
                    ..old(self)@
                })
                &&& r == (WithdrawResolution::Committed(UnfreezeNftEvent {
                    chain_nonce,
                    to,
                    action_id: (old(self)@.action_cnt + 1) as u128,
                    amt,
                    token,
                    contract: token_contract,
                }))
            },
            !ok ==> {
                &&& final(self)@ == old(self)@
                &&& r == (WithdrawResolution::Refunded(TransferCommand {
                    receiver: sender,
                    amount: amt,
                }))
            },
    {
        if ok {
            self.action_cnt = self.action_cnt + 1;
            self.tx_fees = self.tx_fees + amt;
            WithdrawResolution::Committed(UnfreezeNftEvent {
                chain_nonce,
                to,
                action_id: self.action_cnt,
                amt,
                token,
                contract: token_contract,
            })
        } else {
            WithdrawResolution::Refunded(TransferCommand { receiver: sender, amount: amt })
        }
    }

    /// Assembles a mint payload as the off-chain signer would and returns
    /// its canonical bytes, ready for signing.
    pub fn encode_transfer_action(
        &self,
        action_id: u128,
        mint_with: Vec<u8>,
        owner_id: Vec<u8>,
        token_id: Vec<u8>,
        title: Vec<u8>,
        description: Vec<u8>,
        media: Vec<u8>,
        extra: Vec<u8>,
    ) -> (r: Vec<u8>)
        requires
            mint_with@.len() <= u32::MAX,
            owner_id@.len() <= u32::MAX,
            token_id@.len() <= u32::MAX,
            title@.len() <= u32::MAX,
            description@.len() <= u32::MAX,
            media@.len() <= u32::MAX,
            extra@.len() <= u32::MAX,
        ensures
            r@ == enc_transfer_nft_data(
                TransferNftData {
                    action_id,
                    mint_with,
                    token_id,
                    owner_id,
                    token_metadata: TokenMetadata {
                        title: Some(title),
                        description: Some(description),
                        media: Some(media),
                        media_hash: None,
                        copies: None,
                        issued_at: None,
                        expires_at: None,
                        starts_at: None,
                        updated_at: None,
                        extra: Some(extra),
                        reference: None,
                        reference_hash: None,
                    },
                },
            ),
    {
        let data = TransferNftData {
            action_id,
            mint_with,
            token_id,
            owner_id,
            token_metadata: TokenMetadata {
                title: Some(title),
                description: Some(description),
                media: Some(media),
                media_hash: None,
                copies: None,
                issued_at: None,
                expires_at: None,
                starts_at: None,
                updated_at: None,
                extra: Some(extra),
                reference: None,
                reference_hash: None,
            },
        };
        encode_transfer_nft_data(&data)
    }

    /// Assembles a release payload as the off-chain signer would and
    /// returns its canonical bytes, ready for signing.
    pub fn encode_unfreeze_action(
        &self,
        action_id: u128,
        token_id: Vec<u8>,
        receiver_id: Vec<u8>,
        token_contract: Vec<u8>,
    ) -> (r: Vec<u8>)
        requires
            token_id@.len() <= u32::MAX,
            receiver_id@.len() <= u32::MAX,
            token_contract@.len() <= u32::MAX,
        ensures
            r@ == enc_unfreeze_nft_data(
                UnfreezeNftData { action_id, token_contract, token_id, receiver_id },
            ),
    {
        let data = UnfreezeNftData { action_id, token_contract, token_id, receiver_id };
        encode_unfreeze_nft_data(&data)
    }
}

} // verus!

