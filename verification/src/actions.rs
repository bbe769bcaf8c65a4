//! Signed action payloads and their canonical encodings.
//!
//! Each payload carries the 128-bit action id chosen by the off-chain
//! signer plus its operation-specific fields. A payload is serialized
//! field by field in declaration order with the primitives of `codec`;
//! the injectivity lemmas at the end show that payloads differing in any
//! field never share an encoding.
//!
//! Account and token identifiers are carried as their raw bytes; the
//! caller at the host boundary converts them from and to its own string
//! types.

use vstd::prelude::*;
use crate::codec::{
    enc_bytes, enc_opt_bytes, enc_opt_u64, enc_u128, enc_u8, lemma_prefix_bytes,
    lemma_prefix_opt_bytes, lemma_prefix_opt_u64, lemma_prefix_u128, lemma_prefix_u8, opt_fits,
    opt_view, push_bytes, push_key, push_opt_bytes, push_opt_u64, push_u128, push_u8,
};

verus! {

// ---------------------------------------------------------------------
// Context tags
//
// A fixed per-operation byte string hashed in front of the payload, so a
// signature collected for one operation type can never be replayed
// against another.
// ---------------------------------------------------------------------
/// Context tag of the pause operation.
pub open spec fn tag_set_pause() -> Seq<u8> {
    seq![83u8, 101u8, 116u8, 80u8, 97u8, 117u8, 115u8, 101u8]
}

/// Context tag of the unpause operation.
pub open spec fn tag_set_unpause() -> Seq<u8> {
    seq![83u8, 101u8, 116u8, 85u8, 110u8, 112u8, 97u8, 117u8, 115u8, 101u8]
}

/// Context tag of the group-key rotation.
pub open spec fn tag_set_group_key() -> Seq<u8> {
    seq![83u8, 101u8, 116u8, 71u8, 114u8, 111u8, 117u8, 112u8, 75u8, 101u8, 121u8]
}

/// Context tag of the fee-key rotation.
pub open spec fn tag_set_fee_public_key() -> Seq<u8> {
    seq![83u8, 101u8, 116u8, 70u8, 101u8, 101u8, 80u8, 117u8, 98u8, 108u8, 105u8, 99u8, 75u8, 101u8, 121u8]
}

/// Context tag of the whitelist addition.
pub open spec fn tag_whitelist_nft() -> Seq<u8> {
    seq![87u8, 104u8, 105u8, 116u8, 101u8, 108u8, 105u8, 115u8, 116u8, 78u8, 102u8, 116u8]
}

/// Context tag of the whitelist removal.
pub open spec fn tag_blacklist_nft() -> Seq<u8> {
    seq![
        86u8, 97u8, 108u8, 105u8, 100u8, 97u8, 116u8, 101u8, 66u8, 108u8, 97u8, 99u8, 107u8, 108u8, 105u8,
        115u8, 116u8, 78u8, 102u8, 116u8,
    ]
}

/// Context tag of the fee withdrawal.
pub open spec fn tag_withdraw_fees() -> Seq<u8> {
    seq![87u8, 105u8, 116u8, 104u8, 100u8, 114u8, 97u8, 119u8, 70u8, 101u8, 101u8, 115u8]
}

/// Context tag of the wrapped-asset mint.
pub open spec fn tag_validate_transfer_nft() -> Seq<u8> {
    seq![
        86u8, 97u8, 108u8, 105u8, 100u8, 97u8, 116u8, 101u8, 84u8, 114u8, 97u8, 110u8, 115u8, 102u8, 101u8,
        114u8, 78u8, 102u8, 116u8,
    ]
}

/// Context tag of the custody release.
pub open spec fn tag_validate_unfreeze_nft() -> Seq<u8> {
    seq![
        86u8, 97u8, 108u8, 105u8, 100u8, 97u8, 116u8, 101u8, 85u8, 110u8, 102u8, 114u8, 101u8, 101u8, 122u8,
        101u8, 78u8, 102u8, 116u8,
    ]
}

/// Context tag of the oracle price-table update (the text `UpdatePriceData`).
pub open spec fn tag_update_price_data() -> Seq<u8> {
    seq![85u8, 112u8, 100u8, 97u8, 116u8, 101u8, 80u8, 114u8, 105u8, 99u8, 101u8, 68u8, 97u8, 116u8, 97u8]
}

/// Context tag of the oracle transaction-fee-table update (the text `UpdateTxFeeData`).
pub open spec fn tag_update_tx_fee_data() -> Seq<u8> {
    seq![85u8, 112u8, 100u8, 97u8, 116u8, 101u8, 84u8, 120u8, 70u8, 101u8, 101u8, 68u8, 97u8, 116u8, 97u8]
}

/// Context tag of the oracle extra-fee-table update (the text `UpdateOtherFeeData`).
pub open spec fn tag_update_other_fee_data() -> Seq<u8> {
    seq![85u8, 112u8, 100u8, 97u8, 116u8, 101u8, 79u8, 116u8, 104u8, 101u8, 114u8, 70u8, 101u8, 101u8, 68u8, 97u8, 116u8, 97u8]
}

/// Context tag of the oracle decimal-table update.
pub open spec fn tag_add_decimal_data() -> Seq<u8> {
    seq![65u8, 100u8, 100u8, 68u8, 101u8, 99u8, 105u8, 109u8, 97u8, 108u8, 68u8, 97u8, 116u8, 97u8]
}

/// Builds the pause tag.
pub fn tag_set_pause_bytes() -> (r: Vec<u8>)
    ensures
        r@ == tag_set_pause(),
{
    let mut v: Vec<u8> = Vec::new();
    v.push(83u8);
    v.push(101u8);
    v.push(116u8);
    v.push(80u8);
    v.push(97u8);
    v.push(117u8);
    v.push(115u8);
    v.push(101u8);
    proof {
        assert(v@ =~= tag_set_pause());
    }
    v
}

/// Builds the unpause tag.
pub fn tag_set_unpause_bytes() -> (r: Vec<u8>)
    ensures
        r@ == tag_set_unpause(),
{
    let mut v: Vec<u8> = Vec::new();
    v.push(83u8);
    v.push(101u8);
    v.push(116u8);
    v.push(85u8);
    v.push(110u8);
    v.push(112u8);
    v.push(97u8);
    v.push(117u8);
    v.push(115u8);
    v.push(101u8);
    proof {
        assert(v@ =~= tag_set_unpause());
    }
    v
}

/// Builds the group-key rotation tag.
pub fn tag_set_group_key_bytes() -> (r: Vec<u8>)
    ensures
        r@ == tag_set_group_key(),
{
    let mut v: Vec<u8> = Vec::new();
    v.push(83u8);
    v.push(101u8);
    v.push(116u8);
    v.push(71u8);
    v.push(114u8);
    v.push(111u8);
    v.push(117u8);
    v.push(112u8);
    v.push(75u8);
    v.push(101u8);
    v.push(121u8);
    proof {
        assert(v@ =~= tag_set_group_key());
    }
    v
}

/// Builds the fee-key rotation tag.
pub fn tag_set_fee_public_key_bytes() -> (r: Vec<u8>)
    ensures
        r@ == tag_set_fee_public_key(),
{
    let mut v: Vec<u8> = Vec::new();
    v.push(83u8);
    v.push(101u8);
    v.push(116u8);
    v.push(70u8);
    v.push(101u8);
    v.push(101u8);
    v.push(80u8);
    v.push(117u8);
    v.push(98u8);
    v.push(108u8);
    v.push(105u8);
    v.push(99u8);
    v.push(75u8);
    v.push(101u8);
    v.push(121u8);
    proof {
        assert(v@ =~= tag_set_fee_public_key());
    }
    v
}

/// Builds the whitelist-addition tag.
pub fn tag_whitelist_nft_bytes() -> (r: Vec<u8>)
    ensures
        r@ == tag_whitelist_nft(),
{
    let mut v: Vec<u8> = Vec::new();
    v.push(87u8);
    v.push(104u8);
    v.push(105u8);
    v.push(116u8);
    v.push(101u8);
    v.push(108u8);
    v.push(105u8);
    v.push(115u8);
    v.push(116u8);
    v.push(78u8);
    v.push(102u8);
    v.push(116u8);
    proof {
        assert(v@ =~= tag_whitelist_nft());
    }
    v
}

/// Builds the whitelist-removal tag.
pub fn tag_blacklist_nft_bytes() -> (r: Vec<u8>)
    ensures
        r@ == tag_blacklist_nft(),
{
    let mut v: Vec<u8> = Vec::new();
    v.push(86u8);
    v.push(97u8);
    v.push(108u8);
    v.push(105u8);
    v.push(100u8);
    v.push(97u8);
    v.push(116u8);
    v.push(101u8);
    v.push(66u8);
    v.push(108u8);
    v.push(97u8);
    v.push(99u8);
    v.push(107u8);
    v.push(108u8);
    v.push(105u8);
    v.push(115u8);
    v.push(116u8);
    v.push(78u8);
    v.push(102u8);
    v.push(116u8);
    proof {
        assert(v@ =~= tag_blacklist_nft());
    }
    v
}

/// Builds the fee-withdrawal tag.
pub fn tag_withdraw_fees_bytes() -> (r: Vec<u8>)
    ensures
        r@ == tag_withdraw_fees(),
{
    let mut v: Vec<u8> = Vec::new();
    v.push(87u8);
    v.push(105u8);
    v.push(116u8);
    v.push(104u8);
    v.push(100u8);
    v.push(114u8);
    v.push(97u8);
    v.push(119u8);
    v.push(70u8);
    v.push(101u8);
    v.push(101u8);
    v.push(115u8);
    proof {
        assert(v@ =~= tag_withdraw_fees());
    }
    v
}

/// Builds the wrapped-asset mint tag.
pub fn tag_validate_transfer_nft_bytes() -> (r: Vec<u8>)
    ensures
        r@ == tag_validate_transfer_nft(),
{
    let mut v: Vec<u8> = Vec::new();
    v.push(86u8);
    v.push(97u8);
    v.push(108u8);
    v.push(105u8);
    v.push(100u8);
    v.push(97u8);
    v.push(116u8);
    v.push(101u8);
    v.push(84u8);
    v.push(114u8);
    v.push(97u8);
    v.push(110u8);
    v.push(115u8);
    v.push(102u8);
    v.push(101u8);
    v.push(114u8);
    v.push(78u8);
    v.push(102u8);
    v.push(116u8);
    proof {
        assert(v@ =~= tag_validate_transfer_nft());
    }
    v
}

/// Builds the custody-release tag.
pub fn tag_validate_unfreeze_nft_bytes() -> (r: Vec<u8>)
    ensures
        r@ == tag_validate_unfreeze_nft(),
{
    let mut v: Vec<u8> = Vec::new();
    v.push(86u8);
    v.push(97u8);
    v.push(108u8);
    v.push(105u8);
    v.push(100u8);
    v.push(97u8);
    v.push(116u8);
    v.push(101u8);
    v.push(85u8);
    v.push(110u8);
    v.push(102u8);
    v.push(114u8);
    v.push(101u8);
    v.push(101u8);
    v.push(122u8);
    v.push(101u8);
    v.push(78u8);
    v.push(102u8);
    v.push(116u8);
    proof {
        assert(v@ =~= tag_validate_unfreeze_nft());
    }
    v
}

/// Builds the oracle price-table update tag.
pub fn tag_update_price_data_bytes() -> (r: Vec<u8>)
    ensures
        r@ == tag_update_price_data(),
{
    let mut v: Vec<u8> = Vec::new();
    v.push(85u8);
    v.push(112u8);
    v.push(100u8);
    v.push(97u8);
    v.push(116u8);
    v.push(101u8);
    v.push(80u8);
    v.push(114u8);
    v.push(105u8);
    v.push(99u8);
    v.push(101u8);
    v.push(68u8);
    v.push(97u8);
    v.push(116u8);
    v.push(97u8);
    proof {
        assert(v@ =~= tag_update_price_data());
    }
    v
}

/// Builds the oracle transaction-fee-table update tag.
pub fn tag_update_tx_fee_data_bytes() -> (r: Vec<u8>)
    ensures
        r@ == tag_update_tx_fee_data(),
{
    let mut v: Vec<u8> = Vec::new();
    v.push(85u8);
    v.push(112u8);
    v.push(100u8);
    v.push(97u8);
    v.push(116u8);
    v.push(101u8);
    v.push(84u8);
    v.push(120u8);
    v.push(70u8);
    v.push(101u8);
    v.push(101u8);
    v.push(68u8);
    v.push(97u8);
    v.push(116u8);
    v.push(97u8);
    proof {
        assert(v@ =~= tag_update_tx_fee_data());
    }
    v
}

/// Builds the oracle extra-fee-table update tag.
pub fn tag_update_other_fee_data_bytes() -> (r: Vec<u8>)
    ensures
        r@ == tag_update_other_fee_data(),
{
    let mut v: Vec<u8> = Vec::new();
    v.push(85u8);
    v.push(112u8);
    v.push(100u8);
    v.push(97u8);
    v.push(116u8);
    v.push(101u8);
    v.push(79u8);
    v.push(116u8);
    v.push(104u8);
    v.push(101u8);
    v.push(114u8);
    v.push(70u8);
    v.push(101u8);
    v.push(101u8);
    v.push(68u8);
    v.push(97u8);
    v.push(116u8);
    v.push(97u8);
    proof {
        assert(v@ =~= tag_update_other_fee_data());
    }
    v
}

/// Builds the oracle decimal-update tag.
pub fn tag_add_decimal_data_bytes() -> (r: Vec<u8>)
    ensures
        r@ == tag_add_decimal_data(),
{
    let mut v: Vec<u8> = Vec::new();
    v.push(65u8);
    v.push(100u8);
    v.push(100u8);
    v.push(68u8);
    v.push(101u8);
    v.push(99u8);
    v.push(105u8);
    v.push(109u8);
    v.push(97u8);
    v.push(108u8);
    v.push(68u8);
    v.push(97u8);
    v.push(116u8);
    v.push(97u8);
    proof {
        assert(v@ =~= tag_add_decimal_data());
    }
    v
}

// ---------------------------------------------------------------------
// Payloads
// ---------------------------------------------------------------------
/// Payload of the pause action.
#[derive(Clone, PartialEq, Debug)]
pub struct PauseData {
    pub action_id: u128,
}

/// Payload of the unpause action.
#[derive(Clone, PartialEq, Debug)]
pub struct UnpauseData {
    pub action_id: u128,
}

/// Payload of a key rotation: the new 32-byte public key.
#[derive(Clone, PartialEq, Debug)]
pub struct UpdateGroupkeyData {
    pub action_id: u128,
    pub group_key: [u8; 32],
}

/// Payload of a whitelist addition or removal.
#[derive(Clone, PartialEq, Debug)]
pub struct WhitelistData {
    pub action_id: u128,
    pub token_contract: Vec<u8>,
}

/// Payload of the fee withdrawal: the account paid out.
#[derive(Clone, PartialEq, Debug)]
pub struct WithdrawFeeData {
    pub action_id: u128,
    pub account_id: Vec<u8>,
}

/// The fee statement a relayer pre-authorizes for one outbound transfer:
/// the attached amount and the route it pays for. Signed with the fee key,
/// a trust root separate from the group key.
#[derive(Clone, PartialEq, Debug)]
pub struct TransferTx {
    pub value: u128,
    pub from_chain: u8,
    pub to_chain: u8,
    pub token_contract: Vec<u8>,
    pub token_id: Vec<u8>,
    pub to: Vec<u8>,
}

/// Metadata of a minted token, field for field as the token registry
/// stores it.
#[derive(Clone, PartialEq, Debug)]
pub struct TokenMetadata {
    pub title: Option<Vec<u8>>,
    pub description: Option<Vec<u8>>,
    pub media: Option<Vec<u8>>,
    pub media_hash: Option<Vec<u8>>,
    pub copies: Option<u64>,
    pub issued_at: Option<Vec<u8>>,
    pub expires_at: Option<Vec<u8>>,
    pub starts_at: Option<Vec<u8>>,
    pub updated_at: Option<Vec<u8>>,
    pub extra: Option<Vec<u8>>,
    pub reference: Option<Vec<u8>>,
    pub reference_hash: Option<Vec<u8>>,
}

/// Payload instructing the mint of a wrapped token for an incoming
/// foreign-chain transfer.
#[derive(Clone, PartialEq, Debug)]
pub struct TransferNftData {
    pub action_id: u128,
    pub mint_with: Vec<u8>,
    pub token_id: Vec<u8>,
    pub owner_id: Vec<u8>,
    pub token_metadata: TokenMetadata,
}

/// Payload instructing the release of a custodied token to a receiver.
#[derive(Clone, PartialEq, Debug)]
pub struct UnfreezeNftData {
    pub action_id: u128,
    pub token_contract: Vec<u8>,
    pub token_id: Vec<u8>,
    pub receiver_id: Vec<u8>,
}

// ---------------------------------------------------------------------
// Well-formedness: every variable-length field fits behind its 32-bit
// length prefix.
// ---------------------------------------------------------------------
/// Whether a whitelist payload can be encoded.
pub open spec fn whitelist_data_wf(d: WhitelistData) -> bool {
    d.token_contract@.len() <= u32::MAX
}

/// Whether a fee-withdrawal payload can be encoded.
pub open spec fn withdraw_fee_data_wf(d: WithdrawFeeData) -> bool {
    d.account_id@.len() <= u32::MAX
}

/// Whether a fee statement can be encoded.
pub open spec fn transfer_tx_wf(d: TransferTx) -> bool {
    d.token_contract@.len() <= u32::MAX && d.token_id@.len() <= u32::MAX && d.to@.len()
        <= u32::MAX
}

/// Whether token metadata can be encoded.
pub open spec fn token_metadata_wf(m: TokenMetadata) -> bool {
    opt_fits(opt_view(m.title)) && opt_fits(opt_view(m.description)) && opt_fits(
        opt_view(m.media),
    ) && opt_fits(opt_view(m.media_hash)) && opt_fits(opt_view(m.issued_at)) && opt_fits(
        opt_view(m.expires_at),
    ) && opt_fits(opt_view(m.starts_at)) && opt_fits(opt_view(m.updated_at)) && opt_fits(
        opt_view(m.extra),
    ) && opt_fits(opt_view(m.reference)) && opt_fits(opt_view(m.reference_hash))
}

/// Whether a mint payload can be encoded.
pub open spec fn transfer_nft_data_wf(d: TransferNftData) -> bool {
    d.mint_with@.len() <= u32::MAX && d.token_id@.len() <= u32::MAX && d.owner_id@.len()
        <= u32::MAX && token_metadata_wf(d.token_metadata)
}

/// Whether a release payload can be encoded.
pub open spec fn unfreeze_nft_data_wf(d: UnfreezeNftData) -> bool {
    d.token_contract@.len() <= u32::MAX && d.token_id@.len() <= u32::MAX && d.receiver_id@.len()
        <= u32::MAX
}

// ---------------------------------------------------------------------
// Canonical encodings
// ---------------------------------------------------------------------
/// Canonical bytes of a pause payload.
pub open spec fn enc_pause_data(d: PauseData) -> Seq<u8> {
    enc_u128(d.action_id)
}

/// Canonical bytes of an unpause payload.
pub open spec fn enc_unpause_data(d: UnpauseData) -> Seq<u8> {
    enc_u128(d.action_id)
}

/// Canonical bytes of a key-rotation payload.
pub open spec fn enc_update_groupkey_data(d: UpdateGroupkeyData) -> Seq<u8> {
    enc_u128(d.action_id) + d.group_key@
}

/// Canonical bytes of a whitelist payload.
pub open spec fn enc_whitelist_data(d: WhitelistData) -> Seq<u8> {
    enc_u128(d.action_id) + enc_bytes(d.token_contract@)
}

/// Canonical bytes of a fee-withdrawal payload.
pub open spec fn enc_withdraw_fee_data(d: WithdrawFeeData) -> Seq<u8> {
    enc_u128(d.action_id) + enc_bytes(d.account_id@)
}

/// Canonical bytes of a fee statement.
pub open spec fn enc_transfer_tx(d: TransferTx) -> Seq<u8> {
    enc_u128(d.value) + enc_u8(d.from_chain) + enc_u8(d.to_chain) + enc_bytes(d.token_contract@)
        + enc_bytes(d.token_id@) + enc_bytes(d.to@)
}

/// Canonical bytes of the first six metadata fields.
pub open spec fn enc_token_metadata_head(m: TokenMetadata) -> Seq<u8> {
    enc_opt_bytes(opt_view(m.title)) + enc_opt_bytes(opt_view(m.description)) + enc_opt_bytes(
        opt_view(m.media),
    ) + enc_opt_bytes(opt_view(m.media_hash)) + enc_opt_u64(m.copies) + enc_opt_bytes(
        opt_view(m.issued_at),
    )
}

/// Canonical bytes of the last six metadata fields.
pub open spec fn enc_token_metadata_tail(m: TokenMetadata) -> Seq<u8> {
    enc_opt_bytes(opt_view(m.expires_at)) + enc_opt_bytes(opt_view(m.starts_at)) + enc_opt_bytes(
        opt_view(m.updated_at),
    ) + enc_opt_bytes(opt_view(m.extra)) + enc_opt_bytes(opt_view(m.reference)) + enc_opt_bytes(
        opt_view(m.reference_hash),
    )
}

/// Canonical bytes of token metadata: its twelve fields in declaration
/// order.
pub open spec fn enc_token_metadata(m: TokenMetadata) -> Seq<u8> {
    enc_token_metadata_head(m) + enc_token_metadata_tail(m)
}

/// Canonical bytes of a mint payload.
pub open spec fn enc_transfer_nft_data(d: TransferNftData) -> Seq<u8> {
    enc_u128(d.action_id) + enc_bytes(d.mint_with@) + enc_bytes(d.token_id@) + enc_bytes(
        d.owner_id@,
    ) + enc_token_metadata(d.token_metadata)
}

/// Canonical bytes of a release payload.
pub open spec fn enc_unfreeze_nft_data(d: UnfreezeNftData) -> Seq<u8> {
    enc_u128(d.action_id) + enc_bytes(d.token_contract@) + enc_bytes(d.token_id@) + enc_bytes(
        d.receiver_id@,
    )
}

// ---------------------------------------------------------------------
// Encoders
// ---------------------------------------------------------------------
/// Encodes a pause payload.
pub fn encode_pause_data(d: &PauseData) -> (r: Vec<u8>)
    ensures
        r@ == enc_pause_data(*d),
{
    let mut out: Vec<u8> = Vec::new();
    push_u128(&mut out, d.action_id);
    proof {
        assert(out@ =~= enc_pause_data(*d));
    }
    out
}

/// Encodes an unpause payload.
pub fn encode_unpause_data(d: &UnpauseData) -> (r: Vec<u8>)
    ensures
        r@ == enc_unpause_data(*d),
{
    let mut out: Vec<u8> = Vec::new();
    push_u128(&mut out, d.action_id);
    proof {
        assert(out@ =~= enc_unpause_data(*d));
    }
    out
}

/// Encodes a key-rotation payload.
pub fn encode_update_groupkey_data(d: &UpdateGroupkeyData) -> (r: Vec<u8>)
    ensures
        r@ == enc_update_groupkey_data(*d),
{
    let mut out: Vec<u8> = Vec::new();
    push_u128(&mut out, d.action_id);
    push_key(&mut out, &d.group_key);
    proof {
        assert(out@ =~= enc_update_groupkey_data(*d));
    }
    out
}

/// Encodes a whitelist payload.
pub fn encode_whitelist_data(d: &WhitelistData) -> (r: Vec<u8>)
    requires
        whitelist_data_wf(*d),
    ensures
        r@ == enc_whitelist_data(*d),
{
    let mut out: Vec<u8> = Vec::new();
    push_u128(&mut out, d.action_id);
    push_bytes(&mut out, &d.token_contract);
    proof {
        assert(out@ =~= enc_whitelist_data(*d));
    }
    out
}

/// Encodes a fee-withdrawal payload.
pub fn encode_withdraw_fee_data(d: &WithdrawFeeData) -> (r: Vec<u8>)
    requires
        withdraw_fee_data_wf(*d),
    ensures
        r@ == enc_withdraw_fee_data(*d),
{
    let mut out: Vec<u8> = Vec::new();
    push_u128(&mut out, d.action_id);
    push_bytes(&mut out, &d.account_id);
    proof {
        assert(out@ =~= enc_withdraw_fee_data(*d));
    }
    out
}

/// Encodes a fee statement.
pub fn encode_transfer_tx(d: &TransferTx) -> (r: Vec<u8>)
    requires
        transfer_tx_wf(*d),
    ensures
        r@ == enc_transfer_tx(*d),
{
    let mut out: Vec<u8> = Vec::new();
    push_u128(&mut out, d.value);
    push_u8(&mut out, d.from_chain);
    push_u8(&mut out, d.to_chain);
    push_bytes(&mut out, &d.token_contract);
    push_bytes(&mut out, &d.token_id);
    push_bytes(&mut out, &d.to);
    proof {
        assert(out@ =~= enc_transfer_tx(*d));
    }
    out
}

/// Appends the first six metadata fields.
fn push_token_metadata_head(out: &mut Vec<u8>, m: &TokenMetadata)
    requires
        token_metadata_wf(*m),
    ensures
        final(out)@ == old(out)@ + enc_token_metadata_head(*m),
{
    push_opt_bytes(out, &m.title);
    push_opt_bytes(out, &m.description);
    push_opt_bytes(out, &m.media);
    push_opt_bytes(out, &m.media_hash);
    push_opt_u64(out, &m.copies);
    push_opt_bytes(out, &m.issued_at);
    proof {
        assert(out@ =~= old(out)@ + enc_token_metadata_head(*m));
    }
}

/// Appends the last six metadata fields.
fn push_token_metadata_tail(out: &mut Vec<u8>, m: &TokenMetadata)
    requires
        token_metadata_wf(*m),
    ensures
        final(out)@ == old(out)@ + enc_token_metadata_tail(*m),
{
    push_opt_bytes(out, &m.expires_at);
    push_opt_bytes(out, &m.starts_at);
    push_opt_bytes(out, &m.updated_at);
    push_opt_bytes(out, &m.extra);
    push_opt_bytes(out, &m.reference);
    push_opt_bytes(out, &m.reference_hash);
    proof {
        assert(out@ =~= old(out)@ + enc_token_metadata_tail(*m));
    }
}

/// Appends the encoding of token metadata.
pub fn push_token_metadata(out: &mut Vec<u8>, m: &TokenMetadata)
    requires
        token_metadata_wf(*m),
    ensures
        final(out)@ == old(out)@ + enc_token_metadata(*m),
{
    push_token_metadata_head(out, m);
    push_token_metadata_tail(out, m);
    proof {
        assert(out@ =~= old(out)@ + enc_token_metadata(*m));
    }
}

/// Encodes a mint payload.
pub fn encode_transfer_nft_data(d: &TransferNftData) -> (r: Vec<u8>)
    requires
        transfer_nft_data_wf(*d),
    ensures
        r@ == enc_transfer_nft_data(*d),
{
    let mut out: Vec<u8> = Vec::new();
    push_u128(&mut out, d.action_id);
    push_bytes(&mut out, &d.mint_with);
    push_bytes(&mut out, &d.token_id);
    push_bytes(&mut out, &d.owner_id);
    push_token_metadata(&mut out, &d.token_metadata);
    proof {
        assert(out@ =~= enc_transfer_nft_data(*d));
    }
    out
}

/// Encodes a release payload.
pub fn encode_unfreeze_nft_data(d: &UnfreezeNftData) -> (r: Vec<u8>)
    requires
        unfreeze_nft_data_wf(*d),
    ensures
        r@ == enc_unfreeze_nft_data(*d),
{
    let mut out: Vec<u8> = Vec::new();
    push_u128(&mut out, d.action_id);
    push_bytes(&mut out, &d.token_contract);
    push_bytes(&mut out, &d.token_id);
    push_bytes(&mut out, &d.receiver_id);
    proof {
        assert(out@ =~= enc_unfreeze_nft_data(*d));
    }
    out
}

// ---------------------------------------------------------------------
// Injectivity
//
// Equal encodings force equal fields: the canonical encoding never
// collides on distinct payload values.
// ---------------------------------------------------------------------
/// Equal pause encodings have equal action ids.
pub proof fn lemma_enc_pause_data_injective(a: PauseData, b: PauseData)
    requires
        enc_pause_data(a) == enc_pause_data(b),
    ensures
        a == b,
{
    assert(enc_u128(a.action_id) + Seq::<u8>::empty() =~= enc_pause_data(a));
    assert(enc_u128(b.action_id) + Seq::<u8>::empty() =~= enc_pause_data(b));
    lemma_prefix_u128(a.action_id, b.action_id, Seq::empty(), Seq::empty());
}

/// Equal unpause encodings have equal action ids.
pub proof fn lemma_enc_unpause_data_injective(a: UnpauseData, b: UnpauseData)
    requires
        enc_unpause_data(a) == enc_unpause_data(b),
    ensures
        a == b,
{
    assert(enc_u128(a.action_id) + Seq::<u8>::empty() =~= enc_unpause_data(a));
    assert(enc_u128(b.action_id) + Seq::<u8>::empty() =~= enc_unpause_data(b));
    lemma_prefix_u128(a.action_id, b.action_id, Seq::empty(), Seq::empty());
}

/// Equal key-rotation encodings agree on every field.
pub proof fn lemma_enc_update_groupkey_data_injective(a: UpdateGroupkeyData, b: UpdateGroupkeyData)
    requires
        enc_update_groupkey_data(a) == enc_update_groupkey_data(b),
    ensures
        a.action_id == b.action_id,
        a.group_key@ == b.group_key@,
{
    lemma_prefix_u128(a.action_id, b.action_id, a.group_key@, b.group_key@);
}

/// Equal whitelist encodings agree on every field.
pub proof fn lemma_enc_whitelist_data_injective(a: WhitelistData, b: WhitelistData)
    requires
        whitelist_data_wf(a),
        whitelist_data_wf(b),
        enc_whitelist_data(a) == enc_whitelist_data(b),
    ensures
        a.action_id == b.action_id,
        a.token_contract@ == b.token_contract@,
{
    lemma_prefix_u128(
        a.action_id,
        b.action_id,
        enc_bytes(a.token_contract@),
        enc_bytes(b.token_contract@),
    );
    assert(enc_bytes(a.token_contract@) + Seq::<u8>::empty() =~= enc_bytes(a.token_contract@));
    assert(enc_bytes(b.token_contract@) + Seq::<u8>::empty() =~= enc_bytes(b.token_contract@));
    lemma_prefix_bytes(a.token_contract@, b.token_contract@, Seq::empty(), Seq::empty());
}

/// Equal fee-withdrawal encodings agree on every field.
pub proof fn lemma_enc_withdraw_fee_data_injective(a: WithdrawFeeData, b: WithdrawFeeData)
    requires
        withdraw_fee_data_wf(a),
        withdraw_fee_data_wf(b),
        enc_withdraw_fee_data(a) == enc_withdraw_fee_data(b),
    ensures
        a.action_id == b.action_id,
        a.account_id@ == b.account_id@,
{
    lemma_prefix_u128(
        a.action_id,
        b.action_id,
        enc_bytes(a.account_id@),
        enc_bytes(b.account_id@),
    );
    assert(enc_bytes(a.account_id@) + Seq::<u8>::empty() =~= enc_bytes(a.account_id@));
    assert(enc_bytes(b.account_id@) + Seq::<u8>::empty() =~= enc_bytes(b.account_id@));
    lemma_prefix_bytes(a.account_id@, b.account_id@, Seq::empty(), Seq::empty());
}

/// Equal fee-statement encodings agree on every field.
pub proof fn lemma_enc_transfer_tx_injective(a: TransferTx, b: TransferTx)
    requires
        transfer_tx_wf(a),
        transfer_tx_wf(b),
        enc_transfer_tx(a) == enc_transfer_tx(b),
    ensures
        a.value == b.value,
        a.from_chain == b.from_chain,
        a.to_chain == b.to_chain,
        a.token_contract@ == b.token_contract@,
        a.token_id@ == b.token_id@,
        a.to@ == b.to@,
{
    let ra1 = enc_u8(a.from_chain) + enc_u8(a.to_chain) + enc_bytes(a.token_contract@)
        + enc_bytes(a.token_id@) + enc_bytes(a.to@);
    let rb1 = enc_u8(b.from_chain) + enc_u8(b.to_chain) + enc_bytes(b.token_contract@)
        + enc_bytes(b.token_id@) + enc_bytes(b.to@);
    assert(enc_transfer_tx(a) =~= enc_u128(a.value) + ra1);
    assert(enc_transfer_tx(b) =~= enc_u128(b.value) + rb1);
    lemma_prefix_u128(a.value, b.value, ra1, rb1);
    let ra2 = enc_u8(a.to_chain) + enc_bytes(a.token_contract@) + enc_bytes(a.token_id@)
        + enc_bytes(a.to@);
    let rb2 = enc_u8(b.to_chain) + enc_bytes(b.token_contract@) + enc_bytes(b.token_id@)
        + enc_bytes(b.to@);
    assert(ra1 =~= enc_u8(a.from_chain) + ra2);
    assert(rb1 =~= enc_u8(b.from_chain) + rb2);
    lemma_prefix_u8(a.from_chain, b.from_chain, ra2, rb2);
    let ra3 = enc_bytes(a.token_contract@) + enc_bytes(a.token_id@) + enc_bytes(a.to@);
    let rb3 = enc_bytes(b.token_contract@) + enc_bytes(b.token_id@) + enc_bytes(b.to@);
    assert(ra2 =~= enc_u8(a.to_chain) + ra3);
    assert(rb2 =~= enc_u8(b.to_chain) + rb3);
    lemma_prefix_u8(a.to_chain, b.to_chain, ra3, rb3);
    let ra4 = enc_bytes(a.token_id@) + enc_bytes(a.to@);
    let rb4 = enc_bytes(b.token_id@) + enc_bytes(b.to@);
    assert(ra3 =~= enc_bytes(a.token_contract@) + ra4);
    assert(rb3 =~= enc_bytes(b.token_contract@) + rb4);
    lemma_prefix_bytes(a.token_contract@, b.token_contract@, ra4, rb4);
    assert(ra4 =~= enc_bytes(a.token_id@) + enc_bytes(a.to@));
    assert(rb4 =~= enc_bytes(b.token_id@) + enc_bytes(b.to@));
    lemma_prefix_bytes(a.token_id@, b.token_id@, enc_bytes(a.to@), enc_bytes(b.to@));
    assert(enc_bytes(a.to@) + Seq::<u8>::empty() =~= enc_bytes(a.to@));
    assert(enc_bytes(b.to@) + Seq::<u8>::empty() =~= enc_bytes(b.to@));
    lemma_prefix_bytes(a.to@, b.to@, Seq::empty(), Seq::empty());
}

/// The first six metadata fields at the head of equal messages agree,
/// and leave equal remainders.
proof fn lemma_prefix_token_metadata_head(
    a: TokenMetadata,
    b: TokenMetadata,
    ra: Seq<u8>,
    rb: Seq<u8>,
)
    requires
        token_metadata_wf(a),
        token_metadata_wf(b),
        enc_token_metadata_head(a) + ra == enc_token_metadata_head(b) + rb,
    ensures
        opt_view(a.title) == opt_view(b.title),
        opt_view(a.description) == opt_view(b.description),
        opt_view(a.media) == opt_view(b.media),
        opt_view(a.media_hash) == opt_view(b.media_hash),
        a.copies == b.copies,
        opt_view(a.issued_at) == opt_view(b.issued_at),
        ra == rb,
{
    let ta1 = enc_opt_bytes(opt_view(a.description)) + enc_opt_bytes(opt_view(a.media))
        + enc_opt_bytes(opt_view(a.media_hash)) + enc_opt_u64(a.copies) + enc_opt_bytes(
        opt_view(a.issued_at),
    ) + ra;
    let tb1 = enc_opt_bytes(opt_view(b.description)) + enc_opt_bytes(opt_view(b.media))
        + enc_opt_bytes(opt_view(b.media_hash)) + enc_opt_u64(b.copies) + enc_opt_bytes(
        opt_view(b.issued_at),
    ) + rb;
    assert(enc_token_metadata_head(a) + ra =~= enc_opt_bytes(opt_view(a.title)) + ta1);
    assert(enc_token_metadata_head(b) + rb =~= enc_opt_bytes(opt_view(b.title)) + tb1);
    lemma_prefix_opt_bytes(opt_view(a.title), opt_view(b.title), ta1, tb1);
    let ta2 = enc_opt_bytes(opt_view(a.media)) + enc_opt_bytes(opt_view(a.media_hash))
        + enc_opt_u64(a.copies) + enc_opt_bytes(opt_view(a.issued_at)) + ra;
    let tb2 = enc_opt_bytes(opt_view(b.media)) + enc_opt_bytes(opt_view(b.media_hash))
        + enc_opt_u64(b.copies) + enc_opt_bytes(opt_view(b.issued_at)) + rb;
    assert(ta1 =~= enc_opt_bytes(opt_view(a.description)) + ta2);
    assert(tb1 =~= enc_opt_bytes(opt_view(b.description)) + tb2);
    lemma_prefix_opt_bytes(opt_view(a.description), opt_view(b.description), ta2, tb2);
    let ta3 = enc_opt_bytes(opt_view(a.media_hash)) + enc_opt_u64(a.copies) + enc_opt_bytes(
        opt_view(a.issued_at),
    ) + ra;
    let tb3 = enc_opt_bytes(opt_view(b.media_hash)) + enc_opt_u64(b.copies) + enc_opt_bytes(
        opt_view(b.issued_at),
    ) + rb;
    assert(ta2 =~= enc_opt_bytes(opt_view(a.media)) + ta3);
    assert(tb2 =~= enc_opt_bytes(opt_view(b.media)) + tb3);
    lemma_prefix_opt_bytes(opt_view(a.media), opt_view(b.media), ta3, tb3);
    let ta4 = enc_opt_u64(a.copies) + enc_opt_bytes(opt_view(a.issued_at)) + ra;
    let tb4 = enc_opt_u64(b.copies) + enc_opt_bytes(opt_view(b.issued_at)) + rb;
    assert(ta3 =~= enc_opt_bytes(opt_view(a.media_hash)) + ta4);
    assert(tb3 =~= enc_opt_bytes(opt_view(b.media_hash)) + tb4);
    lemma_prefix_opt_bytes(opt_view(a.media_hash), opt_view(b.media_hash), ta4, tb4);
    let ta5 = enc_opt_bytes(opt_view(a.issued_at)) + ra;
    let tb5 = enc_opt_bytes(opt_view(b.issued_at)) + rb;
    assert(ta4 =~= enc_opt_u64(a.copies) + ta5);
    assert(tb4 =~= enc_opt_u64(b.copies) + tb5);
    lemma_prefix_opt_u64(a.copies, b.copies, ta5, tb5);
    lemma_prefix_opt_bytes(opt_view(a.issued_at), opt_view(b.issued_at), ra, rb);
}

/// The last six metadata fields at the head of equal messages agree, and
/// leave equal remainders.
proof fn lemma_prefix_token_metadata_tail(
    a: TokenMetadata,
    b: TokenMetadata,
    ra: Seq<u8>,
    rb: Seq<u8>,
)
    requires
        token_metadata_wf(a),
        token_metadata_wf(b),
        enc_token_metadata_tail(a) + ra == enc_token_metadata_tail(b) + rb,
    ensures
        opt_view(a.expires_at) == opt_view(b.expires_at),
        opt_view(a.starts_at) == opt_view(b.starts_at),
        opt_view(a.updated_at) == opt_view(b.updated_at),
        opt_view(a.extra) == opt_view(b.extra),
        opt_view(a.reference) == opt_view(b.reference),
        opt_view(a.reference_hash) == opt_view(b.reference_hash),
        ra == rb,
{
    let ta1 = enc_opt_bytes(opt_view(a.starts_at)) + enc_opt_bytes(opt_view(a.updated_at))
        + enc_opt_bytes(opt_view(a.extra)) + enc_opt_bytes(opt_view(a.reference)) + enc_opt_bytes(
        opt_view(a.reference_hash),
    ) + ra;
    let tb1 = enc_opt_bytes(opt_view(b.starts_at)) + enc_opt_bytes(opt_view(b.updated_at))
        + enc_opt_bytes(opt_view(b.extra)) + enc_opt_bytes(opt_view(b.reference)) + enc_opt_bytes(
        opt_view(b.reference_hash),
    ) + rb;
    assert(enc_token_metadata_tail(a) + ra =~= enc_opt_bytes(opt_view(a.expires_at)) + ta1);
    assert(enc_token_metadata_tail(b) + rb =~= enc_opt_bytes(opt_view(b.expires_at)) + tb1);
    lemma_prefix_opt_bytes(opt_view(a.expires_at), opt_view(b.expires_at), ta1, tb1);
    let ta2 = enc_opt_bytes(opt_view(a.updated_at)) + enc_opt_bytes(opt_view(a.extra))
        + enc_opt_bytes(opt_view(a.reference)) + enc_opt_bytes(opt_view(a.reference_hash)) + ra;
    let tb2 = enc_opt_bytes(opt_view(b.updated_at)) + enc_opt_bytes(opt_view(b.extra))
        + enc_opt_bytes(opt_view(b.reference)) + enc_opt_bytes(opt_view(b.reference_hash)) + rb;
    assert(ta1 =~= enc_opt_bytes(opt_view(a.starts_at)) + ta2);
    assert(tb1 =~= enc_opt_bytes(opt_view(b.starts_at)) + tb2);
    lemma_prefix_opt_bytes(opt_view(a.starts_at), opt_view(b.starts_at), ta2, tb2);
    let ta3 = enc_opt_bytes(opt_view(a.extra)) + enc_opt_bytes(opt_view(a.reference))
        + enc_opt_bytes(opt_view(a.reference_hash)) + ra;
    let tb3 = enc_opt_bytes(opt_view(b.extra)) + enc_opt_bytes(opt_view(b.reference))
        + enc_opt_bytes(opt_view(b.reference_hash)) + rb;
    assert(ta2 =~= enc_opt_bytes(opt_view(a.updated_at)) + ta3);
    assert(tb2 =~= enc_opt_bytes(opt_view(b.updated_at)) + tb3);
    lemma_prefix_opt_bytes(opt_view(a.updated_at), opt_view(b.updated_at), ta3, tb3);
    let ta4 = enc_opt_bytes(opt_view(a.reference)) + enc_opt_bytes(opt_view(a.reference_hash))
        + ra;
    let tb4 = enc_opt_bytes(opt_view(b.reference)) + enc_opt_bytes(opt_view(b.reference_hash))
        + rb;
    assert(ta3 =~= enc_opt_bytes(opt_view(a.extra)) + ta4);
    assert(tb3 =~= enc_opt_bytes(opt_view(b.extra)) + tb4);
    lemma_prefix_opt_bytes(opt_view(a.extra), opt_view(b.extra), ta4, tb4);
    let ta5 = enc_opt_bytes(opt_view(a.reference_hash)) + ra;
    let tb5 = enc_opt_bytes(opt_view(b.reference_hash)) + rb;
    assert(ta4 =~= enc_opt_bytes(opt_view(a.reference)) + ta5);
    assert(tb4 =~= enc_opt_bytes(opt_view(b.reference)) + tb5);
    lemma_prefix_opt_bytes(opt_view(a.reference), opt_view(b.reference), ta5, tb5);
    lemma_prefix_opt_bytes(opt_view(a.reference_hash), opt_view(b.reference_hash), ra, rb);
}

/// Token metadata at the head of equal messages agrees on every field,
/// and leaves equal remainders.
pub proof fn lemma_prefix_token_metadata(
    a: TokenMetadata,
    b: TokenMetadata,
    ra: Seq<u8>,
    rb: Seq<u8>,
)
    requires
        token_metadata_wf(a),
        token_metadata_wf(b),
        enc_token_metadata(a) + ra == enc_token_metadata(b) + rb,
    ensures
        opt_view(a.title) == opt_view(b.title),
        opt_view(a.description) == opt_view(b.description),
        opt_view(a.media) == opt_view(b.media),
        opt_view(a.media_hash) == opt_view(b.media_hash),
        a.copies == b.copies,
        opt_view(a.issued_at) == opt_view(b.issued_at),
        opt_view(a.expires_at) == opt_view(b.expires_at),
        opt_view(a.starts_at) == opt_view(b.starts_at),
        opt_view(a.updated_at) == opt_view(b.updated_at),
        opt_view(a.extra) == opt_view(b.extra),
        opt_view(a.reference) == opt_view(b.reference),
        opt_view(a.reference_hash) == opt_view(b.reference_hash),
        ra == rb,
{
    assert(enc_token_metadata(a) + ra =~= enc_token_metadata_head(a) + (enc_token_metadata_tail(a)
        + ra));
    assert(enc_token_metadata(b) + rb =~= enc_token_metadata_head(b) + (enc_token_metadata_tail(b)
        + rb));
    lemma_prefix_token_metadata_head(
        a,
        b,
        enc_token_metadata_tail(a) + ra,
        enc_token_metadata_tail(b) + rb,
    );
    lemma_prefix_token_metadata_tail(a, b, ra, rb);
}

/// Equal mint encodings agree on every field.
pub proof fn lemma_enc_transfer_nft_data_injective(a: TransferNftData, b: TransferNftData)
    requires
        transfer_nft_data_wf(a),
        transfer_nft_data_wf(b),
        enc_transfer_nft_data(a) == enc_transfer_nft_data(b),
    ensures
        a.action_id == b.action_id,
        a.mint_with@ == b.mint_with@,
        a.token_id@ == b.token_id@,
        a.owner_id@ == b.owner_id@,
        opt_view(a.token_metadata.title) == opt_view(b.token_metadata.title),
        opt_view(a.token_metadata.description) == opt_view(b.token_metadata.description),
        opt_view(a.token_metadata.media) == opt_view(b.token_metadata.media),
        opt_view(a.token_metadata.media_hash) == opt_view(b.token_metadata.media_hash),
        a.token_metadata.copies == b.token_metadata.copies,
        opt_view(a.token_metadata.issued_at) == opt_view(b.token_metadata.issued_at),
        opt_view(a.token_metadata.expires_at) == opt_view(b.token_metadata.expires_at),
        opt_view(a.token_metadata.starts_at) == opt_view(b.token_metadata.starts_at),
        opt_view(a.token_metadata.updated_at) == opt_view(b.token_metadata.updated_at),
        opt_view(a.token_metadata.extra) == opt_view(b.token_metadata.extra),
        opt_view(a.token_metadata.reference) == opt_view(b.token_metadata.reference),
        opt_view(a.token_metadata.reference_hash) == opt_view(b.token_metadata.reference_hash),
{
    let ra1 = enc_bytes(a.mint_with@) + enc_bytes(a.token_id@) + enc_bytes(a.owner_id@)
        + enc_token_metadata(a.token_metadata);
    let rb1 = enc_bytes(b.mint_with@) + enc_bytes(b.token_id@) + enc_bytes(b.owner_id@)
        + enc_token_metadata(b.token_metadata);
    assert(enc_transfer_nft_data(a) =~= enc_u128(a.action_id) + ra1);
    assert(enc_transfer_nft_data(b) =~= enc_u128(b.action_id) + rb1);
    lemma_prefix_u128(a.action_id, b.action_id, ra1, rb1);
    let ra2 = enc_bytes(a.token_id@) + enc_bytes(a.owner_id@) + enc_token_metadata(
        a.token_metadata,
    );
    let rb2 = enc_bytes(b.token_id@) + enc_bytes(b.owner_id@) + enc_token_metadata(
        b.token_metadata,
    );
    assert(ra1 =~= enc_bytes(a.mint_with@) + ra2);
    assert(rb1 =~= enc_bytes(b.mint_with@) + rb2);
    lemma_prefix_bytes(a.mint_with@, b.mint_with@, ra2, rb2);
    let ra3 = enc_bytes(a.owner_id@) + enc_token_metadata(a.token_metadata);
    let rb3 = enc_bytes(b.owner_id@) + enc_token_metadata(b.token_metadata);
    assert(ra2 =~= enc_bytes(a.token_id@) + ra3);
    assert(rb2 =~= enc_bytes(b.token_id@) + rb3);
    lemma_prefix_bytes(a.token_id@, b.token_id@, ra3, rb3);
    lemma_prefix_bytes(
        a.owner_id@,
        b.owner_id@,
        enc_token_metadata(a.token_metadata),
        enc_token_metadata(b.token_metadata),
    );
    assert(enc_token_metadata(a.token_metadata) + Seq::<u8>::empty() =~= enc_token_metadata(
        a.token_metadata,
    ));
    assert(enc_token_metadata(b.token_metadata) + Seq::<u8>::empty() =~= enc_token_metadata(
        b.token_metadata,
    ));
    lemma_prefix_token_metadata(a.token_metadata, b.token_metadata, Seq::empty(), Seq::empty());
}

/// Equal release encodings agree on every field.
pub proof fn lemma_enc_unfreeze_nft_data_injective(a: UnfreezeNftData, b: UnfreezeNftData)
    requires
        unfreeze_nft_data_wf(a),
        unfreeze_nft_data_wf(b),
        enc_unfreeze_nft_data(a) == enc_unfreeze_nft_data(b),
    ensures
        a.action_id == b.action_id,
        a.token_contract@ == b.token_contract@,
        a.token_id@ == b.token_id@,
        a.receiver_id@ == b.receiver_id@,
{
    let ra1 = enc_bytes(a.token_contract@) + enc_bytes(a.token_id@) + enc_bytes(a.receiver_id@);
    let rb1 = enc_bytes(b.token_contract@) + enc_bytes(b.token_id@) + enc_bytes(b.receiver_id@);
    assert(enc_unfreeze_nft_data(a) =~= enc_u128(a.action_id) + ra1);
    assert(enc_unfreeze_nft_data(b) =~= enc_u128(b.action_id) + rb1);
    lemma_prefix_u128(a.action_id, b.action_id, ra1, rb1);
    let ra2 = enc_bytes(a.token_id@) + enc_bytes(a.receiver_id@);
    let rb2 = enc_bytes(b.token_id@) + enc_bytes(b.receiver_id@);
    assert(ra1 =~= enc_bytes(a.token_contract@) + ra2);
    assert(rb1 =~= enc_bytes(b.token_contract@) + rb2);
    lemma_prefix_bytes(a.token_contract@, b.token_contract@, ra2, rb2);
    lemma_prefix_bytes(
        a.token_id@,
        b.token_id@,
        enc_bytes(a.receiver_id@),
        enc_bytes(b.receiver_id@),
    );
    assert(enc_bytes(a.receiver_id@) + Seq::<u8>::empty() =~= enc_bytes(a.receiver_id@));
    assert(enc_bytes(b.receiver_id@) + Seq::<u8>::empty() =~= enc_bytes(b.receiver_id@));
    lemma_prefix_bytes(a.receiver_id@, b.receiver_id@, Seq::empty(), Seq::empty());
}

} // verus!
