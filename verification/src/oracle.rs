//! The price and fee oracle: per-chain tables updated only through the
//! action gate, and a pure fee estimate over them.
//!
//! The oracle mirrors the bridge's gate — duplicate check, signature over
//! the domain-separated digest, then consumption — for its signed table
//! updates and key rotation, each bound to its own context tag so a
//! signature for one table can never drive another. `estimate_fees` is a
//! read computed in full 256-bit width: it never fails hard, answering
//! `None` whenever a needed table entry is missing or a divisor is zero.

use vstd::prelude::*;
use crate::actions::{tag_add_decimal_data, tag_add_decimal_data_bytes, tag_set_group_key,
    tag_set_group_key_bytes, tag_update_other_fee_data, tag_update_other_fee_data_bytes,
    tag_update_price_data, tag_update_price_data_bytes, tag_update_tx_fee_data,
    tag_update_tx_fee_data_bytes};
use crate::bridge::BridgeError;
use crate::codec::{
    enc_u16, enc_u256, enc_u32, lemma_prefix_u16, lemma_prefix_u256, lemma_prefix_u32, push_key,
    push_u16, push_u256, push_u32,
};
use crate::crypto::{action_authorized, verify_action_sig};
use crate::ledger::ActionLedger;
use crate::table::{map_of, ChainTable};
use crate::wide::{div_wide, p256, wide_add_small, wide_from_add, wide_mul_u128, wide_to_u128};

verus! {

/// Payload of a signed table update: the new bindings, applied in order,
/// and the action id.
#[derive(Clone, PartialEq, Debug)]
pub struct UpdateData {
    pub new_data: Vec<(u16, u128)>,
    pub action_id: u128,
}

/// Payload of the oracle's key rotation.
#[derive(Clone, PartialEq, Debug)]
pub struct UpdateGroupkeyData {
    pub action_id: u128,
    pub group_key: [u8; 32],
}

/// Price and decimal data for a pair of chains.
#[derive(Clone, Copy, PartialEq, Eq, Structural, Debug)]
pub struct CurrencyData {
    pub from_chain_price: u128,
    pub to_chain_price: u128,
    pub from_chain_decimal: u128,
    pub to_chain_decimal: u128,
}

/// Whether a table update fits behind its 32-bit count prefix.
pub open spec fn update_data_wf(d: UpdateData) -> bool {
    d.new_data@.len() <= u32::MAX
}

/// Canonical bytes of a run of table entries: nonce and value each at
/// fixed width, in order.
pub open spec fn enc_entries(s: Seq<(u16, u128)>) -> Seq<u8>
    decreases s.len(),
{
    if s.len() == 0 {
        Seq::empty()
    } else {
        enc_u16(s[0].0) + enc_u256(s[0].1) + enc_entries(s.drop_first())
    }
}

/// Canonical bytes of a table update: entry count, entries, action id.
pub open spec fn enc_update_data(d: UpdateData) -> Seq<u8> {
    enc_u32(d.new_data@.len() as u32) + enc_entries(d.new_data@) + enc_u256(d.action_id)
}

/// Canonical bytes of the oracle's key rotation payload.
pub open spec fn enc_oracle_groupkey_data(d: UpdateGroupkeyData) -> Seq<u8> {
    enc_u256(d.action_id) + d.group_key@
}

/// Appending one entry appends its fixed-width encoding.
proof fn lemma_enc_entries_push(s: Seq<(u16, u128)>, e: (u16, u128))
    ensures
        enc_entries(s.push(e)) == enc_entries(s) + enc_u16(e.0) + enc_u256(e.1),
    decreases s.len(),
{
    if s.len() == 0 {
        assert(s.push(e)[0] == e);
        assert(s.push(e).drop_first() =~= Seq::<(u16, u128)>::empty());
        assert(enc_entries(Seq::<(u16, u128)>::empty()) == Seq::<u8>::empty());
        assert(s =~= Seq::<(u16, u128)>::empty());
        assert(enc_entries(s.push(e)) =~= enc_entries(s) + enc_u16(e.0) + enc_u256(e.1));
    } else {
        lemma_enc_entries_push(s.drop_first(), e);
        assert(s.push(e).drop_first() =~= s.drop_first().push(e));
        assert(s.push(e)[0] == s[0]);
        assert(enc_entries(s.push(e)) =~= enc_entries(s) + enc_u16(e.0) + enc_u256(e.1));
    }
}

/// Equally long entry runs with equal encodings agree entry by entry and
/// leave equal remainders.
proof fn lemma_enc_entries_prefix(
    s1: Seq<(u16, u128)>,
    s2: Seq<(u16, u128)>,
    r1: Seq<u8>,
    r2: Seq<u8>,
)
    requires
        s1.len() == s2.len(),
        enc_entries(s1) + r1 == enc_entries(s2) + r2,
    ensures
        forall|i: int| #![auto]
            0 <= i < s1.len() ==> s1[i].0 == s2[i].0 && s1[i].1 == s2[i].1,
        r1 == r2,
    decreases s1.len(),
{
    if s1.len() == 0 {
        assert(enc_entries(s1) + r1 =~= r1);
        assert(enc_entries(s2) + r2 =~= r2);
    } else {
        let t1 = enc_entries(s1.drop_first()) + r1;
        let t2 = enc_entries(s2.drop_first()) + r2;
        assert(enc_entries(s1) + r1 =~= enc_u16(s1[0].0) + (enc_u256(s1[0].1) + t1));
        assert(enc_entries(s2) + r2 =~= enc_u16(s2[0].0) + (enc_u256(s2[0].1) + t2));
        lemma_prefix_u16(s1[0].0, s2[0].0, enc_u256(s1[0].1) + t1, enc_u256(s2[0].1) + t2);
        lemma_prefix_u256(s1[0].1, s2[0].1, t1, t2);
        lemma_enc_entries_prefix(s1.drop_first(), s2.drop_first(), r1, r2);
        assert forall|i: int| #![auto]
            0 <= i < s1.len() implies s1[i].0 == s2[i].0 && s1[i].1 == s2[i].1 by {
            if i > 0 {
                assert(s1.drop_first()[i - 1] == s1[i]);
                assert(s2.drop_first()[i - 1] == s2[i]);
            }
        }
    }
}

/// Equal table-update encodings carry the same entries, in the same
/// order, and the same action id.
pub proof fn lemma_enc_update_data_injective(a: UpdateData, b: UpdateData)
    requires
        update_data_wf(a),
        update_data_wf(b),
        enc_update_data(a) == enc_update_data(b),
    ensures
        a.action_id == b.action_id,
        a.new_data@.len() == b.new_data@.len(),
        forall|i: int| #![auto]
            0 <= i < a.new_data@.len() ==> a.new_data@[i].0 == b.new_data@[i].0
                && a.new_data@[i].1 == b.new_data@[i].1,
{
    let ta = enc_entries(a.new_data@) + enc_u256(a.action_id);
    let tb = enc_entries(b.new_data@) + enc_u256(b.action_id);
    assert(enc_update_data(a) =~= enc_u32(a.new_data@.len() as u32) + ta);
    assert(enc_update_data(b) =~= enc_u32(b.new_data@.len() as u32) + tb);
    lemma_prefix_u32(a.new_data@.len() as u32, b.new_data@.len() as u32, ta, tb);
    lemma_enc_entries_prefix(
        a.new_data@,
        b.new_data@,
        enc_u256(a.action_id),
        enc_u256(b.action_id),
    );
    assert(enc_u256(a.action_id) + Seq::<u8>::empty() =~= enc_u256(a.action_id));
    assert(enc_u256(b.action_id) + Seq::<u8>::empty() =~= enc_u256(b.action_id));
    lemma_prefix_u256(a.action_id, b.action_id, Seq::empty(), Seq::empty());
}

/// Equal key-rotation encodings agree on every field.
pub proof fn lemma_enc_oracle_groupkey_data_injective(a: UpdateGroupkeyData, b: UpdateGroupkeyData)
    requires
        enc_oracle_groupkey_data(a) == enc_oracle_groupkey_data(b),
    ensures
        a.action_id == b.action_id,
        a.group_key@ == b.group_key@,
{
    lemma_prefix_u256(a.action_id, b.action_id, a.group_key@, b.group_key@);
}

/// Encodes a table update.
pub fn encode_update_data_payload(d: &UpdateData) -> (r: Vec<u8>)
    requires
        update_data_wf(*d),
    ensures
        r@ == enc_update_data(*d),
{
    let mut out: Vec<u8> = Vec::new();
    push_u32(&mut out, d.new_data.len() as u32);
    let ghost count = enc_u32(d.new_data@.len() as u32);
    let mut i: usize = 0;
    while i < d.new_data.len()
        invariant
            i <= d.new_data@.len(),
            count == enc_u32(d.new_data@.len() as u32),
            out@ == count + enc_entries(d.new_data@.take(i as int)),
        decreases d.new_data@.len() - i,
    {
        let (k, v) = d.new_data[i];
        push_u16(&mut out, k);
        push_u256(&mut out, v);
        proof {
            lemma_enc_entries_push(d.new_data@.take(i as int), d.new_data@[i as int]);
            assert(d.new_data@.take(i + 1 as int) =~= d.new_data@.take(i as int).push(
                d.new_data@[i as int],
            ));
            assert(count + enc_entries(d.new_data@.take(i + 1 as int)) =~= count + enc_entries(
                d.new_data@.take(i as int),
            ) + enc_u16(k) + enc_u256(v));
        }
        i += 1;
    }
    proof {
        assert(d.new_data@.take(d.new_data@.len() as int) =~= d.new_data@);
    }
    push_u256(&mut out, d.action_id);
    proof {
        assert(out@ =~= enc_update_data(*d));
    }
    out
}

/// Encodes the oracle's key rotation payload.
pub fn encode_oracle_groupkey_data(d: &UpdateGroupkeyData) -> (r: Vec<u8>)
    ensures
        r@ == enc_oracle_groupkey_data(*d),
{
    let mut out: Vec<u8> = Vec::new();
    push_u256(&mut out, d.action_id);
    push_key(&mut out, &d.group_key);
    proof {
        assert(out@ =~= enc_oracle_groupkey_data(*d));
    }
    out
}

/// The fee estimate as a function of the tables: `None` when an entry
/// is missing, when a divisor is zero, when an intermediate step leaves
/// the 256-bit registers the host computes in, or when the final fee
/// leaves the 128-bit value range this model carries; otherwise the
/// destination chain's transaction fee plus extra fees, priced in
/// dollars, plus a half-unit commission, converted back into
/// origin-chain units, computed exactly.
pub open spec fn spec_estimate_fees(
    decimals: Map<u16, u128>,
    prices: Map<u16, u128>,
    tx_fee_data: Map<u16, u128>,
    other_fees: Map<u16, u128>,
    from: u16,
    to: u16,
) -> Option<u128> {
    if !(decimals.contains_key(from) && decimals.contains_key(to) && prices.contains_key(from)
        && prices.contains_key(to) && tx_fee_data.contains_key(to)) {
        None
    } else {
        let from_dec = decimals[from] as int;
        let to_dec = decimals[to] as int;
        let from_conv = prices[from] as int;
        let to_conv = prices[to] as int;
        let other = if other_fees.contains_key(to) {
            other_fees[to] as int
        } else {
            0
        };
        let to_tx_fee = tx_fee_data[to] + other;
        if to_dec == 0 {
            None
        } else if to_tx_fee * to_conv >= p256() {
            None
        } else {
            let fee_in_usd = (to_tx_fee * to_conv) / to_dec;
            let with_commission = fee_in_usd + to_dec / 2;
            if with_commission >= p256() {
                None
            } else if with_commission * from_dec >= p256() {
                None
            } else if from_conv == 0 {
                None
            } else {
                let in_from = (with_commission * from_dec) / from_conv;
                if in_from * (from_dec / to_dec) >= p256() {
                    None
                } else if in_from * (from_dec / to_dec) > u128::MAX {
                    None
                } else {
                    Some((in_from * (from_dec / to_dec)) as u128)
                }
            }
        }
    }
}

/// The abstract oracle state.
#[verifier::ext_equal]
pub ghost struct OracleView {
    pub prices: Map<u16, u128>,
    pub group_key: Seq<u8>,
    pub consumed: Set<u128>,
    pub decimals: Map<u16, u128>,
    pub tx_fee_data: Map<u16, u128>,
    pub other_fees: Map<u16, u128>,
}

/// The oracle contract state.
pub struct CurrencyDataOracle {
    price_data: ChainTable,
    group_key: [u8; 32],
    consumed_actions: ActionLedger,
    decimals: ChainTable,
    chain_tx_fee_data: ChainTable,
    other_fees: ChainTable,
}

impl View for CurrencyDataOracle {
    type V = OracleView;

    closed spec fn view(&self) -> OracleView {
        OracleView {
            prices: self.price_data@,
            group_key: self.group_key@,
            consumed: self.consumed_actions@,
            decimals: self.decimals@,
            tx_fee_data: self.chain_tx_fee_data@,
            other_fees: self.other_fees@,
        }
    }
}

impl CurrencyDataOracle {
    /// Creates the oracle with its initial tables. The host must let
    /// only the deploying identity call this, and only once.
    pub fn initialize(
        group_key: [u8; 32],
        decimals: ChainTable,
        price_data: ChainTable,
        chain_tx_fee_data: ChainTable,
        other_fees: ChainTable,
    ) -> (r: Self)
        ensures
            r@ == (OracleView {
                prices: price_data@,
                group_key: group_key@,
                consumed: Set::empty(),
                decimals: decimals@,
                tx_fee_data: chain_tx_fee_data@,
                other_fees: other_fees@,
            }),
    {
        CurrencyDataOracle {
            price_data,
            group_key,
            consumed_actions: ActionLedger::new(),
            decimals,
            chain_tx_fee_data,
            other_fees,
        }
    }

    /// The oracle's action gate: duplicate check, signature over the
    /// domain-separated digest, consumption only after the signature
    /// held.
    pub fn require_sig(
        &mut self,
        action_id: u128,
        data: &Vec<u8>,
        sig_data: &Vec<u8>,
        context: &Vec<u8>,
    ) -> (r: Result<(), BridgeError>)
        ensures
            match r {
                Ok(()) => {
                    &&& !old(self)@.consumed.contains(action_id)
                    &&& action_authorized(old(self)@.group_key, context@, data@, sig_data@)
                    &&& final(self)@ == (OracleView {
                        consumed: old(self)@.consumed.insert(action_id),
                        ..old(self)@
                    })
                },
                Err(BridgeError::Duplicate) => {
                    &&& old(self)@.consumed.contains(action_id)
                    &&& final(self)@ == old(self)@
                },
                Err(BridgeError::Unauthorized) => {
                    &&& !old(self)@.consumed.contains(action_id)
                    &&& !action_authorized(old(self)@.group_key, context@, data@, sig_data@)
                    &&& final(self)@ == old(self)@
                },
                Err(_) => false,
            },
    {
        if self.consumed_actions.contains(action_id) {
            return Err(BridgeError::Duplicate);
        }
        let ok = verify_action_sig(&self.group_key, context, data, sig_data);
        if !ok {
            return Err(BridgeError::Unauthorized);
        }
        self.consumed_actions.insert(action_id);
        Ok(())
    }

    /// Applies a signed update to the price table.
    pub fn validate_update_prices(&mut self, data: UpdateData, sig_data: &Vec<u8>) -> (r: Result<
        (),
        BridgeError,
    >)
        requires
            update_data_wf(data),
        ensures
            match r {
                Ok(()) => {
                    &&& !old(self)@.consumed.contains(data.action_id)
                    &&& action_authorized(
                        old(self)@.group_key,
                        tag_update_price_data(),
                        enc_update_data(data),
                        sig_data@,
                    )
                    &&& final(self)@ == (OracleView {
                        prices: old(self)@.prices.union_prefer_right(map_of(data.new_data@)),
                        consumed: old(self)@.consumed.insert(data.action_id),
                        ..old(self)@
                    })
                },
                Err(BridgeError::Duplicate) => {
                    &&& old(self)@.consumed.contains(data.action_id)
                    &&& final(self)@ == old(self)@
                },
                Err(BridgeError::Unauthorized) => {
                    &&& !old(self)@.consumed.contains(data.action_id)
                    &&& !action_authorized(
                        old(self)@.group_key,
                        tag_update_price_data(),
                        enc_update_data(data),
                        sig_data@,
                    )
                    &&& final(self)@ == old(self)@
                },
                Err(_) => false,
            },
    {
        let payload = encode_update_data_payload(&data);
        let tag = tag_update_price_data_bytes();
        match self.require_sig(data.action_id, &payload, sig_data, &tag) {
            Ok(()) => {},
            Err(e) => {
                return Err(e);
            },
        }
        self.price_data.extend(&data.new_data);
        Ok(())
    }

    /// Applies a signed update to the transaction-fee table.
    pub fn validate_update_tx_fees(&mut self, data: UpdateData, sig_data: &Vec<u8>) -> (r: Result<
        (),
        BridgeError,
    >)
        requires
            update_data_wf(data),
        ensures
            match r {
                Ok(()) => {
                    &&& !old(self)@.consumed.contains(data.action_id)
                    &&& action_authorized(
                        old(self)@.group_key,
                        tag_update_tx_fee_data(),
                        enc_update_data(data),
                        sig_data@,
                    )
                    &&& final(self)@ == (OracleView {
                        tx_fee_data: old(self)@.tx_fee_data.union_prefer_right(
                            map_of(data.new_data@),
                        ),
                        consumed: old(self)@.consumed.insert(data.action_id),
                        ..old(self)@
                    })
                },
                Err(BridgeError::Duplicate) => {
                    &&& old(self)@.consumed.contains(data.action_id)
                    &&& final(self)@ == old(self)@
                },
                Err(BridgeError::Unauthorized) => {
                    &&& !old(self)@.consumed.contains(data.action_id)
                    &&& !action_authorized(
                        old(self)@.group_key,
                        tag_update_tx_fee_data(),
                        enc_update_data(data),
                        sig_data@,
                    )
                    &&& final(self)@ == old(self)@
                },
                Err(_) => false,
            },
    {
        let payload = encode_update_data_payload(&data);
        let tag = tag_update_tx_fee_data_bytes();
        match self.require_sig(data.action_id, &payload, sig_data, &tag) {
            Ok(()) => {},
            Err(e) => {
                return Err(e);
            },
        }
        self.chain_tx_fee_data.extend(&data.new_data);
        Ok(())
    }

    /// Applies a signed update to the extra-fee table.
    pub fn validate_update_other_fees(&mut self, data: UpdateData, sig_data: &Vec<u8>) -> (r:
        Result<(), BridgeError>)
        requires
            update_data_wf(data),
        ensures
            match r {
                Ok(()) => {
                    &&& !old(self)@.consumed.contains(data.action_id)
                    &&& action_authorized(
                        old(self)@.group_key,
                        tag_update_other_fee_data(),
                        enc_update_data(data),
                        sig_data@,
                    )
                    &&& final(self)@ == (OracleView {
                        other_fees: old(self)@.other_fees.union_prefer_right(
                            map_of(data.new_data@),
                        ),
                        consumed: old(self)@.consumed.insert(data.action_id),
                        ..old(self)@
                    })
                },
                Err(BridgeError::Duplicate) => {
                    &&& old(self)@.consumed.contains(data.action_id)
                    &&& final(self)@ == old(self)@
                },
                Err(BridgeError::Unauthorized) => {
                    &&& !old(self)@.consumed.contains(data.action_id)
                    &&& !action_authorized(
                        old(self)@.group_key,
                        tag_update_other_fee_data(),
                        enc_update_data(data),
                        sig_data@,
                    )
                    &&& final(self)@ == old(self)@
                },
                Err(_) => false,
            },
    {
        let payload = encode_update_data_payload(&data);
        let tag = tag_update_other_fee_data_bytes();
        match self.require_sig(data.action_id, &payload, sig_data, &tag) {
            Ok(()) => {},
            Err(e) => {
                return Err(e);
            },
        }
        self.other_fees.extend(&data.new_data);
        Ok(())
    }

    /// Applies a signed update to the decimal table, under its own
    /// context tag.
    pub fn validate_update_decimal(&mut self, data: UpdateData, sig_data: &Vec<u8>) -> (r: Result<
        (),
        BridgeError,
    >)
        requires
            update_data_wf(data),
        ensures
            match r {
                Ok(()) => {
                    &&& !old(self)@.consumed.contains(data.action_id)
                    &&& action_authorized(
                        old(self)@.group_key,
                        tag_add_decimal_data(),
                        enc_update_data(data),
                        sig_data@,
                    )
                    &&& final(self)@ == (OracleView {
                        decimals: old(self)@.decimals.union_prefer_right(map_of(data.new_data@)),
                        consumed: old(self)@.consumed.insert(data.action_id),
                        ..old(self)@
                    })
                },
                Err(BridgeError::Duplicate) => {
                    &&& old(self)@.consumed.contains(data.action_id)
                    &&& final(self)@ == old(self)@
                },
                Err(BridgeError::Unauthorized) => {
                    &&& !old(self)@.consumed.contains(data.action_id)
                    &&& !action_authorized(
                        old(self)@.group_key,
                        tag_add_decimal_data(),
                        enc_update_data(data),
                        sig_data@,
                    )
                    &&& final(self)@ == old(self)@
                },
                Err(_) => false,
            },
    {
        let payload = encode_update_data_payload(&data);
        let tag = tag_add_decimal_data_bytes();
        match self.require_sig(data.action_id, &payload, sig_data, &tag) {
            Ok(()) => {},
            Err(e) => {
                return Err(e);
            },
        }
        self.decimals.extend(&data.new_data);
        Ok(())
    }

    /// Rotates the oracle's group key.
    pub fn validate_update_group_key(
        &mut self,
        data: UpdateGroupkeyData,
        sig_data: &Vec<u8>,
    ) -> (r: Result<(), BridgeError>)
        ensures
            match r {
                Ok(()) => {
                    &&& !old(self)@.consumed.contains(data.action_id)
                    &&& action_authorized(
                        old(self)@.group_key,
                        tag_set_group_key(),
                        enc_oracle_groupkey_data(data),
                        sig_data@,
                    )
                    &&& final(self)@ == (OracleView {
                        group_key: data.group_key@,
                        consumed: old(self)@.consumed.insert(data.action_id),
                        ..old(self)@
                    })
                },
                Err(BridgeError::Duplicate) => {
                    &&& old(self)@.consumed.contains(data.action_id)
                    &&& final(self)@ == old(self)@
                },
                Err(BridgeError::Unauthorized) => {
                    &&& !old(self)@.consumed.contains(data.action_id)
                    &&& !action_authorized(
                        old(self)@.group_key,
                        tag_set_group_key(),
                        enc_oracle_groupkey_data(data),
                        sig_data@,
                    )
                    &&& final(self)@ == old(self)@
                },
                Err(_) => false,
            },
    {
        let payload = encode_oracle_groupkey_data(&data);
        let tag = tag_set_group_key_bytes();
        match self.require_sig(data.action_id, &payload, sig_data, &tag) {
            Ok(()) => {},
            Err(e) => {
                return Err(e);
            },
        }
        self.group_key = data.group_key;
        Ok(())
    }

    /// Estimates the relayer fee for a transfer from chain `from` to
    /// chain `to`, in origin-chain units, computing the intermediate
    /// products and quotients in full 256-bit width. Degrades to `None`
    /// — never a failure — when the tables lack an entry for either
    /// chain.
    pub fn estimate_fees(&self, from: u16, to: u16) -> (r: Option<u128>)
        ensures
            r == spec_estimate_fees(
                self@.decimals,
                self@.prices,
                self@.tx_fee_data,
                self@.other_fees,
                from,
                to,
            ),
    {
        let from_dec = match self.decimals.get(from) {
            Some(v) => v,
            None => {
                return None;
            },
        };
        let to_dec = match self.decimals.get(to) {
            Some(v) => v,
            None => {
                return None;
            },
        };
        let from_conv = match self.price_data.get(from) {
            Some(v) => v,
            None => {
                return None;
            },
        };
        let to_conv = match self.price_data.get(to) {
            Some(v) => v,
            None => {
                return None;
            },
        };
        let tx_fee = match self.chain_tx_fee_data.get(to) {
            Some(v) => v,
            None => {
                return None;
            },
        };
        let other = match self.other_fees.get(to) {
            Some(v) => v,
            None => 0,
        };
        if to_dec == 0 {
            return None;
        }
        let (t1_lo, t1_hi) = wide_from_add(tx_fee, other);
        let (scaled_lo, scaled_hi) = match wide_mul_u128(t1_lo, t1_hi, to_conv) {
            Some(v) => v,
            None => {
                return None;
            },
        };
        let (usd_lo, usd_hi) = div_wide(scaled_lo, scaled_hi, to_dec);
        let (comm_lo, comm_hi) = match wide_add_small(usd_lo, usd_hi, to_dec / 2) {
            Some(v) => v,
            None => {
                return None;
            },
        };
        let (back_lo, back_hi) = match wide_mul_u128(comm_lo, comm_hi, from_dec) {
            Some(v) => v,
            None => {
                return None;
            },
        };
        if from_conv == 0 {
            return None;
        }
        let (in_from_lo, in_from_hi) = div_wide(back_lo, back_hi, from_conv);
        let (res_lo, res_hi) = match wide_mul_u128(in_from_lo, in_from_hi, from_dec / to_dec) {
            Some(v) => v,
            None => {
                return None;
            },
        };
        wide_to_u128(res_lo, res_hi)
    }

    /// The prices of the two chains. The entries must exist: missing
    /// price data is a configuration fault here, unlike in
    /// `estimate_fees`.
    pub fn get_price_data(&self, from_nonce: u16, to_nonce: u16) -> (r: (u128, u128))
        requires
            self@.prices.contains_key(from_nonce),
            self@.prices.contains_key(to_nonce),
        ensures
            r.0 == self@.prices[from_nonce],
            r.1 == self@.prices[to_nonce],
    {
        let from = match self.price_data.get(from_nonce) {
            Some(v) => v,
            None => {
                proof {
                    assert(false);
                }
                0
            },
        };
        let to = match self.price_data.get(to_nonce) {
            Some(v) => v,
            None => {
                proof {
                    assert(false);
                }
                0
            },
        };
        (from, to)
    }

    /// The decimals of the two chains; the entries must exist.
    pub fn get_decimal_data(&self, from_nonce: u16, to_nonce: u16) -> (r: (u128, u128))
        requires
            self@.decimals.contains_key(from_nonce),
            self@.decimals.contains_key(to_nonce),
        ensures
            r.0 == self@.decimals[from_nonce],
            r.1 == self@.decimals[to_nonce],
    {
        let from = match self.decimals.get(from_nonce) {
            Some(v) => v,
            None => {
                proof {
                    assert(false);
                }
                0
            },
        };
        let to = match self.decimals.get(to_nonce) {
            Some(v) => v,
            None => {
                proof {
                    assert(false);
                }
                0
            },
        };
        (from, to)
    }

    /// Price and decimal data for both chains; the entries must exist.
    pub fn get_currency_data(&self, from_nonce: u16, to_nonce: u16) -> (r: CurrencyData)
        requires
            self@.prices.contains_key(from_nonce),
            self@.prices.contains_key(to_nonce),
            self@.decimals.contains_key(from_nonce),
            self@.decimals.contains_key(to_nonce),
        ensures
            r == (CurrencyData {
                from_chain_price: self@.prices[from_nonce],
                to_chain_price: self@.prices[to_nonce],
                from_chain_decimal: self@.decimals[from_nonce],
                to_chain_decimal: self@.decimals[to_nonce],
            }),
    {
        let (from_chain_price, to_chain_price) = self.get_price_data(from_nonce, to_nonce);
        let (from_chain_decimal, to_chain_decimal) = self.get_decimal_data(from_nonce, to_nonce);
        CurrencyData { from_chain_price, to_chain_price, from_chain_decimal, to_chain_decimal }
    }

    /// The stored group key.
    pub fn get_group_key(&self) -> (r: [u8; 32])
        ensures
            r@ == self@.group_key,
    {
        self.group_key
    }

    /// A copy of the price table.
    pub fn get_all_price_data(&self) -> (r: ChainTable)
        ensures
            r@ == self@.prices,
    {
        self.price_data.snapshot()
    }

    /// A copy of the decimal table.
    pub fn get_all_decimal_data(&self) -> (r: ChainTable)
        ensures
            r@ == self@.decimals,
    {
        self.decimals.snapshot()
    }

    /// A copy of the transaction-fee table.
    pub fn get_all_tx_fee_data(&self) -> (r: ChainTable)
        ensures
            r@ == self@.tx_fee_data,
    {
        self.chain_tx_fee_data.snapshot()
    }

    /// A copy of the extra-fee table.
    pub fn get_all_other_fee_data(&self) -> (r: ChainTable)
        ensures
            r@ == self@.other_fees,
    {
        self.other_fees.snapshot()
    }

    /// Assembles a table-update payload as the off-chain signer would and
    /// returns its canonical bytes, ready for signing.
    pub fn encode_update_data(&self, new_data: Vec<(u16, u128)>, action_id: u128) -> (r: Vec<u8>)
        requires
            new_data@.len() <= u32::MAX,
        ensures
            r@ == enc_update_data(UpdateData { new_data, action_id }),
    {
        let data = UpdateData { new_data, action_id };
        encode_update_data_payload(&data)
    }

    /// Assembles a key-rotation payload as the off-chain signer would and
    /// returns its canonical bytes, ready for signing.
    pub fn encode_update_group_key(&self, group_key: [u8; 32], action_id: u128) -> (r: Vec<u8>)
        ensures
            r@ == enc_oracle_groupkey_data(UpdateGroupkeyData { action_id, group_key }),
    {
        let data = UpdateGroupkeyData { action_id, group_key };
        encode_oracle_groupkey_data(&data)
    }
}

} // verus!
