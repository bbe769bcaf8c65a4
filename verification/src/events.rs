//! Events emitted towards the off-chain indexers.
//!
//! The contracts return these as plain values; the host serializes them
//! onto its log. `Event` pairs a payload with the type tag under which
//! the indexers watch for it.

use vstd::prelude::*;

verus! {

/// An event wrapped with its type tag, ready for serialization.
pub struct Event<T> {
    pub event_type: Vec<u8>,
    pub event: T,
}

/// A token briefly described: what the registry reported before a burn.
#[derive(Clone, PartialEq, Debug)]
pub struct TokenRecord {
    pub token_id: Vec<u8>,
    pub owner_id: Vec<u8>,
}

/// Emitted when a native token has been locked in bridge custody: the
/// destination chain mints its wrapped counterpart from this.
#[derive(Clone, PartialEq, Debug)]
pub struct TransferNftEvent {
    pub chain_nonce: u8,
    pub to: Vec<u8>,
    pub mint_with: Vec<u8>,
    pub action_id: u128,
    pub amt: u128,
    pub token_id: Vec<u8>,
    pub contract: Vec<u8>,
}

/// Emitted when a custodied token has been burned on withdrawal: the
/// destination chain releases the original from this.
#[derive(Clone, PartialEq, Debug)]
pub struct UnfreezeNftEvent {
    pub chain_nonce: u8,
    pub to: Vec<u8>,
    pub action_id: u128,
    pub amt: u128,
    pub token: Option<TokenRecord>,
    pub contract: Vec<u8>,
}

/// The tag under which indexers watch for outbound transfers.
pub open spec fn transfer_event_type() -> Seq<u8> {
    seq![
        84u8, 114u8, 97u8, 110u8, 115u8, 102u8, 101u8, 114u8, 85u8, 110u8, 105u8, 113u8, 117u8,
        101u8,
    ]
}

/// The tag under which indexers watch for withdrawals.
pub open spec fn unfreeze_event_type() -> Seq<u8> {
    seq![
        85u8, 110u8, 102u8, 114u8, 101u8, 101u8, 122u8, 101u8, 85u8, 110u8, 105u8, 113u8, 117u8,
        101u8,
    ]
}

impl TransferNftEvent {
    /// Wraps the event with its type tag (the text `TransferUnique`).
    pub fn wrapped(self) -> (r: Event<TransferNftEvent>)
        ensures
            r.event == self,
            r.event_type@ == transfer_event_type(),
    {
        let mut t: Vec<u8> = Vec::new();
        t.push(84u8);
        t.push(114u8);
        t.push(97u8);
        t.push(110u8);
        t.push(115u8);
        t.push(102u8);
        t.push(101u8);
        t.push(114u8);
        t.push(85u8);
        t.push(110u8);
        t.push(105u8);
        t.push(113u8);
        t.push(117u8);
        t.push(101u8);
        proof {
            assert(t@ =~= transfer_event_type());
        }
        Event { event_type: t, event: self }
    }
}

impl UnfreezeNftEvent {
    /// Wraps the event with its type tag (the text `UnfreezeUnique`).
    pub fn wrapped(self) -> (r: Event<UnfreezeNftEvent>)
        ensures
            r.event == self,
            r.event_type@ == unfreeze_event_type(),
    {
        let mut t: Vec<u8> = Vec::new();
        t.push(85u8);
        t.push(110u8);
        t.push(102u8);
        t.push(114u8);
        t.push(101u8);
        t.push(101u8);
        t.push(122u8);
        t.push(101u8);
        t.push(85u8);
        t.push(110u8);
        t.push(105u8);
        t.push(113u8);
        t.push(117u8);
        t.push(101u8);
        proof {
            assert(t@ =~= unfreeze_event_type());
        }
        Event { event_type: t, event: self }
    }
}

} // verus!
