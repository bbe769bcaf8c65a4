//! The action ledger and the whitelist: small sets backed by vectors.
//!
//! The ledger records every consumed 128-bit action identifier; the
//! whitelist records the token contracts approved for freezing. Both are
//! viewed abstractly as mathematical sets.

use vstd::prelude::*;
use vstd::seq_lib::*;

verus! {

/// Compares two byte vectors for equality of their contents.
pub fn bytes_eq(a: &Vec<u8>, b: &Vec<u8>) -> (r: bool)
    ensures
        r == (a@ == b@),
{
    if a.len() != b.len() {
        return false;
    }
    let mut i: usize = 0;
    while i < a.len()
        invariant
            a@.len() == b@.len(),
            i <= a@.len(),
            forall|j: int| 0 <= j < i ==> a@[j] == b@[j],
        decreases a@.len() - i,
    {
        if a[i] != b[i] {
            return false;
        }
        i += 1;
    }
    proof {
        assert(a@ =~= b@);
    }
    true
}

/// The set of consumed action identifiers.
///
/// An id present here has been admitted by the action gate; absence means
/// the action has not (yet, or any more) been executed. Identifiers are
/// removed only as a compensating rollback when a downstream call fails.
pub struct ActionLedger {
    ids: Vec<u128>,
}

impl View for ActionLedger {
    type V = Set<u128>;

    closed spec fn view(&self) -> Set<u128> {
        self.ids@.to_set()
    }
}

impl ActionLedger {
    /// An empty ledger: no action has been consumed.
    pub fn new() -> (r: Self)
        ensures
            r@ == Set::<u128>::empty(),
    {
        let r = ActionLedger { ids: Vec::new() };
        proof {
            assert(r.ids@.to_set() =~= Set::<u128>::empty());
        }
        r
    }

    /// Whether `id` has been consumed.
    pub fn contains(&self, id: u128) -> (r: bool)
        ensures
            r == self@.contains(id),
    {
        let mut i: usize = 0;
        while i < self.ids.len()
            invariant
                i <= self.ids@.len(),
                forall|j: int| 0 <= j < i ==> self.ids@[j] != id,
            decreases self.ids@.len() - i,
        {
            if self.ids[i] == id {
                proof {
                    assert(self.ids@.contains(id));
                }
                return true;
            }
            i += 1;
        }
        proof {
            assert(!self.ids@.contains(id));
        }
        false
    }

    /// Marks `id` as consumed.
    pub fn insert(&mut self, id: u128)
        ensures
            final(self)@ == old(self)@.insert(id),
    {
        proof {
            self.ids@.lemma_push_to_set_commute(id);
        }
        self.ids.push(id);
    }

    /// Rolls a consumed id back out of the ledger, so that the same signed
    /// action may be resubmitted.
    pub fn remove(&mut self, id: u128)
        ensures
            final(self)@ == old(self)@.remove(id),
    {
        let n = self.ids.len();
        let mut kept: Vec<u128> = Vec::new();
        let mut i: usize = 0;
        while i < n
            invariant
                n == self.ids@.len(),
                i <= n,
                kept@.to_set() == self.ids@.take(i as int).to_set().remove(id),
            decreases n - i,
        {
            let x = self.ids[i];
            proof {
                assert(self.ids@.take(i + 1 as int) =~= self.ids@.take(i as int).push(
                    self.ids@[i as int],
                ));
                self.ids@.take(i as int).lemma_push_to_set_commute(self.ids@[i as int]);
                kept@.lemma_push_to_set_commute(x);
                if x == id {
                    assert(kept@.to_set() =~= self.ids@.take(i + 1 as int).to_set().remove(id));
                } else {
                    assert(kept@.push(x).to_set() =~= self.ids@.take(
                        i + 1 as int,
                    ).to_set().remove(id));
                }
            }
            if x != id {
                kept.push(x);
            }
            i += 1;
        }
        proof {
            assert(self.ids@.take(n as int) =~= self.ids@);
        }
        self.ids = kept;
    }
}

/// A set of account identifiers, stored as their raw bytes.
pub struct AccountSet {
    items: Vec<Vec<u8>>,
}

impl View for AccountSet {
    type V = Set<Seq<u8>>;

    closed spec fn view(&self) -> Set<Seq<u8>> {
        Set::new(
            |s: Seq<u8>|
                exists|i: int| 0 <= i < self.items@.len() && self.items@[i]@ == s,
        )
    }
}

impl AccountSet {
    /// An empty account set.
    pub fn new() -> (r: Self)
        ensures
            r@ == Set::<Seq<u8>>::empty(),
    {
        let r = AccountSet { items: Vec::new() };
        proof {
            assert(r@ =~= Set::<Seq<u8>>::empty());
        }
        r
    }

    /// Whether the account named by `x` is in the set.
    pub fn contains(&self, x: &Vec<u8>) -> (r: bool)
        ensures
            r == self@.contains(x@),
    {
        let mut i: usize = 0;
        while i < self.items.len()
            invariant
                i <= self.items@.len(),
                forall|j: int| 0 <= j < i ==> self.items@[j]@ != x@,
            decreases self.items@.len() - i,
        {
            if bytes_eq(&self.items[i], x) {
                return true;
            }
            i += 1;
        }
        false
    }

    /// Adds the account named by `x`.
    pub fn insert(&mut self, x: &Vec<u8>)
        ensures
            final(self)@ == old(self)@.insert(x@),
    {
        self.items.push(x.clone());
        proof {
            let pre = old(self)@;
            assert forall|s: Seq<u8>| self@.contains(s) implies pre.insert(x@).contains(s) by {
                let i = choose|i: int|
                    0 <= i < self.items@.len() && self.items@[i]@ == s;
                if i < self.items@.len() - 1 {
                    assert(old(self).items@[i]@ == s);
                }
            }
            assert forall|s: Seq<u8>| pre.insert(x@).contains(s) implies self@.contains(s) by {
                if pre.contains(s) {
                    let i = choose|i: int|
                        0 <= i < old(self).items@.len() && old(self).items@[i]@ == s;
                    assert(self.items@[i]@ == s);
                } else {
                    assert(self.items@[self.items@.len() - 1]@ == s);
                }
            }
            assert(self@ =~= pre.insert(x@));
        }
    }

    /// Removes the account named by `x`.
    pub fn remove(&mut self, x: &Vec<u8>)
        ensures
            final(self)@ == old(self)@.remove(x@),
    {
        let n = self.items.len();
        let mut kept: Vec<Vec<u8>> = Vec::new();
        let mut i: usize = 0;
        while i < n
            invariant
                n == self.items@.len(),
                i <= n,
                forall|j: int| #![auto]
                    0 <= j < kept@.len() ==> kept@[j]@ != x@ && exists|k: int|
                        0 <= k < i && self.items@[k]@ == kept@[j]@,
                forall|k: int| #![auto]
                    0 <= k < i && self.items@[k]@ != x@ ==> exists|j: int|
                        0 <= j < kept@.len() && kept@[j]@ == self.items@[k]@,
            decreases n - i,
        {
            let ghost kept0 = kept@;
            if !bytes_eq(&self.items[i], x) {
                kept.push(self.items[i].clone());
            }
            proof {
                assert forall|k: int| #![auto]
                    0 <= k < i + 1 && self.items@[k]@ != x@ implies exists|j: int|
                    0 <= j < kept@.len() && kept@[j]@ == self.items@[k]@ by {
                    if k < i {
                        let j = choose|j: int|
                            0 <= j < kept0.len() && kept0[j]@ == self.items@[k]@;
                        assert(kept@[j]@ == self.items@[k]@);
                    } else {
                        assert(kept@[kept@.len() - 1]@ == self.items@[k]@);
                    }
                }
            }
            i += 1;
        }
        let ghost pre = self@;
        self.items = kept;
        proof {
            assert forall|s: Seq<u8>| self@.contains(s) implies pre.remove(x@).contains(s) by {
                let j = choose|j: int|
                    0 <= j < self.items@.len() && self.items@[j]@ == s;
                assert(self.items@[j]@ != x@);
                let k = choose|k: int|
                    0 <= k < old(self).items@.len() && old(self).items@[k]@ == self.items@[j]@;
                assert(pre.contains(s));
            }
            assert forall|s: Seq<u8>| pre.remove(x@).contains(s) implies self@.contains(s) by {
                let k = choose|k: int|
                    0 <= k < old(self).items@.len() && old(self).items@[k]@ == s;
                assert(old(self).items@[k]@ != x@);
                let j = choose|j: int|
                    0 <= j < self.items@.len() && self.items@[j]@ == old(self).items@[k]@;
                assert(self.items@[j]@ == s);
            }
            assert(self@ =~= pre.remove(x@));
        }
    }
}

} // verus!
