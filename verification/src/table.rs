//! Per-chain configuration tables: chain nonce to value.
//!
//! A table is a list of entries viewed as a map; a later entry for the
//! same nonce overrides an earlier one, as the oracle's signed updates
//! do.

use vstd::prelude::*;

verus! {

/// The map a list of entries denotes: each entry in turn, later wins.
pub open spec fn map_of(s: Seq<(u16, u128)>) -> Map<u16, u128>
    decreases s.len(),
{
    if s.len() == 0 {
        Map::empty()
    } else {
        map_of(s.drop_last()).insert(s.last().0, s.last().1)
    }
}

/// Entries past `i` that never mention `k` leave `k`'s binding alone.
proof fn lemma_map_of_untouched_suffix(s: Seq<(u16, u128)>, i: int, k: u16)
    requires
        0 <= i <= s.len(),
        forall|j: int| i <= j < s.len() ==> (#[trigger] s[j]).0 != k,
    ensures
        map_of(s).contains_key(k) == map_of(s.take(i)).contains_key(k),
        map_of(s).contains_key(k) ==> map_of(s)[k] == map_of(s.take(i))[k],
    decreases s.len() - i,
{
    if i == s.len() {
        assert(s.take(i) =~= s);
    } else {
        lemma_map_of_untouched_suffix(s, i + 1, k);
        assert(s.take(i + 1).drop_last() =~= s.take(i));
        assert(s.take(i + 1).last() == s[i]);
    }
}

/// Concatenation of entry lists is overriding map union.
pub proof fn lemma_map_of_append(a: Seq<(u16, u128)>, b: Seq<(u16, u128)>)
    ensures
        map_of(a + b) == map_of(a).union_prefer_right(map_of(b)),
    decreases b.len(),
{
    if b.len() == 0 {
        assert(a + b =~= a);
        assert(map_of(a).union_prefer_right(map_of(b)) =~= map_of(a));
    } else {
        lemma_map_of_append(a, b.drop_last());
        assert((a + b).drop_last() =~= a + b.drop_last());
        assert((a + b).last() == b.last());
        assert(map_of(a).union_prefer_right(map_of(b)) =~= map_of(a).union_prefer_right(
            map_of(b.drop_last()),
        ).insert(b.last().0, b.last().1));
    }
}

/// A table keyed by chain nonce.
pub struct ChainTable {
    entries: Vec<(u16, u128)>,
}

impl View for ChainTable {
    type V = Map<u16, u128>;

    closed spec fn view(&self) -> Map<u16, u128> {
        map_of(self.entries@)
    }
}

impl ChainTable {
    /// An empty table.
    pub fn new() -> (r: Self)
        ensures
            r@ == Map::<u16, u128>::empty(),
    {
        ChainTable { entries: Vec::new() }
    }

    /// The value stored for `key`, if any.
    pub fn get(&self, key: u16) -> (r: Option<u128>)
        ensures
            r == (if self@.contains_key(key) {
                Some(self@[key])
            } else {
                Option::<u128>::None
            }),
    {
        let n = self.entries.len();
        let mut i: usize = n;
        while i > 0
            invariant
                i <= n,
                n == self.entries@.len(),
                forall|j: int| i <= j < n ==> (#[trigger] self.entries@[j]).0 != key,
            decreases i,
        {
            let (k, v) = self.entries[i - 1];
            if k == key {
                proof {
                    lemma_map_of_untouched_suffix(self.entries@, i as int, key);
                    assert(self.entries@.take(i as int).last() == self.entries@[i - 1]);
                    assert(self.entries@.take(i as int).drop_last() =~= self.entries@.take(
                        i - 1 as int,
                    ));
                }
                return Some(v);
            }
            i -= 1;
        }
        proof {
            lemma_map_of_untouched_suffix(self.entries@, 0, key);
            assert(self.entries@.take(0) =~= Seq::<(u16, u128)>::empty());
        }
        None
    }

    /// Binds `key` to `value`, overriding any earlier binding.
    pub fn set(&mut self, key: u16, value: u128)
        ensures
            final(self)@ == old(self)@.insert(key, value),
    {
        proof {
            assert(self.entries@.push((key, value)).drop_last() =~= self.entries@);
        }
        self.entries.push((key, value));
    }

    /// Applies every binding of `updates` in turn, later entries
    /// overriding, as a signed table update does.
    pub fn extend(&mut self, updates: &Vec<(u16, u128)>)
        ensures
            final(self)@ == old(self)@.union_prefer_right(map_of(updates@)),
    {
        let mut i: usize = 0;
        while i < updates.len()
            invariant
                i <= updates@.len(),
                self@ == old(self)@.union_prefer_right(map_of(updates@.take(i as int))),
            decreases updates@.len() - i,
        {
            let (k, v) = updates[i];
            self.set(k, v);
            proof {
                assert(updates@.take(i + 1 as int).drop_last() =~= updates@.take(i as int));
                assert(updates@.take(i + 1 as int).last() == updates@[i as int]);
                assert(old(self)@.union_prefer_right(map_of(updates@.take(i + 1 as int))) =~= old(
                    self,
                )@.union_prefer_right(map_of(updates@.take(i as int))).insert(k, v));
            }
            i += 1;
        }
        proof {
            assert(updates@.take(updates@.len() as int) =~= updates@);
        }
    }

    /// A copy of the table.
    pub fn snapshot(&self) -> (r: Self)
        ensures
            r@ == self@,
    {
        let n = self.entries.len();
        let mut copied: Vec<(u16, u128)> = Vec::new();
        let mut i: usize = 0;
        while i < n
            invariant
                i <= n,
                n == self.entries@.len(),
                copied@ == self.entries@.take(i as int),
            decreases n - i,
        {
            copied.push(self.entries[i]);
            proof {
                assert(self.entries@.take(i + 1 as int) =~= self.entries@.take(i as int).push(
                    self.entries@[i as int],
                ));
            }
            i += 1;
        }
        proof {
            assert(self.entries@.take(n as int) =~= self.entries@);
        }
        ChainTable { entries: copied }
    }
}

} // verus!
