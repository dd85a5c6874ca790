//! An index over a list of pair keys, by which the first occurrence of a
//! key is found without a walk through the whole list.
//!
//! The positions of the list are dealt into slots by a hash of the key at
//! each position. Within a slot the positions stand in rising order, so
//! the first position in a key's slot that holds the key is the first
//! position in the list that does.

use crate::text::same_text;
use vstd::prelude::*;
use vstd::string::*;
use vstd::utf8::*;

verus! {

/// The multiplier of the hash.
pub const HASH_PRIME: u64 = 0x100000001b3;

/// The value from which the hash starts.
pub const HASH_START: u64 = 0xcbf29ce484222325;

/// The byte mixed in between the two tokens of a key. No UTF-8 text holds
/// it.
pub const HASH_BREAK: u8 = 0xff;

/// The hash after one more byte.
pub open spec fn mix_one(h: u64, b: u8) -> u64 {
    (h ^ (b as u64)).wrapping_mul(HASH_PRIME)
}

/// The hash after the bytes given, one after the other.
pub open spec fn mix(h: u64, bytes: Seq<u8>) -> u64
    decreases bytes.len(),
{
    if bytes.len() == 0 {
        h
    } else {
        mix_one(mix(h, bytes.drop_last()), bytes.last())
    }
}

/// The hash of a pair key.
pub open spec fn key_hash(key: (Seq<char>, Seq<char>)) -> u64 {
    mix(mix_one(mix(HASH_START, encode_utf8(key.0)), HASH_BREAK), encode_utf8(key.1))
}

/// The slot, of `slots` many, into which a pair key falls.
pub open spec fn slot_of(key: (Seq<char>, Seq<char>), slots: int) -> int {
    (key_hash(key) as int) % slots
}

/// The models of a list of pair keys.
pub open spec fn keys_view(keys: Seq<(String, String)>) -> Seq<(Seq<char>, Seq<char>)> {
    keys.map_values(|k: (String, String)| (k.0@, k.1@))
}

/// `key` stands at position `i` of `keys` and at no position before it.
pub open spec fn first_at(
    keys: Seq<(Seq<char>, Seq<char>)>,
    key: (Seq<char>, Seq<char>),
    i: int,
) -> bool {
    &&& 0 <= i < keys.len()
    &&& keys[i] == key
    &&& forall|j: int| 0 <= j < i ==> keys[j] != key
}

/// The index: for each slot, the positions whose keys fall into it.
#[derive(Debug)]
pub struct PairIndex {
    slots: Vec<Vec<usize>>,
}

/// The position that stands at place `k` of slot `s`.
spec fn listed_at(slots: Seq<Vec<usize>>, s: int, k: int) -> int {
    slots[s]@[k] as int
}

/// Position `i` stands somewhere in slot `s`.
spec fn listed(slots: Seq<Vec<usize>>, s: int, i: int) -> bool {
    exists|k: int| 0 <= k < slots[s]@.len() && #[trigger] listed_at(slots, s, k) == i
}

/// The slots hold the first `n` positions of `keys`, each in the slot of
/// its key, and within each slot in rising order.
spec fn holds_first(slots: Seq<Vec<usize>>, keys: Seq<(Seq<char>, Seq<char>)>, n: int) -> bool {
    &&& slots.len() > 0
    &&& 0 <= n <= keys.len()
    &&& forall|s: int, k: int|
        0 <= s < slots.len() && 0 <= k < slots[s]@.len() ==> {
            &&& 0 <= #[trigger] listed_at(slots, s, k) < n
            &&& slot_of(keys[listed_at(slots, s, k)], slots.len() as int) == s
        }
    &&& forall|s: int, k1: int, k2: int|
        0 <= s < slots.len() && 0 <= k1 < k2 < slots[s]@.len() ==> #[trigger] listed_at(
            slots,
            s,
            k1,
        ) < #[trigger] listed_at(slots, s, k2)
    &&& forall|i: int|
        0 <= i < n ==> #[trigger] listed(slots, slot_of(keys[i], slots.len() as int), i)
}

/// The hash after the bytes given.
fn mix_bytes(h: u64, bytes: &[u8]) -> (r: u64)
    ensures
        r == mix(h, bytes@),
{
    let mut acc = h;
    let mut i: usize = 0;
    while i < bytes.len()
        invariant
            i <= bytes@.len(),
            acc == mix(h, bytes@.take(i as int)),
        decreases bytes.len() - i,
    {
        assert(bytes@.take(i + 1).drop_last() =~= bytes@.take(i as int));
        acc = (acc ^ (bytes[i] as u64)).wrapping_mul(HASH_PRIME);
        i += 1;
    }
    assert(bytes@.take(i as int) =~= bytes@);
    acc
}

/// The slot, of `slots` many, into which the key `(lo, hi)` falls.
fn slot(lo: &str, hi: &str, slots: usize) -> (r: usize)
    requires
        slots > 0,
    ensures
        r == slot_of((lo@, hi@), slots as int),
        r < slots,
{
    let first = mix_bytes(HASH_START, lo.as_bytes());
    let between = (first ^ (HASH_BREAK as u64)).wrapping_mul(HASH_PRIME);
    let h = mix_bytes(between, hi.as_bytes());
    (h % (slots as u64)) as usize
}

impl PairIndex {
    /// Whether this is the index of `keys`.
    pub closed spec fn indexes(&self, keys: Seq<(Seq<char>, Seq<char>)>) -> bool {
        holds_first(self.slots@, keys, keys.len() as int)
    }

    /// The index of the keys given.
    pub fn build(keys: &Vec<(String, String)>) -> (r: PairIndex)
        ensures
            r.indexes(keys_view(keys@)),
    {
        let n = keys.len();
        let count = if n == 0 {
            1
        } else {
            n
        };
        let ghost model = keys_view(keys@);
        let mut slots: Vec<Vec<usize>> = Vec::new();
        let mut c: usize = 0;
        while c < count
            invariant
                c <= count,
                slots@.len() == c,
                forall|s: int| 0 <= s < c ==> (#[trigger] slots@[s])@.len() == 0,
            decreases count - c,
        {
            slots.push(Vec::new());
            c += 1;
        }
        let mut i: usize = 0;
        while i < n
            invariant
                i <= n,
                n == keys@.len(),
                count > 0,
                slots@.len() == count,
                model == keys_view(keys@),
                holds_first(slots@, model, i as int),
            decreases n - i,
        {
            let s = slot(keys[i].0.as_str(), keys[i].1.as_str(), count);
            let ghost before = slots@;
            slots[s].push(i);
            proof {
                let after = slots@;
                assert forall|t: int, k: int|
                    0 <= t < after.len() && 0 <= k < after[t]@.len() implies {
                    &&& 0 <= #[trigger] listed_at(after, t, k) < i + 1
                    &&& slot_of(model[listed_at(after, t, k)], after.len() as int) == t
                } by {
                    if t == s && k == before[t]@.len() {
                    } else {
                        assert(listed_at(after, t, k) == listed_at(before, t, k));
                    }
                }
                assert forall|t: int, k1: int, k2: int|
                    0 <= t < after.len() && 0 <= k1 < k2 < after[t]@.len() implies
                    #[trigger] listed_at(after, t, k1) < #[trigger] listed_at(after, t, k2) by {
                    assert(listed_at(after, t, k1) == listed_at(before, t, k1));
                    if t == s && k2 == before[t]@.len() {
                    } else {
                        assert(listed_at(after, t, k2) == listed_at(before, t, k2));
                    }
                }
                assert forall|j: int| 0 <= j < i + 1 implies #[trigger] listed(
                    after,
                    slot_of(model[j], after.len() as int),
                    j,
                ) by {
                    let t = slot_of(model[j], after.len() as int);
                    if j == i {
                        assert(listed_at(after, t, before[t]@.len() as int) == j);
                    } else {
                        assert(listed(before, t, j));
                        let k = choose|k: int|
                            0 <= k < before[t]@.len() && #[trigger] listed_at(before, t, k) == j;
                        assert(listed_at(after, t, k) == j);
                    }
                }
            }
            i += 1;
        }
        PairIndex { slots }
    }

    /// The first position at which `keys` holds the key `(lo, hi)`.
    pub fn first(&self, keys: &Vec<(String, String)>, lo: &str, hi: &str) -> (r: Option<usize>)
        requires
            self.indexes(keys_view(keys@)),
        ensures
            match r {
                Some(i) => first_at(keys_view(keys@), (lo@, hi@), i as int),
                None => forall|i: int|
                    0 <= i < keys@.len() ==> (#[trigger] keys_view(keys@)[i]) != (lo@, hi@),
            },
    {
        let ghost model = keys_view(keys@);
        let ghost key = (lo@, hi@);
        let s = slot(lo, hi, self.slots.len());
        let places = &self.slots[s];
        let mut k: usize = 0;
        while k < places.len()
            invariant
                k <= places@.len(),
                s < self.slots@.len(),
                places@ == self.slots@[s as int]@,
                model == keys_view(keys@),
                key == (lo@, hi@),
                s == slot_of(key, self.slots@.len() as int),
                holds_first(self.slots@, model, model.len() as int),
                forall|q: int|
                    0 <= q < k ==> model[#[trigger] listed_at(self.slots@, s as int, q)] != key,
            decreases places.len() - k,
        {
            let i = places[k];
            assert(i == listed_at(self.slots@, s as int, k as int));
            if same_text(keys[i].0.as_str(), lo) && same_text(keys[i].1.as_str(), hi) {
                proof {
                    assert(model[i as int] == key);
                    assert forall|j: int| 0 <= j < i implies model[j] != key by {
                        if model[j] == key {
                            assert(listed(self.slots@, s as int, j));
                            let q = choose|q: int|
                                0 <= q < places@.len() && #[trigger] listed_at(
                                    self.slots@,
                                    s as int,
                                    q,
                                ) == j;
                            if q >= k {
                                if q > k {
                                    assert(listed_at(self.slots@, s as int, k as int) < listed_at(
                                        self.slots@,
                                        s as int,
                                        q,
                                    ));
                                }
                            }
                        }
                    }
                }
                return Some(i);
            }
            k += 1;
        }
        proof {
            assert forall|i: int| 0 <= i < keys@.len() implies (#[trigger] model[i]) != key by {
                if model[i] == key {
                    assert(listed(self.slots@, s as int, i));
                }
            }
        }
        None
    }
}

} // verus!
