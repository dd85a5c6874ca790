//! The canonical form of an unordered pair of tokens.
//!
//! Tokens are ordered as their UTF-8 encodings are, byte by byte, which is
//! the order of `str` itself. A pair is put in canonical form by placing
//! the smaller token first.

use vstd::prelude::*;
use vstd::string::*;
use vstd::utf8::*;

verus! {

/// The first `k` bytes of `a` and of `b` are the same.
pub open spec fn agree_before(a: Seq<u8>, b: Seq<u8>, k: int) -> bool {
    &&& 0 <= k <= a.len()
    &&& k <= b.len()
    &&& forall|i: int| 0 <= i < k ==> a[i] == b[i]
}

/// `a` comes before `b` in the lexicographic order of byte strings, or is
/// equal to it: after a common prefix either `a` ends, or `a` holds the
/// smaller byte.
pub open spec fn bytes_le(a: Seq<u8>, b: Seq<u8>) -> bool {
    exists|k: int| #[trigger]
        agree_before(a, b, k) && (k == a.len() || (k < b.len() && a[k] < b[k]))
}

/// The order of tokens: that of their UTF-8 encodings.
pub open spec fn token_le(a: Seq<char>, b: Seq<char>) -> bool {
    bytes_le(encode_utf8(a), encode_utf8(b))
}

/// The canonical form of the pair `{a, b}`: the smaller token first.
pub open spec fn normalize_spec(a: Seq<char>, b: Seq<char>) -> (Seq<char>, Seq<char>) {
    if token_le(a, b) {
        (a, b)
    } else {
        (b, a)
    }
}

/// `(x, y)` and `(a, b)` hold the same two tokens, in either order.
pub open spec fn same_pair(x: Seq<char>, y: Seq<char>, a: Seq<char>, b: Seq<char>) -> bool {
    (x == a && y == b) || (x == b && y == a)
}

proof fn lemma_bytes_total_from(a: Seq<u8>, b: Seq<u8>, k: int)
    requires
        agree_before(a, b, k),
    ensures
        bytes_le(a, b) || bytes_le(b, a),
    decreases a.len() - k,
{
    if k == a.len() {
        assert(agree_before(a, b, k));
    } else if k == b.len() {
        assert(agree_before(b, a, k));
    } else if a[k] < b[k] {
        assert(agree_before(a, b, k));
    } else if b[k] < a[k] {
        assert(agree_before(b, a, k));
    } else {
        lemma_bytes_total_from(a, b, k + 1);
    }
}

/// Of two byte strings one is at most the other.
pub proof fn lemma_bytes_le_total(a: Seq<u8>, b: Seq<u8>)
    ensures
        bytes_le(a, b) || bytes_le(b, a),
{
    lemma_bytes_total_from(a, b, 0);
}

/// Two byte strings that are each at most the other are equal.
pub proof fn lemma_bytes_le_antisymmetric(a: Seq<u8>, b: Seq<u8>)
    requires
        bytes_le(a, b),
        bytes_le(b, a),
    ensures
        a == b,
{
    let k1 = choose|k: int| #[trigger]
        agree_before(a, b, k) && (k == a.len() || (k < b.len() && a[k] < b[k]));
    let k2 = choose|k: int| #[trigger]
        agree_before(b, a, k) && (k == b.len() || (k < a.len() && b[k] < a[k]));
    if k1 < k2 {
        assert(a[k1] == b[k1]);
    } else if k2 < k1 {
        assert(a[k2] == b[k2]);
    }
    assert(a =~= b);
}

/// Of two tokens one is at most the other.
pub proof fn lemma_token_le_total(a: Seq<char>, b: Seq<char>)
    ensures
        token_le(a, b) || token_le(b, a),
{
    lemma_bytes_le_total(encode_utf8(a), encode_utf8(b));
}

/// Two tokens that are each at most the other are equal.
pub proof fn lemma_token_le_antisymmetric(a: Seq<char>, b: Seq<char>)
    requires
        token_le(a, b),
        token_le(b, a),
    ensures
        a == b,
{
    lemma_bytes_le_antisymmetric(encode_utf8(a), encode_utf8(b));
    encode_utf8_decode_utf8(a);
    encode_utf8_decode_utf8(b);
}

/// The canonical form does not depend on the order in which the two tokens
/// are given.
pub proof fn law_normalize_symmetric(a: Seq<char>, b: Seq<char>)
    ensures
        normalize_spec(a, b) == normalize_spec(b, a),
{
    lemma_token_le_total(a, b);
    if token_le(a, b) && token_le(b, a) {
        lemma_token_le_antisymmetric(a, b);
    }
}

/// The canonical form holds the two tokens that were given, the smaller
/// first.
pub proof fn law_normalize_orders(a: Seq<char>, b: Seq<char>)
    ensures
        same_pair(normalize_spec(a, b).0, normalize_spec(a, b).1, a, b),
        token_le(normalize_spec(a, b).0, normalize_spec(a, b).1),
{
    lemma_token_le_total(a, b);
}

/// Two pairs have the same canonical form exactly when they hold the same
/// two tokens.
pub proof fn law_normalize_decides_same_pair(
    x: Seq<char>,
    y: Seq<char>,
    a: Seq<char>,
    b: Seq<char>,
)
    ensures
        normalize_spec(x, y) == normalize_spec(a, b) <==> same_pair(x, y, a, b),
{
    law_normalize_symmetric(a, b);
    law_normalize_symmetric(x, y);
}

/// Whether token `a` is at most token `b`.
pub fn token_at_most(a: &str, b: &str) -> (r: bool)
    ensures
        r == token_le(a@, b@),
{
    let x = a.as_bytes();
    let y = b.as_bytes();
    let mut i: usize = 0;
    while i < x.len() && i < y.len()
        invariant
            x@ == encode_utf8(a@),
            y@ == encode_utf8(b@),
            agree_before(x@, y@, i as int),
        decreases x.len() - i,
    {
        if x[i] != y[i] {
            let below = x[i] < y[i];
            proof {
                if below {
                    assert(agree_before(x@, y@, i as int));
                } else {
                    assert forall|k: int| #[trigger] agree_before(x@, y@, k) implies !(k == x@.len()
                        || (k < y@.len() && x@[k] < y@[k])) by {
                        if i < k {
                            assert(x@[i as int] == y@[i as int]);
                        }
                    }
                }
            }
            return below;
        }
        i += 1;
    }
    let fits = x.len() <= y.len();
    proof {
        if fits {
            assert(agree_before(x@, y@, i as int));
        } else {
            assert forall|k: int| #[trigger] agree_before(x@, y@, k) implies !(k == x@.len() || (k
                < y@.len() && x@[k] < y@[k])) by {}
        }
    }
    fits
}

/// Puts the pair `{a, b}` in canonical form: the smaller token first.
pub fn normalize(a: &str, b: &str) -> (r: (String, String))
    ensures
        (r.0@, r.1@) == normalize_spec(a@, b@),
{
    if token_at_most(a, b) {
        (a.to_owned(), b.to_owned())
    } else {
        (b.to_owned(), a.to_owned())
    }
}

} // verus!
