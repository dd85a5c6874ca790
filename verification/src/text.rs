//! Small operations on text.

use vstd::prelude::*;
use vstd::string::*;
use vstd::utf8::*;

verus! {

/// Texts with the same UTF-8 encoding are the same text.
pub proof fn lemma_encoding_decides_text(a: Seq<char>, b: Seq<char>)
    requires
        encode_utf8(a) == encode_utf8(b),
    ensures
        a == b,
{
    encode_utf8_decode_utf8(a);
    encode_utf8_decode_utf8(b);
}

/// Whether two texts are the same.
pub fn same_text(a: &str, b: &str) -> (r: bool)
    ensures
        r == (a@ == b@),
{
    let x = a.as_bytes();
    let y = b.as_bytes();
    if x.len() != y.len() {
        return false;
    }
    let mut i: usize = 0;
    while i < x.len()
        invariant
            x@ == encode_utf8(a@),
            y@ == encode_utf8(b@),
            x@.len() == y@.len(),
            i <= x@.len(),
            forall|j: int| 0 <= j < i ==> x@[j] == y@[j],
        decreases x.len() - i,
    {
        if x[i] != y[i] {
            return false;
        }
        i += 1;
    }
    proof {
        assert(x@ =~= y@);
        lemma_encoding_decides_text(a@, b@);
    }
    true
}

} // verus!

verus! {

/// Calls `String::from_utf8`, which turns bytes into the text that they
/// encode and fails where they are not UTF-8. The contract says so with
/// the definitions of `vstd::utf8`: the call succeeds exactly on valid
/// UTF-8, and the text is then what the bytes decode to.
#[verifier::external_body]
pub(crate) fn string_from_utf8(bytes: Vec<u8>) -> (r: Option<String>)
    ensures
        r is Some <==> valid_utf8(bytes@),
        r matches Some(s) ==> s@ == decode_utf8(bytes@),
{
    String::from_utf8(bytes).ok()
}

} // verus!

verus! {

/// Whether a character is white space: one of the characters to which
/// Unicode gives the property `White_Space`.
pub open spec fn is_space(c: char) -> bool {
    let u = c as u32;
    ||| 0x09 <= u <= 0x0D
    ||| u == 0x20
    ||| u == 0x85
    ||| u == 0xA0
    ||| u == 0x1680
    ||| 0x2000 <= u <= 0x200A
    ||| u == 0x2028
    ||| u == 0x2029
    ||| u == 0x202F
    ||| u == 0x205F
    ||| u == 0x3000
}

/// The text without the white space that it begins with.
pub open spec fn trim_start(s: Seq<char>) -> Seq<char>
    decreases s.len(),
{
    if s.len() > 0 && is_space(s.first()) {
        trim_start(s.drop_first())
    } else {
        s
    }
}

/// The text without the white space that it ends with.
pub open spec fn trim_end(s: Seq<char>) -> Seq<char>
    decreases s.len(),
{
    if s.len() > 0 && is_space(s.last()) {
        trim_end(s.drop_last())
    } else {
        s
    }
}

/// The text without the white space at either end.
pub open spec fn trimmed(s: Seq<char>) -> Seq<char> {
    trim_end(trim_start(s))
}

/// Whether a character is white space.
pub fn is_white_space(c: char) -> (r: bool)
    ensures
        r == is_space(c),
{
    let u: u32 = c as u32;
    (0x09 <= u && u <= 0x0D) || u == 0x20 || u == 0x85 || u == 0xA0 || u == 0x1680 || (0x2000 <= u
        && u <= 0x200A) || u == 0x2028 || u == 0x2029 || u == 0x202F || u == 0x205F || u == 0x3000
}

/// The characters of a text, one by one.
pub fn chars_of(s: &str) -> (r: Vec<char>)
    ensures
        r@ == s@,
{
    let mut out: Vec<char> = Vec::new();
    for c in it: s.chars()
        invariant
            out@ == it.seq().take(it.index() as int),
            it.seq() == s@,
    {
        out.push(c);
    }
    out
}

/// Where the part of `chars` from `from` up to `to` begins and ends once
/// the white space at either end is left out.
pub fn trim_bounds(chars: &Vec<char>, from: usize, to: usize) -> (r: (usize, usize))
    requires
        from <= to <= chars@.len(),
    ensures
        from <= r.0 <= r.1 <= to,
        chars@.subrange(r.0 as int, r.1 as int) == trimmed(
            chars@.subrange(from as int, to as int),
        ),
{
    let ghost part = chars@.subrange(from as int, to as int);
    let mut i: usize = from;
    while i < to && is_white_space(chars[i])
        invariant
            from <= i <= to <= chars@.len(),
            trim_start(part) == trim_start(chars@.subrange(i as int, to as int)),
        decreases to - i,
    {
        assert(chars@.subrange(i as int, to as int).drop_first() =~= chars@.subrange(
            i + 1,
            to as int,
        ));
        i += 1;
    }
    assert(trim_start(part) == chars@.subrange(i as int, to as int));
    let ghost rest = chars@.subrange(i as int, to as int);
    let mut j: usize = to;
    while j > i && is_white_space(chars[j - 1])
        invariant
            i <= j <= to <= chars@.len(),
            rest == chars@.subrange(i as int, to as int),
            trim_end(rest) == trim_end(chars@.subrange(i as int, j as int)),
        decreases j - i,
    {
        assert(chars@.subrange(i as int, j as int).drop_last() =~= chars@.subrange(
            i as int,
            j - 1,
        ));
        j -= 1;
    }
    assert(trim_end(rest) == chars@.subrange(i as int, j as int));
    (i, j)
}

} // verus!
