//! Text as sequences of characters, and as the bytes that go on the wire.

use vstd::prelude::*;
use vstd::utf8::encode_utf8;

verus! {

/// `String::push`, which std documents as appending the character to the end
/// of the string.
pub assume_specification[ String::push ](s: &mut String, c: char)
    ensures
        final(s)@ == old(s)@.push(c),
;

/// Whether `part` stands in `whole` with exactly `at` items in front of it.
pub open spec fn occurs_at<T>(part: Seq<T>, whole: Seq<T>, at: int) -> bool {
    &&& 0 <= at
    &&& at + part.len() <= whole.len()
    &&& whole.subrange(at, at + part.len()) == part
}

/// Whether `part` stands somewhere in `whole`, item for item.
pub open spec fn occurs_in<T>(part: Seq<T>, whole: Seq<T>) -> bool {
    exists|at: int| #[trigger] occurs_at(part, whole, at)
}

/// Whether `c` occurs in `s`.
pub fn has_char(s: &str, c: char) -> (found: bool)
    ensures
        found == s@.contains(c),
{
    let mut found = false;
    for d in it: s.chars()
        invariant
            it.seq() == s@,
            found == s@.take(it.index()).contains(c),
    {
        proof {
            let seen = s@.take(it.index());
            let next = s@.take(it.index() + 1);
            assert(next == seen.push(d));
            assert(next.contains(c) == (seen.contains(c) || d == c)) by {
                if seen.contains(c) {
                    let i: int = choose|i: int| 0 <= i < seen.len() && seen[i] == c;
                    assert(next[i] == c);
                }
                if d == c {
                    assert(next[it.index()] == c);
                }
            }
        }
        if d == c {
            found = true;
        }
    }
    proof {
        assert(s@.take(s@.len() as int) == s@);
    }
    found
}

/// The UTF-8 bytes of two texts, one after the other, are the bytes of the
/// first followed by the bytes of the second.
pub proof fn lemma_utf8_concat(a: Seq<char>, b: Seq<char>)
    ensures
        encode_utf8(a + b) == encode_utf8(a) + encode_utf8(b),
    decreases a.len(),
{
    if a.len() == 0 {
        assert(a + b == b);
    } else {
        assert((a + b).drop_first() == a.drop_first() + b);
        lemma_utf8_concat(a.drop_first(), b);
    }
}

/// A text that stands in another stands in it byte for byte as well, once
/// both are written in UTF-8.
pub proof fn lemma_utf8_occurs(part: Seq<char>, whole: Seq<char>, at: int)
    requires
        occurs_at(part, whole, at),
    ensures
        occurs_at(encode_utf8(part), encode_utf8(whole), encode_utf8(whole.take(at)).len() as int),
        occurs_in(encode_utf8(part), encode_utf8(whole)),
{
    let before = whole.take(at);
    let after = whole.skip(at + part.len());
    assert(whole == before + part + after);
    lemma_utf8_concat(before + part, after);
    lemma_utf8_concat(before, part);
    let bytes = encode_utf8(whole);
    let start: int = encode_utf8(before).len() as int;
    assert(bytes == encode_utf8(before) + encode_utf8(part) + encode_utf8(after));
    assert(bytes.subrange(start, start + encode_utf8(part).len()) == encode_utf8(part));
    assert(occurs_at(encode_utf8(part), bytes, start));
}

} // verus!
