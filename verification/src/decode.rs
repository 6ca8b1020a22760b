//! One-byte-per-character decoding of captured tool output.
//!
//! Captured bytes are rendered as text by mapping each byte to the character
//! with the same code point (the Latin-1 view of the bytes). No multibyte
//! reinterpretation takes place, so decoding never fails, whatever the tool
//! printed.

use vstd::prelude::*;

verus! {

/// The decoding itself: byte `b` becomes the character with code point `b`.
pub open spec fn decoded(bytes: Seq<u8>) -> Seq<char> {
    Seq::new(bytes.len(), |i: int| bytes[i] as char)
}

/// Relies on String::push: appends the given character to the end of the string.
pub assume_specification[ String::push ](s: &mut String, ch: char)
    ensures
        final(s)@ == old(s)@.push(ch),
;

/// Decode captured bytes into text, one byte per character.
pub fn ascii_bytes_to_string(bytes: Vec<u8>) -> (r: String)
    ensures
        r@ == decoded(bytes@),
{
    let mut r = String::new();
    let mut i: usize = 0;
    while i < bytes.len()
        invariant
            i <= bytes@.len(),
            r@ == decoded(bytes@.subrange(0, i as int)),
        decreases bytes@.len() - i,
    {
        r.push(bytes[i] as char);
        i = i + 1;
        proof {
            assert(r@ =~= decoded(bytes@.subrange(0, i as int)));
        }
    }
    proof {
        assert(bytes@.subrange(0, bytes@.len() as int) =~= bytes@);
    }
    r
}

/// Law: decoding is one-to-one. Two captured byte streams that decode to the
/// same text are the same bytes, so the rendered text never conflates
/// distinct outputs.
pub proof fn lemma_decoded_one_to_one(a: Seq<u8>, b: Seq<u8>)
    requires
        decoded(a) == decoded(b),
    ensures
        a == b,
{
    assert(decoded(a).len() == a.len());
    assert(decoded(b).len() == b.len());
    assert(a.len() == b.len());
    assert forall|i: int| 0 <= i < a.len() implies a[i] == b[i] by {
        assert(decoded(a)[i] == a[i] as char);
        assert(decoded(b)[i] == b[i] as char);
        assert(a[i] as char == b[i] as char);
        assert((a[i] as char) as u8 == (b[i] as char) as u8);
    }
    assert(a =~= b);
}

} // verus!
