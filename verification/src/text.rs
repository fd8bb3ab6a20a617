//! Slices of a text by byte positions.
//!
//! A `&str` is UTF-8: a position may be used to cut it only where it lies
//! between two characters. The lemmas here find such positions from what a
//! scanner knows of the bytes around them.

use vstd::prelude::*;
use vstd::string::*;
use vstd::utf8::*;

verus! {

/// In a UTF-8 text, a part that starts between two characters and is UTF-8
/// by itself also ends between two characters.
pub proof fn lemma_boundary_after_block(bytes: Seq<u8>, from: int, to: int)
    requires
        valid_utf8(bytes),
        0 <= from <= to <= bytes.len(),
        is_char_boundary(bytes, from),
        valid_utf8(bytes.subrange(from, to)),
    ensures
        is_char_boundary(bytes, to),
{
    if to < bytes.len() {
        let tail = bytes.subrange(from, bytes.len() as int);
        valid_utf8_split(bytes, from);
        assert(tail.subrange(0, to - from) =~= bytes.subrange(from, to));
        assert(tail.subrange(to - from, tail.len() as int) =~= bytes.subrange(
            to,
            bytes.len() as int,
        ));
        if !valid_utf8(bytes.subrange(to, bytes.len() as int)) {
            partial_valid_partial_invalid_utf8(tail, to - from);
        }
        let rest = bytes.subrange(to, bytes.len() as int);
        assert(valid_first_scalar(rest));
        assert(rest[0] == bytes[to]);
        is_char_boundary_iff_not_is_continuation_byte(bytes, to);
    } else {
        is_char_boundary_start_end_of_seq(bytes);
    }
}

/// In a UTF-8 text, an ASCII byte is a character of its own: the positions
/// before and after it lie between two characters.
pub proof fn lemma_boundary_around_ascii(bytes: Seq<u8>, at: int)
    requires
        valid_utf8(bytes),
        0 <= at < bytes.len(),
        bytes[at] < 0x80,
    ensures
        is_char_boundary(bytes, at),
        is_char_boundary(bytes, at + 1),
{
    is_char_boundary_iff_not_is_continuation_byte(bytes, at);
    let one = bytes.subrange(at, at + 1);
    assert(one[0] == bytes[at]);
    assert(pop_first_scalar(one) =~= Seq::<u8>::empty());
    assert(valid_utf8(pop_first_scalar(one)));
    assert(valid_utf8(one));
    lemma_boundary_after_block(bytes, at, at + 1);
}

/// The part of `source` from byte `from` up to byte `to`.
pub fn slice<'a>(source: &'a str, from: usize, to: usize) -> (part: &'a str)
    requires
        from <= to <= source.spec_bytes().len(),
        is_char_boundary(source.spec_bytes(), from as int),
        is_char_boundary(source.spec_bytes(), to as int),
    ensures
        part.spec_bytes() == source.spec_bytes().subrange(from as int, to as int),
        part@ == decode_utf8(source.spec_bytes().subrange(from as int, to as int)),
{
    let (head, _) = source.split_at(to);
    proof {
        let bytes = source.spec_bytes();
        encode_utf8_valid_utf8(source@);
        encode_utf8_valid_utf8(head@);
        if from < to {
            is_char_boundary_iff_not_is_continuation_byte(bytes, from as int);
            assert(head.spec_bytes()[from as int] == bytes[from as int]);
            is_char_boundary_iff_not_is_continuation_byte(head.spec_bytes(), from as int);
        } else {
            is_char_boundary_start_end_of_seq(head.spec_bytes());
        }
    }
    let (_, part) = head.split_at(from);
    proof {
        assert(part.spec_bytes() =~= source.spec_bytes().subrange(from as int, to as int));
        encode_utf8_decode_utf8(part@);
    }
    part
}

} // verus!
