//! String marshalling helpers: reading the content of a terminated
//! buffer, UTF-8 validation, and the terminator-freedom check that
//! output strings must pass.

use vstd::prelude::*;
use vstd::slice::{slice_subrange, slice_to_vec};
use vstd::utf8::{
    char_is_scalar, decode_utf8, encode_scalar, encode_utf8, has_width_1_encoding, is_scalar,
    valid_utf8,
};

use crate::foreign::{cstr_content, first_nul, lemma_first_nul_spec, lemma_first_nul_unique};

verus! {

/// Relies on `String::from_utf8`: it succeeds exactly on valid UTF-8
/// input, and then returns the string holding those very bytes - the
/// string whose characters the bytes encode.
#[verifier::external_body]
pub(crate) fn bytes_into_string(bytes: Vec<u8>) -> (r: Option<String>)
    ensures
        match r {
            Some(s) => valid_utf8(bytes@) && s@ == decode_utf8(bytes@),
            None => !valid_utf8(bytes@),
        },
{
    match String::from_utf8(bytes) {
        Ok(s) => Some(s),
        Err(_) => None,
    }
}

/// Copy the content of a terminated buffer: the bytes before its first
/// terminator.
pub fn read_cstr_content(buf: &Vec<u8>) -> (content: Vec<u8>)
    requires
        exists|i: int| 0 <= i < buf@.len() && buf@[i] == 0,
    ensures
        content@ == cstr_content(buf@),
        forall|j: int| 0 <= j < content@.len() ==> content@[j] != 0,
{
    let mut i: usize = 0;
    while i < buf.len() && buf[i] != 0
        invariant
            i <= buf@.len(),
            forall|j: int| 0 <= j < i ==> buf@[j] != 0,
        decreases buf@.len() - i,
    {
        i += 1;
    }
    proof {
        lemma_first_nul_spec(buf@);
        if i < buf@.len() {
            lemma_first_nul_unique(buf@, i as int);
        } else {
            assert(first_nul(buf@) < buf@.len());
            assert(buf@[first_nul(buf@)] != 0);
        }
    }
    slice_to_vec(slice_subrange(buf.as_slice(), 0, i))
}

/// Look for a terminator byte inside would-be output text.  An interior
/// terminator cannot survive the foreign representation, so finding one
/// is a broken programming contract, never a recoverable error.
pub fn contains_nul(bytes: &Vec<u8>) -> (r: bool)
    ensures
        r == bytes@.contains(0u8),
{
    let mut i: usize = 0;
    while i < bytes.len()
        invariant
            i <= bytes@.len(),
            forall|j: int| 0 <= j < i ==> bytes@[j] != 0,
        decreases bytes@.len() - i,
    {
        if bytes[i] == 0 {
            assert(bytes@[i as int] == 0u8);
            return true;
        }
        i += 1;
    }
    assert(forall|j: int| 0 <= j < bytes@.len() ==> bytes@[j] != 0u8);
    false
}

/// No byte of the encoding of a non-zero scalar is a terminator: the
/// one-byte form is the scalar itself, and every byte of a longer form
/// carries set high bits.
proof fn lemma_encode_scalar_nul_free(c: u32)
    requires
        is_scalar(c),
        c != 0,
    ensures
        forall|j: int| 0 <= j < encode_scalar(c).len() ==> encode_scalar(c)[j] != 0u8,
{
    if has_width_1_encoding(c) {
        assert(((c & 0x7F) as u8) != 0u8) by (bit_vector)
            requires
                1 <= c <= 0x7F,
        ;
    }
    assert((0xC0u8 | ((c >> 6) & 0x1F) as u8) != 0u8) by (bit_vector);
    assert((0xE0u8 | ((c >> 12) & 0x0F) as u8) != 0u8) by (bit_vector);
    assert((0xF0u8 | ((c >> 18) & 0x7) as u8) != 0u8) by (bit_vector);
    assert((0x80u8 | (c & 0x3F) as u8) != 0u8) by (bit_vector);
    assert((0x80u8 | ((c >> 6) & 0x3F) as u8) != 0u8) by (bit_vector);
    assert((0x80u8 | ((c >> 12) & 0x3F) as u8) != 0u8) by (bit_vector);
}

/// Text without the zero character encodes to bytes without a
/// terminator, so it meets the programming contract for output strings.
pub proof fn lemma_nul_free_text_encodes_nul_free(chars: Seq<char>)
    requires
        forall|i: int| 0 <= i < chars.len() ==> chars[i] as u32 != 0,
    ensures
        !encode_utf8(chars).contains(0u8),
    decreases chars.len(),
{
    if chars.len() == 0 {
        assert(encode_utf8(chars).len() == 0);
    } else {
        let c = chars[0] as u32;
        let head = encode_scalar(c);
        let rest = encode_utf8(chars.drop_first());
        char_is_scalar(chars[0]);
        lemma_encode_scalar_nul_free(c);
        lemma_nul_free_text_encodes_nul_free(chars.drop_first());
        if encode_utf8(chars).contains(0u8) {
            let j = choose|j: int|
                0 <= j < encode_utf8(chars).len() && encode_utf8(chars)[j] == 0u8;
            if j < head.len() {
                assert(head[j] != 0u8);
            } else {
                assert(rest[j - head.len()] == 0u8);
                assert(rest.contains(0u8));
            }
        }
    }
}

} // verus!
