//! Scaling every byte of a buffer by one factor, four bytes per machine word.
//!
//! The buffer is cut into a head that brings the address up to a four-byte
//! boundary, a middle of whole words and a tail of at most three bytes. Head
//! and tail are scaled byte by byte; each word of the middle is scaled in two
//! lanes of two bytes each with one multiplication per lane. Either way every
//! byte `b` becomes `b * (scale + 1) / 256`.

use vstd::prelude::*;

use crate::scale::scale8_spec;

verus! {

/// Byte `k` (0 for the lowest) of the word `w`.
pub open spec fn byte_of(w: u32, k: int) -> u32 {
    if k == 0 {
        w & 0xff
    } else if k == 1 {
        (w >> 8) & 0xff
    } else if k == 2 {
        (w >> 16) & 0xff
    } else {
        (w >> 24) & 0xff
    }
}

/// The word with bytes `b0` (lowest) to `b3`.
pub open spec fn word_of(b0: u8, b1: u8, b2: u8, b3: u8) -> u32 {
    (b0 as u32) | ((b1 as u32) << 8) | ((b2 as u32) << 16) | ((b3 as u32) << 24)
}

/// The two-lane scaling of a word: the even bytes and the odd bytes are
/// each multiplied as one value, and the carries into the neighboring
/// bytes are masked off.
pub open spec fn lanes_scaled(x: u32, scalar: u32) -> u32 {
    (((((x & 0x00FF00FF) * scalar) as u32) >> 8) & 0x00FF00FF) | ((((x & 0xFF00FF00) >> 8)
        * scalar) as u32 & 0xFF00FF00)
}

proof fn lemma_lanes_scaled(x: u32, scalar: u32)
    by (bit_vector)
    requires
        scalar <= 256,
    ensures
        (x & 0x00FF00FF) * scalar <= 0xFF00FF00,
        ((x & 0xFF00FF00) >> 8) * scalar <= 0xFF00FF00,
        lanes_scaled(x, scalar) & 0xff == ((x & 0xff) * scalar) / 256,
        (lanes_scaled(x, scalar) >> 8) & 0xff == (((x >> 8) & 0xff) * scalar) / 256,
        (lanes_scaled(x, scalar) >> 16) & 0xff == (((x >> 16) & 0xff) * scalar) / 256,
        (lanes_scaled(x, scalar) >> 24) & 0xff == (((x >> 24) & 0xff) * scalar) / 256,
{
}

proof fn lemma_word_bytes(b0: u8, b1: u8, b2: u8, b3: u8)
    by (bit_vector)
    ensures
        word_of(b0, b1, b2, b3) & 0xff == b0,
        (word_of(b0, b1, b2, b3) >> 8) & 0xff == b1,
        (word_of(b0, b1, b2, b3) >> 16) & 0xff == b2,
        (word_of(b0, b1, b2, b3) >> 24) & 0xff == b3,
{
}

proof fn lemma_shr8_is_div(x: u16)
    by (bit_vector)
    ensures
        x >> 8 == x / 256,
{
}

/// `i * scalar / 256` for a scalar of at most 256.
pub fn scale_post(i: u8, scalar: u16) -> (r: u8)
    requires
        scalar <= 256,
    ensures
        r == i * scalar / 256,
{
    assert(i * scalar <= 255 * 256) by (nonlinear_arith)
        requires
            scalar <= 256,
            i <= 255,
    ;
    let p: u16 = (i as u16) * scalar;
    proof {
        lemma_shr8_is_div(p);
    }
    (p >> 8) as u8
}

/// Scales the four bytes of `x` at once: each byte `b` becomes
/// `b * scalar / 256`.
pub fn batch_scale(x: u32, scalar: u32) -> (r: u32)
    requires
        scalar <= 256,
    ensures
        r == lanes_scaled(x, scalar),
        forall|k: int| 0 <= k < 4 ==> #[trigger] byte_of(r, k) == byte_of(x, k) * scalar / 256,
{
    proof {
        lemma_lanes_scaled(x, scalar);
    }
    let mut bytes_02: u32 = x & 0x00FF00FF;
    let mut bytes_13: u32 = x & 0xFF00FF00;
    bytes_13 = bytes_13 >> 8;
    bytes_02 = bytes_02 * scalar;
    bytes_13 = bytes_13 * scalar;
    bytes_02 = bytes_02 >> 8;
    bytes_02 = bytes_02 & 0x00FF00FF;
    bytes_13 = bytes_13 & 0xFF00FF00;
    bytes_02 | bytes_13
}

/// Splits a buffer of `len` bytes that starts at address `ptr` into a head
/// up to the next four-byte boundary, a middle of whole words and a tail.
///
/// Buffers of at most 8 bytes are all head: for them the split costs more
/// than the words save.
pub fn aligned_split_u32(ptr: usize, len: usize) -> (r: (usize, usize, usize))
    ensures
        r.0 + r.1 + r.2 == len,
        r.1 % 4 == 0,
        len <= 8 ==> r == (len, 0usize, 0usize),
        len > 8 ==> r.0 == (4 - ptr % 4) % 4 && r.2 <= 3,
{
    if len <= 8 {
        return (len, 0, 0);
    }
    let head: usize = (4 - ptr % 4) % 4;
    let rest: usize = len - head;
    let tail: usize = rest % 4;
    (head, rest - tail, tail)
}

/// The address of the first byte of `x`.
///
/// Relies on `<[u8]>::as_ptr`; nothing is assumed of the address, which only
/// decides where the word-sized middle of the buffer begins.
#[verifier::external_body]
fn buffer_address(x: &[u8]) -> usize {
    x.as_ptr() as usize
}

/// Scales every byte `b` of `x` to `b * (scale + 1) / 256`, the same as
/// `scale8(b, scale)`, whatever the length and the address of `x`.
pub fn batch_scale_bytes(x: &mut [u8], scale: u8)
    ensures
        final(x)@.len() == old(x)@.len(),
        forall|i: int|
            0 <= i < old(x)@.len() ==> #[trigger] final(x)@[i] == scale8_spec(old(x)@[i], scale),
{
    let scalar: u16 = (scale as u16) + 1;
    let len: usize = x.len();
    let (head, mid, _tail) = aligned_split_u32(buffer_address(x), len);
    let ghost x0 = x@;
    let mut i: usize = 0;
    while i < head
        invariant
            0 <= i <= head <= len,
            x@.len() == len == x0.len(),
            scalar == scale + 1,
            forall|j: int| 0 <= j < i ==> #[trigger] x@[j] == scale8_spec(x0[j], scale),
            forall|j: int| i <= j < len ==> #[trigger] x@[j] == x0[j],
        decreases head - i,
    {
        x[i] = scale_post(x[i], scalar);
        i += 1;
    }
    let end_of_words: usize = head + mid;
    while i < end_of_words
        invariant
            head <= i <= end_of_words <= len,
            (i - head) % 4 == 0,
            (end_of_words - head) % 4 == 0,
            x@.len() == len == x0.len(),
            scalar == scale + 1,
            forall|j: int| 0 <= j < i ==> #[trigger] x@[j] == scale8_spec(x0[j], scale),
            forall|j: int| i <= j < len ==> #[trigger] x@[j] == x0[j],
        decreases end_of_words - i,
    {
        let b0: u8 = x[i];
        let b1: u8 = x[i + 1];
        let b2: u8 = x[i + 2];
        let b3: u8 = x[i + 3];
        let word: u32 = (b0 as u32) | ((b1 as u32) << 8) | ((b2 as u32) << 16) | ((b3 as u32) << 24);
        let scaled_word: u32 = batch_scale(word, scalar as u32);
        proof {
            lemma_word_bytes(b0, b1, b2, b3);
            assert(byte_of(scaled_word, 0) == byte_of(word, 0) * scalar / 256);
            assert(byte_of(scaled_word, 1) == byte_of(word, 1) * scalar / 256);
            assert(byte_of(scaled_word, 2) == byte_of(word, 2) * scalar / 256);
            assert(byte_of(scaled_word, 3) == byte_of(word, 3) * scalar / 256);
        }
        x[i] = (scaled_word & 0xff) as u8;
        x[i + 1] = ((scaled_word >> 8) & 0xff) as u8;
        x[i + 2] = ((scaled_word >> 16) & 0xff) as u8;
        x[i + 3] = ((scaled_word >> 24) & 0xff) as u8;
        i += 4;
    }
    while i < len
        invariant
            0 <= i <= len,
            x@.len() == len == x0.len(),
            scalar == scale + 1,
            forall|j: int| 0 <= j < i ==> #[trigger] x@[j] == scale8_spec(x0[j], scale),
            forall|j: int| i <= j < len ==> #[trigger] x@[j] == x0[j],
        decreases len - i,
    {
        x[i] = scale_post(x[i], scalar);
        i += 1;
    }
}

} // verus!
