//! Big-endian byte writers used by the scrcpy wire codec.
//!
//! Every writer appends to the output buffer; the spec functions below give
//! the exact bytes appended, so callers can state byte-exact contracts.

use vstd::prelude::*;
use vstd::utf8::is_char_boundary;
use vstd::string::StringSliceAdditionalSpecFns;

verus! {

/// The two big-endian bytes of a 16-bit value.
pub open spec fn spec_u16_be(val: u16) -> Seq<u8> {
    seq![(val / 0x100) as u8, (val % 0x100) as u8]
}

/// The four big-endian bytes of a 32-bit value.
pub open spec fn spec_u32_be(val: u32) -> Seq<u8> {
    seq![
        (val / 0x1000000) as u8,
        ((val / 0x10000) % 0x100) as u8,
        ((val / 0x100) % 0x100) as u8,
        (val % 0x100) as u8,
    ]
}

/// The eight big-endian bytes of a 64-bit value.
pub open spec fn spec_u64_be(val: u64) -> Seq<u8> {
    seq![
        (val / 0x100000000000000) as u8,
        ((val / 0x1000000000000) % 0x100) as u8,
        ((val / 0x10000000000) % 0x100) as u8,
        ((val / 0x100000000) % 0x100) as u8,
        ((val / 0x1000000) % 0x100) as u8,
        ((val / 0x10000) % 0x100) as u8,
        ((val / 0x100) % 0x100) as u8,
        (val % 0x100) as u8,
    ]
}

/// The twelve bytes of an (x, y, w, h) position block: two 32-bit coordinates
/// (two's complement for negative values) followed by two 16-bit extents.
pub open spec fn spec_position(x: i32, y: i32, w: u16, h: u16) -> Seq<u8> {
    spec_u32_be(x as u32) + spec_u32_be(y as u32) + spec_u16_be(w) + spec_u16_be(h)
}

/// Appends a 16-bit value in big-endian order.
pub fn write_16be(buf: &mut Vec<u8>, val: u16)
    ensures
        final(buf)@ == old(buf)@ + spec_u16_be(val),
{
    buf.push((val >> 8) as u8);
    buf.push(val as u8);
    proof {
        assert((val >> 8) as u8 == (val / 0x100) as u8 && val as u8 == (val % 0x100) as u8)
            by (bit_vector);
        assert(buf@ =~= old(buf)@ + spec_u16_be(val));
    }
}

/// Appends a 32-bit value in big-endian order.
pub fn write_32be(buf: &mut Vec<u8>, val: u32)
    ensures
        final(buf)@ == old(buf)@ + spec_u32_be(val),
{
    buf.push((val >> 24) as u8);
    buf.push((val >> 16) as u8);
    buf.push((val >> 8) as u8);
    buf.push(val as u8);
    proof {
        assert((val >> 24) as u8 == (val / 0x1000000) as u8 && (val >> 16) as u8 == ((val
            / 0x10000) % 0x100) as u8 && (val >> 8) as u8 == ((val / 0x100) % 0x100) as u8 && val
            as u8 == (val % 0x100) as u8) by (bit_vector);
        assert(buf@ =~= old(buf)@ + spec_u32_be(val));
    }
}

/// Appends a 64-bit value in big-endian order.
pub fn write_64be(buf: &mut Vec<u8>, val: u64)
    ensures
        final(buf)@ == old(buf)@ + spec_u64_be(val),
{
    buf.push((val >> 56) as u8);
    buf.push((val >> 48) as u8);
    buf.push((val >> 40) as u8);
    buf.push((val >> 32) as u8);
    buf.push((val >> 24) as u8);
    buf.push((val >> 16) as u8);
    buf.push((val >> 8) as u8);
    buf.push(val as u8);
    proof {
        assert((val >> 56) as u8 == (val / 0x100000000000000) as u8 && (val >> 48) as u8 == ((val
            / 0x1000000000000) % 0x100) as u8 && (val >> 40) as u8 == ((val / 0x10000000000)
            % 0x100) as u8 && (val >> 32) as u8 == ((val / 0x100000000) % 0x100) as u8 && (val
            >> 24) as u8 == ((val / 0x1000000) % 0x100) as u8 && (val >> 16) as u8 == ((val
            / 0x10000) % 0x100) as u8 && (val >> 8) as u8 == ((val / 0x100) % 0x100) as u8 && val
            as u8 == (val % 0x100) as u8) by (bit_vector);
        assert(buf@ =~= old(buf)@ + spec_u64_be(val));
    }
}

/// Appends an (x, y, w, h) position block.
pub fn write_posion(buf: &mut Vec<u8>, x: i32, y: i32, w: u16, h: u16)
    ensures
        final(buf)@ == old(buf)@ + spec_position(x, y, w, h),
{
    write_32be(buf, x as u32);
    write_32be(buf, y as u32);
    write_16be(buf, w);
    write_16be(buf, h);
    proof {
        assert(buf@ =~= old(buf)@ + spec_position(x, y, w, h));
    }
}

/// The byte length of the longest prefix of `bytes` that is at most `max_len`
/// long and ends on a UTF-8 character boundary.
pub open spec fn spec_truncation_index(bytes: Seq<u8>, max_len: int) -> int
    decreases max_len,
{
    if bytes.len() <= max_len {
        bytes.len() as int
    } else if max_len <= 0 {
        0
    } else if is_char_boundary(bytes, max_len) {
        max_len
    } else {
        spec_truncation_index(bytes, max_len - 1)
    }
}

/// The byte length of the longest prefix of `utf8` that fits in `max_len`
/// bytes without splitting a character.
pub fn str_utf8_truncation_index(utf8: &str, max_len: usize) -> (r: usize)
    ensures
        r == spec_truncation_index(utf8.spec_bytes(), max_len as int),
        r <= utf8.spec_bytes().len(),
        r <= max_len,
{
    proof {
        vstd::utf8::encode_utf8_valid_utf8(utf8@);
    }
    let len = utf8.as_bytes().len();
    if len <= max_len {
        return len;
    }
    let mut len = max_len;
    while !utf8.is_char_boundary(len)
        invariant
            0 <= len <= max_len,
            max_len < utf8.spec_bytes().len(),
            vstd::utf8::valid_utf8(utf8.spec_bytes()),
            spec_truncation_index(utf8.spec_bytes(), max_len as int) == spec_truncation_index(
                utf8.spec_bytes(),
                len as int,
            ),
        decreases len,
    {
        proof {
            assert(is_char_boundary(utf8.spec_bytes(), 0));
        }
        len = len - 1;
    }
    len
}

/// The wire form of a text field: a 32-bit big-endian byte count, then that
/// many bytes of the text, cut back to a character boundary when the text is
/// longer than `max_len` bytes.
pub open spec fn spec_string_field(bytes: Seq<u8>, max_len: int) -> Seq<u8> {
    let n = spec_truncation_index(bytes, max_len);
    spec_u32_be(n as u32) + bytes.subrange(0, n)
}

/// Appends a length-prefixed text field, truncated to at most `max_len` bytes
/// on a UTF-8 character boundary.
pub fn write_string(utf8: &str, max_len: usize, buf: &mut Vec<u8>)
    requires
        max_len < 0x100000000,
    ensures
        final(buf)@ == old(buf)@ + spec_string_field(utf8.spec_bytes(), max_len as int),
{
    let len = str_utf8_truncation_index(utf8, max_len);
    write_32be(buf, len as u32);
    let bytes = utf8.as_bytes();
    let truncated = vstd::slice::slice_subrange(bytes, 0, len);
    buf.extend_from_slice(truncated);
    proof {
        assert(buf@ =~= old(buf)@ + spec_string_field(utf8.spec_bytes(), max_len as int));
    }
}


/// The truncation index is sound: it never exceeds the limit or the text, it
/// is the whole text when that fits, and it always falls on a character
/// boundary of valid UTF-8 text.
pub proof fn lemma_truncation_index_boundary(bytes: Seq<u8>, max_len: int)
    requires
        vstd::utf8::valid_utf8(bytes),
        0 <= max_len,
    ensures
        0 <= spec_truncation_index(bytes, max_len) <= max_len || (bytes.len() <= max_len
            && spec_truncation_index(bytes, max_len) == bytes.len()),
        spec_truncation_index(bytes, max_len) <= bytes.len(),
        spec_truncation_index(bytes, max_len) <= max_len || bytes.len() <= max_len,
        bytes.len() <= max_len ==> spec_truncation_index(bytes, max_len) == bytes.len(),
        is_char_boundary(bytes, spec_truncation_index(bytes, max_len)),
    decreases max_len,
{
    broadcast use vstd::utf8::is_char_boundary_start_end_of_seq;

    if bytes.len() <= max_len {
    } else if max_len <= 0 {
    } else if is_char_boundary(bytes, max_len) {
    } else {
        lemma_truncation_index_boundary(bytes, max_len - 1);
    }
}


/// The byte writers grouped as an associated namespace, as the codec uses
/// them.
pub struct Binary;

impl Binary {
    /// Appends a 16-bit value in big-endian order.
    pub fn write_16be(buf: &mut Vec<u8>, val: u16)
        ensures
            final(buf)@ == old(buf)@ + spec_u16_be(val),
    {
        write_16be(buf, val)
    }

    /// Appends a 32-bit value in big-endian order.
    pub fn write_32be(buf: &mut Vec<u8>, val: u32)
        ensures
            final(buf)@ == old(buf)@ + spec_u32_be(val),
    {
        write_32be(buf, val)
    }

    /// Appends a 64-bit value in big-endian order.
    pub fn write_64be(buf: &mut Vec<u8>, val: u64)
        ensures
            final(buf)@ == old(buf)@ + spec_u64_be(val),
    {
        write_64be(buf, val)
    }

    /// Appends an (x, y, w, h) position block.
    pub fn write_posion(buf: &mut Vec<u8>, x: i32, y: i32, w: u16, h: u16)
        ensures
            final(buf)@ == old(buf)@ + spec_position(x, y, w, h),
    {
        write_posion(buf, x, y, w, h)
    }

    /// Appends a length-prefixed text field, truncated to at most `max_len`
    /// bytes on a UTF-8 character boundary.
    pub fn write_string(utf8: &str, max_len: usize, buf: &mut Vec<u8>)
        requires
            max_len < 0x100000000,
        ensures
            final(buf)@ == old(buf)@ + spec_string_field(utf8.spec_bytes(), max_len as int),
    {
        write_string(utf8, max_len, buf)
    }

    /// The byte length of the longest prefix of `utf8` that fits in
    /// `max_len` bytes without splitting a character.
    pub fn str_utf8_truncation_index(utf8: &str, max_len: usize) -> (r: usize)
        ensures
            r == spec_truncation_index(utf8.spec_bytes(), max_len as int),
            r <= utf8.spec_bytes().len(),
            r <= max_len,
    {
        str_utf8_truncation_index(utf8, max_len)
    }
}

} // verus!
