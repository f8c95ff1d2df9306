//! Little-endian integers in byte buffers.
//!
//! The numbers are read and written by the `byteorder` crate. What it does is
//! stated here over [`le_uint`] and [`le_bytes`], together with the facts about
//! these two that the codec is proved from.

use vstd::prelude::*;

verus! {

/// The number that `bytes` spells, least significant byte first.
pub open spec fn le_uint(bytes: Seq<u8>) -> nat
    decreases bytes.len(),
{
    if bytes.len() == 0 {
        0
    } else {
        (bytes[0] as nat) + 256 * le_uint(bytes.drop_first())
    }
}

/// The `width` low bytes of `value`, least significant byte first.
pub open spec fn le_bytes(value: nat, width: nat) -> Seq<u8>
    decreases width,
{
    if width == 0 {
        Seq::<u8>::empty()
    } else {
        seq![(value % 256) as u8] + le_bytes(value / 256, (width - 1) as nat)
    }
}

/// 256 to the power `width`: one more than the largest number of `width` bytes.
pub open spec fn radix(width: nat) -> nat
    decreases width,
{
    if width == 0 {
        1
    } else {
        256 * radix((width - 1) as nat)
    }
}

/// `count` zero bytes.
pub open spec fn zeros(count: nat) -> Seq<u8> {
    Seq::new(count, |i: int| 0u8)
}

/// `bytes`, followed by as many zero bytes as it lacks to be `width` long.
pub open spec fn padded(bytes: Seq<u8>, width: nat) -> Seq<u8> {
    if bytes.len() >= width {
        bytes
    } else {
        bytes + zeros((width - bytes.len()) as nat)
    }
}

/// The first `width` bytes of `bytes` after padding: what a read of that width sees.
pub open spec fn field(bytes: Seq<u8>, width: nat) -> Seq<u8> {
    padded(bytes, width).subrange(0, width as int)
}

/// The signed number that the unsigned `value` stands for in two's complement
/// of `width` bytes.
pub open spec fn signed(value: nat, width: nat) -> int {
    if 2 * value < radix(width) {
        value as int
    } else {
        value - radix(width)
    }
}

/// The unsigned number that stands for `value` in two's complement of `width` bytes.
pub open spec fn unsigned(value: int, width: nat) -> nat {
    if value >= 0 {
        value as nat
    } else {
        (value + radix(width)) as nat
    }
}

/// The values of `radix` at the widths that the codec reads.
pub proof fn lemma_radix_values()
    ensures
        radix(0) == 1,
        radix(1) == 0x100,
        radix(2) == 0x1_0000,
        radix(4) == 0x1_0000_0000,
        radix(8) == 0x1_0000_0000_0000_0000,
{
    reveal_with_fuel(radix, 9);
}

/// A number of `n` bytes is below `radix(n)`.
pub proof fn lemma_le_uint_bound(bytes: Seq<u8>)
    ensures
        le_uint(bytes) < radix(bytes.len()),
    decreases bytes.len(),
{
    if bytes.len() > 0 {
        lemma_le_uint_bound(bytes.drop_first());
        let rest = le_uint(bytes.drop_first());
        let r = radix((bytes.len() - 1) as nat);
        assert(bytes[0] as nat + 256 * rest < 256 * r) by (nonlinear_arith)
            requires
                rest < r,
                bytes[0] < 256,
        ;
    }
}

/// Zero bytes spell zero.
pub proof fn lemma_le_uint_zeros(count: nat)
    ensures
        le_uint(zeros(count)) == 0,
    decreases count,
{
    if count > 0 {
        assert(zeros(count).drop_first() =~= zeros((count - 1) as nat));
        lemma_le_uint_zeros((count - 1) as nat);
    }
}

/// Zero bytes behind a number do not change it.
pub proof fn lemma_le_uint_append_zeros(bytes: Seq<u8>, count: nat)
    ensures
        le_uint(bytes + zeros(count)) == le_uint(bytes),
    decreases bytes.len(),
{
    if bytes.len() == 0 {
        assert(bytes + zeros(count) =~= zeros(count));
        lemma_le_uint_zeros(count);
    } else {
        assert((bytes + zeros(count)).drop_first() =~= bytes.drop_first() + zeros(count));
        lemma_le_uint_append_zeros(bytes.drop_first(), count);
    }
}

/// A buffer that is too short for a read of `width` bytes reads as the number
/// that it spells by itself: the padding adds zero high-order bytes.
pub proof fn lemma_field_of_short(bytes: Seq<u8>, width: nat)
    requires
        bytes.len() <= width,
    ensures
        le_uint(field(bytes, width)) == le_uint(bytes),
{
    if bytes.len() < width {
        let fill = zeros((width - bytes.len()) as nat);
        assert(field(bytes, width) =~= bytes + fill);
        lemma_le_uint_append_zeros(bytes, (width - bytes.len()) as nat);
    } else {
        assert(field(bytes, width) =~= bytes);
    }
}

/// Writing a number takes as many bytes as asked for.
pub proof fn lemma_le_bytes_len(value: nat, width: nat)
    ensures
        le_bytes(value, width).len() == width,
    decreases width,
{
    if width > 0 {
        lemma_le_bytes_len(value / 256, (width - 1) as nat);
    }
}

/// Reading back what was written gives the number, if it fits the width.
pub proof fn lemma_le_uint_of_le_bytes(value: nat, width: nat)
    requires
        value < radix(width),
    ensures
        le_uint(le_bytes(value, width)) == value,
    decreases width,
{
    if width > 0 {
        let rest = le_bytes(value / 256, (width - 1) as nat);
        let r = radix((width - 1) as nat);
        assert(value / 256 < r) by (nonlinear_arith)
            requires
                value < 256 * r,
        ;
        lemma_le_uint_of_le_bytes(value / 256, (width - 1) as nat);
        assert(le_bytes(value, width).drop_first() =~= rest);
        assert(value == (value % 256) + 256 * (value / 256)) by (nonlinear_arith);
    }
}

/// Two's complement loses nothing: a signed number of `width` bytes comes back
/// from the unsigned number that stands for it.
pub proof fn lemma_signed_of_unsigned(value: int, width: nat)
    requires
        -(radix(width) as int) <= 2 * value < radix(width),
    ensures
        unsigned(value, width) < radix(width),
        signed(unsigned(value, width), width) == value,
{
}

/// Reads the first two bytes of `buf` as an unsigned number.
///
/// Trusted: `byteorder::LittleEndian::read_u16` hands `buf[..2]` to
/// `u16::from_le_bytes`, and panics on a shorter buffer.
#[verifier::external_body]
pub(crate) fn read_u16(buf: &[u8]) -> (res: u16)
    requires
        buf@.len() >= 2,
    ensures
        res as nat == le_uint(buf@.subrange(0, 2)),
{
    <byteorder::LittleEndian as byteorder::ByteOrder>::read_u16(buf)
}

/// Reads the first four bytes of `buf` as an unsigned number.
///
/// Trusted: `byteorder::LittleEndian::read_u32` hands `buf[..4]` to
/// `u32::from_le_bytes`, and panics on a shorter buffer.
#[verifier::external_body]
pub(crate) fn read_u32(buf: &[u8]) -> (res: u32)
    requires
        buf@.len() >= 4,
    ensures
        res as nat == le_uint(buf@.subrange(0, 4)),
{
    <byteorder::LittleEndian as byteorder::ByteOrder>::read_u32(buf)
}

/// Reads the first eight bytes of `buf` as an unsigned number.
///
/// Trusted: `byteorder::LittleEndian::read_u64` hands `buf[..8]` to
/// `u64::from_le_bytes`, and panics on a shorter buffer.
#[verifier::external_body]
pub(crate) fn read_u64(buf: &[u8]) -> (res: u64)
    requires
        buf@.len() >= 8,
    ensures
        res as nat == le_uint(buf@.subrange(0, 8)),
{
    <byteorder::LittleEndian as byteorder::ByteOrder>::read_u64(buf)
}

/// Reads the first two bytes of `buf` as a signed number.
///
/// Trusted: `byteorder::ByteOrder::read_i16` is `read_u16` cast to `i16`, which
/// keeps the bits; it panics on a shorter buffer.
#[verifier::external_body]
pub(crate) fn read_i16(buf: &[u8]) -> (res: i16)
    requires
        buf@.len() >= 2,
    ensures
        res as int == signed(le_uint(buf@.subrange(0, 2)), 2),
{
    <byteorder::LittleEndian as byteorder::ByteOrder>::read_i16(buf)
}

/// Reads the first four bytes of `buf` as a signed number.
///
/// Trusted: `byteorder::ByteOrder::read_i32` is `read_u32` cast to `i32`, which
/// keeps the bits; it panics on a shorter buffer.
#[verifier::external_body]
pub(crate) fn read_i32(buf: &[u8]) -> (res: i32)
    requires
        buf@.len() >= 4,
    ensures
        res as int == signed(le_uint(buf@.subrange(0, 4)), 4),
{
    <byteorder::LittleEndian as byteorder::ByteOrder>::read_i32(buf)
}

/// Reads the first eight bytes of `buf` as a signed number.
///
/// Trusted: `byteorder::ByteOrder::read_i64` is `read_u64` cast to `i64`, which
/// keeps the bits; it panics on a shorter buffer.
#[verifier::external_body]
pub(crate) fn read_i64(buf: &[u8]) -> (res: i64)
    requires
        buf@.len() >= 8,
    ensures
        res as int == signed(le_uint(buf@.subrange(0, 8)), 8),
{
    <byteorder::LittleEndian as byteorder::ByteOrder>::read_i64(buf)
}

/// Writes `value` over the first four bytes of `buf`.
///
/// Trusted: `byteorder::ByteOrder::write_i32` casts `value` to `u32`, which keeps
/// the bits, and `LittleEndian::write_u32` copies `to_le_bytes` of that into
/// `buf[..4]`; the rest of the buffer stays, and a shorter buffer panics.
#[verifier::external_body]
pub(crate) fn write_i32(buf: &mut Vec<u8>, value: i32)
    requires
        old(buf)@.len() >= 4,
    ensures
        final(buf)@ == le_bytes(unsigned(value as int, 4), 4) + old(buf)@.subrange(
            4,
            old(buf)@.len() as int,
        ),
{
    <byteorder::LittleEndian as byteorder::ByteOrder>::write_i32(buf.as_mut_slice(), value)
}

/// A copy of `val` that is at least `width` bytes long: zero bytes fill what
/// is missing.
pub fn padded_copy(val: &Vec<u8>, width: usize) -> (res: Vec<u8>)
    ensures
        res@ == padded(val@, width as nat),
{
    let mut out: Vec<u8> = Vec::new();
    let mut i: usize = 0;
    while i < val.len()
        invariant
            i <= val.len(),
            out@ == val@.subrange(0, i as int),
        decreases val.len() - i,
    {
        out.push(val[i]);
        i = i + 1;
        assert(out@ =~= val@.subrange(0, i as int));
    }
    assert(out@ =~= val@);
    while out.len() < width
        invariant
            val@.len() <= out@.len(),
            out@.len() <= width || out@.len() == val@.len(),
            out@ == val@ + zeros((out@.len() - val@.len()) as nat),
        decreases width - out.len(),
    {
        let ghost before = out@;
        out.push(0u8);
        assert(out@ =~= val@ + zeros((out@.len() - val@.len()) as nat));
    }
    assert(out@ =~= padded(val@, width as nat));
    out
}

/// The unsigned number in the first byte of `val`, read as if zero bytes
/// followed a buffer that is too short.
pub fn get_u8(val: &Vec<u8>) -> (res: u8)
    ensures
        res as nat == le_uint(field(val@, 1)),
{
    proof {
        lemma_le_uint_single(field(val@, 1));
    }
    if val.len() >= 1 {
        val[0]
    } else {
        0
    }
}

/// The signed number in the first byte of `val`, read as if zero bytes
/// followed a buffer that is too short.
pub fn get_i8(val: &Vec<u8>) -> (res: i8)
    ensures
        res as int == signed(le_uint(field(val@, 1)), 1),
{
    let byte: u8 = get_u8(val);
    proof {
        lemma_radix_values();
        assert(byte < 128 ==> (byte as i8) as int == byte as int) by (bit_vector);
        assert(byte >= 128 ==> (byte as i8) as int == byte as int - 256) by (bit_vector);
    }
    #[verifier::truncate]
    (byte as i8)
}

/// The unsigned number in the first two bytes of `val`, read as if zero bytes
/// followed a buffer that is too short.
pub fn get_u16(val: &Vec<u8>) -> (res: u16)
    ensures
        res as nat == le_uint(field(val@, 2)),
{
    if val.len() >= 2 {
        read_u16(val.as_slice())
    } else {
        let wide = padded_copy(val, 2);
        read_u16(wide.as_slice())
    }
}

/// The signed number in the first two bytes of `val`, read as if zero bytes
/// followed a buffer that is too short.
pub fn get_i16(val: &Vec<u8>) -> (res: i16)
    ensures
        res as int == signed(le_uint(field(val@, 2)), 2),
{
    if val.len() >= 2 {
        read_i16(val.as_slice())
    } else {
        let wide = padded_copy(val, 2);
        read_i16(wide.as_slice())
    }
}

/// The unsigned number in the first four bytes of `val`, read as if zero
/// bytes followed a buffer that is too short.
pub fn get_u32(val: &Vec<u8>) -> (res: u32)
    ensures
        res as nat == le_uint(field(val@, 4)),
{
    if val.len() >= 4 {
        read_u32(val.as_slice())
    } else {
        let wide = padded_copy(val, 4);
        read_u32(wide.as_slice())
    }
}

/// The signed number in the first four bytes of `val`, read as if zero bytes
/// followed a buffer that is too short.
pub fn get_i32(val: &Vec<u8>) -> (res: i32)
    ensures
        res as int == signed(le_uint(field(val@, 4)), 4),
{
    if val.len() >= 4 {
        read_i32(val.as_slice())
    } else {
        let wide = padded_copy(val, 4);
        read_i32(wide.as_slice())
    }
}

/// The unsigned number in the first eight bytes of `val`, read as if zero
/// bytes followed a buffer that is too short.
pub fn get_u64(val: &Vec<u8>) -> (res: u64)
    ensures
        res as nat == le_uint(field(val@, 8)),
{
    if val.len() >= 8 {
        read_u64(val.as_slice())
    } else {
        let wide = padded_copy(val, 8);
        read_u64(wide.as_slice())
    }
}

/// The signed number in the first eight bytes of `val`, read as if zero bytes
/// followed a buffer that is too short.
pub fn get_i64(val: &Vec<u8>) -> (res: i64)
    ensures
        res as int == signed(le_uint(field(val@, 8)), 8),
{
    if val.len() >= 8 {
        read_i64(val.as_slice())
    } else {
        let wide = padded_copy(val, 8);
        read_i64(wide.as_slice())
    }
}

/// The four bytes of `value`, least significant byte first.
pub fn put_i32(value: i32) -> (res: Vec<u8>)
    ensures
        res@ == le_bytes(unsigned(value as int, 4), 4),
{
    let mut out: Vec<u8> = Vec::new();
    out.push(0u8);
    out.push(0u8);
    out.push(0u8);
    out.push(0u8);
    write_i32(&mut out, value);
    proof {
        lemma_le_bytes_len(unsigned(value as int, 4), 4);
        assert(out@ =~= le_bytes(unsigned(value as int, 4), 4));
    }
    out
}

/// One byte spells itself.
pub proof fn lemma_le_uint_single(bytes: Seq<u8>)
    requires
        bytes.len() == 1,
    ensures
        le_uint(bytes) == bytes[0],
{
    assert(le_uint(bytes.drop_first()) == 0);
}

} // verus!
