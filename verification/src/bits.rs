//! Byte- and word-level helpers shared by the CPU, PPU and bus.

use vstd::prelude::*;

verus! {

/// The 16-bit word whose high byte is `hh` and low byte is `ll`.
pub fn join_bytes(hh: u8, ll: u8) -> (r: u16)
    ensures
        r == join_bytes_spec(hh, ll),
{
    ((hh as u16) << 8) | (ll as u16)
}

pub open spec fn join_bytes_spec(hh: u8, ll: u8) -> u16 {
    ((hh as u16) << 8) | (ll as u16)
}

/// The high byte of a 16-bit word.
pub fn high_byte(value: u16) -> (r: u8)
    ensures
        r == high_byte_spec(value),
{
    ((value >> 8) & 0xFF) as u8
}

pub open spec fn high_byte_spec(value: u16) -> u8 {
    ((value >> 8) & 0xFF) as u8
}

/// The low byte of a 16-bit word.
pub fn low_byte(value: u16) -> (r: u8)
    ensures
        r == low_byte_spec(value),
{
    (value & 0xFF) as u8
}

pub open spec fn low_byte_spec(value: u16) -> u8 {
    (value & 0xFF) as u8
}

/// True when the two addresses lie on different 256-byte pages.
pub fn page_crossed(left: u16, right: u16) -> (r: bool)
    ensures
        r == page_crossed_spec(left, right),
{
    left & 0xFF00 != right & 0xFF00
}

pub open spec fn page_crossed_spec(left: u16, right: u16) -> bool {
    left & 0xFF00 != right & 0xFF00
}

/// Byte addition that wraps modulo 256.
pub fn unchecked_add(left: u8, right: u8) -> (r: u8)
    ensures
        r == left.wrapping_add(right),
{
    left.wrapping_add(right)
}

/// Byte subtraction that wraps modulo 256.
pub fn unchecked_sub(left: u8, right: u8) -> (r: u8)
    ensures
        r == left.wrapping_sub(right),
{
    left.wrapping_sub(right)
}

/// The address `displacement` bytes away from `address`, wrapping at the
/// ends of the 16-bit address space.
pub fn rel_addr(address: u16, displacement: i8) -> (r: u16)
    ensures
        r == rel_addr_spec(address, displacement),
{
    address.wrapping_add_signed(displacement as i16)
}

pub open spec fn rel_addr_spec(address: u16, displacement: i8) -> u16 {
    if address + displacement > u16::MAX {
        (address + displacement - 0x10000) as u16
    } else if address + displacement < 0 {
        (address + displacement + 0x10000) as u16
    } else {
        (address + displacement) as u16
    }
}

/// The byte with the order of its bits reversed.
pub fn reverse_bits(value: u8) -> (r: u8)
    ensures
        r == reverse_bits_spec(value),
{
    let mut b: u8 = value;
    b = ((b & 0xF0) >> 4) | ((b & 0x0F) << 4);
    b = ((b & 0xCC) >> 2) | ((b & 0x33) << 2);
    b = ((b & 0xAA) >> 1) | ((b & 0x55) << 1);
    b
}

pub open spec fn reverse_bits_spec(value: u8) -> u8 {
    let s4 = (((value & 0xF0) >> 4) | ((value & 0x0F) << 4)) as u8;
    let s2 = (((s4 & 0xCC) >> 2) | ((s4 & 0x33) << 2)) as u8;
    ((s2 & 0xAA) >> 1) | ((s2 & 0x55) << 1)
}

/// Every bit-masked value is bounded by the mask and by the input.
pub proof fn lemma_u16_and_le()
    by (bit_vector)
    ensures
        forall|x: u16, m: u16| #[trigger] (x & m) <= m && (x & m) <= x,
{
}

/// Every bit-masked byte is bounded by the mask and by the input.
pub proof fn lemma_u8_and_le()
    by (bit_vector)
    ensures
        forall|x: u8, m: u8| #[trigger] (x & m) <= m && (x & m) <= x,
{
}

/// A bitwise or is bounded by the sum of its operands.
pub proof fn lemma_u16_or_le()
    by (bit_vector)
    ensures
        forall|x: u16, y: u16| #[trigger] (x | y) <= x + y,
{
}

/// A right shift never grows a value.
pub proof fn lemma_u16_shr_le()
    by (bit_vector)
    ensures
        forall|x: u16, n: u16| #[trigger] (x >> n) <= x,
{
}

/// A vector of `len` copies of `value`.
pub fn filled_vec(len: usize, value: u8) -> (r: Vec<u8>)
    ensures
        r@ == Seq::new(len as nat, |i: int| value),
{
    let mut out: Vec<u8> = Vec::new();
    let mut i: usize = 0;
    while i < len
        invariant
            i <= len,
            out@ == Seq::new(i as nat, |j: int| value),
        decreases len - i,
    {
        out.push(value);
        proof {
            assert(out@ =~= Seq::new(i as nat + 1, |j: int| value));
        }
        i += 1;
    }
    out
}

/// Unsigned 64-bit addition that sticks at the maximum instead of wrapping.
pub fn sat_add64(left: u64, right: u64) -> (r: u64)
    ensures
        r == sat_add64_spec(left, right),
{
    if left <= u64::MAX - right {
        left + right
    } else {
        u64::MAX
    }
}

pub open spec fn sat_add64_spec(left: u64, right: u64) -> u64 {
    if left + right > u64::MAX {
        u64::MAX
    } else {
        (left + right) as u64
    }
}

} // verus!
