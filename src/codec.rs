//! Fixed-offset little-endian integers: what a field of a native structure is,
//! read from its bytes, and the bytes that a value is written as.

use byteorder::{ByteOrder, LittleEndian};
use vstd::prelude::*;

verus! {

/// The `u16` whose little-endian encoding is `s[0..2]`.
pub open spec fn le_u16(s: Seq<u8>) -> u16 {
    ((s[0] as u16) | ((s[1] as u16) << 8u16)) as u16
}

/// The `u32` whose little-endian encoding is `s[0..4]`.
pub open spec fn le_u32(s: Seq<u8>) -> u32 {
    ((s[0] as u32) | ((s[1] as u32) << 8u32) | ((s[2] as u32) << 16u32) | ((
    s[3] as u32) << 24u32)) as u32
}

/// The `u64` whose little-endian encoding is `s[0..8]`.
pub open spec fn le_u64(s: Seq<u8>) -> u64 {
    ((s[0] as u64) | ((s[1] as u64) << 8u64) | ((s[2] as u64) << 16u64) | ((
    s[3] as u64) << 24u64) | ((s[4] as u64) << 32u64) | ((s[5] as u64) << 40u64) | ((
    s[6] as u64) << 48u64) | ((s[7] as u64) << 56u64)) as u64
}

/// The `i64` whose little-endian two's complement encoding is `s[0..8]`.
pub open spec fn le_i64(s: Seq<u8>) -> i64 {
    le_u64(s) as i64
}

/// The two bytes of `n`, least significant first.
pub open spec fn le_bytes_u16(n: u16) -> Seq<u8> {
    seq![n as u8, (n >> 8u16) as u8]
}

/// The four bytes of `n`, least significant first.
pub open spec fn le_bytes_u32(n: u32) -> Seq<u8> {
    seq![n as u8, (n >> 8u32) as u8, (n >> 16u32) as u8, (n >> 24u32) as u8]
}

/// The eight bytes of `n`, least significant first.
pub open spec fn le_bytes_u64(n: u64) -> Seq<u8> {
    seq![
        n as u8,
        (n >> 8u64) as u8,
        (n >> 16u64) as u8,
        (n >> 24u64) as u8,
        (n >> 32u64) as u8,
        (n >> 40u64) as u8,
        (n >> 48u64) as u8,
        (n >> 56u64) as u8,
    ]
}

/// Relies on byteorder's `LittleEndian::read_u16`: the first two bytes of
/// `buf`, least significant first; it panics on fewer than two.
#[verifier::external_body]
pub(crate) fn read_u16_le(buf: &[u8]) -> (r: u16)
    requires
        buf@.len() >= 2,
    ensures
        r == le_u16(buf@),
{
    LittleEndian::read_u16(buf)
}

/// Relies on byteorder's `LittleEndian::read_u32`: the first four bytes of
/// `buf`, least significant first; it panics on fewer than four.
#[verifier::external_body]
pub(crate) fn read_u32_le(buf: &[u8]) -> (r: u32)
    requires
        buf@.len() >= 4,
    ensures
        r == le_u32(buf@),
{
    LittleEndian::read_u32(buf)
}

/// Relies on byteorder's `LittleEndian::read_u64`: the first eight bytes of
/// `buf`, least significant first; it panics on fewer than eight.
#[verifier::external_body]
pub(crate) fn read_u64_le(buf: &[u8]) -> (r: u64)
    requires
        buf@.len() >= 8,
    ensures
        r == le_u64(buf@),
{
    LittleEndian::read_u64(buf)
}

/// Relies on byteorder's `LittleEndian::read_i64`: the first eight bytes of
/// `buf` as a `u64`, least significant first, reinterpreted as an `i64`; it
/// panics on fewer than eight.
#[verifier::external_body]
pub(crate) fn read_i64_le(buf: &[u8]) -> (r: i64)
    requires
        buf@.len() >= 8,
    ensures
        r == le_i64(buf@),
{
    LittleEndian::read_i64(buf)
}

/// Relies on byteorder's `LittleEndian::write_u16`: it stores the bytes of
/// `n`, least significant first, in the first two bytes of the buffer.
#[verifier::external_body]
pub(crate) fn u16_to_le(n: u16) -> (r: [u8; 2])
    ensures
        r@ == le_bytes_u16(n),
{
    let mut buf = [0u8; 2];
    LittleEndian::write_u16(&mut buf, n);
    buf
}

/// Relies on byteorder's `LittleEndian::write_u32`: it stores the bytes of
/// `n`, least significant first, in the first four bytes of the buffer.
#[verifier::external_body]
pub(crate) fn u32_to_le(n: u32) -> (r: [u8; 4])
    ensures
        r@ == le_bytes_u32(n),
{
    let mut buf = [0u8; 4];
    LittleEndian::write_u32(&mut buf, n);
    buf
}

/// Relies on byteorder's `LittleEndian::write_u64`: it stores the bytes of
/// `n`, least significant first, in the first eight bytes of the buffer.
#[verifier::external_body]
pub(crate) fn u64_to_le(n: u64) -> (r: [u8; 8])
    ensures
        r@ == le_bytes_u64(n),
{
    let mut buf = [0u8; 8];
    LittleEndian::write_u64(&mut buf, n);
    buf
}

proof fn lemma_u16_bits(n: u16)
    by (bit_vector)
    ensures
        n == ((n as u8 as u16) | (((n >> 8u16) as u8 as u16) << 8u16)),
{
}

proof fn lemma_u32_bits(n: u32)
    by (bit_vector)
    ensures
        n == ((n as u8 as u32) | (((n >> 8u32) as u8 as u32) << 8u32) | (((n >> 16u32) as u8
            as u32) << 16u32) | (((n >> 24u32) as u8 as u32) << 24u32)),
{
}

proof fn lemma_u64_bits(n: u64)
    by (bit_vector)
    ensures
        n == ((n as u8 as u64) | (((n >> 8u64) as u8 as u64) << 8u64) | (((n >> 16u64) as u8
            as u64) << 16u64) | (((n >> 24u64) as u8 as u64) << 24u64) | (((n >> 32u64) as u8
            as u64) << 32u64) | (((n >> 40u64) as u8 as u64) << 40u64) | (((n >> 48u64) as u8
            as u64) << 48u64) | (((n >> 56u64) as u8 as u64) << 56u64)),
{
}

/// Reading back the bytes that a `u16` is written as gives the `u16`.
pub proof fn lemma_le_u16_round_trip(n: u16)
    ensures
        le_bytes_u16(n).len() == 2,
        le_u16(le_bytes_u16(n)) == n,
{
    lemma_u16_bits(n);
}

/// Reading back the bytes that a `u32` is written as gives the `u32`.
pub proof fn lemma_le_u32_round_trip(n: u32)
    ensures
        le_bytes_u32(n).len() == 4,
        le_u32(le_bytes_u32(n)) == n,
{
    lemma_u32_bits(n);
}

/// Reading back the bytes that a `u64` is written as gives the `u64`.
pub proof fn lemma_le_u64_round_trip(n: u64)
    ensures
        le_bytes_u64(n).len() == 8,
        le_u64(le_bytes_u64(n)) == n,
{
    lemma_u64_bits(n);
}

} // verus!
