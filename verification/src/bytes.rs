//! Big-endian conversion between a `u16` and its two bytes.

use vstd::prelude::*;

verus! {

/// The big-endian bytes of `data`: high byte first.
pub open spec fn be_bytes_spec(data: u16) -> Seq<u8> {
    seq![(data / 256) as u8, (data % 256) as u8]
}

/// The `u16` whose big-endian bytes are `hi` then `lo`.
pub open spec fn be_u16_spec(hi: u8, lo: u8) -> u16 {
    (hi * 256 + lo) as u16
}

/// Splits `data` into its two bytes, high byte first.
pub fn u16_to_u8_array(data: u16) -> (data_array: [u8; 2])
    ensures
        data_array@ == be_bytes_spec(data),
        data_array[0] == data >> 8,
        data_array[1] == data & 0xFF,
{
    let mut data_array: [u8; 2] = [0; 2];
    data_array[0] = (data >> 8) as u8;
    data_array[1] = data as u8;
    assert((data >> 8) as u8 == data / 256 && data as u8 == data % 256) by (bit_vector);
    assert(data_array@ =~= be_bytes_spec(data));
    assert(data / 256 == data >> 8 && data % 256 == data & 0xFF) by (bit_vector);
    data_array
}

/// Joins two bytes, high byte first, into a `u16`.
pub fn u8_array_to_u16(data: [u8; 2]) -> (data_u16: u16)
    ensures
        data_u16 == be_u16_spec(data[0], data[1]),
        data_u16 == data[0] * 256 + data[1],
{
    let mut data_u16: u16 = 0;
    let hi = data[0];
    let lo = data[1];
    data_u16 |= (hi as u16) << 8;
    data_u16 |= lo as u16;
    assert((0u16 | ((hi as u16) << 8)) | (lo as u16) == hi * 256 + lo) by (bit_vector);
    data_u16
}

/// Splitting a `u16` into bytes and joining them again gives the value back.
pub proof fn lemma_split_join(data: u16)
    ensures
        be_u16_spec(be_bytes_spec(data)[0], be_bytes_spec(data)[1]) == data,
{
}

/// Joining two bytes into a `u16` and splitting it again gives the bytes back.
pub proof fn lemma_join_split(hi: u8, lo: u8)
    ensures
        be_bytes_spec(be_u16_spec(hi, lo)) == seq![hi, lo],
{
    let v = be_u16_spec(hi, lo);
    assert(v == hi * 256 + lo);
    assert(v / 256 == hi && v % 256 == lo);
    assert(be_bytes_spec(v) =~= seq![hi, lo]);
}

/// The bytes of a `u16` are its high and low eight bits, and two bytes join
/// to the high byte shifted up by eight with the low byte below it.
pub proof fn lemma_byte_bit_ranges(data: u16, hi: u8, lo: u8)
    ensures
        be_bytes_spec(data).len() == 2,
        be_bytes_spec(data)[0] == data >> 8,
        be_bytes_spec(data)[1] == data & 0xFF,
        be_u16_spec(hi, lo) == ((hi as u16) << 8) | (lo as u16),
{
    assert(data / 256 == data >> 8 && data % 256 == data & 0xFF) by (bit_vector);
    assert(hi * 256 + lo == ((hi as u16) << 8) | (lo as u16)) by (bit_vector);
}

} // verus!
