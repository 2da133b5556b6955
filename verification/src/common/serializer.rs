//! Positional little-endian reading and writing over a byte buffer.
//!
//! A write appends the little-endian bytes of one number; a read takes as many
//! bytes as the number is wide at the cursor and moves the cursor past them.
//! Nothing frames the fields: who reads must ask for the same types in the
//! same order as who wrote. A 32-bit or 64-bit float travels as its IEEE 754
//! bit pattern, that is as a `u32` or a `u64`.

use vstd::prelude::*;

verus! {

/// The two bytes of a `u16`, lowest first.
pub open spec fn le_bytes_u16(value: u16) -> Seq<u8> {
    seq![(value % 256) as u8, (value / 256) as u8]
}

/// The four bytes of a `u32`, lowest first.
pub open spec fn le_bytes_u32(value: u32) -> Seq<u8> {
    seq![
        (value % 256) as u8,
        ((value / 256) % 256) as u8,
        ((value / 65536) % 256) as u8,
        (value / 16777216) as u8,
    ]
}

/// The eight bytes of a `u64`, lowest first.
pub open spec fn le_bytes_u64(value: u64) -> Seq<u8> {
    le_bytes_u32((value % 0x1_0000_0000) as u32) + le_bytes_u32((value / 0x1_0000_0000) as u32)
}

/// The `u16` whose bytes, lowest first, open `bytes`.
pub open spec fn u16_from_le(bytes: Seq<u8>) -> u16
    recommends
        bytes.len() >= 2,
{
    (bytes[0] + 256 * bytes[1]) as u16
}

/// The `u32` whose bytes, lowest first, open `bytes`.
pub open spec fn u32_from_le(bytes: Seq<u8>) -> u32
    recommends
        bytes.len() >= 4,
{
    (bytes[0] + 256 * bytes[1] + 65536 * bytes[2] + 16777216 * bytes[3]) as u32
}

/// The `u64` whose bytes, lowest first, open `bytes`.
pub open spec fn u64_from_le(bytes: Seq<u8>) -> u64
    recommends
        bytes.len() >= 8,
{
    (u32_from_le(bytes.subrange(0, 4)) + 0x1_0000_0000 * u32_from_le(bytes.subrange(4, 8))) as u64
}

/// The bit pattern of an `i32` in two's complement.
pub open spec fn i32_bits(value: i32) -> u32 {
    if value >= 0 {
        value as u32
    } else {
        (value + 0x1_0000_0000) as u32
    }
}

/// The `i32` that a bit pattern stands for in two's complement.
pub open spec fn i32_from_bits(bits: u32) -> i32 {
    if bits < 0x8000_0000 {
        bits as i32
    } else {
        (bits - 0x1_0000_0000) as i32
    }
}

/// A `u16` comes back from its bytes.
pub proof fn lemma_u16_round_trip(value: u16)
    ensures
        le_bytes_u16(value).len() == 2,
        u16_from_le(le_bytes_u16(value)) == value,
{
}

/// A `u32` comes back from its bytes.
pub proof fn lemma_u32_round_trip(value: u32)
    ensures
        le_bytes_u32(value).len() == 4,
        u32_from_le(le_bytes_u32(value)) == value,
{
}

/// A `u64` comes back from its bytes.
pub proof fn lemma_u64_round_trip(value: u64)
    ensures
        le_bytes_u64(value).len() == 8,
        u64_from_le(le_bytes_u64(value)) == value,
{
    let low = (value % 0x1_0000_0000) as u32;
    let high = (value / 0x1_0000_0000) as u32;
    lemma_u32_round_trip(low);
    lemma_u32_round_trip(high);
}

/// An `i32` comes back from its bit pattern.
pub proof fn lemma_i32_round_trip(value: i32)
    ensures
        i32_from_bits(i32_bits(value)) == value,
{
}

/// `num_traits::ToBytes::to_le_bytes` on a `u8`: the byte itself, alone.
#[verifier::external_body]
fn u8_to_le_bytes(value: u8) -> (bytes: Vec<u8>)
    ensures
        bytes@ == seq![value],
{
    num_traits::ToBytes::to_le_bytes(&value).to_vec()
}

/// `num_traits::ToBytes::to_le_bytes` on a `u16`: its two bytes, the low one
/// first, on every machine.
#[verifier::external_body]
fn u16_to_le_bytes(value: u16) -> (bytes: Vec<u8>)
    ensures
        bytes@ == le_bytes_u16(value),
{
    num_traits::ToBytes::to_le_bytes(&value).to_vec()
}

/// `num_traits::ToBytes::to_le_bytes` on a `u32`: its four bytes, the lowest
/// first, on every machine.
#[verifier::external_body]
fn u32_to_le_bytes(value: u32) -> (bytes: Vec<u8>)
    ensures
        bytes@ == le_bytes_u32(value),
{
    num_traits::ToBytes::to_le_bytes(&value).to_vec()
}

/// `num_traits::ToBytes::to_le_bytes` on a `u64`: its eight bytes, the lowest
/// first, on every machine.
#[verifier::external_body]
fn u64_to_le_bytes(value: u64) -> (bytes: Vec<u8>)
    ensures
        bytes@ == le_bytes_u64(value),
{
    num_traits::ToBytes::to_le_bytes(&value).to_vec()
}

/// `num_traits::ToBytes::to_le_bytes` on an `i32`: the four bytes of its
/// two's complement bit pattern, the lowest first, on every machine.
#[verifier::external_body]
fn i32_to_le_bytes(value: i32) -> (bytes: Vec<u8>)
    ensures
        bytes@ == le_bytes_u32(i32_bits(value)),
{
    num_traits::ToBytes::to_le_bytes(&value).to_vec()
}

/// A byte buffer with a read cursor.
pub struct Serializer {
    pub buffer: Vec<u8>,
    pub cursor: usize,
}

impl Serializer {
    /// The cursor stands inside the buffer or at its end.
    pub open spec fn wf(&self) -> bool {
        self.cursor <= self.buffer@.len()
    }

    /// The bytes that no read has taken yet.
    pub open spec fn unread(&self) -> Seq<u8> {
        self.buffer@.skip(self.cursor as int)
    }

    /// A serializer over `buffer`, with the cursor at its start.
    pub fn new(buffer: Vec<u8>) -> (serializer: Self)
        ensures
            serializer.buffer@ == buffer@,
            serializer.cursor == 0,
            serializer.wf(),
    {
        Serializer { buffer, cursor: 0 }
    }

    /// The whole buffer, read or not.
    pub fn get_data(&self) -> (data: &[u8])
        ensures
            data@ == self.buffer@,
    {
        self.buffer.as_slice()
    }

    /// How many bytes are left to read.
    pub fn remaining(&self) -> (count: usize)
        requires
            self.wf(),
        ensures
            count == self.buffer@.len() - self.cursor,
            count == self.unread().len(),
    {
        self.buffer.len() - self.cursor
    }

    /// Appends one byte.
    pub fn write_u8(&mut self, value: u8)
        ensures
            final(self).buffer@ == old(self).buffer@ + seq![value],
            final(self).cursor == old(self).cursor,
    {
        let mut bytes = u8_to_le_bytes(value);
        self.buffer.append(&mut bytes);
    }

    /// Appends the two little-endian bytes of `value`.
    pub fn write_u16(&mut self, value: u16)
        ensures
            final(self).buffer@ == old(self).buffer@ + le_bytes_u16(value),
            final(self).cursor == old(self).cursor,
    {
        let mut bytes = u16_to_le_bytes(value);
        self.buffer.append(&mut bytes);
    }

    /// Appends the four little-endian bytes of `value`.
    pub fn write_u32(&mut self, value: u32)
        ensures
            final(self).buffer@ == old(self).buffer@ + le_bytes_u32(value),
            final(self).cursor == old(self).cursor,
    {
        let mut bytes = u32_to_le_bytes(value);
        self.buffer.append(&mut bytes);
    }

    /// Appends the eight little-endian bytes of `value`.
    pub fn write_u64(&mut self, value: u64)
        ensures
            final(self).buffer@ == old(self).buffer@ + le_bytes_u64(value),
            final(self).cursor == old(self).cursor,
    {
        let mut bytes = u64_to_le_bytes(value);
        self.buffer.append(&mut bytes);
    }

    /// Appends the four little-endian bytes of the bit pattern of `value`.
    pub fn write_i32(&mut self, value: i32)
        ensures
            final(self).buffer@ == old(self).buffer@ + le_bytes_u32(i32_bits(value)),
            final(self).cursor == old(self).cursor,
    {
        let mut bytes = i32_to_le_bytes(value);
        self.buffer.append(&mut bytes);
    }

    /// Appends bytes as they are.
    pub fn write_bytes(&mut self, bytes: &[u8])
        ensures
            final(self).buffer@ == old(self).buffer@ + bytes@,
            final(self).cursor == old(self).cursor,
    {
        let mut i: usize = 0;
        while i < bytes.len()
            invariant
                i <= bytes@.len(),
                self.buffer@ == old(self).buffer@ + bytes@.take(i as int),
                self.cursor == old(self).cursor,
            decreases bytes@.len() - i,
        {
            self.buffer.push(bytes[i]);
            i += 1;
        }
    }

    /// Reads one byte at the cursor.
    pub fn read_u8(&mut self) -> (value: u8)
        requires
            old(self).cursor + 1 <= old(self).buffer@.len(),
        ensures
            value == old(self).unread()[0],
            final(self).cursor == old(self).cursor + 1,
            final(self).buffer@ == old(self).buffer@,
    {
        let len: usize = self.buffer.len();
        let value: u8 = self.buffer[self.cursor];
        self.cursor += 1;
        value
    }

    /// Reads a little-endian `u16` at the cursor.
    pub fn read_u16(&mut self) -> (value: u16)
        requires
            old(self).cursor + 2 <= old(self).buffer@.len(),
        ensures
            value == u16_from_le(old(self).unread()),
            final(self).cursor == old(self).cursor + 2,
            final(self).buffer@ == old(self).buffer@,
    {
        let len: usize = self.buffer.len();
        let b0: u16 = self.buffer[self.cursor] as u16;
        let b1: u16 = self.buffer[self.cursor + 1] as u16;
        self.cursor += 2;
        b0 + 256 * b1
    }

    /// Reads a little-endian `u32` at the cursor.
    pub fn read_u32(&mut self) -> (value: u32)
        requires
            old(self).cursor + 4 <= old(self).buffer@.len(),
        ensures
            value == u32_from_le(old(self).unread()),
            final(self).cursor == old(self).cursor + 4,
            final(self).buffer@ == old(self).buffer@,
    {
        let len: usize = self.buffer.len();
        let b0: u32 = self.buffer[self.cursor] as u32;
        let b1: u32 = self.buffer[self.cursor + 1] as u32;
        let b2: u32 = self.buffer[self.cursor + 2] as u32;
        let b3: u32 = self.buffer[self.cursor + 3] as u32;
        self.cursor += 4;
        b0 + 256 * b1 + 65536 * b2 + 16777216 * b3
    }

    /// Reads a little-endian `u64` at the cursor.
    pub fn read_u64(&mut self) -> (value: u64)
        requires
            old(self).cursor + 8 <= old(self).buffer@.len(),
        ensures
            value == u64_from_le(old(self).unread()),
            final(self).cursor == old(self).cursor + 8,
            final(self).buffer@ == old(self).buffer@,
    {
        let low: u64 = self.read_u32() as u64;
        let high: u64 = self.read_u32() as u64;
        low + 0x1_0000_0000 * high
    }

    /// Reads a little-endian `i32` at the cursor.
    pub fn read_i32(&mut self) -> (value: i32)
        requires
            old(self).cursor + 4 <= old(self).buffer@.len(),
        ensures
            value == i32_from_bits(u32_from_le(old(self).unread())),
            final(self).cursor == old(self).cursor + 4,
            final(self).buffer@ == old(self).buffer@,
    {
        let bits: u32 = self.read_u32();
        if bits < 0x8000_0000 {
            bits as i32
        } else {
            (bits as i64 - 0x1_0000_0000) as i32
        }
    }
}

/// Three values written in order come back in order, bit for bit: reading a
/// `u32` and two more 32-bit patterns from what writing them produced returns
/// the three values, whatever came before them in the buffer.
pub proof fn lemma_write_read_three(prefix: Seq<u8>, first: u32, second: u32, third: u32)
    ensures
        ({
            let written = prefix + le_bytes_u32(first) + le_bytes_u32(second) + le_bytes_u32(third);
            let at = prefix.len() as int;
            &&& written.len() == at + 12
            &&& u32_from_le(written.skip(at)) == first
            &&& u32_from_le(written.skip(at + 4)) == second
            &&& u32_from_le(written.skip(at + 8)) == third
        }),
{
    lemma_u32_round_trip(first);
    lemma_u32_round_trip(second);
    lemma_u32_round_trip(third);
}

} // verus!
