//! The four-byte wire value and the codecs of the value types carried in it.

use byteorder::{ByteOrder, LittleEndian};
use vstd::prelude::*;

verus! {

/// The payload of every parameter: four bytes, as they travel on the wire.
pub type BeacnValue = [u8; 4];

/// Why a key or a value received from a device could not be turned into a message.
#[derive(Copy, Clone, Debug, PartialEq, Eq, Structural)]
pub enum DecodeError {
    /// The key names no field of the addressed family, or no family at all.
    UnknownField,
    /// The field is known, but the four bytes are no value of its type.
    MalformedValue,
}

/// The number whose little-endian base-256 digits are the first four bytes of `bytes`.
pub open spec fn le_u32(bytes: Seq<u8>) -> int
    recommends
        bytes.len() >= 4,
{
    bytes[0] + 0x100 * bytes[1] + 0x1_0000 * bytes[2] + 0x100_0000 * bytes[3]
}

/// Reads a 32-bit word with `byteorder::LittleEndian::read_u32`, which takes the
/// first four bytes of the slice as little-endian digits, least significant first,
/// and panics on a slice shorter than four bytes.
#[verifier::external_body]
pub(crate) fn read_u32_le(bytes: &[u8]) -> (word: u32)
    requires
        bytes@.len() >= 4,
    ensures
        word == le_u32(bytes@),
{
    LittleEndian::read_u32(bytes)
}

/// Decodes the 32-bit pattern held in a wire value.
pub fn read_bits(value: &BeacnValue) -> (bits: u32)
    ensures
        bits == le_u32(value@),
{
    read_u32_le(value.as_slice())
}

/// The four little-endian base-256 digits of a 32-bit word, least significant first.
pub open spec fn le_bytes(word: u32) -> Seq<u8> {
    seq![
        (word % 0x100) as u8,
        ((word / 0x100) % 0x100) as u8,
        ((word / 0x1_0000) % 0x100) as u8,
        (word / 0x100_0000) as u8,
    ]
}

/// Four bytes are the digits of the word they spell.
pub proof fn lemma_le_bytes_of_le_u32(bytes: Seq<u8>)
    requires
        bytes.len() == 4,
    ensures
        0 <= le_u32(bytes) <= u32::MAX,
        le_bytes(le_u32(bytes) as u32) == bytes,
{
    let (b0, b1, b2, b3) = (bytes[0], bytes[1], bytes[2], bytes[3]);
    let word = le_u32(bytes) as u32;
    assert(word == b0 + 0x100 * b1 + 0x1_0000 * b2 + 0x100_0000 * b3);
    assert(word % 0x100 == b0 && (word / 0x100) % 0x100 == b1 && (word / 0x1_0000) % 0x100 == b2
        && word / 0x100_0000 == b3) by (bit_vector)
        requires
            word == b0 + 0x100 * b1 + 0x1_0000 * b2 + 0x100_0000 * b3,
    ;
    assert(le_bytes(word) =~= bytes);
}

/// A word is spelled by its digits.
pub proof fn lemma_le_u32_of_le_bytes(word: u32)
    ensures
        le_bytes(word).len() == 4,
        le_u32(le_bytes(word)) == word,
{
    assert(word == word % 0x100 + 0x100 * ((word / 0x100) % 0x100) + 0x1_0000 * ((word / 0x1_0000)
        % 0x100) + 0x100_0000 * (word / 0x100_0000)) by (bit_vector);
}

/// Encodes a 32-bit pattern as a wire value, least significant byte first.
pub fn write_bits(bits: u32) -> (value: BeacnValue)
    ensures
        value@ == le_bytes(bits),
{
    let b0: u8 = (bits & 0xff) as u8;
    let b1: u8 = ((bits >> 8) & 0xff) as u8;
    let b2: u8 = ((bits >> 16) & 0xff) as u8;
    let b3: u8 = (bits >> 24) as u8;
    assert(bits & 0xff == bits % 0x100) by (bit_vector);
    assert((bits >> 8) & 0xff == (bits / 0x100) % 0x100) by (bit_vector);
    assert((bits >> 16) & 0xff == (bits / 0x1_0000) % 0x100) by (bit_vector);
    assert(bits >> 24 == bits / 0x100_0000) by (bit_vector);
    let value: BeacnValue = [b0, b1, b2, b3];
    assert(value@ =~= le_bytes(bits));
    value
}

/// Encodes a flag: the low byte is 1 or 0, the other three are zero.
pub fn write_bool(flag: bool) -> (value: BeacnValue)
    ensures
        value@ == bool_bytes(flag),
{
    let low: u8 = if flag { 1 } else { 0 };
    let value: BeacnValue = [low, 0, 0, 0];
    assert(value@ =~= bool_bytes(flag));
    value
}

/// Decodes a flag from the low byte of a wire value. Only that byte carries
/// meaning: 0 is `false`, 1 is `true`, anything else is no flag. The three
/// bytes that follow are not looked at.
pub fn read_bool(value: &BeacnValue) -> (flag: Result<bool, DecodeError>)
    ensures
        flag == bool_of_bytes(value@),
{
    let low: u8 = value[0];
    if low == 0 {
        Ok(false)
    } else if low == 1 {
        Ok(true)
    } else {
        Err(DecodeError::MalformedValue)
    }
}

/// The wire form of a flag.
pub open spec fn bool_bytes(flag: bool) -> Seq<u8> {
    seq![if flag { 1u8 } else { 0u8 }, 0u8, 0u8, 0u8]
}

/// The flag that a wire value stands for, if it stands for one.
pub open spec fn bool_of_bytes(value: Seq<u8>) -> Result<bool, DecodeError>
    recommends
        value.len() >= 1,
{
    if value[0] == 0 {
        Ok(false)
    } else if value[0] == 1 {
        Ok(true)
    } else {
        Err(DecodeError::MalformedValue)
    }
}

/// The bit pattern of negative zero in IEEE-754 single precision.
pub const NEGATIVE_ZERO: u32 = 0x8000_0000;

/// The bit pattern of positive infinity in IEEE-754 single precision. The
/// patterns of the finite numbers that are not negative lie below it.
pub const INFINITY: u32 = 0x7f80_0000;

/// Whether a bit pattern stands for a finite number, and not for an infinity
/// or a NaN: its eight exponent bits are not all set.
pub open spec fn is_finite(bits: u32) -> bool {
    bits & INFINITY != INFINITY
}

/// Whether the single-precision number with the pattern `bits` lies between zero
/// and the number with the pattern `max`, both included.
///
/// Among the patterns with a clear sign bit the order of the numbers is the order
/// of the patterns, so for a finite `max` that is not negative the patterns from 0
/// up to `max` are exactly the numbers from zero up to it. Negative zero is zero
/// and lies in the range too. Every other pattern with the sign bit set is a
/// negative number or a NaN; the patterns above `max` with a clear sign bit are
/// larger numbers, infinity or NaNs.
pub open spec fn within(bits: u32, max: u32) -> bool {
    bits <= max || bits == NEGATIVE_ZERO
}

/// A value type that holds a single-precision number between zero and an upper
/// bound of its own, as the number's IEEE-754 bit pattern.
///
/// The bound is enforced when a value is made: a pattern outside the range is
/// refused, never clamped and never stored.
pub trait Ranged: Sized {
    /// The bit pattern of the upper bound.
    spec fn max_bits() -> u32;

    /// The bit pattern that a value holds.
    spec fn bits(&self) -> u32;

    /// The value that holds the given bit pattern.
    spec fn with_bits(bits: u32) -> Self;

    /// A value is the bit pattern it holds, and nothing else.
    proof fn lemma_bits(bits: u32, other: Self)
        ensures
            Self::with_bits(bits).bits() == bits,
            Self::with_bits(other.bits()) == other,
    ;

    /// The upper bound is a finite number, and not a negative one.
    proof fn lemma_max_is_finite()
        ensures
            Self::max_bits() < INFINITY,
    ;

    /// Makes a value from a bit pattern, or refuses a pattern outside the range.
    fn new(bits: u32) -> (made: Option<Self>)
        ensures
            made == if within(bits, Self::max_bits()) {
                Some(Self::with_bits(bits))
            } else {
                None
            },
    ;

    /// The bit pattern of the value, which lies in the range.
    fn to_bits(&self) -> (bits: u32)
        ensures
            bits == self.bits(),
            within(bits, Self::max_bits()),
    ;
}

/// Whether a value respects the bound of its type. Every value that executable
/// code can hold does.
pub open spec fn in_range<T: Ranged>(value: T) -> bool {
    within(value.bits(), T::max_bits())
}

/// The ranged value that four wire bytes stand for, if they stand for one.
pub open spec fn ranged_of_bytes<T: Ranged>(value: Seq<u8>) -> Result<T, DecodeError>
    recommends
        value.len() >= 4,
{
    if within(le_u32(value) as u32, T::max_bits()) {
        Ok(T::with_bits(le_u32(value) as u32))
    } else {
        Err(DecodeError::MalformedValue)
    }
}

/// Every pattern in a range stands for a finite number: the infinities and the
/// NaNs lie outside every range.
pub proof fn lemma_in_range_is_finite<T: Ranged>(bits: u32)
    requires
        within(bits, T::max_bits()),
    ensures
        is_finite(bits),
{
    T::lemma_max_is_finite();
    let max = T::max_bits();
    assert(max < 0x7f80_0000 && (bits <= max || bits == 0x8000_0000) ==> bits & 0x7f80_0000
        != 0x7f80_0000) by (bit_vector);
}

/// What decodes respects the bound, and holds the pattern that the bytes spell.
pub proof fn lemma_ranged_of_bytes<T: Ranged>(value: Seq<u8>)
    requires
        value.len() == 4,
    ensures
        ranged_of_bytes::<T>(value) matches Ok(v) ==> in_range(v) && le_bytes(v.bits()) == value,
        ranged_of_bytes::<T>(value) is Ok <==> within(le_u32(value) as u32, T::max_bits()),
{
    lemma_le_bytes_of_le_u32(value);
    T::lemma_bits(le_u32(value) as u32, T::with_bits(0));
}

/// Encoding a ranged value and decoding the bytes gives the value back.
pub proof fn lemma_ranged_round_trip<T: Ranged>(value: T)
    requires
        in_range(value),
    ensures
        ranged_of_bytes::<T>(le_bytes(value.bits())) == Ok::<T, DecodeError>(value),
{
    lemma_le_u32_of_le_bytes(value.bits());
    T::lemma_bits(0, value);
}

/// Encoding a flag and decoding the bytes gives the flag back.
pub proof fn lemma_bool_round_trip(flag: bool)
    ensures
        bool_of_bytes(bool_bytes(flag)) == Ok::<bool, DecodeError>(flag),
{
}

/// Decodes a ranged value. Four bytes whose pattern lies outside the range,
/// which includes every infinity and NaN, are malformed.
pub fn read_value<T: Ranged>(value: &BeacnValue) -> (read: Result<T, DecodeError>)
    ensures
        read == ranged_of_bytes::<T>(value@),
{
    match T::new(read_bits(value)) {
        Some(v) => Ok(v),
        None => Err(DecodeError::MalformedValue),
    }
}

/// Encodes a ranged value: its bit pattern, least significant byte first.
pub fn write_value<T: Ranged>(value: &T) -> (bytes: BeacnValue)
    ensures
        bytes@ == le_bytes(value.bits()),
{
    write_bits(value.to_bits())
}

/// A share between 0 and 100.
#[derive(Copy, Clone, Debug, PartialEq, Eq, Structural)]
pub struct Percent {
    bits: u32,
}

/// The bit pattern of 100.
pub const PERCENT_MAX: u32 = 0x42C8_0000;

impl Percent {
    #[verifier::type_invariant]
    spec fn holds_bound(self) -> bool {
        within(self.bits, PERCENT_MAX)
    }
}

impl Ranged for Percent {
    open spec fn max_bits() -> u32 {
        PERCENT_MAX
    }

    closed spec fn bits(&self) -> u32 {
        self.bits
    }

    closed spec fn with_bits(bits: u32) -> Self {
        Percent { bits }
    }

    proof fn lemma_bits(bits: u32, other: Self) {
    }

    proof fn lemma_max_is_finite() {
    }

    fn new(bits: u32) -> (made: Option<Self>) {
        if bits <= PERCENT_MAX || bits == NEGATIVE_ZERO {
            Some(Percent { bits })
        } else {
            None
        }
    }

    fn to_bits(&self) -> (bits: u32) {
        proof {
            use_type_invariant(self);
        }
        self.bits
    }
}

} // verus!
