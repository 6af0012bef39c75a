//! Bit fields of 32-bit registers and the little-endian byte order of words.
use vstd::prelude::*;

verus! {

/// The bits `msb..=lsb` of `value`, moved down to bit 0.
pub open spec fn field(value: u32, msb: u32, lsb: u32) -> u32 {
    (value >> lsb) & (0xFFFF_FFFFu32 >> ((31 - msb + lsb) as u32))
}

/// Whether bit `bit` of `value` is set.
pub open spec fn flag(value: u32, bit: u32) -> bool {
    (value >> bit) & 1 == 1
}

/// What shifting the bits above `msb` out to the left and then the bits
/// below `lsb` out to the right leaves of `value`.
pub open spec fn shifted_out(value: u32, msb: u32, lsb: u32) -> u32 {
    (value << ((31 - msb) as u32)) >> ((31 - msb + lsb) as u32)
}

/// Shifting out the bits around a field leaves the field.
pub proof fn lemma_shifted_out_is_field(value: u32, msb: u32, lsb: u32)
    requires
        lsb <= msb < 32,
    ensures
        shifted_out(value, msb, lsb) == field(value, msb, lsb),
        shifted_out(value, msb, msb) != 0 <==> flag(value, msb),
{
    let up = (31 - msb) as u32;
    let down = (31 - msb + lsb) as u32;
    assert((value << up) >> down == (value >> lsb) & (0xFFFF_FFFFu32 >> down)) by (bit_vector)
        requires
            up < 32,
            lsb <= down < 32,
            down == up + lsb,
    ;
    assert(((value << up) >> 31) != 0 <==> (value >> msb) & 1 == 1) by (bit_vector)
        requires
            msb < 32,
            up == 31 - msb,
    ;
}

/// Calls `bit_range` of `bitfield::BitRange<u32>` on a `u32`. That
/// function shifts the word left until bit `msb` is the top bit, then right
/// until bit `lsb` is bit 0; the contract states those two shifts.
#[verifier::external_body]
fn bit_range_u32(value: u32, msb: u32, lsb: u32) -> (r: u32)
    requires
        lsb <= msb < 32,
    ensures
        r == shifted_out(value, msb, lsb),
{
    bitfield::BitRange::<u32>::bit_range(&value, msb as usize, lsb as usize)
}

/// Calls `bit` of `bitfield::Bit` on a `u32`. That function takes the
/// one-bit range at `bit` as a `u8` and answers whether it is not zero.
#[verifier::external_body]
fn bit_u32(value: u32, bit: u32) -> (r: bool)
    requires
        bit < 32,
    ensures
        r == (shifted_out(value, bit, bit) != 0),
{
    bitfield::Bit::bit(&value, bit as usize)
}

/// Reads the field `msb..=lsb` of a register value.
pub fn get_field(value: u32, msb: u32, lsb: u32) -> (r: u32)
    requires
        lsb <= msb < 32,
    ensures
        r == field(value, msb, lsb),
{
    proof {
        lemma_shifted_out_is_field(value, msb, lsb);
    }
    bit_range_u32(value, msb, lsb)
}

/// Reads one bit of a register value.
pub fn get_flag(value: u32, bit: u32) -> (r: bool)
    requires
        bit < 32,
    ensures
        r == flag(value, bit),
{
    proof {
        lemma_shifted_out_is_field(value, bit, bit);
    }
    bit_u32(value, bit)
}

/// The bits `msb..=lsb` of a word, set.
pub open spec fn field_mask(msb: u32, lsb: u32) -> u32 {
    (0xFFFF_FFFFu32 >> ((31 - msb + lsb) as u32)) << lsb
}

/// The word with its bits `msb..=lsb` replaced by the low bits of `value`.
pub open spec fn with_field(word: u32, msb: u32, lsb: u32, value: u32) -> u32 {
    (word & !field_mask(msb, lsb)) | ((value << lsb) & field_mask(msb, lsb))
}

/// The word with bit `bit` set or cleared.
pub open spec fn with_flag(word: u32, bit: u32, value: bool) -> u32 {
    with_field(
        word,
        bit,
        bit,
        if value {
            1
        } else {
            0
        },
    )
}

/// What the bits `msb..=lsb` are after all bits were set, the bits above
/// `msb` shifted out to the left, then the bits below `lsb` shifted out to
/// the right, and the rest shifted back to its place.
pub open spec fn shifted_mask(msb: u32, lsb: u32) -> u32 {
    ((0xFFFF_FFFFu32 << ((31 - msb) as u32)) >> ((31 - msb + lsb) as u32)) << lsb
}

/// What clearing the bits of `shifted_mask` in a word and setting
/// those of them that are set in `value`, shifted to their place, leaves.
pub open spec fn replaced(word: u32, msb: u32, lsb: u32, value: u32) -> u32 {
    (word & !shifted_mask(msb, lsb)) | ((value << lsb) & shifted_mask(msb, lsb))
}

/// Shifting the set bits out around a field leaves the mask of the field.
pub proof fn lemma_replaced_is_with_field(word: u32, msb: u32, lsb: u32, value: u32)
    requires
        lsb <= msb < 32,
    ensures
        shifted_mask(msb, lsb) == field_mask(msb, lsb),
        replaced(word, msb, lsb, value) == with_field(word, msb, lsb, value),
{
    let up = (31 - msb) as u32;
    let down = (31 - msb + lsb) as u32;
    assert(((0xFFFF_FFFFu32 << up) >> down) << lsb == (0xFFFF_FFFFu32 >> down) << lsb)
        by (bit_vector)
        requires
            up < 32,
            lsb <= down < 32,
            down == up + lsb,
    ;
}

/// A field that was written reads back as the bits of the value that
/// fit it, every bit outside the field is as it was, and writing back
/// what a field holds changes nothing.
pub proof fn lemma_field_written(word: u32, msb: u32, lsb: u32, value: u32)
    requires
        lsb <= msb < 32,
    ensures
        field(with_field(word, msb, lsb, value), msb, lsb) == value & (0xFFFF_FFFFu32 >> ((31
            - msb + lsb) as u32)),
        with_field(word, msb, lsb, value) & !field_mask(msb, lsb) == word & !field_mask(msb, lsb),
        with_field(word, msb, lsb, field(word, msb, lsb)) == word,
{
    let down = (31 - msb + lsb) as u32;
    let mask = (0xFFFF_FFFFu32 >> down) << lsb;
    let written = (word & !mask) | ((value << lsb) & mask);
    let same = (word & !mask) | ((((word >> lsb) & (0xFFFF_FFFFu32 >> down)) << lsb) & mask);
    assert((written >> lsb) & (0xFFFF_FFFFu32 >> down) == value & (0xFFFF_FFFFu32 >> down)
        && written & !mask == word & !mask && same == word) by (bit_vector)
        requires
            lsb <= down < 32,
            mask == (0xFFFF_FFFFu32 >> down) << lsb,
            written == (word & !mask) | ((value << lsb) & mask),
            same == (word & !mask) | ((((word >> lsb) & (0xFFFF_FFFFu32 >> down)) << lsb)
                & mask),
    ;
}

/// A bit that was written reads back as it was written.
pub proof fn lemma_flag_written(word: u32, bit: u32, value: bool)
    requires
        bit < 32,
    ensures
        flag(with_flag(word, bit, value), bit) == value,
{
    let v = if value {
        1u32
    } else {
        0u32
    };
    let mask = (0xFFFF_FFFFu32 >> 31u32) << bit;
    let written = (word & !mask) | ((v << bit) & mask);
    assert(((written >> bit) & 1 == 1) == (v == 1)) by (bit_vector)
        requires
            bit < 32,
            v <= 1,
            mask == (0xFFFF_FFFFu32 >> 31u32) << bit,
            written == (word & !mask) | ((v << bit) & mask),
    ;
}

/// Calls `set_bit_range` of `bitfield::BitRangeMut<u32>` on a `u32`.
/// That function makes the mask of the field by shifting the set bits, as
/// `shifted_mask` tells, clears the bits of the mask in the word and sets
/// those of them that are set in the value shifted to its place.
#[verifier::external_body]
fn set_bit_range_u32(word: u32, msb: u32, lsb: u32, value: u32) -> (r: u32)
    requires
        lsb <= msb < 32,
    ensures
        r == replaced(word, msb, lsb, value),
{
    let mut word = word;
    bitfield::BitRangeMut::<u32>::set_bit_range(&mut word, msb as usize, lsb as usize, value);
    word
}

/// Calls `set_bit` of `bitfield::BitMut` on a `u32`. That function
/// writes the one-bit range at `bit` with 1 for `true` and 0 for `false`.
#[verifier::external_body]
fn set_bit_u32(word: u32, bit: u32, value: bool) -> (r: u32)
    requires
        bit < 32,
    ensures
        r == replaced(
            word,
            bit,
            bit,
            if value {
                1
            } else {
                0
            },
        ),
{
    let mut word = word;
    bitfield::BitMut::set_bit(&mut word, bit as usize, value);
    word
}

/// Writes the field `msb..=lsb` of a register value.
pub fn put_field(word: u32, msb: u32, lsb: u32, value: u32) -> (r: u32)
    requires
        lsb <= msb < 32,
    ensures
        r == with_field(word, msb, lsb, value),
{
    proof {
        lemma_replaced_is_with_field(word, msb, lsb, value);
    }
    set_bit_range_u32(word, msb, lsb, value)
}

/// Writes one bit of a register value.
pub fn put_flag(word: u32, bit: u32, value: bool) -> (r: u32)
    requires
        bit < 32,
    ensures
        r == with_flag(word, bit, value),
{
    proof {
        lemma_replaced_is_with_field(
            word,
            bit,
            bit,
            if value {
                1
            } else {
                0
            },
        );
    }
    set_bit_u32(word, bit, value)
}

/// The four bytes of a word, least significant first.
pub open spec fn le_bytes(word: u32) -> Seq<u8> {
    seq![
        (word & 0xff) as u8,
        ((word >> 8) & 0xff) as u8,
        ((word >> 16) & 0xff) as u8,
        ((word >> 24) & 0xff) as u8,
    ]
}

/// The word whose least significant byte is `bytes[0]`, and so on up to `bytes[3]`.
pub open spec fn le_word(bytes: Seq<u8>) -> u32
    recommends
        bytes.len() >= 4,
{
    (bytes[0] as u32) | (bytes[1] as u32) << 8 | (bytes[2] as u32) << 16 | (bytes[3] as u32) << 24
}

/// Reading back the bytes of a word gives the word.
pub proof fn lemma_le_round_trip(word: u32)
    ensures
        le_bytes(word).len() == 4,
        le_word(le_bytes(word)) == word,
{
    let b0 = (word & 0xff) as u8;
    let b1 = ((word >> 8) & 0xff) as u8;
    let b2 = ((word >> 16) & 0xff) as u8;
    let b3 = ((word >> 24) & 0xff) as u8;
    assert((b0 as u32) | (b1 as u32) << 8 | (b2 as u32) << 16 | (b3 as u32) << 24 == word)
        by (bit_vector)
        requires
            b0 == (word & 0xff) as u8,
            b1 == ((word >> 8) & 0xff) as u8,
            b2 == ((word >> 16) & 0xff) as u8,
            b3 == ((word >> 24) & 0xff) as u8,
    ;
}

/// The bytes of a word, least significant first.
pub fn word_to_le_bytes(word: u32) -> (bytes: [u8; 4])
    ensures
        bytes@ == le_bytes(word),
{
    assert(word & 0xff < 256 && (word >> 8) & 0xff < 256 && (word >> 16) & 0xff < 256 && (word
        >> 24) & 0xff < 256) by (bit_vector);
    let bytes = [
        (word & 0xff) as u8,
        ((word >> 8) & 0xff) as u8,
        ((word >> 16) & 0xff) as u8,
        ((word >> 24) & 0xff) as u8,
    ];
    assert(bytes@ =~= le_bytes(word));
    bytes
}

/// The word that the first four of `bytes` hold, least significant first.
pub fn word_from_le_bytes(bytes: &[u8]) -> (word: u32)
    requires
        bytes@.len() >= 4,
    ensures
        word == le_word(bytes@),
{
    (bytes[0] as u32) | (bytes[1] as u32) << 8 | (bytes[2] as u32) << 16 | (bytes[3] as u32) << 24
}

} // verus!
