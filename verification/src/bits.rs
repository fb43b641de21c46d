//! Splitting a fingerprint byte into the four two-bit codes that steer the walk.

use vstd::prelude::*;

verus! {

/// A two-bit step code. The first letter is the high bit, the second the low
/// bit: `ZO` is binary 01.
#[derive(Debug, Clone, Copy, PartialEq, Eq, Structural)]
pub enum Bits {
    ZZ,
    ZO,
    OZ,
    OO,
}

impl Bits {
    /// The number in 0..=3 that the two bits spell.
    pub open spec fn code(self) -> u8 {
        match self {
            Bits::ZZ => 0,
            Bits::ZO => 1,
            Bits::OZ => 2,
            Bits::OO => 3,
        }
    }

    /// The code with the given number; numbers above 3 have no code.
    pub open spec fn with_code(code: u8) -> Bits
        recommends
            code < 4,
    {
        if code == 0 {
            Bits::ZZ
        } else if code == 1 {
            Bits::ZO
        } else if code == 2 {
            Bits::OZ
        } else {
            Bits::OO
        }
    }

    /// The four codes of a byte, least significant pair first.
    pub open spec fn of_byte(byte: u8) -> Seq<Bits> {
        seq![
            Bits::with_code(byte & 3),
            Bits::with_code((byte >> 2) & 3),
            Bits::with_code((byte >> 4) & 3),
            Bits::with_code((byte >> 6) & 3),
        ]
    }

    /// The byte whose pairs, least significant first, are the four given numbers.
    pub open spec fn join(c0: u8, c1: u8, c2: u8, c3: u8) -> u8 {
        c0 | (c1 << 2) | (c2 << 4) | (c3 << 6)
    }

    /// Turns a number below 4 into its code.
    pub fn from_bits(bits: u8) -> (code: Bits)
        requires
            bits < 4,
        ensures
            code == Bits::with_code(bits),
            code.code() == bits,
    {
        if bits == 0 {
            Bits::ZZ
        } else if bits == 1 {
            Bits::ZO
        } else if bits == 2 {
            Bits::OZ
        } else {
            Bits::OO
        }
    }

    /// Splits a byte into its four codes, least significant pair first.
    pub fn from_byte(byte: u8) -> (codes: [Bits; 4])
        ensures
            codes@ == Bits::of_byte(byte),
            Bits::join(codes[0].code(), codes[1].code(), codes[2].code(), codes[3].code()) == byte,
    {
        proof {
            lemma_pairs_below_four(byte);
            lemma_split_join(byte);
        }
        let codes = [
            Bits::from_bits(byte & 3),
            Bits::from_bits((byte >> 2) & 3),
            Bits::from_bits((byte >> 4) & 3),
            Bits::from_bits((byte >> 6) & 3),
        ];
        assert(codes@ =~= Bits::of_byte(byte));
        codes
    }
}

/// Every pair of bits of a byte is a number below 4.
pub proof fn lemma_pairs_below_four(byte: u8)
    ensures
        byte & 3 < 4,
        (byte >> 2) & 3 < 4,
        (byte >> 4) & 3 < 4,
        (byte >> 6) & 3 < 4,
{
    assert(byte & 3 < 4) by (bit_vector);
    assert((byte >> 2) & 3 < 4) by (bit_vector);
    assert((byte >> 4) & 3 < 4) by (bit_vector);
    assert((byte >> 6) & 3 < 4) by (bit_vector);
}

/// Splitting a byte loses nothing: it yields exactly four codes, each spells
/// a number below 4, and joining those numbers gives the byte back.
pub proof fn lemma_split_join(byte: u8)
    ensures
        Bits::of_byte(byte).len() == 4,
        forall|k: int| 0 <= k < 4 ==> (#[trigger] Bits::of_byte(byte)[k]).code() < 4,
        Bits::join(
            Bits::of_byte(byte)[0].code(),
            Bits::of_byte(byte)[1].code(),
            Bits::of_byte(byte)[2].code(),
            Bits::of_byte(byte)[3].code(),
        ) == byte,
{
    lemma_pairs_below_four(byte);
    assert((byte & 3) | (((byte >> 2) & 3) << 2) | (((byte >> 4) & 3) << 4) | (((byte >> 6) & 3)
        << 6) == byte) by (bit_vector);
}

} // verus!
