//! Packed-BCD codec: conversions between a decimal value in [0, 99] and
//! the byte that stores its tens digit in the high nibble and its units
//! digit in the low nibble.

use vstd::prelude::*;

use crate::error::Error;

verus! {

/// The decimal value a packed-BCD byte stands for: ten times its high
/// nibble plus its low nibble.
pub open spec fn spec_bcd_decode(b: int) -> int {
    10 * (b / 16) + b % 16
}

/// The packed-BCD byte for a decimal value: the tens digit in the high
/// nibble, the units digit in the low nibble.
pub open spec fn spec_bcd_encode(v: int) -> int {
    16 * (v / 10) + v % 10
}

/// Decodes a packed-BCD register byte.
///
/// Every byte decodes to some value: nibbles above 9 are not rejected,
/// matching raw register semantics, so the result can exceed 99.
pub fn bcd_decode(x: u8) -> (r: u32)
    ensures
        r == spec_bcd_decode(x as int),
        r <= 165,
{
    let tens: u8 = (x & 0xF0) >> 4;
    let units: u8 = x & 0x0F;
    proof {
        assert((x & 0xF0) >> 4 == x / 16 && x & 0x0F == x % 16) by (bit_vector);
    }
    (tens as u32) * 10 + (units as u32)
}

/// Encodes a decimal value as a packed-BCD register byte.
///
/// A value of 100 or more does not fit two decimal digits and is
/// refused with a domain violation; this is the single validation
/// boundary guarding against malformed register writes.
pub fn bcd_encode<E>(x: u32) -> (r: Result<u8, Error<E>>)
    ensures
        x < 100 ==> r == Ok::<u8, Error<E>>(spec_bcd_encode(x as int) as u8),
        x >= 100 ==> r == Err::<u8, Error<E>>(Error::<E>::DomainViolation),
{
    if x >= 100 {
        return Err(Error::DomainViolation);
    }
    let lower: u32 = x % 10;
    let upper: u32 = x / 10;
    let b: u32 = lower | (upper << 4);
    proof {
        assert(x < 100 ==> (x % 10) | ((x / 10) << 4) == 16 * (x / 10) + x % 10 < 256)
            by (bit_vector);
    }
    Ok(b as u8)
}

/// Decoding the encoding of any value in [0, 99] gives the value back.
pub proof fn lemma_bcd_round_trip(v: int)
    requires
        0 <= v < 100,
    ensures
        spec_bcd_decode(spec_bcd_encode(v)) == v,
{
    let t = v / 10;
    let u = v % 10;
    assert(0 <= t <= 9 && 0 <= u <= 9);
    assert((16 * t + u) / 16 == t && (16 * t + u) % 16 == u) by (nonlinear_arith)
        requires
            0 <= t <= 9 && 0 <= u <= 9,
    ;
}

/// Encoding the decoding of a byte gives the byte back whenever both of
/// its nibbles are decimal digits. Bytes with a nibble above 9 are
/// outside this guarantee, since decoding accepts them without loss
/// being avoidable.
pub proof fn lemma_bcd_byte_round_trip(b: int)
    requires
        0 <= b < 256,
        b / 16 <= 9,
        b % 16 <= 9,
    ensures
        spec_bcd_encode(spec_bcd_decode(b)) == b,
{
    let h = b / 16;
    let l = b % 16;
    assert((10 * h + l) / 10 == h && (10 * h + l) % 10 == l) by (nonlinear_arith)
        requires
            0 <= h <= 9 && 0 <= l <= 9,
    ;
}

} // verus!
