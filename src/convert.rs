use vstd::prelude::*;

verus! {

/// Millikelvin represented by one step of a raw register value (0.02 K).
pub const MILLIKELVIN_PER_STEP: u32 = 20;

/// The largest temperature a register can report: 65535 steps, 1310.7 K.
pub const MAX_MILLIKELVIN: u32 = 1310700;

/// The 16-bit value held by two bytes read low byte first.
pub open spec fn raw_of(b: [u8; 2]) -> int {
    b@[1] as int * 256 + b@[0] as int
}

/// The temperature, in millikelvin, that two register bytes stand for.
pub open spec fn millikelvin_of(b: [u8; 2]) -> int {
    20 * raw_of(b)
}

/// Kelvin to Celsius, both in thousandths of a degree: `k - 273.15`.
pub open spec fn celcius_of(k: int) -> int {
    k - 273150
}

/// Kelvin to Fahrenheit, both in thousandths of a degree:
/// `1.8 * (k - 273.15) + 32`, rounded down to a whole millidegree.
pub open spec fn fahrenheit_of(k: int) -> int {
    (9 * celcius_of(k) + 160000) / 5
}

/// Combines two bytes, low byte first, into an unsigned 16-bit value.
pub fn raw_value(val: [u8; 2]) -> (r: u16)
    ensures
        r == raw_of(val),
{
    let hi: u16 = val[1] as u16;
    let lo: u16 = val[0] as u16;
    let r: u16 = (hi << 8u16) | lo;
    assert(r == hi * 256 + lo) by (bit_vector)
        requires
            hi < 256,
            lo < 256,
            r == (hi << 8u16) | lo,
    ;
    r
}

/// Decodes the two bytes of a temperature register into millikelvin.
pub fn convert(val: [u8; 2]) -> (r: u32)
    ensures
        r == millikelvin_of(val),
        r <= MAX_MILLIKELVIN,
        r % 20 == 0,
{
    let raw: u16 = raw_value(val);
    raw as u32 * MILLIKELVIN_PER_STEP
}

/// Converts millikelvin to millidegrees Celsius.
pub fn kelvin_to_celcius(k: u32) -> (r: i64)
    ensures
        r == celcius_of(k as int),
{
    k as i64 - 273150
}

/// Converts millikelvin to millidegrees Fahrenheit, rounding down to a
/// whole millidegree; the result is exact when `k` is a multiple of 5.
pub fn kelvin_to_fahrenheit(k: u32) -> (r: i64)
    ensures
        r == fahrenheit_of(k as int),
        5 * r <= 9 * celcius_of(k as int) + 160000 < 5 * r + 5,
        k % 5 == 0 ==> 5 * r == 9 * celcius_of(k as int) + 160000,
{
    let scaled: u64 = 9 * (k as u64) / 5;
    let r: i64 = scaled as i64 - 459670;
    assert(r == fahrenheit_of(k as int)) by {
        assert(9 * celcius_of(k as int) + 160000 == 9 * k - 5 * 459670);
        assert((9 * k - 5 * 459670) / 5 == (9 * k) / 5 - 459670) by (nonlinear_arith);
    }
    r
}

} // verus!
