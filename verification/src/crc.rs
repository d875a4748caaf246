//! The shift register shared by the CRCs of the sensors: a 16-bit register
//! shifted most significant bit first.
use vstd::prelude::*;

verus! {

/// One shift of the register: shift left by one, and XOR in the polynomial
/// when the bit shifted out was set.
pub open spec fn crc_shift(rem: u16, poly: u16) -> u16 {
    if rem & 0x8000 != 0 {
        (rem << 1u16) ^ poly
    } else {
        rem << 1u16
    }
}

/// `n` shifts of the register.
pub open spec fn crc_shift_n(rem: u16, poly: u16, n: nat) -> u16
    decreases n,
{
    if n == 0 {
        rem
    } else {
        crc_shift(crc_shift_n(rem, poly, (n - 1) as nat), poly)
    }
}

/// Shifts the register eight times, for one byte.
pub fn shift_byte(rem: u16, poly: u16) -> (r: u16)
    ensures
        r == crc_shift_n(rem, poly, 8),
{
    let mut r = rem;
    let mut i: u32 = 0;
    while i < 8
        invariant
            i <= 8,
            r == crc_shift_n(rem, poly, i as nat),
        decreases 8 - i,
    {
        if r & 0x8000 != 0 {
            r = (r << 1u16) ^ poly;
        } else {
            r = r << 1u16;
        }
        i = i + 1;
    }
    r
}

} // verus!
