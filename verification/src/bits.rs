//! Small bit-level facts shared by the flag algebra, the banking logic and
//! the timer.  Each lemma relates a bitwise form used by the executable code
//! to the arithmetic form used by the contracts.

use vstd::prelude::*;

verus! {

/// The low nibble of a byte is its remainder modulo 16.
pub proof fn lemma_low_nibble(a: u8)
    ensures
        a & 0x0F == a % 16,
{
    assert(a & 0x0F == a % 16) by (bit_vector);
}

/// The low byte and the high byte of a 16-bit value are its remainder and
/// quotient by 256.
pub proof fn lemma_u16_bytes(x: u16)
    ensures
        x & 0xFF == x % 256,
        x >> 8 == x / 256,
        x >> 8 < 256,
{
    assert(x & 0xFF == x % 256 && x >> 8 == x / 256 && x >> 8 < 256) by (bit_vector);
}

/// The low 12 bits of a 16-bit value are its remainder modulo 4096.
pub proof fn lemma_low_12(x: u16)
    ensures
        x & 0x0FFF == x % 4096,
{
    assert(x & 0x0FFF == x % 4096) by (bit_vector);
}

} // verus!
