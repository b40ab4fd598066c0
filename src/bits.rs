use vstd::prelude::*;

verus! {

/// Replacing the low byte of an 11-bit timer period keeps it within 11 bits.
pub proof fn lemma_timer_low(period: u16, v: u8)
    requires
        period <= 0x7FF,
    ensures
        ((period & 0x700) | (v as u16)) <= 0x7FF,
{
    assert(((period & 0x700) | (v as u16)) <= 0x7FF) by (bit_vector)
        requires
            period <= 0x7FF,
    ;
}

/// Replacing the high three bits of a timer period keeps it within 11 bits.
pub proof fn lemma_timer_high(period: u16, v: u8)
    ensures
        ((period & 0xFF) | (((v & 7) as u16) << 8u16)) <= 0x7FF,
{
    assert(((period & 0xFF) | (((v & 7) as u16) << 8u16)) <= 0x7FF) by (bit_vector);
}

/// The top two bits of a byte select one of four values.
pub proof fn lemma_top_two_bits(v: u8)
    ensures
        v >> 6u8 <= 3,
{
    assert(v >> 6u8 <= 3) by (bit_vector);
}

} // verus!
