//! Register numbers, index bytes and the bit fields this crate touches.
use vstd::prelude::*;

verus! {

/// Number of status register A; its low four bits hold the rate divider.
pub const REGISTER_A: u8 = 0x0A;

/// Number of status register B; bit 6 enables the periodic interrupt.
pub const REGISTER_B: u8 = 0x0B;

/// Number of status register C; reading it acknowledges pending interrupts.
pub const REGISTER_C: u8 = 0x0C;

/// Top bit of an index byte: keeps non-maskable interrupts off while set.
pub const NMI_DISABLE: u8 = 0x80;

/// Index byte that selects register A with non-maskable interrupts disabled.
pub const REGISTER_A_INDEX: u8 = REGISTER_A | NMI_DISABLE;

/// Index byte that selects register B with non-maskable interrupts disabled.
pub const REGISTER_B_INDEX: u8 = REGISTER_B | NMI_DISABLE;

/// Index byte that selects register C; the register is only read.
pub const REGISTER_C_INDEX: u8 = REGISTER_C;

/// Bit 6 of register B: the periodic interrupt enable flag.
pub const PERIODIC_INTERRUPT_ENABLE: u8 = 0x40;

/// The low four bits of register A: the rate divider.
pub const RATE_MASK: u8 = 0x0F;

/// Register B with the periodic interrupt flag set and every other bit kept.
pub open spec fn with_periodic_enabled(b: u8) -> u8 {
    b | PERIODIC_INTERRUPT_ENABLE
}

/// Register B with the periodic interrupt flag cleared and every other bit kept.
pub open spec fn with_periodic_disabled(b: u8) -> u8 {
    b & !PERIODIC_INTERRUPT_ENABLE
}

/// Register A with its low four bits replaced by `rate` and its high four kept.
pub open spec fn with_rate(a: u8, rate: u8) -> u8 {
    (a & !RATE_MASK) | (rate & RATE_MASK)
}

/// Whether the periodic interrupt flag is set in a value of register B.
pub open spec fn periodic_enabled(b: u8) -> bool {
    b & PERIODIC_INTERRUPT_ENABLE != 0
}

/// The value to write back to register B to turn the periodic interrupt on.
pub fn enabled_register_b(previous: u8) -> (r: u8)
    ensures
        r == with_periodic_enabled(previous),
        periodic_enabled(r),
        r & !PERIODIC_INTERRUPT_ENABLE == previous & !PERIODIC_INTERRUPT_ENABLE,
{
    let r = previous | PERIODIC_INTERRUPT_ENABLE;
    assert(r & 0x40u8 != 0 && r & !0x40u8 == previous & !0x40u8) by (bit_vector)
        requires
            r == previous | 0x40u8,
    ;
    r
}

/// The value to write back to register B to turn the periodic interrupt off.
pub fn disabled_register_b(previous: u8) -> (r: u8)
    ensures
        r == with_periodic_disabled(previous),
        !periodic_enabled(r),
        r & !PERIODIC_INTERRUPT_ENABLE == previous & !PERIODIC_INTERRUPT_ENABLE,
{
    let r = previous & !PERIODIC_INTERRUPT_ENABLE;
    assert(r & 0x40u8 == 0 && r & !0x40u8 == previous & !0x40u8) by (bit_vector)
        requires
            r == previous & !0x40u8,
    ;
    r
}

/// The value to write back to register A to program the divider `rate`.
pub fn register_a_with_rate(previous: u8, rate: u8) -> (r: u8)
    requires
        rate <= RATE_MASK,
    ensures
        r == with_rate(previous, rate),
        r & RATE_MASK == rate,
        r & !RATE_MASK == previous & !RATE_MASK,
{
    let r = (previous & !RATE_MASK) | rate;
    assert(r & 0x0Fu8 == rate && r & !0x0Fu8 == previous & !0x0Fu8
        && r == (previous & !0x0Fu8) | (rate & 0x0Fu8)) by (bit_vector)
        requires
            r == (previous & !0x0Fu8) | rate,
            rate <= 0x0Fu8,
    ;
    r
}

} // verus!
