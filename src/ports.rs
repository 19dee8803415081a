//! The register sequences of the four operations, driven through an `Rtc`.
use crate::divider::DividerValue;
use crate::registers::{
    disabled_register_b, enabled_register_b, register_a_with_rate, with_periodic_disabled,
    with_periodic_enabled, with_rate, REGISTER_A_INDEX, REGISTER_B_INDEX, REGISTER_C_INDEX,
};
use crate::rtc::{PortAccess, Rtc, RtcPorts};
use vstd::prelude::*;

verus! {

/// Read-modify-write of one register: select it, read it, select it again
/// (the read resets the chip's index), then write the new value.
pub open spec fn register_update(index: u8, previous: u8, next: u8) -> Seq<PortAccess> {
    seq![
        PortAccess::IndexWrite(index),
        PortAccess::DataRead(previous),
        PortAccess::IndexWrite(index),
        PortAccess::DataWrite(next),
    ]
}

/// The accesses of `enable` when register B held `previous`.
pub open spec fn enable_accesses(previous: u8) -> Seq<PortAccess> {
    register_update(REGISTER_B_INDEX, previous, with_periodic_enabled(previous))
}

/// The accesses of `disable` when register B held `previous`.
pub open spec fn disable_accesses(previous: u8) -> Seq<PortAccess> {
    register_update(REGISTER_B_INDEX, previous, with_periodic_disabled(previous))
}

/// The accesses of `set_divider_value` when register A held `previous`.
pub open spec fn set_divider_accesses(previous: u8, rate: u8) -> Seq<PortAccess> {
    register_update(REGISTER_A_INDEX, previous, with_rate(previous, rate))
}

/// The accesses of `read_register_c` when it read `status`.
pub open spec fn read_register_c_accesses(status: u8) -> Seq<PortAccess> {
    seq![PortAccess::IndexWrite(REGISTER_C_INDEX), PortAccess::DataRead(status)]
}

/// Turns the periodic interrupt on: sets bit 6 of register B, keeping the
/// other bits. The caller runs it with interrupts masked.
pub fn enable<P: RtcPorts>(rtc: &mut Rtc<P>)
    ensures
        exists|previous: u8|
            final(rtc).accesses() == old(rtc).accesses() + #[trigger] enable_accesses(
                previous,
            ),
{
    rtc.write_index(REGISTER_B_INDEX);
    let previous = rtc.read_data();
    rtc.write_index(REGISTER_B_INDEX);
    let next = enabled_register_b(previous);
    rtc.write_data(next);
    assert(rtc.accesses() =~= old(rtc).accesses() + enable_accesses(previous));
}

/// Turns the periodic interrupt off: clears bit 6 of register B, keeping the
/// other bits. The caller runs it with interrupts masked.
pub fn disable<P: RtcPorts>(rtc: &mut Rtc<P>)
    ensures
        exists|previous: u8|
            final(rtc).accesses() == old(rtc).accesses() + #[trigger] disable_accesses(
                previous,
            ),
{
    rtc.write_index(REGISTER_B_INDEX);
    let previous = rtc.read_data();
    rtc.write_index(REGISTER_B_INDEX);
    let next = disabled_register_b(previous);
    rtc.write_data(next);
    assert(rtc.accesses() =~= old(rtc).accesses() + disable_accesses(previous));
}

/// Acknowledges the pending interrupts by reading register C, and returns
/// the status byte read. Non-maskable interrupts are left enabled.
pub fn read_register_c<P: RtcPorts>(rtc: &mut Rtc<P>) -> (r: u8)
    ensures
        final(rtc).accesses() == old(rtc).accesses() + read_register_c_accesses(r),
{
    rtc.write_index(REGISTER_C_INDEX);
    let status = rtc.read_data();
    assert(rtc.accesses() =~= old(rtc).accesses() + read_register_c_accesses(status));
    status
}

/// Programs the rate of the periodic interrupt: replaces the low four bits
/// of register A by the divider, keeping the high four. The caller runs it
/// with interrupts masked.
pub fn set_divider_value<P: RtcPorts>(rtc: &mut Rtc<P>, divider_value: DividerValue)
    ensures
        exists|previous: u8|
            final(rtc).accesses() == old(rtc).accesses() + #[trigger] set_divider_accesses(
                previous,
                divider_value.rate(),
            ),
{
    rtc.write_index(REGISTER_A_INDEX);
    let previous = rtc.read_data();
    rtc.write_index(REGISTER_A_INDEX);
    let rate = divider_value.value();
    let next = register_a_with_rate(previous, rate);
    rtc.write_data(next);
    assert(rtc.accesses() =~= old(rtc).accesses() + set_divider_accesses(previous, rate));
}

} // verus!
