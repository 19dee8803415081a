//! Control of the periodic interrupt of a CMOS real-time clock.
//!
//! The chip is reached through two byte ports: writing a register number to
//! the index port selects a register, and the data port then reads or writes
//! it. Every operation here is stated as the exact sequence of port accesses
//! it makes through an [`Rtc`], over any implementation of [`RtcPorts`].
pub mod chip;
pub mod divider;
pub mod laws;
pub mod ports;
pub mod registers;
pub mod rtc;

pub use chip::{ChipState, SimulatedRtc};
pub use divider::{DividerValue, MAX_DIVIDER, MIN_DIVIDER};
pub use ports::{disable, enable, read_register_c, set_divider_value};
pub use rtc::{PortAccess, Rtc, RtcPorts};
pub use registers::{
    disabled_register_b, enabled_register_b, register_a_with_rate, NMI_DISABLE,
    PERIODIC_INTERRUPT_ENABLE, RATE_MASK, REGISTER_A, REGISTER_A_INDEX, REGISTER_B,
    REGISTER_B_INDEX, REGISTER_C, REGISTER_C_INDEX,
};
