//! The chip's two ports, and the record of every access made through them.
//!
//! The history of an `Rtc` is private to this module: it grows only through
//! the three access methods below, each of which makes the access it records.
use vstd::prelude::*;

verus! {

/// One access to the chip's ports.
#[derive(PartialEq, Eq, Structural, Clone, Copy, Debug)]
pub enum PortAccess {
    /// A byte written to the index port, selecting a register.
    IndexWrite(u8),
    /// A byte read from the data port.
    DataRead(u8),
    /// A byte written to the data port.
    DataWrite(u8),
}

/// The index port and the data port of the chip.
///
/// Nothing is assumed of an implementation: a read may return any byte.
pub trait RtcPorts {
    /// Writes `value` to the index port.
    fn write_index(&mut self, value: u8);

    /// Reads a byte from the data port.
    fn read_data(&mut self) -> u8;

    /// Writes `value` to the data port.
    fn write_data(&mut self, value: u8);
}

/// Ports together with the history of every access made through them by
/// this crate, oldest first.
pub struct Rtc<P: RtcPorts> {
    ports: P,
    history: Ghost<Seq<PortAccess>>,
}

impl<P: RtcPorts> Rtc<P> {
    /// The accesses made so far, oldest first.
    pub closed spec fn accesses(&self) -> Seq<PortAccess> {
        self.history@
    }

    /// The ports.
    pub closed spec fn inner(&self) -> P {
        self.ports
    }

    /// Takes over `ports`, with an empty history.
    pub fn new(ports: P) -> (r: Self)
        ensures
            r.inner() == ports,
            r.accesses() == Seq::<PortAccess>::empty(),
    {
        Rtc { ports, history: Ghost(Seq::empty()) }
    }

    /// The ports, to look at.
    pub fn ports(&self) -> (r: &P)
        ensures
            *r == self.inner(),
    {
        &self.ports
    }

    /// Writes `value` to the index port and records the access.
    pub(crate) fn write_index(&mut self, value: u8)
        ensures
            final(self).accesses() == old(self).accesses().push(PortAccess::IndexWrite(value)),
    {
        self.ports.write_index(value);
        self.history = Ghost(self.history@.push(PortAccess::IndexWrite(value)));
    }

    /// Reads the data port and records the access with the byte read.
    pub(crate) fn read_data(&mut self) -> (r: u8)
        ensures
            final(self).accesses() == old(self).accesses().push(PortAccess::DataRead(r)),
    {
        let r = self.ports.read_data();
        self.history = Ghost(self.history@.push(PortAccess::DataRead(r)));
        r
    }

    /// Writes `value` to the data port and records the access.
    pub(crate) fn write_data(&mut self, value: u8)
        ensures
            final(self).accesses() == old(self).accesses().push(PortAccess::DataWrite(value)),
    {
        self.ports.write_data(value);
        self.history = Ghost(self.history@.push(PortAccess::DataWrite(value)));
    }
}

} // verus!
