//! A model of the chip behind the ports, and a simulated chip built on it.
use crate::rtc::{PortAccess, RtcPorts};
use crate::registers::{NMI_DISABLE, REGISTER_A, REGISTER_B, REGISTER_C};
use vstd::prelude::*;

verus! {

/// Number of status register D, which the chip selects after each data read.
pub const REGISTER_D: u8 = 0x0D;

/// Mask of the register-number part of an index byte.
pub const REGISTER_NUMBER_MASK: u8 = 0x7F;

/// What the chip holds that the port accesses of this crate can see.
#[derive(PartialEq, Eq, Structural, Clone, Copy, Debug)]
pub struct ChipState {
    /// Number of the register the data port currently reaches.
    pub selected: u8,
    /// Whether the last index byte had its top bit set.
    pub nmi_disabled: bool,
    pub register_a: u8,
    pub register_b: u8,
    pub register_c: u8,
}

/// The byte a data read returns on `s`.
pub open spec fn data_read_result(s: ChipState) -> u8 {
    if s.selected == REGISTER_A {
        s.register_a
    } else if s.selected == REGISTER_B {
        s.register_b
    } else if s.selected == REGISTER_C {
        s.register_c
    } else {
        0
    }
}

/// The chip after one access. A data read moves the selection to register D
/// and clears register C when it read it; register C and D ignore writes.
pub open spec fn after_access(s: ChipState, a: PortAccess) -> ChipState {
    match a {
        PortAccess::IndexWrite(v) => ChipState {
            selected: v & REGISTER_NUMBER_MASK,
            nmi_disabled: v & NMI_DISABLE != 0,
            ..s
        },
        PortAccess::DataRead(_) => ChipState {
            selected: REGISTER_D,
            register_c: if s.selected == REGISTER_C { 0 } else { s.register_c },
            ..s
        },
        PortAccess::DataWrite(v) => {
            if s.selected == REGISTER_A {
                ChipState { register_a: v, ..s }
            } else if s.selected == REGISTER_B {
                ChipState { register_b: v, ..s }
            } else {
                s
            }
        },
    }
}

/// The chip after a sequence of accesses, oldest first.
pub open spec fn after_accesses(s: ChipState, t: Seq<PortAccess>) -> ChipState
    decreases t.len(),
{
    if t.len() == 0 {
        s
    } else {
        after_accesses(after_access(s, t[0]), t.drop_first())
    }
}

/// Running two sequences one after the other is running their concatenation.
pub proof fn lemma_after_concat(s: ChipState, t: Seq<PortAccess>, u: Seq<PortAccess>)
    ensures
        after_accesses(s, t + u) == after_accesses(after_accesses(s, t), u),
    decreases t.len(),
{
    if t.len() > 0 {
        assert((t + u).drop_first() =~= t.drop_first() + u);
        lemma_after_concat(after_access(s, t[0]), t.drop_first(), u);
    } else {
        assert(t + u =~= u);
    }
}

/// A simulated chip: the model above, driven through `RtcPorts`, with a log
/// of every access.
pub struct SimulatedRtc {
    pub chip: ChipState,
    pub log: Vec<PortAccess>,
}

impl SimulatedRtc {
    /// A chip holding the given registers, with register D selected, NMI
    /// enabled and nothing logged.
    pub fn new(register_a: u8, register_b: u8, register_c: u8) -> (r: Self)
        ensures
            r.chip == (ChipState {
                selected: REGISTER_D,
                nmi_disabled: false,
                register_a,
                register_b,
                register_c,
            }),
            r.log@ == Seq::<PortAccess>::empty(),
    {
        SimulatedRtc {
            chip: ChipState {
                selected: REGISTER_D,
                nmi_disabled: false,
                register_a,
                register_b,
                register_c,
            },
            log: Vec::new(),
        }
    }
}

impl RtcPorts for SimulatedRtc {
    fn write_index(&mut self, value: u8)
        ensures
            final(self).chip == after_access(old(self).chip, PortAccess::IndexWrite(value)),
            final(self).log@ == old(self).log@.push(PortAccess::IndexWrite(value)),
    {
        self.chip.selected = value & REGISTER_NUMBER_MASK;
        self.chip.nmi_disabled = value & NMI_DISABLE != 0;
        self.log.push(PortAccess::IndexWrite(value));
    }

    fn read_data(&mut self) -> (r: u8)
        ensures
            r == data_read_result(old(self).chip),
            final(self).chip == after_access(old(self).chip, PortAccess::DataRead(r)),
            final(self).log@ == old(self).log@.push(PortAccess::DataRead(r)),
    {
        let selected = self.chip.selected;
        let r = if selected == REGISTER_A {
            self.chip.register_a
        } else if selected == REGISTER_B {
            self.chip.register_b
        } else if selected == REGISTER_C {
            self.chip.register_c
        } else {
            0
        };
        if selected == REGISTER_C {
            self.chip.register_c = 0;
        }
        self.chip.selected = REGISTER_D;
        self.log.push(PortAccess::DataRead(r));
        r
    }

    fn write_data(&mut self, value: u8)
        ensures
            final(self).chip == after_access(old(self).chip, PortAccess::DataWrite(value)),
            final(self).log@ == old(self).log@.push(PortAccess::DataWrite(value)),
    {
        let selected = self.chip.selected;
        if selected == REGISTER_A {
            self.chip.register_a = value;
        } else if selected == REGISTER_B {
            self.chip.register_b = value;
        }
        self.log.push(PortAccess::DataWrite(value));
    }
}

} // verus!
