//! Properties of the register sequences, stated over the chip model.
use crate::chip::{after_access, after_accesses, lemma_after_concat, ChipState};
use crate::ports::{
    disable_accesses, enable_accesses, read_register_c_accesses, register_update,
    set_divider_accesses,
};
use crate::rtc::PortAccess;
use crate::registers::{
    periodic_enabled, with_periodic_disabled, with_periodic_enabled, with_rate, NMI_DISABLE,
    RATE_MASK, REGISTER_A, REGISTER_A_INDEX, REGISTER_B,
    REGISTER_B_INDEX, REGISTER_C, REGISTER_C_INDEX,
};
use vstd::prelude::*;

verus! {

/// Number of index-port writes in a sequence of accesses.
pub open spec fn index_write_count(t: Seq<PortAccess>) -> nat
    decreases t.len(),
{
    if t.len() == 0 {
        0
    } else {
        (if t[0] is IndexWrite { 1nat } else { 0nat }) + index_write_count(t.drop_first())
    }
}

/// Whether an index byte asks for non-maskable interrupts to be disabled.
pub open spec fn disables_nmi(index: u8) -> bool {
    index & NMI_DISABLE != 0
}

/// The index bytes select the intended registers, A and B with the
/// NMI-disable bit and C without it.
pub proof fn lemma_index_bytes()
    ensures
        REGISTER_A_INDEX & 0x7F == REGISTER_A,
        REGISTER_B_INDEX & 0x7F == REGISTER_B,
        REGISTER_C_INDEX & 0x7F == REGISTER_C,
        disables_nmi(REGISTER_A_INDEX),
        disables_nmi(REGISTER_B_INDEX),
        !disables_nmi(REGISTER_C_INDEX),
{
    assert(0x0Au8 | 0x80u8 == 0x8Au8 && 0x0Bu8 | 0x80u8 == 0x8Bu8) by (bit_vector);
    assert(0x8Au8 & 0x7Fu8 == 0x0Au8 && 0x8Bu8 & 0x7Fu8 == 0x0Bu8 && 0x8Au8 & 0x80u8 != 0
        && 0x8Bu8 & 0x80u8 != 0 && 0x0Cu8 & 0x80u8 == 0 && 0x0Cu8 & 0x7Fu8 == 0x0Cu8)
        by (bit_vector);
}

/// A read-modify-write of register A or B stores the new value in that
/// register, whatever the chip held before; register C is untouched, and the
/// chip is left with that register selected and NMI as the index byte asked.
pub proof fn lemma_register_update_effect(s: ChipState, index: u8, previous: u8, next: u8)
    requires
        index == REGISTER_A_INDEX || index == REGISTER_B_INDEX,
    ensures
        ({
            let e = after_accesses(s, register_update(index, previous, next));
            &&& e.selected == index & 0x7F
            &&& e.nmi_disabled == disables_nmi(index)
            &&& e.register_c == s.register_c
            &&& index == REGISTER_A_INDEX ==> e.register_a == next && e.register_b == s.register_b
            &&& index == REGISTER_B_INDEX ==> e.register_b == next && e.register_a == s.register_a
        }),
{
    let t = register_update(index, previous, next);
    lemma_index_bytes();
    let s1 = after_access(s, t[0]);
    let s2 = after_access(s1, t[1]);
    let s3 = after_access(s2, t[2]);
    let s4 = after_access(s3, t[3]);
    assert(t.drop_first().drop_first().drop_first().drop_first() =~= Seq::<PortAccess>::empty());
    assert(after_accesses(s, t) == s4) by {
        reveal_with_fuel(after_accesses, 5);
        assert(t.drop_first()[0] == t[1]);
        assert(t.drop_first().drop_first()[0] == t[2]);
        assert(t.drop_first().drop_first().drop_first()[0] == t[3]);
    }
}

/// Enabling and then disabling leaves the periodic interrupt off, and
/// disabling and then enabling leaves it on, whatever the chip held before
/// and whatever the two reads of register B returned.
pub proof fn lemma_enable_disable_last_wins(s: ChipState, first_read: u8, second_read: u8)
    ensures
        !periodic_enabled(
            after_accesses(
                s,
                enable_accesses(first_read) + disable_accesses(second_read),
            ).register_b,
        ),
        periodic_enabled(
            after_accesses(
                s,
                disable_accesses(first_read) + enable_accesses(second_read),
            ).register_b,
        ),
{
    lemma_after_concat(s, enable_accesses(first_read), disable_accesses(second_read));
    let on = after_accesses(s, enable_accesses(first_read));
    lemma_register_update_effect(
        on,
        REGISTER_B_INDEX,
        second_read,
        with_periodic_disabled(second_read),
    );
    lemma_after_concat(s, disable_accesses(first_read), enable_accesses(second_read));
    let off = after_accesses(s, disable_accesses(first_read));
    lemma_register_update_effect(
        off,
        REGISTER_B_INDEX,
        second_read,
        with_periodic_enabled(second_read),
    );
    assert(second_read & !0x40u8 & 0x40u8 == 0 && (second_read | 0x40u8) & 0x40u8 != 0)
        by (bit_vector);
}

/// Every read-modify-write writes the index port exactly twice, both times
/// with the same index byte, and re-selects the register between the read
/// and the final data write.
pub proof fn lemma_register_update_reselects(index: u8, previous: u8, next: u8)
    ensures
        ({
            let t = register_update(index, previous, next);
            &&& t.len() == 4
            &&& index_write_count(t) == 2
            &&& t[1] is DataRead
            &&& t[2] == PortAccess::IndexWrite(index)
            &&& t.last() == PortAccess::DataWrite(next)
        }),
{
    let t = register_update(index, previous, next);
    assert(t.drop_first().drop_first().drop_first().drop_first() =~= Seq::<PortAccess>::empty());
    assert(t.drop_first()[0] == t[1]);
    assert(t.drop_first().drop_first()[0] == t[2]);
    assert(t.drop_first().drop_first().drop_first()[0] == t[3]);
    reveal_with_fuel(index_write_count, 5);
}

/// Without the second selection the final data write is lost: the read has
/// moved the chip to register D, so registers A and B keep their values.
pub proof fn lemma_write_without_reselect_is_lost(
    s: ChipState,
    index: u8,
    previous: u8,
    next: u8,
)
    requires
        index == REGISTER_A_INDEX || index == REGISTER_B_INDEX,
    ensures
        ({
            let t = seq![
                PortAccess::IndexWrite(index),
                PortAccess::DataRead(previous),
                PortAccess::DataWrite(next),
            ];
            let e = after_accesses(s, t);
            &&& e.register_a == s.register_a
            &&& e.register_b == s.register_b
        }),
{
    let t = seq![
        PortAccess::IndexWrite(index),
        PortAccess::DataRead(previous),
        PortAccess::DataWrite(next),
    ];
    lemma_index_bytes();
    assert(t.drop_first().drop_first().drop_first() =~= Seq::<PortAccess>::empty());
    assert(t.drop_first()[0] == t[1]);
    assert(t.drop_first().drop_first()[0] == t[2]);
    reveal_with_fuel(after_accesses, 4);
}

/// The sequences of `enable`, `disable` and `set_divider_value` each write
/// the index port exactly twice, with non-maskable interrupts disabled, and
/// re-select the register after the read and before the final data write.
pub proof fn lemma_sequences_reselect(previous: u8, rate: u8)
    ensures
        index_write_count(enable_accesses(previous)) == 2,
        index_write_count(disable_accesses(previous)) == 2,
        index_write_count(set_divider_accesses(previous, rate)) == 2,
        enable_accesses(previous)[2] == PortAccess::IndexWrite(REGISTER_B_INDEX),
        disable_accesses(previous)[2] == PortAccess::IndexWrite(REGISTER_B_INDEX),
        set_divider_accesses(previous, rate)[2] == PortAccess::IndexWrite(REGISTER_A_INDEX),
        disables_nmi(REGISTER_A_INDEX),
        disables_nmi(REGISTER_B_INDEX),
{
    lemma_register_update_reselects(REGISTER_B_INDEX, previous, with_periodic_enabled(previous));
    lemma_register_update_reselects(REGISTER_B_INDEX, previous, with_periodic_disabled(previous));
    lemma_register_update_reselects(REGISTER_A_INDEX, previous, with_rate(previous, rate));
    lemma_index_bytes();
}

/// Acknowledging through register C writes the index port once, without the
/// NMI-disable bit, and reads the data port once; it leaves registers A and B
/// as they were and never leaves non-maskable interrupts disabled.
pub proof fn lemma_read_register_c_shape(s: ChipState, status: u8)
    ensures
        ({
            let t = read_register_c_accesses(status);
            let e = after_accesses(s, t);
            &&& t.len() == 2
            &&& index_write_count(t) == 1
            &&& !disables_nmi(REGISTER_C_INDEX)
            &&& t[1] == PortAccess::DataRead(status)
            &&& !e.nmi_disabled
            &&& e.register_a == s.register_a
            &&& e.register_b == s.register_b
        }),
{
    let t = read_register_c_accesses(status);
    assert(t.drop_first().drop_first() =~= Seq::<PortAccess>::empty());
    assert(t.drop_first()[0] == t[1]);
    reveal_with_fuel(index_write_count, 3);
    reveal_with_fuel(after_accesses, 3);
    lemma_index_bytes();
}

/// Programming a divider keeps the high four bits of register A and puts the
/// divider in the low four.
pub proof fn lemma_set_divider_keeps_high_bits(s: ChipState, previous: u8, rate: u8)
    requires
        rate <= RATE_MASK,
    ensures
        ({
            let a = after_accesses(s, set_divider_accesses(previous, rate)).register_a;
            &&& a & RATE_MASK == rate
            &&& a & !RATE_MASK == previous & !RATE_MASK
        }),
{
    lemma_register_update_effect(s, REGISTER_A_INDEX, previous, with_rate(previous, rate));
    assert(((previous & !0x0Fu8) | (rate & 0x0Fu8)) & 0x0Fu8 == rate
        && ((previous & !0x0Fu8) | (rate & 0x0Fu8)) & !0x0Fu8 == previous & !0x0Fu8)
        by (bit_vector)
        requires
            rate <= 0x0Fu8,
    ;
}

} // verus!
