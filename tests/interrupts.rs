use rtc_interrupts::{
    disable, disabled_register_b, enable, enabled_register_b, read_register_c,
    register_a_with_rate, set_divider_value, DividerValue, PortAccess, Rtc, RtcPorts, SimulatedRtc,
    REGISTER_A_INDEX, REGISTER_B_INDEX, REGISTER_C_INDEX,
};
use std::ops::Bound;

fn index_writes(log: &[PortAccess]) -> usize {
    log.iter()
        .filter(|a| matches!(a, PortAccess::IndexWrite(_)))
        .count()
}

#[test]
fn divider_accepts_exactly_three_to_fifteen() {
    for v in 0..=255u8 {
        let r = DividerValue::new(v);
        if (3..=15).contains(&v) {
            assert_eq!(r.expect("legal divider").value(), v);
        } else {
            let e = r.err().expect("illegal divider");
            assert_eq!(e.outside_value, v);
            assert_eq!(e.allowed_range.lower, Bound::Included(3));
            assert_eq!(e.allowed_range.upper, Bound::Excluded(16));
        }
    }
}

#[test]
fn divider_edges() {
    assert!(DividerValue::new(0).is_err());
    assert!(DividerValue::new(2).is_err());
    assert_eq!(DividerValue::new(3).unwrap().value(), 3);
    assert_eq!(DividerValue::new(15).unwrap().value(), 15);
    assert!(DividerValue::new(16).is_err());
    assert!(DividerValue::new(255).is_err());
}

#[test]
fn register_b_values() {
    assert_eq!(enabled_register_b(0b0000_0000), 0b0100_0000);
    assert_eq!(enabled_register_b(0b1011_1111), 0b1111_1111);
    assert_eq!(enabled_register_b(0b0100_0000), 0b0100_0000);
    assert_eq!(disabled_register_b(0b0100_0000), 0b0000_0000);
    assert_eq!(disabled_register_b(0b1111_1111), 0b1011_1111);
    assert_eq!(disabled_register_b(0b0000_0001), 0b0000_0001);
}

#[test]
fn register_a_values() {
    assert_eq!(register_a_with_rate(0b1111_0000, 5), 0b1111_0101);
    assert_eq!(register_a_with_rate(0b0010_1010, 6), 0b0010_0110);
    assert_eq!(register_a_with_rate(0b1111_1111, 3), 0b1111_0011);
}

#[test]
fn enable_sets_bit_six() {
    let mut rtc = Rtc::new(SimulatedRtc::new(0, 0b0000_0000, 0));
    enable(&mut rtc);
    assert_eq!(rtc.ports().chip.register_b, 0b0100_0000);
    assert_eq!(
        rtc.ports().log,
        vec![
            PortAccess::IndexWrite(REGISTER_B_INDEX),
            PortAccess::DataRead(0b0000_0000),
            PortAccess::IndexWrite(REGISTER_B_INDEX),
            PortAccess::DataWrite(0b0100_0000),
        ]
    );
}

#[test]
fn disable_clears_bit_six() {
    let mut rtc = Rtc::new(SimulatedRtc::new(0, 0b0100_0000, 0));
    disable(&mut rtc);
    assert_eq!(rtc.ports().chip.register_b, 0b0000_0000);
    assert_eq!(rtc.ports().log.last(), Some(&PortAccess::DataWrite(0b0000_0000)));
}

#[test]
fn enable_and_disable_keep_other_bits() {
    let mut rtc = Rtc::new(SimulatedRtc::new(0x26, 0b1000_0010, 0));
    enable(&mut rtc);
    assert_eq!(rtc.ports().chip.register_b, 0b1100_0010);
    disable(&mut rtc);
    assert_eq!(rtc.ports().chip.register_b, 0b1000_0010);
    assert_eq!(rtc.ports().chip.register_a, 0x26);
}

#[test]
fn enable_then_disable_leaves_bit_clear() {
    for start in [0x00u8, 0x40, 0xFF, 0xBF] {
        let mut rtc = Rtc::new(SimulatedRtc::new(0, start, 0));
        enable(&mut rtc);
        disable(&mut rtc);
        assert_eq!(rtc.ports().chip.register_b & 0x40, 0);
    }
}

#[test]
fn disable_then_enable_leaves_bit_set() {
    for start in [0x00u8, 0x40, 0xFF, 0xBF] {
        let mut rtc = Rtc::new(SimulatedRtc::new(0, start, 0));
        disable(&mut rtc);
        enable(&mut rtc);
        assert_eq!(rtc.ports().chip.register_b & 0x40, 0x40);
    }
}

#[test]
fn enable_twice_keeps_bit_set() {
    let mut rtc = Rtc::new(SimulatedRtc::new(0, 0x02, 0));
    enable(&mut rtc);
    assert_eq!(rtc.ports().chip.register_b, 0x42);
    enable(&mut rtc);
    assert_eq!(rtc.ports().chip.register_b, 0x42);
}

#[test]
fn set_divider_keeps_top_nibble() {
    let mut rtc = Rtc::new(SimulatedRtc::new(0b1111_0000, 0, 0));
    set_divider_value(&mut rtc, DividerValue::new(5).unwrap());
    assert_eq!(rtc.ports().chip.register_a, 0b1111_0101);
    assert_eq!(
        rtc.ports().log,
        vec![
            PortAccess::IndexWrite(REGISTER_A_INDEX),
            PortAccess::DataRead(0b1111_0000),
            PortAccess::IndexWrite(REGISTER_A_INDEX),
            PortAccess::DataWrite(0b1111_0101),
        ]
    );
}

#[test]
fn set_divider_replaces_old_rate() {
    let mut rtc = Rtc::new(SimulatedRtc::new(0x26, 0x42, 0));
    set_divider_value(&mut rtc, DividerValue::new(15).unwrap());
    assert_eq!(rtc.ports().chip.register_a, 0x2F);
    assert_eq!(rtc.ports().chip.register_b, 0x42);
}

#[test]
fn register_sequences_select_twice() {
    let mut rtc = Rtc::new(SimulatedRtc::new(0x26, 0x02, 0));
    enable(&mut rtc);
    assert_eq!(index_writes(&rtc.ports().log), 2);
    let mut rtc = Rtc::new(SimulatedRtc::new(0x26, 0x42, 0));
    disable(&mut rtc);
    assert_eq!(index_writes(&rtc.ports().log), 2);
    let mut rtc = Rtc::new(SimulatedRtc::new(0x26, 0x02, 0));
    set_divider_value(&mut rtc, DividerValue::new(6).unwrap());
    assert_eq!(index_writes(&rtc.ports().log), 2);
    assert_eq!(rtc.ports().log[2], PortAccess::IndexWrite(REGISTER_A_INDEX));
    assert!(matches!(rtc.ports().log[3], PortAccess::DataWrite(_)));
    assert_eq!(REGISTER_A_INDEX & 0x80, 0x80);
    assert_eq!(REGISTER_B_INDEX & 0x80, 0x80);
}

#[test]
fn register_sequences_leave_nmi_disabled() {
    let mut rtc = Rtc::new(SimulatedRtc::new(0, 0, 0));
    enable(&mut rtc);
    assert!(rtc.ports().chip.nmi_disabled);
}

#[test]
fn read_register_c_selects_once_without_nmi_bit() {
    let mut rtc = Rtc::new(SimulatedRtc::new(0x26, 0x42, 0x90));
    let status = read_register_c(&mut rtc);
    assert_eq!(status, 0x90);
    assert_eq!(
        rtc.ports().log,
        vec![
            PortAccess::IndexWrite(REGISTER_C_INDEX),
            PortAccess::DataRead(0x90)
        ]
    );
    assert_eq!(REGISTER_C_INDEX & 0x80, 0);
    assert!(!rtc.ports().chip.nmi_disabled);
    assert_eq!(rtc.ports().chip.register_c, 0);
    assert_eq!(rtc.ports().chip.register_a, 0x26);
    assert_eq!(rtc.ports().chip.register_b, 0x42);
}

#[test]
fn read_register_c_after_enable_clears_nmi_disable() {
    let mut rtc = Rtc::new(SimulatedRtc::new(0, 0, 0x10));
    enable(&mut rtc);
    assert!(rtc.ports().chip.nmi_disabled);
    assert_eq!(read_register_c(&mut rtc), 0x10);
    assert!(!rtc.ports().chip.nmi_disabled);
    assert_eq!(read_register_c(&mut rtc), 0);
}

#[test]
fn write_without_reselect_is_lost() {
    let mut chip = SimulatedRtc::new(0x26, 0x02, 0);
    chip.write_index(REGISTER_B_INDEX);
    assert_eq!(chip.read_data(), 0x02);
    chip.write_data(0x42);
    assert_eq!(chip.chip.register_b, 0x02);
    chip.write_index(REGISTER_B_INDEX);
    chip.write_data(0x42);
    assert_eq!(chip.chip.register_b, 0x42);
}
