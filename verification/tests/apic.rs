use ysos::apic::{ApicOp, LVT_Editor, XApic};

#[test]
fn lvt_new_is_zero() {
    assert_eq!(LVT_Editor::new().bits(), 0);
    assert_eq!(LVT_Editor::with_data(0xdead_beef).bits(), 0xdead_beef);
}

#[test]
fn lvt_flags_set_and_clear_their_bit() {
    assert_eq!(LVT_Editor::new().write_masked(true).bits(), 1 << 16);
    assert_eq!(LVT_Editor::with_data(0xffff_ffff).write_masked(false).bits(), 0xfffe_ffff);
    assert_eq!(LVT_Editor::new().write_level_triggered(true).bits(), 1 << 15);
    assert_eq!(LVT_Editor::with_data(0xffff_ffff).write_level_triggered(false).bits(), 0xffff_7fff);
    assert_eq!(LVT_Editor::new().write_active_low(true).bits(), 1 << 13);
    assert_eq!(LVT_Editor::with_data(0xffff_ffff).write_active_low(false).bits(), 0xffff_dfff);
}

#[test]
fn lvt_vector_replaces_low_byte() {
    assert_eq!(LVT_Editor::with_data(0x1_00ab).write_vector(0x20).bits(), 0x1_0020);
    assert_eq!(LVT_Editor::new().write_vector(0x1ff).bits(), 0xff);
}

#[test]
fn lvt_write_bit_only_sets() {
    assert_eq!(LVT_Editor::new().write_bit(17, true).bits(), 1 << 17);
    assert_eq!(LVT_Editor::with_data(1 << 17).write_bit(17, false).bits(), 1 << 17);
    assert_eq!(LVT_Editor::new().write_bit(31, true).bits(), 0x8000_0000);
    assert_eq!(LVT_Editor::with_data(5).write_bit(40, false).bits(), 5);
}

#[test]
fn lvt_last_write_wins() {
    let e = LVT_Editor::new().write_masked(true).write_masked(false);
    assert_eq!(e.bits(), 0);
}

#[test]
fn timer_entry_of_cpu_init() {
    let plan = XApic::cpu_init_plan(0);
    assert_eq!(plan[1], ApicOp::Write { reg: 0x320, value: 0x2_0020 });
}

#[test]
fn cpu_init_program() {
    let plan = XApic::cpu_init_plan(0x10);
    let expected = vec![
        ApicOp::Write { reg: 0xF0, value: 0x1FF },
        ApicOp::Write { reg: 0x320, value: 0x2_0020 },
        ApicOp::Write { reg: 0x350, value: 0x1_0000 },
        ApicOp::Write { reg: 0x360, value: 0x1_0000 },
        ApicOp::Write { reg: 0x350, value: 0x1_0000 },
        ApicOp::Write { reg: 0x340, value: 0x1_0000 },
        ApicOp::Write { reg: 0x370, value: 0xFE },
        ApicOp::Write { reg: 0x280, value: 0 },
        ApicOp::Write { reg: 0x280, value: 0 },
        ApicOp::Write { reg: 0xB0, value: 0 },
        ApicOp::WaitIcrIdle,
        ApicOp::Write { reg: 0x310, value: 0 },
        ApicOp::Write { reg: 0x300, value: 0x14_4000 },
        ApicOp::WaitIcrIdle,
        ApicOp::Write { reg: 0x80, value: 0 },
    ];
    assert_eq!(plan, expected);
}

#[test]
fn icr_halves_round_trip() {
    let value: u64 = 0x1234_5678_9abc_def0;
    let plan = XApic::set_icr_plan(value);
    assert_eq!(plan.len(), 4);
    match (plan[1], plan[2]) {
        (ApicOp::Write { reg: 0x310, value: high }, ApicOp::Write { reg: 0x300, value: low }) => {
            assert_eq!(high, 0x1234_5678);
            assert_eq!(low, 0x9abc_def0);
            assert_eq!(XApic::icr_from(high, low), value);
        }
        _ => panic!("unexpected program"),
    }
}

#[test]
fn apic_id_and_pending_bit() {
    assert_eq!(XApic::id_from(0x0300_0000), 3);
    assert_eq!(XApic::id_from(0x00ff_ffff), 0);
    assert!(XApic::icr_pending(1 << 12));
    assert!(!XApic::icr_pending(0xffff_efff));
}

#[test]
fn apic_register_address() {
    let apic = XApic::new(0xFEE0_0000);
    assert_eq!(apic.register_address(0x20), 0xFEE0_0020);
}
