use trap_core::exit::{handler_message, pushes_error_code, QemuExitCode};
use trap_core::gdt::{
    build_gdt, build_tss, Gdt, TaskStateSegment, DOUBLE_FAULT_IST_INDEX, FAULT_STACK_SIZE,
    KERNEL_CODE_DESCRIPTOR,
};
use trap_core::idt::{default_idt, Entry, Idt, IDT_ENTRIES};
use trap_core::options::EntryOptions;
use trap_core::selector::SegmentSelector;
use x86_64::registers::segmentation::{Segment, CS};

fn recombined(e: &Entry) -> u64 {
    (e.pointer_low as u64) | ((e.pointer_middle as u64) << 16) | ((e.pointer_high as u64) << 32)
}

#[test]
fn options_minimal_bits() {
    let o = EntryOptions::minimal();
    assert_eq!(o.bits(), 0x0e00);
    assert!(!o.present());
    assert_eq!(o.privilege_level(), 0);
    assert_eq!(o.stack_index(), 0);
    assert!(o.interrupts_disabled());
}

#[test]
fn options_new_bits() {
    let o = EntryOptions::new();
    assert_eq!(o.bits(), 0x8e00);
    assert!(o.present());
    assert_eq!(o.privilege_level(), 0);
    assert_eq!(o.stack_index(), 0);
    assert!(o.interrupts_disabled());
}

#[test]
fn options_roundtrip_all_configs() {
    for &present in &[false, true] {
        for dpl in 0..4u16 {
            for ist in 0..8u16 {
                for &disable in &[false, true] {
                    let mut o = EntryOptions::new();
                    o.set_present(present);
                    o.set_privilege_level(dpl);
                    o.set_stack_index(ist);
                    o.disable_interrupts(disable);
                    assert_eq!(o.present(), present);
                    assert_eq!(o.privilege_level(), dpl);
                    assert_eq!(o.stack_index(), ist);
                    assert_eq!(o.interrupts_disabled(), disable);
                    // the type-nibble high bits and the reserved bits survive
                    assert_eq!(o.bits() & 0x0e00, 0x0e00);
                    assert_eq!(o.bits() & 0x10f8, 0);
                }
            }
        }
    }
}

#[test]
fn options_mutators_keep_other_fields() {
    let mut o = EntryOptions::new();
    o.set_privilege_level(3);
    o.set_stack_index(5);
    o.set_present(false);
    assert_eq!(o.privilege_level(), 3);
    assert_eq!(o.stack_index(), 5);
    assert!(!o.present());
    o.set_present(true);
    assert_eq!(o.privilege_level(), 3);
    assert_eq!(o.stack_index(), 5);
    assert!(o.present());
}

#[test]
fn selector_fields() {
    let s = SegmentSelector::new(2, 3);
    assert_eq!(s.0, (2 << 3) | 3);
    assert_eq!(SegmentSelector::null().0, 0);
    assert_eq!(SegmentSelector::new(1, 0).0, 8);
}

#[test]
fn installed_gate_records_selector_and_handler() {
    let mut idt = Idt::new();
    let selector = SegmentSelector::new(1, 0);
    let handler: u64 = 0x1234_5678_9abc_def0;
    idt.set_handler_with(3, selector, handler);
    let e = idt.entry(3);
    assert_eq!(e.gdt_selector.0, 8);
    assert_eq!(e.options.bits(), 0x8e00);
    assert!(e.options.present());
    assert_eq!(e.reserved, 0);
    assert_eq!(e.pointer_low, 0xdef0);
    assert_eq!(e.pointer_middle, 0x9abc);
    assert_eq!(e.pointer_high, 0x1234_5678);
    assert_eq!(recombined(e), handler);
}

#[test]
fn set_handler_records_current_cs() {
    let mut idt = Idt::new();
    idt.set_handler(0, 0x4000);
    let cs = CS::get_reg().0;
    assert_eq!(idt.entry(0).gdt_selector.0, cs);
    assert_eq!(recombined(idt.entry(0)), 0x4000);
}

#[test]
fn missing_vectors_stay_absent() {
    let mut idt = Idt::new();
    idt.set_handler(0, 0x1000);
    idt.set_handler(3, 0x3000);
    idt.set_handler(8, 0x8000);
    assert!(!idt.entry(1).options.present());
    assert!(!idt.entry(14).options.present());
    for v in 0..IDT_ENTRIES as u8 {
        if v == 0 || v == 3 || v == 8 {
            assert!(idt.entry(v).options.present());
        } else {
            let e = idt.entry(v);
            assert!(!e.options.present());
            assert_eq!(recombined(e), 0);
            assert_eq!(e.gdt_selector.0, 0);
            assert_eq!(e.options.bits(), 0x0e00);
        }
    }
}

#[test]
fn idt_pointer_limit() {
    let idt = Idt::new();
    let p = idt.pointer(0x1000);
    assert_eq!(p.base, 0x1000);
    assert_eq!(p.limit, 255);
}

#[test]
fn gdt_layout_for_known_tss_base() {
    let base: u64 = 0x12_3456_789a;
    let (gdt, code, tss): (Gdt, SegmentSelector, SegmentSelector) = build_gdt(base);
    assert_eq!(gdt.len(), 4);
    assert_eq!(gdt.descriptor(0), 0);
    assert_eq!(gdt.descriptor(1), KERNEL_CODE_DESCRIPTOR);
    assert_eq!(gdt.descriptor(1), 0x00af_9b00_0000_ffff);
    assert_eq!(gdt.descriptor(2), 0x3400_8956_789a_0067);
    assert_eq!(gdt.descriptor(3), 0x12);
    assert_eq!(code.0, 8);
    assert_eq!(tss.0, 16);
}

#[test]
fn gdt_pointer_limit() {
    let (gdt, _, _) = build_gdt(0);
    let p = gdt.pointer(0x2000);
    assert_eq!(p.base, 0x2000);
    assert_eq!(p.limit, 31);
}

#[test]
fn tss_ist_holds_fault_stack_top() {
    let tss: TaskStateSegment = build_tss(0x8000, FAULT_STACK_SIZE);
    assert_eq!(FAULT_STACK_SIZE, 5 * 4096);
    assert_eq!(
        tss.interrupt_stack_table[DOUBLE_FAULT_IST_INDEX as usize],
        0x8000 + 5 * 4096
    );
    for i in 0..7 {
        if i != DOUBLE_FAULT_IST_INDEX as usize {
            assert_eq!(tss.interrupt_stack_table[i], 0);
        }
    }
    for i in 0..3 {
        assert_eq!(tss.privilege_stack_table[i], 0);
    }
    assert_eq!(tss.iomap_base, 104);
}

#[test]
fn default_idt_wires_the_three_vectors() {
    let idt = default_idt(0x111, 0x333, 0x888);
    assert_eq!(recombined(idt.entry(0)), 0x111);
    assert_eq!(idt.entry(0).options.bits(), 0x8e00);
    assert_eq!(recombined(idt.entry(3)), 0x333);
    assert_eq!(recombined(idt.entry(8)), 0x888);
    let df = idt.entry(8).options;
    assert!(df.present());
    assert_eq!(df.privilege_level(), 0);
    assert_eq!(df.stack_index(), DOUBLE_FAULT_IST_INDEX + 1);
    assert!(df.interrupts_disabled());
    for v in [1u8, 2, 4, 5, 6, 7, 9, 10, 11, 12, 13, 14, 15] {
        assert!(!idt.entry(v).options.present());
    }
}

#[test]
fn exit_codes() {
    assert_eq!(QemuExitCode::Success.code(), 0x10);
    assert_eq!(QemuExitCode::Failed.code(), 0x11);
}

#[test]
fn error_code_vectors() {
    for v in [8u8, 10, 11, 12, 13, 14] {
        assert!(pushes_error_code(v));
    }
    for v in [0u8, 1, 2, 3, 4, 5, 6, 7, 9, 15] {
        assert!(!pushes_error_code(v));
    }
}

#[test]
fn handler_messages() {
    assert_eq!(handler_message(0), Some("EXCEPTION: DIVIDE BY ZERO"));
    assert_eq!(handler_message(3), Some("BREAKPOINT!"));
    assert_eq!(handler_message(8), Some("EXCEPTION: Double Fault Handler"));
    assert_eq!(handler_message(1), None);
    assert_eq!(handler_message(14), None);
    assert_eq!(handler_message(255), None);
}
