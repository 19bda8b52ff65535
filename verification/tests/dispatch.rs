use kettle_kernel::gdt::{build_descriptors, IstIndex, StackRegion};
use kettle_kernel::idt::{init_idt, HandlerKind, InterruptIndex};

#[test]
fn exactly_the_documented_vectors_are_installed() {
    let table = init_idt(0);
    assert_eq!(table.entries.len(), 256);
    for v in 0..256usize {
        let entry = &table.entries[v];
        let expected = match v {
            3 => HandlerKind::Breakpoint,
            8 => HandlerKind::DoubleFault,
            13 => HandlerKind::GeneralProtection,
            14 => HandlerKind::PageFault,
            32 => HandlerKind::Timer,
            39 => HandlerKind::SpuriousIrq7,
            _ => HandlerKind::Default,
        };
        assert_eq!(entry.handler, expected, "vector {}", v);
        if v == 8 {
            assert_eq!(entry.stack_index, Some(0));
        } else {
            assert_eq!(entry.stack_index, None);
        }
    }
}

#[test]
fn remap_offset_plus_line_is_installed_vector() {
    let table = init_idt(0);
    let offset: u8 = 32;
    for (index, line, kind) in [
        (InterruptIndex::Timer, 0u8, HandlerKind::Timer),
        (InterruptIndex::IRQ7, 7u8, HandlerKind::SpuriousIrq7),
    ] {
        assert_eq!(index.as_u8(), offset + line);
        assert_eq!(index.as_usize(), (offset + line) as usize);
        assert_eq!(table.entries[index.as_usize()].handler, kind);
    }
}

#[test]
fn double_fault_stack_is_dedicated_and_aligned() {
    let d = build_descriptors();
    assert_eq!(d.double_fault_stack_index, 0);
    assert_eq!(d.double_fault_stack_index, IstIndex::DOUBLEFAULT.as_u16());
    assert_eq!(d.task_state.interrupt_stacks.len(), 1);
    let df = d.task_state.interrupt_stacks[0];
    let boot = d.boot_stack;
    assert_eq!(df, StackRegion { base: 0x0030_0000, size: 0x5000 });
    assert_eq!(boot, StackRegion { base: 0x0020_0000, size: 0x1_0000 });
    assert_eq!(df.base % 16, 0);
    assert_eq!((df.base + df.size) % 16, 0);
    // the two static stack regions share no byte
    assert!(df.base + df.size <= boot.base || boot.base + boot.size <= df.base);
}

#[test]
fn selectors_are_distinct_and_non_null() {
    let d = build_descriptors();
    assert_ne!(d.code_selector, 0);
    assert_ne!(d.tss_selector, 0);
    assert_ne!(d.code_selector, d.tss_selector);
}
