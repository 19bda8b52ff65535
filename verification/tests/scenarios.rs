use kettle_kernel::idt::HandlerKind;
use kettle_kernel::machine::{Machine, SinkState, Trap};
use kettle_kernel::pic::PortWrite;

const ENTRY: u64 = 0x10_0000;
const BOOT_STACK_TOP: u64 = 0x0021_0000;
const DOUBLE_FAULT_STACK_TOP: u64 = 0x0030_5000;

fn booted_machine() -> Machine {
    let mut m = Machine::boot(ENTRY);
    m.init();
    m.init_logger();
    m
}

#[test]
fn init_programs_controllers_and_enables_interrupts() {
    let mut m = Machine::boot(ENTRY);
    assert!(!m.interrupts_enabled);
    assert!(m.port_writes.is_empty());
    m.init();
    assert!(m.interrupts_enabled);
    assert!(!m.halted);
    assert_eq!(m.code_segment, 0x08);
    assert_eq!(m.controllers.primary.offset, 32);
    assert_eq!(m.controllers.secondary.offset, 40);
    assert_eq!(m.controllers.primary.mask, 0b1111_1110);
    assert_eq!(m.controllers.secondary.mask, 0b1111_1111);
    // ten controller-init writes, then the three timer writes
    assert_eq!(m.port_writes.len(), 13);
    assert_eq!(m.port_writes[10], PortWrite { port: 0x43, value: 0b0011_1100 });
    assert_eq!(m.port_writes[11], PortWrite { port: 0x40, value: 0xFF });
    assert_eq!(m.port_writes[12], PortWrite { port: 0x40, value: 0xFF });
    let counter_writes: Vec<&PortWrite> =
        m.port_writes.iter().filter(|w| w.port == 0x40).collect();
    assert_eq!(counter_writes.len(), 2);
}

#[test]
fn scenario_breakpoint_reports_and_resumes() {
    let mut m = booted_machine();
    let writes_before = m.port_writes.len();
    m.trigger(Trap::Breakpoint);
    assert!(!m.halted);
    assert_eq!(m.reports.len(), 1);
    let report = &m.reports[0];
    assert_eq!(report.kind, HandlerKind::Breakpoint);
    assert_eq!(report.instruction_pointer, ENTRY);
    assert_eq!(report.stack_pointer, BOOT_STACK_TOP);
    assert_eq!(report.cpu_flags, 0x2);
    assert_eq!(m.port_writes.len(), writes_before);
    // control returns: the machine can take the next trap
    m.trigger(Trap::Breakpoint);
    assert_eq!(m.reports.len(), 2);
    assert!(!m.halted);
}

#[test]
fn scenario_double_fault_switches_stack_and_halts() {
    let mut m = booted_machine();
    m.trigger(Trap::DoubleFault { error_code: 0 });
    assert!(m.halted);
    assert_eq!(m.reports.len(), 1);
    let report = &m.reports[0];
    assert_eq!(report.kind, HandlerKind::DoubleFault);
    assert_ne!(report.stack_pointer, 0);
    assert_ne!(report.stack_pointer, BOOT_STACK_TOP);
    assert_eq!(report.stack_pointer, DOUBLE_FAULT_STACK_TOP);
    assert_eq!(report.error_code, Some(0));
    assert_eq!(m.stack_pointer, DOUBLE_FAULT_STACK_TOP);
}

#[test]
fn scenario_page_fault_reports_address_and_halts() {
    let mut m = booted_machine();
    let bad_address: u64 = 0xFFFF_9000_0000_0000;
    let error_bits: u64 = 0b10;
    m.trigger(Trap::PageFault { address: bad_address, error_code: error_bits });
    assert!(m.halted);
    assert_eq!(m.reports.len(), 1);
    let report = &m.reports[0];
    assert_eq!(report.kind, HandlerKind::PageFault);
    assert_eq!(report.fault_address, Some(bad_address));
    assert_eq!(report.error_code, Some(error_bits));
}

#[test]
fn general_protection_reports_and_returns() {
    let mut m = booted_machine();
    m.trigger(Trap::GeneralProtection { error_code: 0x18 });
    assert!(!m.halted);
    assert_eq!(m.reports.len(), 1);
    assert_eq!(m.reports[0].kind, HandlerKind::GeneralProtection);
    assert_eq!(m.reports[0].error_code, Some(0x18));
}

#[test]
fn timer_counts_and_acknowledges_once() {
    let mut m = booted_machine();
    let writes_before = m.port_writes.len();
    m.trigger(Trap::Timer);
    assert!(!m.halted);
    assert_eq!(m.ticks, 1);
    assert_eq!(m.port_writes.len(), writes_before + 1);
    assert_eq!(m.port_writes[writes_before], PortWrite { port: 0x20, value: 0x20 });
    let controllers_before = m.controllers;
    m.trigger(Trap::Timer);
    assert_eq!(m.ticks, 2);
    assert_eq!(m.controllers, controllers_before);
}

#[test]
fn irq7_spurious_is_discarded_without_acknowledgment() {
    let mut m = booted_machine();
    m.in_service_primary = 0x00;
    let writes_before = m.port_writes.len();
    m.trigger(Trap::Irq7);
    assert!(!m.halted);
    // only the in-service probe reaches the command port
    assert_eq!(m.port_writes.len(), writes_before + 1);
    assert_eq!(m.port_writes[writes_before], PortWrite { port: 0x20, value: 0x0B });
}

#[test]
fn irq7_in_service_is_acknowledged_once() {
    let mut m = booted_machine();
    m.in_service_primary = 0x80;
    let writes_before = m.port_writes.len();
    m.trigger(Trap::Irq7);
    assert_eq!(m.port_writes.len(), writes_before + 2);
    assert_eq!(m.port_writes[writes_before], PortWrite { port: 0x20, value: 0x0B });
    assert_eq!(m.port_writes[writes_before + 1], PortWrite { port: 0x20, value: 0x20 });
}

#[test]
fn uninitialized_sink_aborts_instead_of_dropping_a_report() {
    let mut m = Machine::boot(ENTRY);
    m.init();
    assert_eq!(m.sink, SinkState::Uninitialized);
    m.trigger(Trap::Breakpoint);
    assert!(m.halted);
    assert!(m.reports.is_empty());
}

#[test]
fn held_sink_lock_halts_instead_of_deadlocking() {
    let mut m = booted_machine();
    m.sink = SinkState::Held;
    m.trigger(Trap::Breakpoint);
    assert!(m.halted);
    assert!(m.reports.is_empty());
}
