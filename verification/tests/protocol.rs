use kettle_kernel::pic::{
    acknowledge, initialize_controllers, initialize_timer, irq7_acknowledge_writes,
    run_controllers, step_controllers, ControllerPair, ControllerState, InitPhase, PortWrite,
};

fn fresh_pair() -> ControllerPair {
    ControllerPair {
        primary: ControllerState { phase: InitPhase::Ready, offset: 8, mask: 0xFF },
        secondary: ControllerState { phase: InitPhase::Ready, offset: 0x70, mask: 0xFF },
    }
}

#[test]
fn controller_init_sequence_exact() {
    let ws = initialize_controllers(32, 40, 0b1111_1110, 0b1111_1111);
    let expected = vec![
        PortWrite { port: 0x20, value: 0x11 },
        PortWrite { port: 0xA0, value: 0x11 },
        PortWrite { port: 0x21, value: 32 },
        PortWrite { port: 0xA1, value: 40 },
        PortWrite { port: 0x21, value: 4 },
        PortWrite { port: 0xA1, value: 2 },
        PortWrite { port: 0x21, value: 1 },
        PortWrite { port: 0xA1, value: 1 },
        PortWrite { port: 0x21, value: 0b1111_1110 },
        PortWrite { port: 0xA1, value: 0b1111_1111 },
    ];
    assert_eq!(ws, expected);
}

#[test]
fn controller_init_reaches_programmed_state() {
    let mut s = fresh_pair();
    let ws = initialize_controllers(32, 40, 0xFE, 0xFF);
    run_controllers(&mut s, &ws);
    assert_eq!(s.primary.phase, InitPhase::Ready);
    assert_eq!(s.secondary.phase, InitPhase::Ready);
    assert_eq!(s.primary.offset, 32);
    assert_eq!(s.secondary.offset, 40);
    assert_eq!(s.primary.mask, 0xFE);
    assert_eq!(s.secondary.mask, 0xFF);
}

#[test]
fn controller_init_idempotent() {
    let ws = initialize_controllers(32, 40, 0xFE, 0xFF);
    let mut once = fresh_pair();
    run_controllers(&mut once, &ws);
    let mut twice = fresh_pair();
    run_controllers(&mut twice, &ws);
    run_controllers(&mut twice, &ws);
    assert_eq!(once, twice);
}

#[test]
fn timer_writes_low_byte_then_high_byte() {
    let ws = initialize_timer(0x1234);
    assert_eq!(ws.len(), 3);
    assert_eq!(ws[0], PortWrite { port: 0x43, value: 0b0011_1100 });
    let counter_writes: Vec<&PortWrite> = ws.iter().filter(|w| w.port == 0x40).collect();
    assert_eq!(counter_writes.len(), 2);
    assert_eq!(counter_writes[0].value, 0x34);
    assert_eq!(counter_writes[1].value, 0x12);
}

#[test]
fn timer_default_reload() {
    let ws = initialize_timer(0xFFFF);
    assert_eq!(ws[1], PortWrite { port: 0x40, value: 0xFF });
    assert_eq!(ws[2], PortWrite { port: 0x40, value: 0xFF });
}

#[test]
fn timer_writes_leave_controllers_alone() {
    let mut s = fresh_pair();
    let before = s;
    let ws = initialize_timer(0xFFFF);
    run_controllers(&mut s, &ws);
    assert_eq!(s, before);
}

#[test]
fn eoi_primary_line() {
    let ws = acknowledge(32);
    assert_eq!(ws, vec![PortWrite { port: 0x20, value: 0x20 }]);
}

#[test]
fn eoi_secondary_line_acknowledges_both() {
    let ws = acknowledge(40);
    assert_eq!(
        ws,
        vec![
            PortWrite { port: 0xA0, value: 0x20 },
            PortWrite { port: 0x20, value: 0x20 },
        ]
    );
}

#[test]
fn irq7_not_in_service_gives_no_acknowledgment() {
    let ws = irq7_acknowledge_writes(0x00);
    assert!(ws.is_empty());
    let ws = irq7_acknowledge_writes(0x7F);
    assert!(ws.is_empty());
}

#[test]
fn irq7_in_service_gives_exactly_one_acknowledgment() {
    let ws = irq7_acknowledge_writes(0x80);
    assert_eq!(ws, vec![PortWrite { port: 0x20, value: 0x20 }]);
}

#[test]
fn stray_port_write_changes_nothing() {
    let mut s = fresh_pair();
    let before = s;
    step_controllers(&mut s, PortWrite { port: 0x60, value: 0xAB });
    assert_eq!(s, before);
}
