//! The simulated processor and the boot orchestrator.
//!
//! A `Machine` carries everything the bootstrap core touches: the loaded
//! descriptor set, the loaded dispatch table, the modeled controller pair, the
//! log of every port write performed, the cursor of control (instruction and
//! stack pointer), the diagnostic sink's state, and the reports the fault
//! handlers emit. `init` sequences descriptors → dispatch table → controllers
//! and timer → enable interrupts, exactly once; `trigger` dispatches a trap
//! through the loaded table to the handler the table names, as the processor
//! would.

use vstd::prelude::*;

use crate::gdt::{build_descriptors, is_built_descriptors, DescriptorSet, KERNEL_CODE_SELECTOR,
    BOOT_STACK_BASE, BOOT_STACK_SIZE};
use crate::idt::{built_entry, init_idt, table_is_built, HandlerKind, InterruptTable,
    BREAKPOINT_VECTOR, DOUBLE_FAULT_VECTOR, GENERAL_PROTECTION_VECTOR, IRQ7_VECTOR,
    PAGE_FAULT_VECTOR, TIMER_VECTOR};
use crate::pic::{acknowledge, controller_after_init, controller_init_writes, end_of_interrupt_writes,
    initialize_controllers, initialize_timer, irq7_acknowledge_writes, irq7_in_service, pair_after,
    pair_after_all, pair_step, timer_init_writes, ControllerPair, ControllerState, InitPhase,
    PortWrite, EOI_COMMAND, ICW1_INIT, PIC1_COMMAND, PIC1_MASK, PIC1_OFFSET, PIC2_MASK, PIC2_OFFSET,
    PIT_RELOAD_DEFAULT, READ_IN_SERVICE};

verus! {

/// One fault or interrupt report, as the diagnostic sink receives it: the
/// trapped instruction pointer and flags, the stack pointer the handler ran
/// on, and the error code and fault address where the architecture supplies
/// them.
#[derive(Clone, Copy, PartialEq, Eq, Structural, Debug)]
pub struct FaultReport {
    pub kind: HandlerKind,
    pub instruction_pointer: u64,
    pub stack_pointer: u64,
    pub cpu_flags: u64,
    pub error_code: Option<u64>,
    pub fault_address: Option<u64>,
}

/// State of the lazily initialized, lock-protected diagnostic sink. Using it
/// before initialization, or while its lock is already held by the faulting
/// context, is a fatal condition, never a silent no-op.
#[derive(Clone, Copy, PartialEq, Eq, Structural, Debug)]
pub enum SinkState {
    Uninitialized,
    Ready,
    Held,
}

/// A trap the simulated processor can take, with what the architecture hands
/// the handler.
#[derive(Clone, Copy, PartialEq, Eq, Structural, Debug)]
pub enum Trap {
    Breakpoint,
    DoubleFault { error_code: u64 },
    PageFault { address: u64, error_code: u64 },
    GeneralProtection { error_code: u64 },
    Timer,
    Irq7,
}

impl Trap {
    /// The vector the trap arrives on.
    pub open spec fn spec_vector(self) -> u8 {
        match self {
            Trap::Breakpoint => BREAKPOINT_VECTOR,
            Trap::DoubleFault { .. } => DOUBLE_FAULT_VECTOR,
            Trap::PageFault { .. } => PAGE_FAULT_VECTOR,
            Trap::GeneralProtection { .. } => GENERAL_PROTECTION_VECTOR,
            Trap::Timer => TIMER_VECTOR,
            Trap::Irq7 => IRQ7_VECTOR,
        }
    }

    pub fn vector(self) -> (r: u8)
        ensures
            r == self.spec_vector(),
    {
        match self {
            Trap::Breakpoint => BREAKPOINT_VECTOR,
            Trap::DoubleFault { .. } => DOUBLE_FAULT_VECTOR,
            Trap::PageFault { .. } => PAGE_FAULT_VECTOR,
            Trap::GeneralProtection { .. } => GENERAL_PROTECTION_VECTOR,
            Trap::Timer => TIMER_VECTOR,
            Trap::Irq7 => IRQ7_VECTOR,
        }
    }
}

/// What every trap dispatch leaves alone: the loaded tables, the interrupt
/// flag, the trapped instruction pointer, the live code selector, the
/// simulated in-service register and the sink's state.
pub open spec fn dispatch_frame(a: Machine, b: Machine) -> bool {
    &&& b.descriptors == a.descriptors
    &&& b.table == a.table
    &&& b.interrupts_enabled == a.interrupts_enabled
    &&& b.instruction_pointer == a.instruction_pointer
    &&& b.code_segment == a.code_segment
    &&& b.cpu_flags == a.cpu_flags
    &&& b.in_service_primary == a.in_service_primary
    &&& b.sink == a.sink
}

/// A handler that had to report while the sink was not ready halts at once:
/// nothing is logged, written or counted.
pub open spec fn aborted_outcome(a: Machine, b: Machine) -> bool {
    &&& b.halted
    &&& b.reports == a.reports
    &&& b.port_writes == a.port_writes
    &&& b.ticks == a.ticks
    &&& b.stack_pointer == a.stack_pointer
    &&& b.controllers == a.controllers
}

/// A breakpoint is reported and execution resumes.
pub open spec fn breakpoint_outcome(a: Machine, b: Machine) -> bool {
    &&& !b.halted
    &&& b.reports@ == a.reports@.push(
        FaultReport {
            kind: HandlerKind::Breakpoint,
            instruction_pointer: a.instruction_pointer,
            stack_pointer: a.stack_pointer,
            cpu_flags: a.cpu_flags,
            error_code: None,
            fault_address: None,
        },
    )
    &&& b.port_writes == a.port_writes
    &&& b.ticks == a.ticks
    &&& b.stack_pointer == a.stack_pointer
    &&& b.controllers == a.controllers
}

/// A double fault runs on the dedicated stack named by the descriptors,
/// reports the context with that stack in effect, and never returns.
pub open spec fn doublefault_outcome(a: Machine, b: Machine, error_code: u64) -> bool {
    &&& b.halted
    &&& b.stack_pointer == a.double_fault_stack_top()
    &&& b.reports@ == a.reports@.push(
        FaultReport {
            kind: HandlerKind::DoubleFault,
            instruction_pointer: a.instruction_pointer,
            stack_pointer: a.double_fault_stack_top() as u64,
            cpu_flags: a.cpu_flags,
            error_code: Some(error_code),
            fault_address: None,
        },
    )
    &&& b.port_writes == a.port_writes
    &&& b.ticks == a.ticks
    &&& b.controllers == a.controllers
}

/// A page fault is reported with its fault address and error-code bits and is
/// fatal under the current policy.
pub open spec fn pagefault_outcome(a: Machine, b: Machine, address: u64, error_code: u64) -> bool {
    &&& b.halted
    &&& b.reports@ == a.reports@.push(
        FaultReport {
            kind: HandlerKind::PageFault,
            instruction_pointer: a.instruction_pointer,
            stack_pointer: a.stack_pointer,
            cpu_flags: a.cpu_flags,
            error_code: Some(error_code),
            fault_address: Some(address),
        },
    )
    &&& b.port_writes == a.port_writes
    &&& b.ticks == a.ticks
    &&& b.stack_pointer == a.stack_pointer
    &&& b.controllers == a.controllers
}

/// A general-protection fault is reported with its error code and returns.
pub open spec fn general_protection_outcome(a: Machine, b: Machine, error_code: u64) -> bool {
    &&& !b.halted
    &&& b.reports@ == a.reports@.push(
        FaultReport {
            kind: HandlerKind::GeneralProtection,
            instruction_pointer: a.instruction_pointer,
            stack_pointer: a.stack_pointer,
            cpu_flags: a.cpu_flags,
            error_code: Some(error_code),
            fault_address: None,
        },
    )
    &&& b.port_writes == a.port_writes
    &&& b.ticks == a.ticks
    &&& b.stack_pointer == a.stack_pointer
    &&& b.controllers == a.controllers
}

/// The tick counter after one more timer interrupt; it wraps at the top.
pub open spec fn next_tick(t: u64) -> u64 {
    if t == u64::MAX {
        0
    } else {
        (t + 1) as u64
    }
}

/// A timer interrupt counts one tick and acknowledges the controller exactly
/// once; the controllers' offset/mask state is untouched.
pub open spec fn timer_outcome(a: Machine, b: Machine) -> bool {
    &&& !b.halted
    &&& b.ticks == next_tick(a.ticks)
    &&& b.port_writes@ == a.port_writes@ + end_of_interrupt_writes(TIMER_VECTOR)
    &&& b.reports == a.reports
    &&& b.stack_pointer == a.stack_pointer
    &&& b.controllers == a.controllers
}

/// A legacy line-7 interrupt probes the in-service register and acknowledges
/// exactly once if the line is in service, not at all if it is spurious.
pub open spec fn irq7_outcome(a: Machine, b: Machine) -> bool {
    &&& !b.halted
    &&& b.port_writes@ == a.port_writes@.push(
        PortWrite { port: PIC1_COMMAND, value: READ_IN_SERVICE },
    ) + (if irq7_in_service(a.in_service_primary) {
        end_of_interrupt_writes(IRQ7_VECTOR)
    } else {
        Seq::<PortWrite>::empty()
    })
    &&& b.reports == a.reports
    &&& b.ticks == a.ticks
    &&& b.stack_pointer == a.stack_pointer
    &&& b.controllers == a.controllers
}

/// The simulated processor and platform state the bootstrap core drives.
pub struct Machine {
    pub descriptors: Option<DescriptorSet>,
    pub table: Option<InterruptTable>,
    pub controllers: ControllerPair,
    pub interrupts_enabled: bool,
    pub halted: bool,
    pub port_writes: Vec<PortWrite>,
    pub instruction_pointer: u64,
    pub stack_pointer: u64,
    pub code_segment: u16,
    pub cpu_flags: u64,
    pub in_service_primary: u8,
    pub sink: SinkState,
    pub reports: Vec<FaultReport>,
    pub ticks: u64,
}

impl Machine {
    /// A machine whose descriptors and dispatch table are loaded and agree:
    /// the table is exactly the built one, keyed by the descriptor set's
    /// double-fault stack slot. This is the state `init` leaves behind and
    /// every trap dispatch relies on.
    pub open spec fn configured(self) -> bool {
        &&& self.descriptors matches Some(d) && d.wf() && (self.table matches Some(t)
            && table_is_built(t, d.double_fault_stack_index))
    }

    /// The stack pointer the double-fault handler starts on: the top of the
    /// dedicated stack named by the descriptors.
    pub open spec fn double_fault_stack_top(self) -> int {
        self.descriptors.unwrap().double_fault_stack().spec_top()
    }

    /// A clean machine as the bootloader hands it over: nothing loaded,
    /// interrupts disabled, the stack pointer at the top of the boot stack,
    /// and control at `entry`.
    pub fn boot(entry: u64) -> (r: Machine)
        ensures
            r.descriptors is None,
            r.table is None,
            r.controllers == (ControllerPair {
                primary: ControllerState { phase: InitPhase::Ready, offset: 8, mask: 0xFF },
                secondary: ControllerState { phase: InitPhase::Ready, offset: 0x70, mask: 0xFF },
            }),
            !r.interrupts_enabled,
            !r.halted,
            r.port_writes@ == Seq::<PortWrite>::empty(),
            r.instruction_pointer == entry,
            r.stack_pointer == BOOT_STACK_BASE + BOOT_STACK_SIZE,
            r.code_segment == 0,
            r.cpu_flags == 0x2,
            r.in_service_primary == 0,
            r.sink == SinkState::Uninitialized,
            r.reports@ == Seq::<FaultReport>::empty(),
            r.ticks == 0,
    {
        Machine {
            descriptors: None,
            table: None,
            controllers: ControllerPair {
                primary: ControllerState { phase: InitPhase::Ready, offset: 8, mask: 0xFF },
                secondary: ControllerState { phase: InitPhase::Ready, offset: 0x70, mask: 0xFF },
            },
            interrupts_enabled: false,
            halted: false,
            port_writes: Vec::new(),
            instruction_pointer: entry,
            stack_pointer: BOOT_STACK_BASE + BOOT_STACK_SIZE,
            code_segment: 0,
            cpu_flags: 0x2,
            in_service_primary: 0,
            sink: SinkState::Uninitialized,
            reports: Vec::new(),
            ticks: 0,
        }
    }

    /// Initialize the diagnostic sink. Until this ran, any handler that must
    /// report aborts instead of silently dropping its report.
    pub fn init_logger(&mut self)
        requires
            !old(self).halted,
        ensures
            final(self).sink == SinkState::Ready,
            final(self).descriptors == old(self).descriptors,
            final(self).table == old(self).table,
            final(self).controllers == old(self).controllers,
            final(self).interrupts_enabled == old(self).interrupts_enabled,
            final(self).halted == old(self).halted,
            final(self).port_writes == old(self).port_writes,
            final(self).instruction_pointer == old(self).instruction_pointer,
            final(self).stack_pointer == old(self).stack_pointer,
            final(self).code_segment == old(self).code_segment,
            final(self).cpu_flags == old(self).cpu_flags,
            final(self).in_service_primary == old(self).in_service_primary,
            final(self).reports == old(self).reports,
            final(self).ticks == old(self).ticks,
    {
        self.sink = SinkState::Ready;
    }

    /// Load a descriptor set: a point of no return that replaces the
    /// bootloader's descriptors and switches the live code selector. Loading
    /// twice is a logic error, ruled out here rather than detected at run
    /// time.
    pub fn load_descriptors(&mut self, set: DescriptorSet)
        requires
            !old(self).halted,
            old(self).descriptors is None,
            set.wf(),
        ensures
            final(self).descriptors == Some(set),
            final(self).code_segment == set.code_selector,
            final(self).table == old(self).table,
            final(self).controllers == old(self).controllers,
            final(self).interrupts_enabled == old(self).interrupts_enabled,
            final(self).halted == old(self).halted,
            final(self).port_writes == old(self).port_writes,
            final(self).instruction_pointer == old(self).instruction_pointer,
            final(self).stack_pointer == old(self).stack_pointer,
            final(self).cpu_flags == old(self).cpu_flags,
            final(self).in_service_primary == old(self).in_service_primary,
            final(self).sink == old(self).sink,
            final(self).reports == old(self).reports,
            final(self).ticks == old(self).ticks,
    {
        self.code_segment = set.code_selector;
        self.descriptors = Some(set);
    }

    /// Load a built dispatch table: it becomes the live table for the rest of
    /// execution; no unload path exists.
    pub fn load_table(&mut self, table: InterruptTable)
        requires
            !old(self).halted,
            old(self).table is None,
            table.wf(),
        ensures
            final(self).table == Some(table),
            final(self).descriptors == old(self).descriptors,
            final(self).controllers == old(self).controllers,
            final(self).interrupts_enabled == old(self).interrupts_enabled,
            final(self).halted == old(self).halted,
            final(self).port_writes == old(self).port_writes,
            final(self).instruction_pointer == old(self).instruction_pointer,
            final(self).stack_pointer == old(self).stack_pointer,
            final(self).code_segment == old(self).code_segment,
            final(self).cpu_flags == old(self).cpu_flags,
            final(self).in_service_primary == old(self).in_service_primary,
            final(self).sink == old(self).sink,
            final(self).reports == old(self).reports,
            final(self).ticks == old(self).ticks,
    {
        self.table = Some(table);
    }

    /// Perform a sequence of port writes: each one is appended to the log and
    /// stepped through the modeled controllers.
    pub fn perform_writes(&mut self, ws: &Vec<PortWrite>)
        ensures
            final(self).port_writes@ == old(self).port_writes@ + ws@,
            final(self).controllers == pair_after_all(old(self).controllers, ws@),
            final(self).descriptors == old(self).descriptors,
            final(self).table == old(self).table,
            final(self).interrupts_enabled == old(self).interrupts_enabled,
            final(self).halted == old(self).halted,
            final(self).instruction_pointer == old(self).instruction_pointer,
            final(self).stack_pointer == old(self).stack_pointer,
            final(self).code_segment == old(self).code_segment,
            final(self).cpu_flags == old(self).cpu_flags,
            final(self).in_service_primary == old(self).in_service_primary,
            final(self).sink == old(self).sink,
            final(self).reports == old(self).reports,
            final(self).ticks == old(self).ticks,
    {
        let mut i: usize = 0;
        while i < ws.len()
            invariant
                i <= ws.len(),
                self.port_writes@ == old(self).port_writes@ + ws@.take(i as int),
                self.controllers == pair_after(old(self).controllers, ws@, i as int),
                self.descriptors == old(self).descriptors,
                self.table == old(self).table,
                self.interrupts_enabled == old(self).interrupts_enabled,
                self.halted == old(self).halted,
                self.instruction_pointer == old(self).instruction_pointer,
                self.stack_pointer == old(self).stack_pointer,
                self.code_segment == old(self).code_segment,
                self.cpu_flags == old(self).cpu_flags,
                self.in_service_primary == old(self).in_service_primary,
                self.sink == old(self).sink,
                self.reports == old(self).reports,
                self.ticks == old(self).ticks,
            decreases ws.len() - i,
        {
            let w = ws[i];
            self.port_writes.push(w);
            crate::pic::step_controllers(&mut self.controllers, w);
            proof {
                assert(self.port_writes@ =~= old(self).port_writes@ + ws@.take(i as int + 1));
            }
            i = i + 1;
        }
        proof {
            assert(ws@.take(ws@.len() as int) =~= ws@);
            assert(final(self).port_writes@ =~= old(self).port_writes@ + ws@);
        }
    }

    /// Remap and mask both controllers, arm the timer, and enable interrupts.
    /// Requires the descriptors to be loaded first (the dispatch table binds
    /// the double-fault handler to their stack slot) and builds and loads the
    /// dispatch table before the first hardware interrupt can arrive.
    pub fn init_interrupts(&mut self)
        requires
            !old(self).halted,
            old(self).descriptors matches Some(d) && d.wf(),
            old(self).table is None,
        ensures
            final(self).configured(),
            final(self).descriptors == old(self).descriptors,
            final(self).port_writes@ == old(self).port_writes@ + controller_init_writes(
                PIC1_OFFSET,
                PIC2_OFFSET,
                PIC1_MASK,
                PIC2_MASK,
            ) + timer_init_writes(PIT_RELOAD_DEFAULT),
            final(self).controllers == controller_after_init(
                PIC1_OFFSET,
                PIC2_OFFSET,
                PIC1_MASK,
                PIC2_MASK,
            ),
            final(self).interrupts_enabled,
            final(self).halted == old(self).halted,
            final(self).instruction_pointer == old(self).instruction_pointer,
            final(self).stack_pointer == old(self).stack_pointer,
            final(self).code_segment == old(self).code_segment,
            final(self).cpu_flags == old(self).cpu_flags,
            final(self).in_service_primary == old(self).in_service_primary,
            final(self).sink == old(self).sink,
            final(self).reports == old(self).reports,
            final(self).ticks == old(self).ticks,
    {
        let double_fault_stack_index: u16 = match &self.descriptors {
            Some(d) => d.double_fault_stack_index,
            None => unreached(),
        };
        let table = init_idt(double_fault_stack_index);
        self.load_table(table);
        let init_writes = initialize_controllers(PIC1_OFFSET, PIC2_OFFSET, PIC1_MASK, PIC2_MASK);
        self.perform_writes(&init_writes);
        let timer_writes = initialize_timer(PIT_RELOAD_DEFAULT);
        self.perform_writes(&timer_writes);
        self.interrupts_enabled = true;
        proof {
            crate::pic::lemma_init_writes_pin_state(
                old(self).controllers,
                PIC1_OFFSET,
                PIC2_OFFSET,
                PIC1_MASK,
                PIC2_MASK,
            );
            lemma_timer_writes_leave_controllers(
                controller_after_init(PIC1_OFFSET, PIC2_OFFSET, PIC1_MASK, PIC2_MASK),
                PIT_RELOAD_DEFAULT,
            );
            assert(final(self).port_writes@ =~= old(self).port_writes@ + controller_init_writes(
                PIC1_OFFSET,
                PIC2_OFFSET,
                PIC1_MASK,
                PIC2_MASK,
            ) + timer_init_writes(PIT_RELOAD_DEFAULT));
        }
    }

    /// The boot orchestration, run exactly once at kernel entry with
    /// interrupts still disabled: build and load the descriptors, build and
    /// load the dispatch table against their double-fault stack slot, then
    /// initialize the controllers and the timer and enable interrupts. Each
    /// step is a hard precondition of the next; no error path exists.
    pub fn init(&mut self)
        requires
            !old(self).halted,
            old(self).descriptors is None,
            old(self).table is None,
        ensures
            final(self).configured(),
            final(self).descriptors matches Some(d) && is_built_descriptors(d),
            final(self).code_segment == KERNEL_CODE_SELECTOR,
            final(self).port_writes@ == old(self).port_writes@ + controller_init_writes(
                PIC1_OFFSET,
                PIC2_OFFSET,
                PIC1_MASK,
                PIC2_MASK,
            ) + timer_init_writes(PIT_RELOAD_DEFAULT),
            final(self).controllers == controller_after_init(
                PIC1_OFFSET,
                PIC2_OFFSET,
                PIC1_MASK,
                PIC2_MASK,
            ),
            final(self).interrupts_enabled,
            !final(self).halted,
            final(self).instruction_pointer == old(self).instruction_pointer,
            final(self).stack_pointer == old(self).stack_pointer,
            final(self).cpu_flags == old(self).cpu_flags,
            final(self).in_service_primary == old(self).in_service_primary,
            final(self).sink == old(self).sink,
            final(self).reports == old(self).reports,
            final(self).ticks == old(self).ticks,
    {
        let descriptors = build_descriptors();
        self.load_descriptors(descriptors);
        self.init_interrupts();
    }

    /// Report a breakpoint trap and resume: the one recoverable trap.
    fn breakpoint_handler(&mut self)
        requires
            old(self).sink == SinkState::Ready,
        ensures
            final(self).reports@ == old(self).reports@.push(
                FaultReport {
                    kind: HandlerKind::Breakpoint,
                    instruction_pointer: old(self).instruction_pointer,
                    stack_pointer: old(self).stack_pointer,
                    cpu_flags: old(self).cpu_flags,
                    error_code: None,
                    fault_address: None,
                },
            ),
            *final(self) == (Machine { reports: final(self).reports, ..*old(self) }),
    {
        let report = FaultReport {
            kind: HandlerKind::Breakpoint,
            instruction_pointer: self.instruction_pointer,
            stack_pointer: self.stack_pointer,
            cpu_flags: self.cpu_flags,
            error_code: None,
            fault_address: None,
        };
        self.reports.push(report);
    }

    /// Report a double fault on the dedicated stack and halt: the handler
    /// never returns, by architecture contract.
    fn doublefault_handler(&mut self, error_code: u64, fault_stack_top: u64)
        requires
            old(self).sink == SinkState::Ready,
        ensures
            final(self).halted,
            final(self).stack_pointer == fault_stack_top,
            final(self).reports@ == old(self).reports@.push(
                FaultReport {
                    kind: HandlerKind::DoubleFault,
                    instruction_pointer: old(self).instruction_pointer,
                    stack_pointer: fault_stack_top,
                    cpu_flags: old(self).cpu_flags,
                    error_code: Some(error_code),
                    fault_address: None,
                },
            ),
            *final(self) == (Machine {
                halted: true,
                stack_pointer: fault_stack_top,
                reports: final(self).reports,
                ..*old(self)
            }),
    {
        self.stack_pointer = fault_stack_top;
        let report = FaultReport {
            kind: HandlerKind::DoubleFault,
            instruction_pointer: self.instruction_pointer,
            stack_pointer: self.stack_pointer,
            cpu_flags: self.cpu_flags,
            error_code: Some(error_code),
            fault_address: None,
        };
        self.reports.push(report);
        self.halted = true;
    }

    /// Report a page fault with its fault address and error-code bits, then
    /// halt: with no virtual-memory manager yet, every page fault is treated
    /// as fatal.
    fn pagefault_handler(&mut self, address: u64, error_code: u64)
        requires
            old(self).sink == SinkState::Ready,
        ensures
            final(self).halted,
            final(self).reports@ == old(self).reports@.push(
                FaultReport {
                    kind: HandlerKind::PageFault,
                    instruction_pointer: old(self).instruction_pointer,
                    stack_pointer: old(self).stack_pointer,
                    cpu_flags: old(self).cpu_flags,
                    error_code: Some(error_code),
                    fault_address: Some(address),
                },
            ),
            *final(self) == (Machine { halted: true, reports: final(self).reports, ..*old(self) }),
    {
        let report = FaultReport {
            kind: HandlerKind::PageFault,
            instruction_pointer: self.instruction_pointer,
            stack_pointer: self.stack_pointer,
            cpu_flags: self.cpu_flags,
            error_code: Some(error_code),
            fault_address: Some(address),
        };
        self.reports.push(report);
        self.halted = true;
    }

    /// Report a general-protection fault with its error code; the handler
    /// returns, though in practice the fault indicates a severe bug.
    fn general_protection_handler(&mut self, error_code: u64)
        requires
            old(self).sink == SinkState::Ready,
        ensures
            final(self).reports@ == old(self).reports@.push(
                FaultReport {
                    kind: HandlerKind::GeneralProtection,
                    instruction_pointer: old(self).instruction_pointer,
                    stack_pointer: old(self).stack_pointer,
                    cpu_flags: old(self).cpu_flags,
                    error_code: Some(error_code),
                    fault_address: None,
                },
            ),
            *final(self) == (Machine { reports: final(self).reports, ..*old(self) }),
    {
        let report = FaultReport {
            kind: HandlerKind::GeneralProtection,
            instruction_pointer: self.instruction_pointer,
            stack_pointer: self.stack_pointer,
            cpu_flags: self.cpu_flags,
            error_code: Some(error_code),
            fault_address: None,
        };
        self.reports.push(report);
    }

    /// Count the timer tick and acknowledge the controller; no scheduling
    /// action occurs at this layer.
    fn timer_handler(&mut self)
        requires
            old(self).sink == SinkState::Ready,
        ensures
            final(self).ticks == next_tick(old(self).ticks),
            final(self).port_writes@ == old(self).port_writes@ + end_of_interrupt_writes(
                TIMER_VECTOR,
            ),
            final(self).controllers == old(self).controllers,
            *final(self) == (Machine {
                ticks: final(self).ticks,
                port_writes: final(self).port_writes,
                ..*old(self)
            }),
    {
        if self.ticks == u64::MAX {
            self.ticks = 0;
        } else {
            self.ticks = self.ticks + 1;
        }
        let eoi = acknowledge(TIMER_VECTOR);
        self.perform_writes(&eoi);
        proof {
            lemma_eoi_leaves_controllers(old(self).controllers, TIMER_VECTOR);
        }
    }

    /// The legacy line-7 workaround: ask the primary controller for its
    /// in-service register, and acknowledge only when line 7 is really in
    /// service; a spurious interrupt is discarded without acknowledgment.
    fn irq7_handler(&mut self)
        requires
            old(self).sink == SinkState::Ready,
        ensures
            final(self).port_writes@ == old(self).port_writes@.push(
                PortWrite { port: PIC1_COMMAND, value: READ_IN_SERVICE },
            ) + (if irq7_in_service(old(self).in_service_primary) {
                end_of_interrupt_writes(IRQ7_VECTOR)
            } else {
                Seq::<PortWrite>::empty()
            }),
            final(self).controllers == old(self).controllers,
            *final(self) == (Machine { port_writes: final(self).port_writes, ..*old(self) }),
    {
        let mut probe: Vec<PortWrite> = Vec::new();
        probe.push(PortWrite { port: PIC1_COMMAND, value: READ_IN_SERVICE });
        self.perform_writes(&probe);
        let report = self.in_service_primary;
        let eoi = irq7_acknowledge_writes(report);
        self.perform_writes(&eoi);
        proof {
            assert(probe@ =~= seq![PortWrite { port: PIC1_COMMAND, value: READ_IN_SERVICE }]);
            assert(pair_after(old(self).controllers, probe@, 0) == old(self).controllers);
            assert(pair_after(old(self).controllers, probe@, 1) == pair_step(
                old(self).controllers,
                probe@[0],
            ));
            if irq7_in_service(report) {
                lemma_eoi_leaves_controllers(old(self).controllers, IRQ7_VECTOR);
            }
            assert(final(self).port_writes@ =~= old(self).port_writes@.push(
                PortWrite { port: PIC1_COMMAND, value: READ_IN_SERVICE },
            ) + (if irq7_in_service(old(self).in_service_primary) {
                end_of_interrupt_writes(IRQ7_VECTOR)
            } else {
                Seq::<PortWrite>::empty()
            }));
        }
    }

    /// Dispatch a trap through the loaded table, as the processor would: the
    /// entry at the trap's vector names the handler, and the double-fault
    /// entry's stack slot switches the stack pointer to the dedicated stack
    /// before its handler runs. A handler that must report while the sink is
    /// not ready (uninitialized, or its lock already held) halts instead of
    /// deadlocking or dropping the report.
    pub fn trigger(&mut self, trap: Trap)
        requires
            !old(self).halted,
            old(self).configured(),
        ensures
            dispatch_frame(*old(self), *final(self)),
            old(self).sink != SinkState::Ready ==> aborted_outcome(*old(self), *final(self)),
            old(self).sink == SinkState::Ready ==> (match trap {
                Trap::Breakpoint => breakpoint_outcome(*old(self), *final(self)),
                Trap::DoubleFault { error_code } => doublefault_outcome(
                    *old(self),
                    *final(self),
                    error_code,
                ),
                Trap::PageFault { address, error_code } => pagefault_outcome(
                    *old(self),
                    *final(self),
                    address,
                    error_code,
                ),
                Trap::GeneralProtection { error_code } => general_protection_outcome(
                    *old(self),
                    *final(self),
                    error_code,
                ),
                Trap::Timer => timer_outcome(*old(self), *final(self)),
                Trap::Irq7 => irq7_outcome(*old(self), *final(self)),
            }),
    {
        let vector = trap.vector();
        let entry = match &self.table {
            Some(t) => t.entries[vector as usize],
            None => unreached(),
        };
        proof {
            let d = self.descriptors.unwrap();
            assert(entry == built_entry(vector as int, d.double_fault_stack_index));
        }
        match self.sink {
            SinkState::Ready => {},
            _ => {
                self.halted = true;
                return ;
            },
        }
        match (entry.handler, trap) {
            (HandlerKind::Breakpoint, Trap::Breakpoint) => {
                self.breakpoint_handler();
            },
            (HandlerKind::DoubleFault, Trap::DoubleFault { error_code }) => {
                let fault_stack_top = match (&self.descriptors, entry.stack_index) {
                    (Some(d), Some(index)) => {
                        let stack = d.task_state.interrupt_stacks[index as usize];
                        stack.top()
                    },
                    _ => unreached(),
                };
                self.doublefault_handler(error_code, fault_stack_top);
            },
            (HandlerKind::PageFault, Trap::PageFault { address, error_code }) => {
                self.pagefault_handler(address, error_code);
            },
            (HandlerKind::GeneralProtection, Trap::GeneralProtection { error_code }) => {
                self.general_protection_handler(error_code);
            },
            (HandlerKind::Timer, Trap::Timer) => {
                self.timer_handler();
            },
            (HandlerKind::SpuriousIrq7, Trap::Irq7) => {
                self.irq7_handler();
            },
            _ => unreached(),
        }
    }
}

/// Programming the timer touches only its own ports, so the controller pair
/// is left exactly as it was.
pub proof fn lemma_timer_writes_leave_controllers(s: ControllerPair, reload: u16)
    ensures
        pair_after_all(s, timer_init_writes(reload)) == s,
{
    let ws = timer_init_writes(reload);
    assert(pair_after(s, ws, 0) == s);
    assert(pair_after(s, ws, 1) == pair_step(pair_after(s, ws, 0), ws[0]));
    assert(pair_after(s, ws, 2) == pair_step(pair_after(s, ws, 1), ws[1]));
    assert(pair_after(s, ws, 3) == pair_step(pair_after(s, ws, 2), ws[2]));
}

/// An end-of-interrupt command is not an init command, so the modeled offset,
/// mask and phase of both controllers are left exactly as they were.
pub proof fn lemma_eoi_leaves_controllers(s: ControllerPair, vector: u8)
    ensures
        pair_after_all(s, end_of_interrupt_writes(vector)) == s,
{
    let ws = end_of_interrupt_writes(vector);
    assert(EOI_COMMAND != ICW1_INIT);
    if vector >= PIC2_OFFSET {
        assert(pair_after(s, ws, 1) == pair_step(pair_after(s, ws, 0), ws[0]));
        assert(pair_after(s, ws, 2) == pair_step(pair_after(s, ws, 1), ws[1]));
    } else {
        assert(pair_after(s, ws, 1) == pair_step(pair_after(s, ws, 0), ws[0]));
    }
}

} // verus!
