//! Construction of the 256-entry interrupt dispatch table.
//!
//! Every vector maps either to one of the handlers this kernel installs —
//! breakpoint, double fault (bound to its dedicated stack), page fault,
//! general protection, the timer line and the legacy spurious line 7 — or to
//! the architecture default. The construction contract pins all 256 entries,
//! so installing a handler at the wrong vector, or forgetting one, is a
//! verification error rather than a latent boot bug.

use vstd::prelude::*;

use crate::gdt::DOUBLE_FAULT_IST_INDEX;
use crate::pic::PIC1_OFFSET;

verus! {

/// Vector of the breakpoint exception.
pub const BREAKPOINT_VECTOR: u8 = 3;
/// Vector of the double-fault exception.
pub const DOUBLE_FAULT_VECTOR: u8 = 8;
/// Vector of the general-protection-fault exception.
pub const GENERAL_PROTECTION_VECTOR: u8 = 13;
/// Vector of the page-fault exception.
pub const PAGE_FAULT_VECTOR: u8 = 14;
/// Vector the timer line is remapped to.
pub const TIMER_VECTOR: u8 = 32;
/// Vector the legacy spurious line 7 is remapped to.
pub const IRQ7_VECTOR: u8 = 39;
/// Number of entries the processor's vector table holds.
pub const TABLE_ENTRIES: usize = 256;

/// The hardware interrupt lines this kernel handles, named by their vector.
#[derive(Clone, Copy, PartialEq, Eq, Structural, Debug)]
pub enum InterruptIndex {
    Timer,
    IRQ7,
}

impl InterruptIndex {
    /// The controller line the interrupt arrives on, relative to the
    /// controller's vector offset.
    pub open spec fn irq_line(self) -> u8 {
        match self {
            InterruptIndex::Timer => 0,
            InterruptIndex::IRQ7 => 7,
        }
    }

    /// The vector the line is dispatched at: the remap offset plus the line.
    pub open spec fn spec_vector(self) -> u8 {
        (PIC1_OFFSET + self.irq_line()) as u8
    }

    pub fn as_u8(self) -> (r: u8)
        ensures
            r == self.spec_vector(),
    {
        match self {
            InterruptIndex::Timer => TIMER_VECTOR,
            InterruptIndex::IRQ7 => IRQ7_VECTOR,
        }
    }

    pub fn as_usize(self) -> (r: usize)
        ensures
            r == self.spec_vector(),
    {
        self.as_u8() as usize
    }
}

/// What a dispatch-table entry routes to. `Default` marks a vector left at
/// architecture-default behavior: an unhandled trap there is a
/// processor-defined fatal condition.
#[derive(Clone, Copy, PartialEq, Eq, Structural, Debug)]
pub enum HandlerKind {
    Default,
    Breakpoint,
    DoubleFault,
    PageFault,
    GeneralProtection,
    Timer,
    SpuriousIrq7,
}

/// One vector-table entry: the handler and, where required, the
/// interrupt-stack-table slot the processor must switch to before running it.
#[derive(Clone, Copy, PartialEq, Eq, Structural, Debug)]
pub struct IdtEntry {
    pub handler: HandlerKind,
    pub stack_index: Option<u16>,
}

/// The interrupt dispatch table: one entry per vector, built once, loaded
/// once, immutable afterward.
#[derive(Clone, PartialEq, Eq, Debug)]
pub struct InterruptTable {
    pub entries: Vec<IdtEntry>,
}

/// An entry left at architecture default.
pub open spec fn default_entry() -> IdtEntry {
    IdtEntry { handler: HandlerKind::Default, stack_index: None }
}

/// The entry the finished table holds at vector `v`, given the
/// interrupt-stack slot the double-fault handler is bound to.
pub open spec fn built_entry(v: int, double_fault_stack_index: u16) -> IdtEntry {
    if v == BREAKPOINT_VECTOR {
        IdtEntry { handler: HandlerKind::Breakpoint, stack_index: None }
    } else if v == DOUBLE_FAULT_VECTOR {
        IdtEntry { handler: HandlerKind::DoubleFault, stack_index: Some(double_fault_stack_index) }
    } else if v == GENERAL_PROTECTION_VECTOR {
        IdtEntry { handler: HandlerKind::GeneralProtection, stack_index: None }
    } else if v == PAGE_FAULT_VECTOR {
        IdtEntry { handler: HandlerKind::PageFault, stack_index: None }
    } else if v == TIMER_VECTOR {
        IdtEntry { handler: HandlerKind::Timer, stack_index: None }
    } else if v == IRQ7_VECTOR {
        IdtEntry { handler: HandlerKind::SpuriousIrq7, stack_index: None }
    } else {
        default_entry()
    }
}

/// A fully built table for the given double-fault stack slot.
pub open spec fn table_is_built(t: InterruptTable, double_fault_stack_index: u16) -> bool {
    &&& t.entries@.len() == TABLE_ENTRIES
    &&& forall|v: int|
        0 <= v < TABLE_ENTRIES ==> t.entries@[v] == built_entry(v, double_fault_stack_index)
}

impl InterruptTable {
    /// A table of the right size.
    pub open spec fn wf(self) -> bool {
        self.entries@.len() == TABLE_ENTRIES
    }

    /// A fresh table with every vector at architecture default.
    pub fn new() -> (r: InterruptTable)
        ensures
            r.wf(),
            forall|v: int| 0 <= v < TABLE_ENTRIES ==> r.entries@[v] == default_entry(),
    {
        let mut entries: Vec<IdtEntry> = Vec::new();
        let mut i: usize = 0;
        while i < TABLE_ENTRIES
            invariant
                i <= TABLE_ENTRIES,
                entries@.len() == i,
                forall|v: int| 0 <= v < i ==> entries@[v] == default_entry(),
            decreases TABLE_ENTRIES - i,
        {
            entries.push(IdtEntry { handler: HandlerKind::Default, stack_index: None });
            i = i + 1;
        }
        InterruptTable { entries }
    }
}

/// Install the exception handlers: breakpoint, double fault (bound to the
/// given dedicated stack slot), general protection and page fault. All other
/// entries are left as they were.
pub fn set_exception_handlers(idt: &mut InterruptTable, double_fault_stack_index: u16)
    requires
        old(idt).wf(),
    ensures
        final(idt).wf(),
        final(idt).entries@[BREAKPOINT_VECTOR as int] == (IdtEntry {
            handler: HandlerKind::Breakpoint,
            stack_index: None,
        }),
        final(idt).entries@[DOUBLE_FAULT_VECTOR as int] == (IdtEntry {
            handler: HandlerKind::DoubleFault,
            stack_index: Some(double_fault_stack_index),
        }),
        final(idt).entries@[GENERAL_PROTECTION_VECTOR as int] == (IdtEntry {
            handler: HandlerKind::GeneralProtection,
            stack_index: None,
        }),
        final(idt).entries@[PAGE_FAULT_VECTOR as int] == (IdtEntry {
            handler: HandlerKind::PageFault,
            stack_index: None,
        }),
        forall|v: int|
            0 <= v < TABLE_ENTRIES && v != BREAKPOINT_VECTOR && v != DOUBLE_FAULT_VECTOR && v
                != GENERAL_PROTECTION_VECTOR && v != PAGE_FAULT_VECTOR
                ==> final(idt).entries@[v] == old(idt).entries@[v],
{
    idt.entries[DOUBLE_FAULT_VECTOR as usize] = IdtEntry {
        handler: HandlerKind::DoubleFault,
        stack_index: Some(double_fault_stack_index),
    };
    idt.entries[PAGE_FAULT_VECTOR as usize] = IdtEntry {
        handler: HandlerKind::PageFault,
        stack_index: None,
    };
    idt.entries[GENERAL_PROTECTION_VECTOR as usize] = IdtEntry {
        handler: HandlerKind::GeneralProtection,
        stack_index: None,
    };
    idt.entries[BREAKPOINT_VECTOR as usize] = IdtEntry {
        handler: HandlerKind::Breakpoint,
        stack_index: None,
    };
}

/// Install the hardware-interrupt handlers at the vectors the controller
/// remap assigns: the timer line and the legacy spurious line 7. All other
/// entries are left as they were.
pub fn set_interrupt_handlers(idt: &mut InterruptTable)
    requires
        old(idt).wf(),
    ensures
        final(idt).wf(),
        final(idt).entries@[TIMER_VECTOR as int] == (IdtEntry {
            handler: HandlerKind::Timer,
            stack_index: None,
        }),
        final(idt).entries@[IRQ7_VECTOR as int] == (IdtEntry {
            handler: HandlerKind::SpuriousIrq7,
            stack_index: None,
        }),
        forall|v: int|
            0 <= v < TABLE_ENTRIES && v != TIMER_VECTOR && v != IRQ7_VECTOR
                ==> final(idt).entries@[v] == old(idt).entries@[v],
{
    let irq7 = InterruptIndex::IRQ7.as_usize();
    let timer = InterruptIndex::Timer.as_usize();
    idt.entries[irq7] = IdtEntry { handler: HandlerKind::SpuriousIrq7, stack_index: None };
    idt.entries[timer] = IdtEntry { handler: HandlerKind::Timer, stack_index: None };
}

/// Build the whole dispatch table: exactly the documented handlers installed,
/// every other vector at architecture default.
pub fn init_idt(double_fault_stack_index: u16) -> (r: InterruptTable)
    ensures
        r.wf(),
        table_is_built(r, double_fault_stack_index),
{
    let mut idt = InterruptTable::new();
    set_exception_handlers(&mut idt, double_fault_stack_index);
    set_interrupt_handlers(&mut idt);
    idt
}

/// Exactly the documented subset of vectors carries a non-default handler:
/// breakpoint, double fault, general protection, page fault, the timer line
/// and the legacy line 7. Every other vector keeps architecture-default
/// behavior, and only the double-fault entry is bound to a dedicated stack.
pub proof fn lemma_installed_vectors(double_fault_stack_index: u16)
    ensures
        forall|v: int|
            0 <= v < TABLE_ENTRIES ==> ((#[trigger] built_entry(
                v,
                double_fault_stack_index,
            )).handler != HandlerKind::Default <==> (v == BREAKPOINT_VECTOR || v
                == DOUBLE_FAULT_VECTOR || v == GENERAL_PROTECTION_VECTOR || v == PAGE_FAULT_VECTOR
                || v == TIMER_VECTOR || v == IRQ7_VECTOR)),
        forall|v: int|
            0 <= v < TABLE_ENTRIES ==> ((#[trigger] built_entry(
                v,
                double_fault_stack_index,
            )).stack_index is Some <==> v == DOUBLE_FAULT_VECTOR),
{
}

/// Round trip between the controller remap and the dispatch table: for every
/// handled hardware line, the remap offset plus the relative line number is
/// exactly the vector its handler is installed at, and that is the vector the
/// line's name reports.
pub proof fn lemma_remap_round_trip(double_fault_stack_index: u16)
    ensures
        forall|i: InterruptIndex|
            (#[trigger] i.spec_vector()) == PIC1_OFFSET + i.irq_line(),
        built_entry(
            InterruptIndex::Timer.spec_vector() as int,
            double_fault_stack_index,
        ).handler == HandlerKind::Timer,
        built_entry(
            InterruptIndex::IRQ7.spec_vector() as int,
            double_fault_stack_index,
        ).handler == HandlerKind::SpuriousIrq7,
{
    assert forall|i: InterruptIndex| (#[trigger] i.spec_vector()) == PIC1_OFFSET + i.irq_line() by {
        match i {
            InterruptIndex::Timer => {},
            InterruptIndex::IRQ7 => {},
        }
    }
}

} // verus!
