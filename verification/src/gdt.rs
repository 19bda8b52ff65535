//! Segment and task-state descriptor construction.
//!
//! The descriptor set built here carries the kernel code selector, the
//! task-state selector, and one dedicated interrupt stack reserved for the
//! double-fault handler, which must not run on a possibly corrupt or
//! exhausted ordinary stack. Well-formedness pins stack alignment and keeps
//! every declared static stack region disjoint from every other, including
//! the boot stack in effect when the orchestrator starts.

use vstd::prelude::*;

verus! {

/// Required alignment of a stack region's base and top.
pub const STACK_ALIGNMENT: u64 = 16;

/// Base of the statically allocated boot stack the kernel enters on.
pub const BOOT_STACK_BASE: u64 = 0x0020_0000;
/// Size of the boot stack.
pub const BOOT_STACK_SIZE: u64 = 0x1_0000;
/// Base of the statically allocated double-fault stack. No guard page exists
/// below it in this minimal design.
pub const DOUBLE_FAULT_STACK_BASE: u64 = 0x0030_0000;
/// Size of the double-fault stack.
pub const DOUBLE_FAULT_STACK_SIZE: u64 = 0x5000;

/// Interrupt-stack-table slot the double-fault handler is bound to.
pub const DOUBLE_FAULT_IST_INDEX: u16 = 0;

/// Selector of the kernel code segment (descriptor 1, ring 0).
pub const KERNEL_CODE_SELECTOR: u16 = 0x08;
/// Selector of the task-state segment (descriptor 2, ring 0).
pub const TSS_SELECTOR: u16 = 0x10;

/// The named interrupt-stack-table slots this kernel assigns.
#[derive(Clone, Copy, PartialEq, Eq, Structural, Debug)]
pub enum IstIndex {
    DOUBLEFAULT,
}

impl IstIndex {
    /// The slot number a name stands for.
    pub open spec fn spec_as_u16(self) -> u16 {
        match self {
            IstIndex::DOUBLEFAULT => DOUBLE_FAULT_IST_INDEX,
        }
    }

    pub fn as_u16(self) -> (r: u16)
        ensures
            r == self.spec_as_u16(),
    {
        match self {
            IstIndex::DOUBLEFAULT => DOUBLE_FAULT_IST_INDEX,
        }
    }
}

/// A fixed-size, statically allocated stack region `[base, base + size)`.
#[derive(Clone, Copy, PartialEq, Eq, Structural, Debug)]
pub struct StackRegion {
    pub base: u64,
    pub size: u64,
}

impl StackRegion {
    /// One past the region's last byte: the value the stack pointer starts at,
    /// since the stack grows downward.
    pub open spec fn spec_top(self) -> int {
        self.base + self.size
    }

    /// A usable stack region: non-empty, base and top aligned, top
    /// representable.
    pub open spec fn wf(self) -> bool {
        &&& self.size > 0
        &&& self.base % STACK_ALIGNMENT == 0
        &&& self.size % STACK_ALIGNMENT == 0
        &&& self.base + self.size <= u64::MAX
    }

    /// Whether two regions share no byte.
    pub open spec fn disjoint_from(self, other: StackRegion) -> bool {
        self.base + self.size <= other.base || other.base + other.size <= self.base
    }

    /// Whether an address lies inside the region.
    pub open spec fn contains(self, addr: u64) -> bool {
        self.base <= addr < self.base + self.size
    }

    pub fn top(&self) -> (r: u64)
        requires
            self.base + self.size <= u64::MAX,
        ensures
            r == self.spec_top(),
    {
        self.base + self.size
    }
}

/// The dedicated interrupt stacks held by the hardware task-state structure.
#[derive(Clone, PartialEq, Eq, Debug)]
pub struct TaskStateRecord {
    pub interrupt_stacks: Vec<StackRegion>,
}

/// The full descriptor set: selectors, the task-state record, the boot stack
/// in effect at orchestrator start, and the name of the interrupt stack the
/// double-fault handler must run on.
#[derive(Clone, PartialEq, Eq, Debug)]
pub struct DescriptorSet {
    pub code_selector: u16,
    pub tss_selector: u16,
    pub boot_stack: StackRegion,
    pub task_state: TaskStateRecord,
    pub double_fault_stack_index: u16,
}

impl DescriptorSet {
    /// The stack region the double-fault handler is bound to.
    pub open spec fn double_fault_stack(self) -> StackRegion {
        self.task_state.interrupt_stacks@[self.double_fault_stack_index as int]
    }

    /// Well-formed descriptors: distinct non-null selectors, a valid bound
    /// stack index, every stack region well formed, and all declared static
    /// stack regions pairwise disjoint (the boot stack included).
    pub open spec fn wf(self) -> bool {
        &&& self.code_selector != 0
        &&& self.tss_selector != 0
        &&& self.code_selector != self.tss_selector
        &&& (self.double_fault_stack_index as int) < self.task_state.interrupt_stacks@.len()
        &&& self.boot_stack.wf()
        &&& forall|i: int|
            0 <= i < self.task_state.interrupt_stacks@.len() ==> (
            #[trigger] self.task_state.interrupt_stacks@[i]).wf()
        &&& forall|i: int|
            0 <= i < self.task_state.interrupt_stacks@.len() ==> (
            #[trigger] self.task_state.interrupt_stacks@[i]).disjoint_from(self.boot_stack)
        &&& forall|i: int, j: int|
            0 <= i < self.task_state.interrupt_stacks@.len() && 0 <= j
                < self.task_state.interrupt_stacks@.len() && i != j
                ==> (#[trigger] self.task_state.interrupt_stacks@[i]).disjoint_from(
                #[trigger] self.task_state.interrupt_stacks@[j],
            )
    }
}

/// The exact descriptor set this kernel builds: the fixed selectors, the boot
/// stack, and a task-state record holding the one double-fault stack.
pub open spec fn is_built_descriptors(d: DescriptorSet) -> bool {
    &&& d.code_selector == KERNEL_CODE_SELECTOR
    &&& d.tss_selector == TSS_SELECTOR
    &&& d.boot_stack == StackRegion { base: BOOT_STACK_BASE, size: BOOT_STACK_SIZE }
    &&& d.task_state.interrupt_stacks@ == seq![
        StackRegion { base: DOUBLE_FAULT_STACK_BASE, size: DOUBLE_FAULT_STACK_SIZE },
    ]
    &&& d.double_fault_stack_index == DOUBLE_FAULT_IST_INDEX
}

/// Build the descriptor set: code and task-state selectors plus the dedicated
/// double-fault stack. Performed once at boot; loading it twice is a logic
/// error the orchestrator's contract rules out.
pub fn build_descriptors() -> (r: DescriptorSet)
    ensures
        r.wf(),
        is_built_descriptors(r),
        r.double_fault_stack_index == DOUBLE_FAULT_IST_INDEX,
        r.task_state.interrupt_stacks@.len() == 1,
        r.double_fault_stack() == (StackRegion {
            base: DOUBLE_FAULT_STACK_BASE,
            size: DOUBLE_FAULT_STACK_SIZE,
        }),
        r.boot_stack == (StackRegion { base: BOOT_STACK_BASE, size: BOOT_STACK_SIZE }),
{
    let mut stacks: Vec<StackRegion> = Vec::new();
    stacks.push(StackRegion { base: DOUBLE_FAULT_STACK_BASE, size: DOUBLE_FAULT_STACK_SIZE });
    let r = DescriptorSet {
        code_selector: KERNEL_CODE_SELECTOR,
        tss_selector: TSS_SELECTOR,
        boot_stack: StackRegion { base: BOOT_STACK_BASE, size: BOOT_STACK_SIZE },
        task_state: TaskStateRecord { interrupt_stacks: stacks },
        double_fault_stack_index: DOUBLE_FAULT_IST_INDEX,
    };
    proof {
        assert(r.task_state.interrupt_stacks@ =~= seq![
            StackRegion { base: DOUBLE_FAULT_STACK_BASE, size: DOUBLE_FAULT_STACK_SIZE },
        ]);
    }
    r
}

/// The double-fault handler's bound stack is dedicated: its region overlaps
/// neither the boot stack in effect at orchestrator start nor any other
/// declared interrupt stack.
pub proof fn lemma_double_fault_stack_dedicated(d: DescriptorSet)
    requires
        d.wf(),
    ensures
        d.double_fault_stack().disjoint_from(d.boot_stack),
        forall|j: int|
            0 <= j < d.task_state.interrupt_stacks@.len() && j != d.double_fault_stack_index as int
                ==> d.double_fault_stack().disjoint_from(
                #[trigger] d.task_state.interrupt_stacks@[j],
            ),
{
}

} // verus!
