//! Driver logic for the two cascaded legacy interrupt controllers and the
//! interval timer.
//!
//! Real hardware is reached through fixed command/data ports. This module
//! computes the exact byte sequences that must be written to those ports
//! (initialization, masking, timer reload, end-of-interrupt) and models how a
//! controller's observable state (vector offset and mask) evolves under those
//! writes, so that protocol-level properties — such as idempotence of the
//! four-step initialization — are proved rather than assumed.

use vstd::prelude::*;

verus! {

/// Command port of the primary controller.
pub const PIC1_COMMAND: u16 = 0x20;
/// Data port of the primary controller.
pub const PIC1_DATA: u16 = 0x21;
/// Command port of the secondary (cascaded) controller.
pub const PIC2_COMMAND: u16 = 0xA0;
/// Data port of the secondary controller.
pub const PIC2_DATA: u16 = 0xA1;
/// Mode/command port of the interval timer.
pub const PIT_COMMAND: u16 = 0x43;
/// Counter port of the interval timer's channel 0.
pub const PIT_CHANNEL0: u16 = 0x40;

/// Vector offset of the primary controller, chosen past the 32 CPU-reserved
/// exception vectors.
pub const PIC1_OFFSET: u8 = 32;
/// Vector offset of the secondary controller: its eight lines follow the
/// primary's.
pub const PIC2_OFFSET: u8 = 40;

/// Initial mask of the primary controller: every line masked but line 0 (the
/// timer).
pub const PIC1_MASK: u8 = 0b1111_1110;
/// Initial mask of the secondary controller: every line masked.
pub const PIC2_MASK: u8 = 0b1111_1111;

/// First initialization command word: begin the four-step init sequence.
pub const ICW1_INIT: u8 = 0x11;
/// Cascade wiring word for the primary: a secondary hangs off line 2.
pub const ICW3_PRIMARY_WIRING: u8 = 0b0000_0100;
/// Cascade identity word for the secondary: it is wired to the primary's
/// line 2.
pub const ICW3_SECONDARY_IDENTITY: u8 = 2;
/// Fourth initialization command word: 8086/88 mode.
pub const ICW4_MODE_8086: u8 = 0x01;
/// End-of-interrupt command byte.
pub const EOI_COMMAND: u8 = 0x20;
/// Command asking a controller to report its in-service register on the next
/// read of the command port.
pub const READ_IN_SERVICE: u8 = 0x0B;
/// Mode/command byte the timer is programmed with: channel 0,
/// low-byte-then-high-byte access, periodic mode.
pub const PIT_MODE: u8 = 0b0011_1100;
/// Reload value the timer is armed with at boot.
pub const PIT_RELOAD_DEFAULT: u16 = 0xFFFF;

/// One 8-bit write to a hardware port.
#[derive(Clone, Copy, PartialEq, Eq, Structural, Debug)]
pub struct PortWrite {
    pub port: u16,
    pub value: u8,
}

/// Where a single controller stands inside the four-step init protocol.
/// After the init command it expects, on its data port, the vector offset,
/// then the cascade wiring word, then the mode word; outside of the protocol
/// a data-port write sets the mask.
#[derive(Clone, Copy, PartialEq, Eq, Structural, Debug)]
pub enum InitPhase {
    Ready,
    AwaitVectorOffset,
    AwaitCascadeWiring,
    AwaitModeWord,
}

/// Observable state of one 8-bit controller.
#[derive(Clone, Copy, PartialEq, Eq, Structural, Debug)]
pub struct ControllerState {
    pub phase: InitPhase,
    pub offset: u8,
    pub mask: u8,
}

/// The cascaded pair.
#[derive(Clone, Copy, PartialEq, Eq, Structural, Debug)]
pub struct ControllerPair {
    pub primary: ControllerState,
    pub secondary: ControllerState,
}

/// How one controller reacts to a single write on its command port
/// (`command_port == true`) or data port.
pub open spec fn controller_step(s: ControllerState, command_port: bool, value: u8) -> ControllerState {
    if command_port {
        if value == ICW1_INIT {
            ControllerState { phase: InitPhase::AwaitVectorOffset, ..s }
        } else {
            s
        }
    } else {
        match s.phase {
            InitPhase::AwaitVectorOffset => ControllerState {
                phase: InitPhase::AwaitCascadeWiring,
                offset: value,
                ..s
            },
            InitPhase::AwaitCascadeWiring => ControllerState { phase: InitPhase::AwaitModeWord, ..s },
            InitPhase::AwaitModeWord => ControllerState { phase: InitPhase::Ready, ..s },
            InitPhase::Ready => ControllerState { mask: value, ..s },
        }
    }
}

/// How the pair reacts to one port write; writes to unrelated ports leave it
/// unchanged.
pub open spec fn pair_step(s: ControllerPair, w: PortWrite) -> ControllerPair {
    if w.port == PIC1_COMMAND {
        ControllerPair { primary: controller_step(s.primary, true, w.value), ..s }
    } else if w.port == PIC1_DATA {
        ControllerPair { primary: controller_step(s.primary, false, w.value), ..s }
    } else if w.port == PIC2_COMMAND {
        ControllerPair { secondary: controller_step(s.secondary, true, w.value), ..s }
    } else if w.port == PIC2_DATA {
        ControllerPair { secondary: controller_step(s.secondary, false, w.value), ..s }
    } else {
        s
    }
}

/// State of the pair after the first `n` of the writes in `ws`.
pub open spec fn pair_after(s: ControllerPair, ws: Seq<PortWrite>, n: int) -> ControllerPair
    decreases n,
{
    if n <= 0 {
        s
    } else {
        pair_step(pair_after(s, ws, n - 1), ws[n - 1])
    }
}

/// State of the pair after the whole write sequence `ws`.
pub open spec fn pair_after_all(s: ControllerPair, ws: Seq<PortWrite>) -> ControllerPair {
    pair_after(s, ws, ws.len() as int)
}

/// The documented initialization protocol: the init command to both
/// controllers, then — interleaved, primary first — each controller's vector
/// offset, cascade wiring, and mode word, then the initial masks.
pub open spec fn controller_init_writes(
    offset_primary: u8,
    offset_secondary: u8,
    mask_primary: u8,
    mask_secondary: u8,
) -> Seq<PortWrite> {
    seq![
        PortWrite { port: PIC1_COMMAND, value: ICW1_INIT },
        PortWrite { port: PIC2_COMMAND, value: ICW1_INIT },
        PortWrite { port: PIC1_DATA, value: offset_primary },
        PortWrite { port: PIC2_DATA, value: offset_secondary },
        PortWrite { port: PIC1_DATA, value: ICW3_PRIMARY_WIRING },
        PortWrite { port: PIC2_DATA, value: ICW3_SECONDARY_IDENTITY },
        PortWrite { port: PIC1_DATA, value: ICW4_MODE_8086 },
        PortWrite { port: PIC2_DATA, value: ICW4_MODE_8086 },
        PortWrite { port: PIC1_DATA, value: mask_primary },
        PortWrite { port: PIC2_DATA, value: mask_secondary },
    ]
}

/// The state the pair settles in once the init protocol has run.
pub open spec fn controller_after_init(
    offset_primary: u8,
    offset_secondary: u8,
    mask_primary: u8,
    mask_secondary: u8,
) -> ControllerPair {
    ControllerPair {
        primary: ControllerState {
            phase: InitPhase::Ready,
            offset: offset_primary,
            mask: mask_primary,
        },
        secondary: ControllerState {
            phase: InitPhase::Ready,
            offset: offset_secondary,
            mask: mask_secondary,
        },
    }
}

/// Produce the write sequence that initializes both controllers and applies
/// the initial mask. The offsets must sit past the CPU-reserved vectors and
/// eight apart, with the secondary following the primary.
pub fn initialize_controllers(
    offset_primary: u8,
    offset_secondary: u8,
    mask_primary: u8,
    mask_secondary: u8,
) -> (r: Vec<PortWrite>)
    requires
        offset_primary >= 32,
        offset_secondary == offset_primary + 8,
    ensures
        r@ == controller_init_writes(offset_primary, offset_secondary, mask_primary, mask_secondary),
{
    let mut r: Vec<PortWrite> = Vec::new();
    r.push(PortWrite { port: PIC1_COMMAND, value: ICW1_INIT });
    r.push(PortWrite { port: PIC2_COMMAND, value: ICW1_INIT });
    r.push(PortWrite { port: PIC1_DATA, value: offset_primary });
    r.push(PortWrite { port: PIC2_DATA, value: offset_secondary });
    r.push(PortWrite { port: PIC1_DATA, value: ICW3_PRIMARY_WIRING });
    r.push(PortWrite { port: PIC2_DATA, value: ICW3_SECONDARY_IDENTITY });
    r.push(PortWrite { port: PIC1_DATA, value: ICW4_MODE_8086 });
    r.push(PortWrite { port: PIC2_DATA, value: ICW4_MODE_8086 });
    r.push(PortWrite { port: PIC1_DATA, value: mask_primary });
    r.push(PortWrite { port: PIC2_DATA, value: mask_secondary });
    proof {
        assert(r@ =~= controller_init_writes(
            offset_primary,
            offset_secondary,
            mask_primary,
            mask_secondary,
        ));
    }
    r
}

/// The timer programming protocol: the mode byte to the command port, then
/// the 16-bit reload value as two 8-bit writes to the counter port, low byte
/// first, high byte second.
pub open spec fn timer_init_writes(reload: u16) -> Seq<PortWrite> {
    seq![
        PortWrite { port: PIT_COMMAND, value: PIT_MODE },
        PortWrite { port: PIT_CHANNEL0, value: (reload & 0xFF) as u8 },
        PortWrite { port: PIT_CHANNEL0, value: (reload >> 8) as u8 },
    ]
}

/// Produce the write sequence that programs the interval timer's mode and
/// reload value. The counter port receives exactly two 8-bit writes, low
/// byte then high byte — the order the hardware mandates.
pub fn initialize_timer(reload: u16) -> (r: Vec<PortWrite>)
    ensures
        r@ == timer_init_writes(reload),
{
    let mut r: Vec<PortWrite> = Vec::new();
    r.push(PortWrite { port: PIT_COMMAND, value: PIT_MODE });
    r.push(PortWrite { port: PIT_CHANNEL0, value: (reload & 0xFF) as u8 });
    r.push(PortWrite { port: PIT_CHANNEL0, value: (reload >> 8) as u8 });
    proof {
        assert(r@ =~= timer_init_writes(reload));
    }
    r
}

/// The end-of-interrupt protocol for a given vector: the secondary controller
/// is acknowledged too when the vector lies on it, and the primary always is.
pub open spec fn end_of_interrupt_writes(vector: u8) -> Seq<PortWrite> {
    if vector >= PIC2_OFFSET {
        seq![
            PortWrite { port: PIC2_COMMAND, value: EOI_COMMAND },
            PortWrite { port: PIC1_COMMAND, value: EOI_COMMAND },
        ]
    } else {
        seq![PortWrite { port: PIC1_COMMAND, value: EOI_COMMAND }]
    }
}

/// Produce the end-of-interrupt acknowledgment for a hardware-interrupt
/// vector. Every hardware-IRQ handler must emit this exactly once after
/// handling; omitting it starves lower-priority lines.
pub fn acknowledge(vector: u8) -> (r: Vec<PortWrite>)
    requires
        PIC1_OFFSET <= vector < PIC2_OFFSET + 8,
    ensures
        r@ == end_of_interrupt_writes(vector),
{
    let mut r: Vec<PortWrite> = Vec::new();
    if vector >= PIC2_OFFSET {
        r.push(PortWrite { port: PIC2_COMMAND, value: EOI_COMMAND });
    }
    r.push(PortWrite { port: PIC1_COMMAND, value: EOI_COMMAND });
    proof {
        assert(r@ =~= end_of_interrupt_writes(vector));
    }
    r
}

/// Whether an in-service report from the primary controller shows line 7
/// actually in service.
pub open spec fn irq7_in_service(report: u8) -> bool {
    report & 0x80 != 0
}

/// Decide the legacy line-7 workaround from the controller's in-service
/// report: acknowledge only an interrupt that was really raised; a spurious
/// one is discarded without acknowledgment.
pub fn irq7_acknowledge_writes(report: u8) -> (r: Vec<PortWrite>)
    ensures
        irq7_in_service(report) ==> r@ == end_of_interrupt_writes((PIC1_OFFSET + 7) as u8),
        !irq7_in_service(report) ==> r@ == Seq::<PortWrite>::empty(),
{
    if report & 0x80 != 0 {
        acknowledge(PIC1_OFFSET + 7)
    } else {
        let r: Vec<PortWrite> = Vec::new();
        proof {
            assert(r@ =~= Seq::<PortWrite>::empty());
        }
        r
    }
}

/// Step the modeled pair by one port write.
pub fn step_controllers(s: &mut ControllerPair, w: PortWrite)
    ensures
        *final(s) == pair_step(*old(s), w),
{
    if w.port == PIC1_COMMAND {
        if w.value == ICW1_INIT {
            s.primary.phase = InitPhase::AwaitVectorOffset;
        }
    } else if w.port == PIC1_DATA {
        match s.primary.phase {
            InitPhase::AwaitVectorOffset => {
                s.primary.offset = w.value;
                s.primary.phase = InitPhase::AwaitCascadeWiring;
            },
            InitPhase::AwaitCascadeWiring => {
                s.primary.phase = InitPhase::AwaitModeWord;
            },
            InitPhase::AwaitModeWord => {
                s.primary.phase = InitPhase::Ready;
            },
            InitPhase::Ready => {
                s.primary.mask = w.value;
            },
        }
    } else if w.port == PIC2_COMMAND {
        if w.value == ICW1_INIT {
            s.secondary.phase = InitPhase::AwaitVectorOffset;
        }
    } else if w.port == PIC2_DATA {
        match s.secondary.phase {
            InitPhase::AwaitVectorOffset => {
                s.secondary.offset = w.value;
                s.secondary.phase = InitPhase::AwaitCascadeWiring;
            },
            InitPhase::AwaitCascadeWiring => {
                s.secondary.phase = InitPhase::AwaitModeWord;
            },
            InitPhase::AwaitModeWord => {
                s.secondary.phase = InitPhase::Ready;
            },
            InitPhase::Ready => {
                s.secondary.mask = w.value;
            },
        }
    }
}

/// Run a whole write sequence through the modeled pair.
pub fn run_controllers(s: &mut ControllerPair, ws: &Vec<PortWrite>)
    ensures
        *final(s) == pair_after_all(*old(s), ws@),
{
    let mut i: usize = 0;
    while i < ws.len()
        invariant
            i <= ws.len(),
            *s == pair_after(*old(s), ws@, i as int),
        decreases ws.len() - i,
    {
        step_controllers(s, ws[i]);
        i = i + 1;
    }
}

/// The init protocol pins the pair's state: from any starting state, running
/// the full sequence leaves both controllers ready, with exactly the given
/// offsets and masks.
pub proof fn lemma_init_writes_pin_state(
    s: ControllerPair,
    offset_primary: u8,
    offset_secondary: u8,
    mask_primary: u8,
    mask_secondary: u8,
)
    ensures
        pair_after_all(
            s,
            controller_init_writes(offset_primary, offset_secondary, mask_primary, mask_secondary),
        ) == controller_after_init(offset_primary, offset_secondary, mask_primary, mask_secondary),
{
    let ws = controller_init_writes(offset_primary, offset_secondary, mask_primary, mask_secondary);
    assert(ws.len() == 10);
    assert(pair_after(s, ws, 0) == s);
    assert(pair_after(s, ws, 1) == pair_step(pair_after(s, ws, 0), ws[0]));
    assert(pair_after(s, ws, 2) == pair_step(pair_after(s, ws, 1), ws[1]));
    assert(pair_after(s, ws, 3) == pair_step(pair_after(s, ws, 2), ws[2]));
    assert(pair_after(s, ws, 4) == pair_step(pair_after(s, ws, 3), ws[3]));
    assert(pair_after(s, ws, 5) == pair_step(pair_after(s, ws, 4), ws[4]));
    assert(pair_after(s, ws, 6) == pair_step(pair_after(s, ws, 5), ws[5]));
    assert(pair_after(s, ws, 7) == pair_step(pair_after(s, ws, 6), ws[6]));
    assert(pair_after(s, ws, 8) == pair_step(pair_after(s, ws, 7), ws[7]));
    assert(pair_after(s, ws, 9) == pair_step(pair_after(s, ws, 8), ws[8]));
    assert(pair_after(s, ws, 10) == pair_step(pair_after(s, ws, 9), ws[9]));
}

/// Controller initialization is idempotent at the protocol level: issuing the
/// four-step init sequence (with its masks) twice in succession, with the
/// same offsets and masks, leaves the same final offset/mask state as issuing
/// it once.
pub proof fn lemma_controller_init_idempotent(
    s: ControllerPair,
    offset_primary: u8,
    offset_secondary: u8,
    mask_primary: u8,
    mask_secondary: u8,
)
    ensures
        pair_after_all(
            pair_after_all(
                s,
                controller_init_writes(
                    offset_primary,
                    offset_secondary,
                    mask_primary,
                    mask_secondary,
                ),
            ),
            controller_init_writes(offset_primary, offset_secondary, mask_primary, mask_secondary),
        ) == pair_after_all(
            s,
            controller_init_writes(offset_primary, offset_secondary, mask_primary, mask_secondary),
        ),
{
    lemma_init_writes_pin_state(s, offset_primary, offset_secondary, mask_primary, mask_secondary);
    lemma_init_writes_pin_state(
        controller_after_init(offset_primary, offset_secondary, mask_primary, mask_secondary),
        offset_primary,
        offset_secondary,
        mask_primary,
        mask_secondary,
    );
}

} // verus!
