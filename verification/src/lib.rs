//! Privileged bootstrap and interrupt-handling core of a minimal kernel.
//!
//! The crate models the processor-facing state that early boot must set up:
//! segment/task descriptors with a dedicated double-fault stack, the 256-entry
//! interrupt dispatch table, and the legacy cascaded interrupt controllers and
//! interval timer that feed it. Hardware register access is represented as
//! explicit port-write sequences, so every protocol (controller remap, timer
//! reload, end-of-interrupt) is stated and proved over the exact bytes that
//! reach each port. A simulated machine ties the pieces together and carries
//! the boot orchestration and the fault handlers' decision logic.

pub mod gdt;
pub mod idt;
pub mod logger;
pub mod machine;
pub mod pic;
