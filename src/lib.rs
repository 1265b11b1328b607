//! Hardware-abstraction types and a breakpoint-probe engine for bare-metal
//! kernels: probes patch executable code with a breakpoint opcode, and a
//! two-phase trap protocol runs user hooks around an out-of-line single step
//! of the displaced instruction.
pub mod arch;
pub mod code;
pub mod trap;
pub mod kprobe;
pub mod registry;
pub mod dispatch;
pub mod irq;
pub mod platform;
