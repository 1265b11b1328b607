//! Trap kinds and the trapped register state that trap handlers see and edit.
use vstd::prelude::*;

verus! {

/// Kernel context slots, for indexing a saved kernel context.
#[derive(Debug)]
pub enum KContextArgs {
    /// Kernel stack pointer.
    KSP,
    /// Kernel thread pointer.
    KTP,
    /// Kernel program counter.
    KPC,
}

/// Trap frame slots, for reading and writing a [`TrapContext`].
#[derive(Debug, PartialEq, Eq, Structural, Clone, Copy)]
pub enum TrapFrameArgs {
    SEPC,
    RA,
    SP,
    RET,
    ARG0,
    ARG1,
    ARG2,
    TLS,
    SYSCALL,
}

/// What caused a trap.
#[derive(Debug, Clone, Copy, PartialEq, Eq, Structural)]
pub enum TrapType {
    Breakpoint,
    UserEnvCall,
    Time,
    Unknown,
    SupervisorExternal,
    StorePageFault(usize),
    LoadPageFault(usize),
    InstructionPageFault(usize),
    IllegalInstruction(usize),
}

/// The register and control state of a trapped context. The trap-delivery
/// layer resumes the processor from whatever it holds when the handler returns.
#[derive(Debug, Clone, Copy, PartialEq, Eq, Structural)]
pub struct TrapContext {
    /// Program counter.
    pub pc: usize,
    /// Status flags; on x86-64 bit 8 is the single-step (trap) flag.
    pub flags: usize,
    pub sp: usize,
    pub ra: usize,
    pub ret: usize,
    pub arg0: usize,
    pub arg1: usize,
    pub arg2: usize,
    pub tls: usize,
    pub syscall: usize,
}

/// The value of slot `arg` in `ctx`.
pub open spec fn slot(ctx: TrapContext, arg: TrapFrameArgs) -> usize {
    match arg {
        TrapFrameArgs::SEPC => ctx.pc,
        TrapFrameArgs::RA => ctx.ra,
        TrapFrameArgs::SP => ctx.sp,
        TrapFrameArgs::RET => ctx.ret,
        TrapFrameArgs::ARG0 => ctx.arg0,
        TrapFrameArgs::ARG1 => ctx.arg1,
        TrapFrameArgs::ARG2 => ctx.arg2,
        TrapFrameArgs::TLS => ctx.tls,
        TrapFrameArgs::SYSCALL => ctx.syscall,
    }
}

/// `ctx` with slot `arg` holding `v`.
pub open spec fn with_slot(ctx: TrapContext, arg: TrapFrameArgs, v: usize) -> TrapContext {
    match arg {
        TrapFrameArgs::SEPC => TrapContext { pc: v, ..ctx },
        TrapFrameArgs::RA => TrapContext { ra: v, ..ctx },
        TrapFrameArgs::SP => TrapContext { sp: v, ..ctx },
        TrapFrameArgs::RET => TrapContext { ret: v, ..ctx },
        TrapFrameArgs::ARG0 => TrapContext { arg0: v, ..ctx },
        TrapFrameArgs::ARG1 => TrapContext { arg1: v, ..ctx },
        TrapFrameArgs::ARG2 => TrapContext { arg2: v, ..ctx },
        TrapFrameArgs::TLS => TrapContext { tls: v, ..ctx },
        TrapFrameArgs::SYSCALL => TrapContext { syscall: v, ..ctx },
    }
}

impl TrapContext {
    /// A context with every register zero.
    pub fn new() -> (r: TrapContext)
        ensures
            r == (TrapContext {
                pc: 0,
                flags: 0,
                sp: 0,
                ra: 0,
                ret: 0,
                arg0: 0,
                arg1: 0,
                arg2: 0,
                tls: 0,
                syscall: 0,
            }),
    {
        TrapContext {
            pc: 0,
            flags: 0,
            sp: 0,
            ra: 0,
            ret: 0,
            arg0: 0,
            arg1: 0,
            arg2: 0,
            tls: 0,
            syscall: 0,
        }
    }

    pub fn get(&self, arg: TrapFrameArgs) -> (r: usize)
        ensures
            r == slot(*self, arg),
    {
        match arg {
            TrapFrameArgs::SEPC => self.pc,
            TrapFrameArgs::RA => self.ra,
            TrapFrameArgs::SP => self.sp,
            TrapFrameArgs::RET => self.ret,
            TrapFrameArgs::ARG0 => self.arg0,
            TrapFrameArgs::ARG1 => self.arg1,
            TrapFrameArgs::ARG2 => self.arg2,
            TrapFrameArgs::TLS => self.tls,
            TrapFrameArgs::SYSCALL => self.syscall,
        }
    }

    pub fn set(&mut self, arg: TrapFrameArgs, v: usize)
        ensures
            *final(self) == with_slot(*old(self), arg, v),
    {
        match arg {
            TrapFrameArgs::SEPC => self.pc = v,
            TrapFrameArgs::RA => self.ra = v,
            TrapFrameArgs::SP => self.sp = v,
            TrapFrameArgs::RET => self.ret = v,
            TrapFrameArgs::ARG0 => self.arg0 = v,
            TrapFrameArgs::ARG1 => self.arg1 = v,
            TrapFrameArgs::ARG2 => self.arg2 = v,
            TrapFrameArgs::TLS => self.tls = v,
            TrapFrameArgs::SYSCALL => self.syscall = v,
        }
    }
}

} // verus!
