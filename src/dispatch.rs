//! The two-phase trap protocol: a breakpoint trap sends the processor to the
//! probe's out-of-line copy with single-stepping on; the single-step trap
//! that follows sends it back to the instruction after the probed one.
use crate::arch::{set_flag_bit, with_bit, BREAKPOINT_WIDTH, SINGLE_STEP_BIT};
use crate::kprobe::ProbeHooks;
use crate::registry::{ProbeRegistry, RegistryView};
use crate::trap::TrapContext;
use vstd::prelude::*;

verus! {

/// A trap arrived that no live probe accounts for.
#[derive(Debug, Clone, Copy, PartialEq, Eq, Structural)]
pub struct ProtocolViolation {
    /// The address the trap points at: the supposed breakpoint address for
    /// a breakpoint trap, the program counter for a single-step trap.
    pub address: usize,
}

/// The address of the breakpoint opcode that a breakpoint trap at `pc` reports.
pub open spec fn fault_address(pc: usize) -> usize {
    if pc >= BREAKPOINT_WIDTH {
        (pc - BREAKPOINT_WIDTH) as usize
    } else {
        pc
    }
}

/// The trapped state after the breakpoint phase, or `None` when no probe
/// stands at the trap's address.
pub open spec fn breakpoint_step(reg: RegistryView, ctx: TrapContext) -> Option<TrapContext> {
    let addr = fault_address(ctx.pc);
    if ctx.pc >= BREAKPOINT_WIDTH && reg.breakpoints.contains_key(addr) {
        Some(
            TrapContext {
                pc: reg.breakpoints[addr].trampoline as usize,
                flags: with_bit(ctx.flags, SINGLE_STEP_BIT, true),
                ..ctx
            },
        )
    } else {
        None
    }
}

/// The trapped state after the single-step phase, or `None` when no probe's
/// out-of-line step completes at the program counter.
pub open spec fn single_step(reg: RegistryView, ctx: TrapContext) -> Option<TrapContext> {
    if reg.trampolines.contains_key(ctx.pc) {
        Some(
            TrapContext {
                pc: reg.trampolines[ctx.pc].next_address() as usize,
                flags: with_bit(ctx.flags, SINGLE_STEP_BIT, false),
                ..ctx
            },
        )
    } else {
        None
    }
}

/// A breakpoint trap at a live probe sends the processor to that probe's
/// out-of-line copy; once the copy has retired (the program counter has moved
/// past it, whatever else the instruction did), the single-step trap finds the
/// same probe and resumes at the instruction after the probed one, with
/// single-stepping off.
pub proof fn lemma_single_trigger(reg: RegistryView, ctx: TrapContext, addr: usize, stepped: TrapContext)
    requires
        reg.wf(),
        reg.breakpoints.contains_key(addr),
        ctx.pc == addr + BREAKPOINT_WIDTH,
        stepped.pc == reg.breakpoints[addr].step_address(),
    ensures
        ({
            let p = reg.breakpoints[addr];
            &&& breakpoint_step(reg, ctx) is Some
            &&& breakpoint_step(reg, ctx)->0.pc == p.trampoline
            &&& breakpoint_step(reg, ctx)->0.flags == with_bit(ctx.flags, SINGLE_STEP_BIT, true)
            &&& reg.trampolines.contains_key(stepped.pc)
            &&& reg.trampolines[stepped.pc] == p
            &&& single_step(reg, stepped) == Some(
                TrapContext {
                    pc: (addr + p.len) as usize,
                    flags: with_bit(stepped.flags, SINGLE_STEP_BIT, false),
                    ..stepped
                },
            )
        }),
{
}

/// Turning single-stepping on and then off leaves the flags as they were,
/// but for the single-step bit, which ends up clear.
pub proof fn lemma_flags_restored(flags: usize)
    ensures
        with_bit(with_bit(flags, SINGLE_STEP_BIT, true), SINGLE_STEP_BIT, false) == with_bit(
            flags,
            SINGLE_STEP_BIT,
            false,
        ),
{
    assert((flags | (1usize << 8usize)) & !(1usize << 8usize) == flags & !(1usize << 8usize))
        by (bit_vector);
}

/// Probes at distinct addresses never meet: a breakpoint trap at either one
/// finds that one, and their out-of-line steps complete at distinct
/// addresses, each of which leads back to its own probe.
pub proof fn lemma_isolation(reg: RegistryView, a: usize, b: usize)
    requires
        reg.wf(),
        reg.breakpoints.contains_key(a),
        reg.breakpoints.contains_key(b),
        a != b,
    ensures
        reg.breakpoints[a].address == a,
        reg.breakpoints[b].address == b,
        reg.breakpoints[a] != reg.breakpoints[b],
        reg.breakpoints[a].step_address() != reg.breakpoints[b].step_address(),
        reg.trampolines[reg.breakpoints[a].step_address() as usize] == reg.breakpoints[a],
        reg.trampolines[reg.breakpoints[b].step_address() as usize] == reg.breakpoints[b],
{
    let pa = reg.breakpoints[a];
    let pb = reg.breakpoints[b];
    assert(reg.trampolines.contains_key(pa.step_address() as usize));
    assert(reg.trampolines.contains_key(pb.step_address() as usize));
}

/// Breakpoint phase: runs the pre hook of the probe at the trapped address,
/// turns single-stepping on and moves the program counter to the probe's
/// out-of-line copy. With no probe there, the state is left alone.
pub fn ebreak_handler<H: ProbeHooks>(registry: &ProbeRegistry<H>, ctx: &mut TrapContext) -> (r:
    Result<(), ProtocolViolation>)
    requires
        registry@.wf(),
    ensures
        match breakpoint_step(registry@, *old(ctx)) {
            Some(next) => r is Ok && *final(ctx) == next,
            None => r == Err::<(), _>(ProtocolViolation { address: fault_address(old(ctx).pc) })
                && *final(ctx) == *old(ctx),
        },
{
    if ctx.pc < BREAKPOINT_WIDTH {
        return Err(ProtocolViolation { address: ctx.pc });
    }
    let addr = ctx.pc - BREAKPOINT_WIDTH;
    match registry.lookup_by_breakpoint(addr) {
        Some(probe) => {
            probe.pre_handler(ctx);
            ctx.flags = set_flag_bit(ctx.flags, SINGLE_STEP_BIT, true);
            ctx.pc = probe.trampoline_address();
            Ok(())
        },
        None => Err(ProtocolViolation { address: addr }),
    }
}

/// Single-step phase: runs the post hook of the probe whose out-of-line step
/// just completed, turns single-stepping off and moves the program counter to
/// the instruction after the probed one. With no such probe, the state is
/// left alone.
pub fn debug_handler<H: ProbeHooks>(registry: &ProbeRegistry<H>, ctx: &mut TrapContext) -> (r:
    Result<(), ProtocolViolation>)
    requires
        registry@.wf(),
    ensures
        match single_step(registry@, *old(ctx)) {
            Some(next) => r is Ok && *final(ctx) == next,
            None => r == Err::<(), _>(ProtocolViolation { address: old(ctx).pc })
                && *final(ctx) == *old(ctx),
        },
{
    match registry.lookup_by_trampoline(ctx.pc) {
        Some(probe) => {
            proof {
                assert(registry@.trampolines.contains_key(ctx.pc));
            }
            probe.post_handler(ctx);
            ctx.flags = set_flag_bit(ctx.flags, SINGLE_STEP_BIT, false);
            ctx.pc = probe.next_address();
            Ok(())
        },
        None => Err(ProtocolViolation { address: ctx.pc }),
    }
}

} // verus!
