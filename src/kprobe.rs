//! The probe record: one instrumentation point, its displaced instruction
//! and its hooks.
use crate::arch::{decode_instruction_len, x86_instruction_len, BREAKPOINT_OPCODE, MAX_INSTRUCTION_LEN};
use crate::code::{splice, window_of, CodeRegion};
use crate::trap::TrapContext;
use vstd::prelude::*;

verus! {

/// The callbacks of a probe. Each one observes the trapped register state.
pub trait ProbeHooks {
    /// Runs when the breakpoint fires, before the displaced instruction.
    fn pre(&self, regs: &TrapContext);

    /// Runs after the displaced instruction has executed out of line.
    fn post(&self, regs: &TrapContext);

    /// Reserved for faults raised while the displaced instruction executes.
    fn fault(&self, regs: &TrapContext);
}

/// Why a probe could not be planted.
#[derive(Debug, Clone, Copy, PartialEq, Eq, Structural)]
pub enum InstallError {
    /// The bytes at the target address do not decode to one instruction.
    Decode,
    /// A live probe already occupies the target address (or its
    /// out-of-line completion address).
    Conflict,
}

/// The abstract state of a probe.
pub struct ProbeView {
    pub symbol: Seq<char>,
    /// Address of the instrumented instruction.
    pub address: nat,
    /// The displaced-instruction buffer; its first `len` bytes are the
    /// original instruction.
    pub saved: Seq<u8>,
    /// Length of the displaced instruction; zero while not installed.
    pub len: nat,
    /// Address at which the displaced instruction executes out of line.
    pub trampoline: nat,
}

impl ProbeView {
    pub open spec fn wf(self) -> bool {
        &&& self.saved.len() == MAX_INSTRUCTION_LEN
        &&& self.len <= MAX_INSTRUCTION_LEN
        &&& self.address + self.len <= usize::MAX
        &&& self.trampoline + MAX_INSTRUCTION_LEN <= usize::MAX
    }

    pub open spec fn installed(self) -> bool {
        self.len > 0
    }

    /// The original bytes of the instrumented instruction.
    pub open spec fn original(self) -> Seq<u8> {
        self.saved.subrange(0, self.len as int)
    }

    /// Where the program counter stands once the out-of-line copy has run.
    pub open spec fn step_address(self) -> nat {
        self.trampoline + self.len
    }

    /// The instruction after the instrumented one.
    pub open spec fn next_address(self) -> nat {
        self.address + self.len
    }
}

/// `w` padded with zero bytes to the width of the displaced-instruction buffer.
pub open spec fn padded(w: Seq<u8>) -> Seq<u8> {
    Seq::new(MAX_INSTRUCTION_LEN as nat, |i: int| if i < w.len() { w[i] } else { 0u8 })
}

/// Length of the instruction at offset `off` of `bytes`, as the decoder sees
/// the bytes from there on.
pub open spec fn decoded_len(bytes: Seq<u8>, off: int) -> Option<nat> {
    x86_instruction_len(window_of(bytes, off))
}

/// `bytes` with the breakpoint opcode written at `off`.
pub open spec fn patched(bytes: Seq<u8>, off: int) -> Seq<u8> {
    bytes.update(off, BREAKPOINT_OPCODE)
}

/// The probe `p` once installed over the instruction at offset `off` of
/// `bytes`, `n` bytes long, with its out-of-line copy at `trampoline`.
pub open spec fn armed(p: ProbeView, bytes: Seq<u8>, off: int, n: nat, trampoline: nat) -> ProbeView {
    ProbeView { saved: padded(window_of(bytes, off)), len: n, trampoline, ..p }
}

/// Planting the breakpoint over an instruction and writing the saved copy
/// of it back leaves the bytes exactly as they were.
pub proof fn lemma_round_trip(p: ProbeView, bytes: Seq<u8>, off: int, n: nat, trampoline: nat)
    requires
        0 <= off,
        1 <= n <= MAX_INSTRUCTION_LEN,
        off + n <= bytes.len(),
    ensures
        splice(patched(bytes, off), off, armed(p, bytes, off, n, trampoline).original()) == bytes,
{
    assert(splice(patched(bytes, off), off, armed(p, bytes, off, n, trampoline).original()) =~= bytes);
}

/// One instrumentation point.
pub struct Kprobe<H> {
    symbol: String,
    symbol_addr: usize,
    offset: usize,
    old_instruction: [u8; 15],
    old_instruction_len: usize,
    trampoline: usize,
    hooks: H,
}

impl<H> View for Kprobe<H> {
    type V = ProbeView;

    closed spec fn view(&self) -> ProbeView {
        ProbeView {
            symbol: self.symbol@,
            address: (self.symbol_addr + self.offset) as nat,
            saved: self.old_instruction@,
            len: self.old_instruction_len as nat,
            trampoline: self.trampoline as nat,
        }
    }
}

impl<H: ProbeHooks> Kprobe<H> {
    /// A probe on the instruction at `symbol_addr + offset`, not installed.
    pub fn new(symbol: String, symbol_addr: usize, offset: usize, hooks: H) -> (r: Self)
        requires
            symbol_addr + offset <= usize::MAX,
        ensures
            r@.wf(),
            r@.symbol == symbol@,
            r@.address == symbol_addr + offset,
            r@.len == 0,
            r@.saved == Seq::new(MAX_INSTRUCTION_LEN as nat, |i: int| 0u8),
            r@.trampoline == 0,
    {
        let r = Kprobe {
            symbol,
            symbol_addr,
            offset,
            old_instruction: [0u8; 15],
            old_instruction_len: 0,
            trampoline: 0,
            hooks,
        };
        assert(r@.saved =~= Seq::new(MAX_INSTRUCTION_LEN as nat, |i: int| 0u8));
        r
    }

    /// Decodes the instruction at the probe's address, saves it, and
    /// writes the breakpoint opcode over its first byte. The displaced
    /// instruction will run out of line at `trampoline`.
    pub fn install(&mut self, region: &mut CodeRegion, trampoline: usize) -> (r: Result<(), InstallError>)
        requires
            old(self)@.wf(),
            old(region).wf(),
            old(region).holds(old(self)@.address as int, 1),
            trampoline + MAX_INSTRUCTION_LEN <= usize::MAX,
        ensures
            final(self)@.wf(),
            final(region).base == old(region).base,
            ({
                let off = old(self)@.address - old(region).base;
                match r {
                    Ok(()) => {
                        &&& !old(self)@.installed()
                        &&& decoded_len(old(region).bytes@, off) is Some
                        &&& 1 <= decoded_len(old(region).bytes@, off)->0 <= MAX_INSTRUCTION_LEN
                        &&& off + decoded_len(old(region).bytes@, off)->0 <= old(region).bytes@.len()
                        &&& final(self)@ == armed(
                            old(self)@,
                            old(region).bytes@,
                            off,
                            decoded_len(old(region).bytes@, off)->0,
                            trampoline as nat,
                        )
                        &&& final(region).bytes@ == patched(old(region).bytes@, off)
                    },
                    Err(e) => {
                        &&& e == InstallError::Conflict <==> old(self)@.installed()
                        &&& e == InstallError::Decode <==> !old(self)@.installed() && decoded_len(
                            old(region).bytes@,
                            off,
                        ) is None
                        &&& final(self)@ == old(self)@
                        &&& final(region).bytes@ == old(region).bytes@
                    },
                }
            }),
    {
        if self.old_instruction_len > 0 {
            return Err(InstallError::Conflict);
        }
        let address = self.symbol_addr + self.offset;
        let window = region.window(address);
        let len = match decode_instruction_len(window.as_slice()) {
            Ok(n) => n,
            Err(_) => {
                return Err(InstallError::Decode);
            },
        };
        let mut buf = [0u8; 15];
        let mut i: usize = 0;
        while i < window.len()
            invariant
                window@.len() <= MAX_INSTRUCTION_LEN,
                0 <= i <= window@.len(),
                forall|j: int|
                    0 <= j < MAX_INSTRUCTION_LEN ==> #[trigger] buf@[j] == if j < i {
                        window@[j]
                    } else {
                        0u8
                    },
            decreases window@.len() - i,
        {
            buf[i] = window[i];
            i = i + 1;
        }
        assert(buf@ =~= padded(window@));
        self.old_instruction = buf;
        self.old_instruction_len = len;
        self.trampoline = trampoline;
        region.write_byte(address, BREAKPOINT_OPCODE);
        Ok(())
    }

    /// Writes the displaced instruction back over the probe's address.
    pub fn restore(&self, region: &mut CodeRegion)
        requires
            self@.wf(),
            old(region).wf(),
            old(region).holds(self@.address as int, self@.len as int),
        ensures
            final(region).base == old(region).base,
            final(region).bytes@ == splice(
                old(region).bytes@,
                self@.address - old(region).base,
                self@.original(),
            ),
    {
        let address = self.symbol_addr + self.offset;
        region.write_bytes(address, self.old_instruction.as_slice(), self.old_instruction_len);
    }

    /// Restores the displaced instruction, if the probe is installed, and
    /// marks the probe as not installed.
    pub fn uninstall(&mut self, region: &mut CodeRegion)
        requires
            old(self)@.wf(),
            old(region).wf(),
            old(region).holds(old(self)@.address as int, old(self)@.len as int),
        ensures
            final(self)@ == (ProbeView { len: 0, ..old(self)@ }),
            final(self)@.wf(),
            final(region).base == old(region).base,
            final(region).bytes@ == if old(self)@.installed() {
                splice(old(region).bytes@, old(self)@.address - old(region).base, old(self)@.original())
            } else {
                old(region).bytes@
            },
    {
        if self.old_instruction_len > 0 {
            self.restore(region);
            self.old_instruction_len = 0;
        }
    }

    pub fn address(&self) -> (r: usize)
        requires
            self@.wf(),
        ensures
            r == self@.address,
    {
        self.symbol_addr + self.offset
    }

    pub fn next_address(&self) -> (r: usize)
        requires
            self@.wf(),
        ensures
            r == self@.next_address(),
    {
        self.symbol_addr + self.offset + self.old_instruction_len
    }

    pub fn pre_handler(&self, regs: &TrapContext) {
        self.hooks.pre(regs);
    }

    pub fn post_handler(&self, regs: &TrapContext) {
        self.hooks.post(regs);
    }

    pub fn fault_handler(&self, regs: &TrapContext) {
        self.hooks.fault(regs);
    }

    pub fn old_inst(&self) -> (r: &[u8; 15])
        ensures
            r@ == self@.saved,
    {
        &self.old_instruction
    }

    pub fn instruction_len(&self) -> (r: usize)
        ensures
            r == self@.len,
    {
        self.old_instruction_len
    }

    pub fn trampoline_address(&self) -> (r: usize)
        ensures
            r == self@.trampoline,
    {
        self.trampoline
    }

    /// Where the program counter stands once the out-of-line copy has run.
    pub fn debug_address(&self) -> (r: usize)
        requires
            self@.wf(),
        ensures
            r == self@.step_address(),
    {
        self.trampoline + self.old_instruction_len
    }

    pub fn is_installed(&self) -> (r: bool)
        ensures
            r == self@.installed(),
    {
        self.old_instruction_len > 0
    }

    pub fn symbol(&self) -> (r: &str)
        ensures
            r@ == self@.symbol,
    {
        self.symbol.as_str()
    }
}

} // verus!
