//! The probe registry: live probes by breakpoint address and by the address
//! at which their out-of-line step completes.
use crate::arch::{decode_instruction_len, MAX_INSTRUCTION_LEN};
use crate::code::{splice, CodeRegion};
use crate::kprobe::{armed, decoded_len, lemma_round_trip, patched, InstallError, Kprobe, ProbeHooks, ProbeView};
use std::collections::BTreeMap;
use std::sync::Arc;
use vstd::prelude::*;

verus! {

broadcast use vstd::laws_cmp::group_laws_cmp;

/// The abstract state of a registry: the probe views under each key.
pub struct RegistryView {
    pub breakpoints: Map<usize, ProbeView>,
    pub trampolines: Map<usize, ProbeView>,
}

impl RegistryView {
    /// Each live probe stands under its address in one map and under its
    /// step address in the other, and nothing else stands in either.
    pub open spec fn wf(self) -> bool {
        &&& forall|k: usize| #[trigger]
            self.breakpoints.contains_key(k) ==> {
                let p = self.breakpoints[k];
                &&& p.wf()
                &&& p.installed()
                &&& p.address == k
                &&& self.trampolines.contains_key(p.step_address() as usize)
                &&& self.trampolines[p.step_address() as usize] == p
            }
        &&& forall|k: usize| #[trigger]
            self.trampolines.contains_key(k) ==> {
                let p = self.trampolines[k];
                &&& p.wf()
                &&& p.installed()
                &&& p.step_address() == k
                &&& self.breakpoints.contains_key(p.address as usize)
                &&& self.breakpoints[p.address as usize] == p
            }
    }

    /// The registry with probe `p` added under both of its keys.
    pub open spec fn with_probe(self, p: ProbeView) -> RegistryView {
        RegistryView {
            breakpoints: self.breakpoints.insert(p.address as usize, p),
            trampolines: self.trampolines.insert(p.step_address() as usize, p),
        }
    }

    /// The registry with the probe at `addr` taken out of both maps.
    pub open spec fn without(self, addr: usize) -> RegistryView {
        if self.breakpoints.contains_key(addr) {
            RegistryView {
                breakpoints: self.breakpoints.remove(addr),
                trampolines: self.trampolines.remove(self.breakpoints[addr].step_address() as usize),
            }
        } else {
            self
        }
    }

    /// Whether a probe planted at `addr` with step address `step` clashes with
    /// a live one.
    pub open spec fn clashes(self, addr: usize, step: int) -> bool {
        self.breakpoints.contains_key(addr) || self.trampolines.contains_key(step as usize)
    }
}

/// Looking up an address at which no live probe stands, and at which no live
/// probe's out-of-line step completes, finds nothing in either map.
pub proof fn lemma_lookup_miss(reg: RegistryView, addr: usize)
    requires
        reg.wf(),
        forall|k: usize| #[trigger]
            reg.breakpoints.contains_key(k) ==> reg.breakpoints[k].address != addr
                && reg.breakpoints[k].step_address() != addr,
    ensures
        !reg.breakpoints.contains_key(addr),
        !reg.trampolines.contains_key(addr),
{
    if reg.trampolines.contains_key(addr) {
        let p = reg.trampolines[addr];
        assert(reg.breakpoints.contains_key(p.address as usize));
    }
}

/// Installing a fresh probe and then uninstalling it leaves the registry and
/// the code as they were, so installing it again succeeds exactly as the
/// first time did.
pub proof fn lemma_reinstall(
    reg: RegistryView,
    p: ProbeView,
    bytes: Seq<u8>,
    off: int,
    n: nat,
    trampoline: nat,
)
    requires
        reg.wf(),
        p.wf(),
        !p.installed(),
        0 <= off,
        1 <= n <= MAX_INSTRUCTION_LEN,
        off + n <= bytes.len(),
        p.address + n <= usize::MAX,
        trampoline + MAX_INSTRUCTION_LEN <= usize::MAX,
        !reg.clashes(p.address as usize, (trampoline + n) as int),
    ensures
        ({
            let q = armed(p, bytes, off, n, trampoline);
            let installed = reg.with_probe(q);
            &&& installed.wf()
            &&& installed.without(p.address as usize) == reg
            &&& splice(patched(bytes, off), off, q.original()) == bytes
        }),
{
    let q = armed(p, bytes, off, n, trampoline);
    let installed = reg.with_probe(q);
    lemma_round_trip(p, bytes, off, n, trampoline);
    assert(installed.without(p.address as usize).breakpoints =~= reg.breakpoints);
    assert(installed.without(p.address as usize).trampolines =~= reg.trampolines);
}

/// The probe views of a map of shared probes.
pub open spec fn probe_views<H>(m: Map<usize, Arc<Kprobe<H>>>) -> Map<usize, ProbeView> {
    Map::new(|k: usize| m.contains_key(k), |k: usize| m[k]@)
}

/// The live probes, by breakpoint address and by step address.
pub struct ProbeRegistry<H> {
    breakpoints: BTreeMap<usize, Arc<Kprobe<H>>>,
    trampolines: BTreeMap<usize, Arc<Kprobe<H>>>,
}

impl<H> View for ProbeRegistry<H> {
    type V = RegistryView;

    closed spec fn view(&self) -> RegistryView {
        RegistryView {
            breakpoints: probe_views(self.breakpoints@),
            trampolines: probe_views(self.trampolines@),
        }
    }
}

impl<H: ProbeHooks> ProbeRegistry<H> {
    pub fn new() -> (r: Self)
        ensures
            r@.wf(),
            r@.breakpoints == Map::<usize, ProbeView>::empty(),
            r@.trampolines == Map::<usize, ProbeView>::empty(),
    {
        let r = ProbeRegistry { breakpoints: BTreeMap::new(), trampolines: BTreeMap::new() };
        assert(r@.breakpoints =~= Map::<usize, ProbeView>::empty());
        assert(r@.trampolines =~= Map::<usize, ProbeView>::empty());
        r
    }

    /// The probe whose breakpoint opcode sits at `addr`.
    pub fn lookup_by_breakpoint(&self, addr: usize) -> (r: Option<Arc<Kprobe<H>>>)
        ensures
            match r {
                Some(p) => self@.breakpoints.contains_key(addr) && p@ == self@.breakpoints[addr],
                None => !self@.breakpoints.contains_key(addr),
            },
    {
        match self.breakpoints.get(&addr) {
            Some(p) => Some(Arc::clone(p)),
            None => None,
        }
    }

    /// The probe whose out-of-line step completes at `addr`.
    pub fn lookup_by_trampoline(&self, addr: usize) -> (r: Option<Arc<Kprobe<H>>>)
        ensures
            match r {
                Some(p) => self@.trampolines.contains_key(addr) && p@ == self@.trampolines[addr],
                None => !self@.trampolines.contains_key(addr),
            },
    {
        match self.trampolines.get(&addr) {
            Some(p) => Some(Arc::clone(p)),
            None => None,
        }
    }
    /// Plants `probe`: decodes the instruction at its address, saves it,
    /// writes the breakpoint opcode and registers the probe under both keys.
    /// Nothing changes when the instruction does not decode or a live probe
    /// clashes with the new one.
    pub fn install(&mut self, probe: Kprobe<H>, region: &mut CodeRegion, trampoline: usize) -> (r:
        Result<Arc<Kprobe<H>>, InstallError>)
        requires
            old(self)@.wf(),
            probe@.wf(),
            old(region).wf(),
            old(region).holds(probe@.address as int, 1),
            trampoline + MAX_INSTRUCTION_LEN <= usize::MAX,
        ensures
            final(self)@.wf(),
            final(region).base == old(region).base,
            ({
                let addr = probe@.address as usize;
                let off = probe@.address - old(region).base;
                let d = decoded_len(old(region).bytes@, off);
                match r {
                    Ok(p) => {
                        &&& !probe@.installed()
                        &&& d is Some
                        &&& 1 <= d->0 <= MAX_INSTRUCTION_LEN
                        &&& off + d->0 <= old(region).bytes@.len()
                        &&& !old(self)@.clashes(addr, trampoline + d->0)
                        &&& p@ == armed(probe@, old(region).bytes@, off, d->0, trampoline as nat)
                        &&& final(self)@ == old(self)@.with_probe(p@)
                        &&& final(region).bytes@ == patched(old(region).bytes@, off)
                    },
                    Err(e) => {
                        &&& e == InstallError::Decode <==> !old(self)@.breakpoints.contains_key(addr)
                            && !probe@.installed() && d is None
                        &&& e == InstallError::Conflict <==> old(self)@.breakpoints.contains_key(addr)
                            || probe@.installed() || (d is Some && old(self)@.clashes(
                            addr,
                            trampoline + d->0,
                        ))
                        &&& final(self)@ == old(self)@
                        &&& final(region).bytes@ == old(region).bytes@
                    },
                }
            }),
    {
        let mut probe = probe;
        let addr = probe.address();
        if self.breakpoints.contains_key(&addr) || probe.is_installed() {
            return Err(InstallError::Conflict);
        }
        let window = region.window(addr);
        let len = match decode_instruction_len(window.as_slice()) {
            Ok(n) => n,
            Err(_) => {
                return Err(InstallError::Decode);
            },
        };
        let step = trampoline + len;
        if self.trampolines.contains_key(&step) {
            return Err(InstallError::Conflict);
        }
        let res = probe.install(region, trampoline);
        assert(res is Ok);
        let p = Arc::new(probe);
        let ghost old_view = self@;
        self.breakpoints.insert(addr, Arc::clone(&p));
        self.trampolines.insert(step, Arc::clone(&p));
        assert(self@.breakpoints =~= old_view.breakpoints.insert(addr, p@));
        assert(self@.trampolines =~= old_view.trampolines.insert(step, p@));
        Ok(p)
    }

    /// Takes the probe at `addr` out of both maps and writes its displaced
    /// instruction back. Returns the probe, or `None` when no live probe
    /// stands at `addr`, in which case nothing changes.
    pub fn uninstall(&mut self, addr: usize, region: &mut CodeRegion) -> (r: Option<Arc<Kprobe<H>>>)
        requires
            old(self)@.wf(),
            old(region).wf(),
            old(self)@.breakpoints.contains_key(addr) ==> old(region).holds(
                addr as int,
                old(self)@.breakpoints[addr].len as int,
            ),
        ensures
            final(self)@.wf(),
            final(self)@ == old(self)@.without(addr),
            final(region).base == old(region).base,
            match r {
                Some(p) => {
                    &&& old(self)@.breakpoints.contains_key(addr)
                    &&& p@ == old(self)@.breakpoints[addr]
                    &&& final(region).bytes@ == splice(
                        old(region).bytes@,
                        addr - old(region).base,
                        p@.original(),
                    )
                },
                None => {
                    &&& !old(self)@.breakpoints.contains_key(addr)
                    &&& final(region).bytes@ == old(region).bytes@
                },
            },
    {
        let ghost old_view = self@;
        let ghost old_bp = self.breakpoints@;
        match self.breakpoints.remove(&addr) {
            None => {
                assert(self@ == old_view.without(addr)) by {
                    assert(self@.breakpoints =~= old_view.breakpoints);
                    assert(self@.trampolines =~= old_view.trampolines);
                }
                None
            },
            Some(p) => {
                assert(old_bp.contains_key(addr) && old_bp[addr] == p);
                assert(p@ == old_view.breakpoints[addr]);
                assert(old_view.wf());
                assert(old_view.breakpoints.contains_key(addr));
                assert(p@.wf());
                let step = p.debug_address();
                self.trampolines.remove(&step);
                assert(self@.breakpoints =~= old_view.breakpoints.remove(addr));
                assert(self@.trampolines =~= old_view.trampolines.remove(step));
                p.restore(region);
                Some(p)
            },
        }
    }
}

} // verus!
