use polyhal::arch::{BREAKPOINT_OPCODE, MAX_INSTRUCTION_LEN};
use polyhal::code::CodeRegion;
use polyhal::dispatch::{debug_handler, ebreak_handler, ProtocolViolation};
use polyhal::kprobe::{InstallError, Kprobe, ProbeHooks};
use polyhal::registry::ProbeRegistry;
use polyhal::trap::TrapContext;
use std::cell::RefCell;
use std::rc::Rc;

const FUNC: usize = 0x1000;
const SLOT: usize = 0x9000;
const TF: usize = 1 << 8;

/// lea rax, [rdi + rsi]; ret
fn add_function() -> Vec<u8> {
    vec![0x48, 0x8d, 0x04, 0x37, 0xc3]
}

#[derive(Clone)]
struct Recorder {
    name: &'static str,
    log: Rc<RefCell<Vec<String>>>,
}

impl ProbeHooks for Recorder {
    fn pre(&self, regs: &TrapContext) {
        self.log
            .borrow_mut()
            .push(format!("{} pre {} {}", self.name, regs.arg0, regs.arg1));
    }

    fn post(&self, regs: &TrapContext) {
        self.log.borrow_mut().push(format!("{} post {}", self.name, regs.ret));
    }

    fn fault(&self, _regs: &TrapContext) {
        self.log.borrow_mut().push(format!("{} fault", self.name));
    }
}

fn recorder(name: &'static str, log: &Rc<RefCell<Vec<String>>>) -> Recorder {
    Recorder { name, log: Rc::clone(log) }
}

fn probe_at(addr: usize, name: &'static str, log: &Rc<RefCell<Vec<String>>>) -> Kprobe<Recorder> {
    Kprobe::new(name.to_string(), addr, 0, recorder(name, log))
}

fn entry_trap(pc: usize) -> TrapContext {
    let mut ctx = TrapContext::new();
    ctx.pc = pc;
    ctx.flags = 0x202;
    ctx.arg0 = 1;
    ctx.arg1 = 2;
    ctx
}

#[test]
fn install_writes_breakpoint_and_saves_instruction() {
    let log = Rc::new(RefCell::new(Vec::new()));
    let mut reg = ProbeRegistry::new();
    let mut region = CodeRegion::new(FUNC, add_function());
    let p = reg.install(probe_at(FUNC, "f", &log), &mut region, SLOT).unwrap();
    assert_eq!(region.as_bytes()[0], BREAKPOINT_OPCODE);
    assert_eq!(&region.as_bytes()[1..], &add_function()[1..]);
    assert_eq!(p.instruction_len(), 4);
    assert!(p.instruction_len() >= 1 && p.instruction_len() <= MAX_INSTRUCTION_LEN);
    assert_eq!(&p.old_inst()[..4], &[0x48, 0x8d, 0x04, 0x37]);
    assert_eq!(p.old_inst()[4], 0xc3);
    assert_eq!(p.next_address(), FUNC + 4);
    assert_eq!(p.debug_address(), SLOT + 4);
    assert!(p.is_installed());
}

#[test]
fn install_then_uninstall_restores_bytes() {
    let log = Rc::new(RefCell::new(Vec::new()));
    let mut reg = ProbeRegistry::new();
    let mut region = CodeRegion::new(FUNC, add_function());
    reg.install(probe_at(FUNC + 4, "ret", &log), &mut region, SLOT).unwrap();
    assert_eq!(region.as_bytes()[4], BREAKPOINT_OPCODE);
    let p = reg.uninstall(FUNC + 4, &mut region).unwrap();
    assert_eq!(p.address(), FUNC + 4);
    assert_eq!(region.as_bytes(), &add_function()[..]);
}

#[test]
fn probed_call_runs_hooks_in_order_and_resumes_after_instruction() {
    let log = Rc::new(RefCell::new(Vec::new()));
    let mut reg = ProbeRegistry::new();
    let mut region = CodeRegion::new(FUNC, add_function());
    reg.install(probe_at(FUNC, "f", &log), &mut region, SLOT).unwrap();

    // The processor executes the breakpoint at the start of F(1, 2).
    let mut ctx = entry_trap(FUNC + 1);
    assert_eq!(ebreak_handler(&reg, &mut ctx), Ok(()));
    assert_eq!(ctx.pc, SLOT);
    assert_eq!(ctx.flags, 0x202 | TF);
    assert_eq!(*log.borrow(), vec!["f pre 1 2".to_string()]);

    // It retires the displaced `lea` from the out-of-line copy.
    ctx.ret = ctx.arg0 + ctx.arg1;
    ctx.pc += 4;
    log.borrow_mut().push("lea".to_string());

    assert_eq!(debug_handler(&reg, &mut ctx), Ok(()));
    assert_eq!(ctx.pc, FUNC + 4);
    assert_ne!(ctx.pc, SLOT);
    assert_eq!(ctx.flags, 0x202);
    assert_eq!(ctx.ret, 3);
    assert_eq!(
        *log.borrow(),
        vec!["f pre 1 2".to_string(), "lea".to_string(), "f post 3".to_string()]
    );
}

#[test]
fn probes_at_distinct_addresses_do_not_cross_trigger() {
    let log = Rc::new(RefCell::new(Vec::new()));
    let mut reg = ProbeRegistry::new();
    let mut region = CodeRegion::new(FUNC, add_function());
    reg.install(probe_at(FUNC, "a", &log), &mut region, SLOT).unwrap();
    reg.install(probe_at(FUNC + 4, "b", &log), &mut region, SLOT + 0x100).unwrap();

    let mut ctx = entry_trap(FUNC + 5);
    ebreak_handler(&reg, &mut ctx).unwrap();
    assert_eq!(ctx.pc, SLOT + 0x100);
    ctx.pc += 1;
    debug_handler(&reg, &mut ctx).unwrap();
    assert_eq!(ctx.pc, FUNC + 5);
    assert_eq!(*log.borrow(), vec!["b pre 1 2".to_string(), "b post 0".to_string()]);

    log.borrow_mut().clear();
    let mut ctx = entry_trap(FUNC + 1);
    ebreak_handler(&reg, &mut ctx).unwrap();
    assert_eq!(ctx.pc, SLOT);
    ctx.pc += 4;
    debug_handler(&reg, &mut ctx).unwrap();
    assert_eq!(ctx.pc, FUNC + 4);
    assert_eq!(*log.borrow(), vec!["a pre 1 2".to_string(), "a post 0".to_string()]);
}

#[test]
fn lookups_miss_where_no_probe_lives() {
    let log = Rc::new(RefCell::new(Vec::new()));
    let mut reg: ProbeRegistry<Recorder> = ProbeRegistry::new();
    assert!(reg.lookup_by_breakpoint(FUNC).is_none());
    assert!(reg.lookup_by_trampoline(FUNC).is_none());
    let mut region = CodeRegion::new(FUNC, add_function());
    reg.install(probe_at(FUNC, "f", &log), &mut region, SLOT).unwrap();
    assert!(reg.lookup_by_breakpoint(FUNC).is_some());
    assert!(reg.lookup_by_trampoline(SLOT + 4).is_some());
    assert!(reg.lookup_by_breakpoint(FUNC + 1).is_none());
    assert!(reg.lookup_by_trampoline(FUNC + 1).is_none());
    assert!(reg.lookup_by_trampoline(SLOT).is_none());
    assert!(reg.lookup_by_breakpoint(SLOT + 4).is_none());
    reg.uninstall(FUNC, &mut region).unwrap();
    assert!(reg.lookup_by_breakpoint(FUNC).is_none());
    assert!(reg.lookup_by_trampoline(SLOT + 4).is_none());
}

#[test]
fn reinstall_after_uninstall_behaves_like_first_install() {
    let log = Rc::new(RefCell::new(Vec::new()));
    let mut reg = ProbeRegistry::new();
    let mut region = CodeRegion::new(FUNC, add_function());
    let first = reg.install(probe_at(FUNC, "f", &log), &mut region, SLOT).unwrap();
    let after_first = region.as_bytes().to_vec();
    reg.uninstall(FUNC, &mut region).unwrap();
    assert!(reg.uninstall(FUNC, &mut region).is_none());
    let second = reg.install(probe_at(FUNC, "f", &log), &mut region, SLOT).unwrap();
    assert_eq!(region.as_bytes(), &after_first[..]);
    assert_eq!(first.old_inst(), second.old_inst());
    assert_eq!(first.instruction_len(), second.instruction_len());
    let mut ctx = entry_trap(FUNC + 1);
    ebreak_handler(&reg, &mut ctx).unwrap();
    ctx.pc += 4;
    debug_handler(&reg, &mut ctx).unwrap();
    assert_eq!(ctx.pc, FUNC + 4);
    assert_eq!(log.borrow().len(), 2);
}

#[test]
fn second_probe_on_same_address_conflicts() {
    let log = Rc::new(RefCell::new(Vec::new()));
    let mut reg = ProbeRegistry::new();
    let mut region = CodeRegion::new(FUNC, add_function());
    reg.install(probe_at(FUNC, "f", &log), &mut region, SLOT).unwrap();
    let before = region.as_bytes().to_vec();
    let r = reg.install(probe_at(FUNC, "g", &log), &mut region, SLOT + 0x100);
    assert_eq!(r.err(), Some(InstallError::Conflict));
    assert_eq!(region.as_bytes(), &before[..]);
}

#[test]
fn clashing_step_address_conflicts_without_patching() {
    let log = Rc::new(RefCell::new(Vec::new()));
    let mut reg = ProbeRegistry::new();
    let mut region = CodeRegion::new(FUNC, add_function());
    reg.install(probe_at(FUNC, "f", &log), &mut region, SLOT).unwrap();
    // `ret` is one byte long, so its step would complete at SLOT + 4 too.
    let r = reg.install(probe_at(FUNC + 4, "g", &log), &mut region, SLOT + 3);
    assert_eq!(r.err(), Some(InstallError::Conflict));
    assert_eq!(region.as_bytes()[4], 0xc3);
}

#[test]
fn undecodable_bytes_are_rejected_untouched() {
    let log = Rc::new(RefCell::new(Vec::new()));
    let mut reg = ProbeRegistry::new();
    // A REX prefix with nothing after it.
    let mut region = CodeRegion::new(FUNC, vec![0x48]);
    let r = reg.install(probe_at(FUNC, "f", &log), &mut region, SLOT);
    assert_eq!(r.err(), Some(InstallError::Decode));
    assert_eq!(region.as_bytes(), &[0x48]);
    assert!(reg.lookup_by_breakpoint(FUNC).is_none());
}

#[test]
fn stray_traps_are_protocol_violations() {
    let reg: ProbeRegistry<Recorder> = ProbeRegistry::new();
    let mut ctx = entry_trap(FUNC + 1);
    let before = ctx;
    assert_eq!(ebreak_handler(&reg, &mut ctx), Err(ProtocolViolation { address: FUNC }));
    assert_eq!(ctx, before);
    assert_eq!(debug_handler(&reg, &mut ctx), Err(ProtocolViolation { address: FUNC + 1 }));
    assert_eq!(ctx, before);
    let mut zero = TrapContext::new();
    assert_eq!(ebreak_handler(&reg, &mut zero), Err(ProtocolViolation { address: 0 }));
}

#[test]
fn single_step_flag_already_set_is_cleared_on_resume() {
    let log = Rc::new(RefCell::new(Vec::new()));
    let mut reg = ProbeRegistry::new();
    let mut region = CodeRegion::new(FUNC, add_function());
    reg.install(probe_at(FUNC, "f", &log), &mut region, SLOT).unwrap();
    let mut ctx = entry_trap(FUNC + 1);
    ctx.flags = 0x302;
    ebreak_handler(&reg, &mut ctx).unwrap();
    assert_eq!(ctx.flags, 0x302);
    ctx.pc += 4;
    debug_handler(&reg, &mut ctx).unwrap();
    assert_eq!(ctx.flags, 0x202);
}

#[test]
fn kprobe_install_and_uninstall_on_its_own() {
    let log = Rc::new(RefCell::new(Vec::new()));
    let mut region = CodeRegion::new(FUNC, add_function());
    let mut p = Kprobe::new("f".to_string(), FUNC, 4, recorder("f", &log));
    assert_eq!(p.address(), FUNC + 4);
    assert_eq!(p.symbol(), "f");
    assert!(!p.is_installed());
    assert_eq!(p.install(&mut region, SLOT), Ok(()));
    assert_eq!(p.instruction_len(), 1);
    assert_eq!(p.trampoline_address(), SLOT);
    assert_eq!(region.as_bytes()[4], BREAKPOINT_OPCODE);
    assert_eq!(p.install(&mut region, SLOT), Err(InstallError::Conflict));
    p.uninstall(&mut region);
    assert!(!p.is_installed());
    assert_eq!(region.as_bytes(), &add_function()[..]);
    p.uninstall(&mut region);
    assert_eq!(region.as_bytes(), &add_function()[..]);
}

#[test]
fn hooks_are_forwarded() {
    let log = Rc::new(RefCell::new(Vec::new()));
    let p = probe_at(FUNC, "f", &log);
    let ctx = entry_trap(FUNC);
    p.pre_handler(&ctx);
    p.post_handler(&ctx);
    p.fault_handler(&ctx);
    assert_eq!(
        *log.borrow(),
        vec!["f pre 1 2".to_string(), "f post 0".to_string(), "f fault".to_string()]
    );
}

#[test]
fn window_stops_at_longest_instruction() {
    let region = CodeRegion::new(0x10, (0u8..20).collect());
    assert_eq!(region.window(0x10), (0u8..15).collect::<Vec<u8>>());
    assert_eq!(region.window(0x20), vec![16, 17, 18, 19]);
    let mut region = region;
    region.write_bytes(0x11, &[9, 9, 9], 2);
    assert_eq!(&region.as_bytes()[..4], &[0, 9, 9, 3]);
    region.write_byte(0x10, 7);
    assert_eq!(region.as_bytes()[0], 7);
    assert_eq!(region.base(), 0x10);
}
