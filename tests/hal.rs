use polyhal::irq::{IRQVector, IRQ};
use polyhal::platform::{get_cpu_num, get_mem_areas, PlatformInfo};
use polyhal::trap::{TrapContext, TrapFrameArgs, TrapType};

#[test]
fn trap_context_slots_read_back() {
    let mut ctx = TrapContext::new();
    let args = [
        TrapFrameArgs::SEPC,
        TrapFrameArgs::RA,
        TrapFrameArgs::SP,
        TrapFrameArgs::RET,
        TrapFrameArgs::ARG0,
        TrapFrameArgs::ARG1,
        TrapFrameArgs::ARG2,
        TrapFrameArgs::TLS,
        TrapFrameArgs::SYSCALL,
    ];
    for (i, a) in args.iter().enumerate() {
        ctx.set(*a, 100 + i);
    }
    for (i, a) in args.iter().enumerate() {
        assert_eq!(ctx.get(*a), 100 + i);
    }
    assert_eq!(ctx.pc, 100);
    assert_eq!(ctx.arg1, 105);
    assert_eq!(ctx.flags, 0);
}

#[test]
fn irq_vector_reports_its_number() {
    let v = IRQVector(33);
    assert_eq!(v.irq_num(), 33);
    v.ack();
    IRQ::irq_enable(33);
    IRQ::irq_disable(33);
}

#[test]
fn platform_info_is_reported() {
    let info = PlatformInfo::new(4, vec![(0x8000_0000, 0x1000_0000), (0x9000_0000, 0x100)]);
    assert_eq!(get_cpu_num(&info), 4);
    assert_eq!(get_mem_areas(&info), vec![(0x8000_0000, 0x1000_0000), (0x9000_0000, 0x100)]);
    assert!(get_mem_areas(&PlatformInfo::new(1, vec![])).is_empty());
}

#[test]
fn trap_types_compare_by_payload() {
    assert_eq!(TrapType::StorePageFault(8), TrapType::StorePageFault(8));
    assert_ne!(TrapType::StorePageFault(8), TrapType::LoadPageFault(8));
    assert_ne!(TrapType::Breakpoint, TrapType::Time);
}
