//! What the boot code learns about the machine, and the page-allocator
//! interface that the kernel provides to the platform layer.
use vstd::prelude::*;

verus! {

/// A physical page number.
#[derive(Debug, Clone, Copy, PartialEq, Eq, Structural)]
pub struct PhysPage(pub usize);

/// A source of physical pages, implemented by the kernel.
pub trait PageAlloc {
    fn alloc_page(&self) -> PhysPage;

    fn dealloc_page(&self, ppn: PhysPage);
}

/// The machine description gathered at boot: the number of processors and
/// the usable memory areas as (start, size) pairs.
pub struct PlatformInfo {
    pub cpu_num: usize,
    pub mem_areas: Vec<(usize, usize)>,
}

impl PlatformInfo {
    pub fn new(cpu_num: usize, mem_areas: Vec<(usize, usize)>) -> (r: PlatformInfo)
        ensures
            r.cpu_num == cpu_num,
            r.mem_areas@ == mem_areas@,
    {
        PlatformInfo { cpu_num, mem_areas }
    }
}

/// The usable memory areas, as (start, size) pairs.
pub fn get_mem_areas(info: &PlatformInfo) -> (r: Vec<(usize, usize)>)
    ensures
        r@ == info.mem_areas@,
{
    let mut r: Vec<(usize, usize)> = Vec::new();
    let mut i: usize = 0;
    while i < info.mem_areas.len()
        invariant
            0 <= i <= info.mem_areas@.len(),
            r@ == info.mem_areas@.subrange(0, i as int),
        decreases info.mem_areas@.len() - i,
    {
        r.push(info.mem_areas[i]);
        i = i + 1;
    }
    assert(r@ =~= info.mem_areas@);
    r
}

/// The number of processors.
pub fn get_cpu_num(info: &PlatformInfo) -> (r: usize)
    ensures
        r == info.cpu_num,
{
    info.cpu_num
}

} // verus!
