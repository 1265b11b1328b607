//! Interrupt-controller operations.
use vstd::prelude::*;

verus! {

/// Interrupt control for the platform.
pub struct IRQ;

/// An interrupt vector, holding its interrupt number.
#[derive(Debug, Clone, Copy, PartialEq, Eq, Structural)]
pub struct IRQVector(pub usize);

impl IRQ {
    /// Enables the given interrupt line. This platform routes no lines yet,
    /// so there is nothing to change.
    pub fn irq_enable(_irq_num: usize) {
    }

    /// Disables the given interrupt line. This platform routes no lines yet,
    /// so there is nothing to change.
    pub fn irq_disable(_irq_num: usize) {
    }
}

impl IRQVector {
    /// The interrupt number of this vector.
    pub fn irq_num(&self) -> (r: usize)
        ensures
            r == self.0,
    {
        self.0
    }

    /// Acknowledges the interrupt. This platform needs no acknowledgement.
    pub fn ack(&self) {
    }
}

} // verus!
