use vstd::prelude::*;

use crate::cpu::{StepInfo, CPU};

verus! {

// Unofficial opcodes decode to these handlers and execute as no-ops.
impl CPU {
    /// AHX (unofficial): no-op.
    pub fn ahx(&mut self, info: StepInfo)
        ensures
            *final(self) == *old(self),
    {
    }
    /// ALR (unofficial): no-op.
    pub fn alr(&mut self, info: StepInfo)
        ensures
            *final(self) == *old(self),
    {
    }
    /// ANC (unofficial): no-op.
    pub fn anc(&mut self, info: StepInfo)
        ensures
            *final(self) == *old(self),
    {
    }
    /// ARR (unofficial): no-op.
    pub fn arr(&mut self, info: StepInfo)
        ensures
            *final(self) == *old(self),
    {
    }
    /// AXS (unofficial): no-op.
    pub fn axs(&mut self, info: StepInfo)
        ensures
            *final(self) == *old(self),
    {
    }
    /// DCP (unofficial): no-op.
    pub fn dcp(&mut self, info: StepInfo)
        ensures
            *final(self) == *old(self),
    {
    }
    /// ISC (unofficial): no-op.
    pub fn isc(&mut self, info: StepInfo)
        ensures
            *final(self) == *old(self),
    {
    }
    /// LAS (unofficial): no-op.
    pub fn las(&mut self, info: StepInfo)
        ensures
            *final(self) == *old(self),
    {
    }
    /// LAX (unofficial): no-op.
    pub fn lax(&mut self, info: StepInfo)
        ensures
            *final(self) == *old(self),
    {
    }
    /// RLA (unofficial): no-op.
    pub fn rla(&mut self, info: StepInfo)
        ensures
            *final(self) == *old(self),
    {
    }
    /// RRA (unofficial): no-op.
    pub fn rra(&mut self, info: StepInfo)
        ensures
            *final(self) == *old(self),
    {
    }
    /// SAX (unofficial): no-op.
    pub fn sax(&mut self, info: StepInfo)
        ensures
            *final(self) == *old(self),
    {
    }
    /// SHX (unofficial): no-op.
    pub fn shx(&mut self, info: StepInfo)
        ensures
            *final(self) == *old(self),
    {
    }
    /// SHY (unofficial): no-op.
    pub fn shy(&mut self, info: StepInfo)
        ensures
            *final(self) == *old(self),
    {
    }
    /// SLO (unofficial): no-op.
    pub fn slo(&mut self, info: StepInfo)
        ensures
            *final(self) == *old(self),
    {
    }
    /// SRE (unofficial): no-op.
    pub fn sre(&mut self, info: StepInfo)
        ensures
            *final(self) == *old(self),
    {
    }
    /// TAS (unofficial): no-op.
    pub fn tas(&mut self, info: StepInfo)
        ensures
            *final(self) == *old(self),
    {
    }
    /// XAA (unofficial): no-op.
    pub fn xaa(&mut self, info: StepInfo)
        ensures
            *final(self) == *old(self),
    {
    }
}

} // verus!
