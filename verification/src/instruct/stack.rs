//! Stack push and pop of 16-bit register pairs.
use crate::cpu::CpuView;
use crate::cpu::CPU;
use crate::instruct::Reg;
use vstd::prelude::*;

verus! {

/// Push a 16-bit pair: the stack pointer moves down by two (wrapping)
/// and the pair is stored little-endian at the new stack pointer.
#[derive(Clone, Copy, Debug, PartialEq, Eq, Structural)]
pub struct PUSH(pub Reg);

impl PUSH {
    /// Only the pairs BC, DE, HL and AF can be pushed.
    pub open spec fn wf(self) -> bool {
        match self.0 {
            Reg::BC | Reg::DE | Reg::HL | Reg::AF => true,
            _ => false,
        }
    }

    pub open spec fn effect(self, v: CpuView) -> CpuView {
        v.push_spec(v.reg.spec_pair(self.0))
    }

    pub fn call(self, cpu: &mut CPU) -> (r: usize)
        requires
            self.wf(),
        ensures
            final(cpu)@ == self.effect(old(cpu)@),
            r == 5usize,
    {
        let value = cpu.reg.get_pair(self.0);
        cpu.push_stack(value);
        5
    }
}

/// Pop a 16-bit pair: reads little-endian at the stack pointer into the
/// pair, then moves the pointer up by two (wrapping). Popping into AF
/// discards the low nibble of the flag byte.
#[derive(Clone, Copy, Debug, PartialEq, Eq, Structural)]
pub struct POP(pub Reg);

impl POP {
    /// Only the pairs BC, DE, HL and AF can be popped.
    pub open spec fn wf(self) -> bool {
        match self.0 {
            Reg::BC | Reg::DE | Reg::HL | Reg::AF => true,
            _ => false,
        }
    }

    pub open spec fn effect(self, v: CpuView) -> CpuView {
        let value = v.pop_val();
        let popped = v.pop_spec();
        CpuView { reg: popped.reg.spec_with_pair(self.0, value), ..popped }
    }

    pub fn call(self, cpu: &mut CPU) -> (r: usize)
        requires
            self.wf(),
        ensures
            final(cpu)@ == self.effect(old(cpu)@),
            r == 5usize,
    {
        let value = cpu.pop_stack();
        cpu.reg.set_pair(self.0, value);
        5
    }
}

} // verus!
