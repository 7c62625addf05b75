//! No-operand instructions (nop, stop, halt, interrupt latches, flag
//! operations, accumulator rotates) and the conditional jumps.
use crate::cpu::spec_add_signed_val;
use crate::cpu::CpuView;
use crate::cpu::Flags;
use crate::cpu::Register;
use crate::cpu::CPU;
use crate::instruct::spec_cond_met;
use crate::instruct::Cond;
use vstd::prelude::*;

verus! {

/// No operation.
#[derive(Clone, Copy, Debug, PartialEq, Eq, Structural)]
pub struct NOP;

impl NOP {
    /// Does nothing for one machine cycle.
    pub fn call(self, cpu: &mut CPU) -> (r: usize)
        ensures
            final(cpu)@ == old(cpu)@,
            r == 1usize,
    {
        1
    }
}

/// Stop: accepted and currently treated as a one-cycle no-operation.
#[derive(Clone, Copy, Debug, PartialEq, Eq, Structural)]
pub struct STOP;

impl STOP {
    pub fn call(self, cpu: &mut CPU) -> (r: usize)
        ensures
            final(cpu)@ == old(cpu)@,
            r == 1usize,
    {
        1
    }
}

/// Halt: sets the halt latch; interrupt delivery is out of scope, so
/// the latch only records that the guest program stopped itself.
#[derive(Clone, Copy, Debug, PartialEq, Eq, Structural)]
pub struct HALT;

impl HALT {
    pub open spec fn effect(self, v: CpuView) -> CpuView {
        CpuView { halted: true, ..v }
    }

    pub fn call(self, cpu: &mut CPU) -> (r: usize)
        ensures
            final(cpu)@ == self.effect(old(cpu)@),
            r == 1usize,
    {
        cpu.halted = true;
        1
    }
}

/// Disable interrupts: sets the interrupt-disable latch.
#[derive(Clone, Copy, Debug, PartialEq, Eq, Structural)]
pub struct DI;

impl DI {
    pub open spec fn effect(self, v: CpuView) -> CpuView {
        CpuView { di: true, ..v }
    }

    pub fn call(self, cpu: &mut CPU) -> (r: usize)
        ensures
            final(cpu)@ == self.effect(old(cpu)@),
            r == 1usize,
    {
        cpu.di = true;
        1
    }
}

/// Enable interrupts: sets the interrupt-enable latch.
#[derive(Clone, Copy, Debug, PartialEq, Eq, Structural)]
pub struct EI;

impl EI {
    pub open spec fn effect(self, v: CpuView) -> CpuView {
        CpuView { ei: true, ..v }
    }

    pub fn call(self, cpu: &mut CPU) -> (r: usize)
        ensures
            final(cpu)@ == self.effect(old(cpu)@),
            r == 1usize,
    {
        cpu.ei = true;
        1
    }
}

/// Complement the Carry flag; Subtract and Half-carry clear, Zero
/// untouched.
#[derive(Clone, Copy, Debug, PartialEq, Eq, Structural)]
pub struct CCF;

impl CCF {
    pub open spec fn effect(self, v: CpuView) -> CpuView {
        CpuView {
            reg: Register {
                f: Flags { z: v.reg.f.z, n: false, h: false, c: !v.reg.f.c },
                ..v.reg
            },
            ..v
        }
    }

    pub fn call(self, cpu: &mut CPU) -> (r: usize)
        ensures
            final(cpu)@ == self.effect(old(cpu)@),
            r == 1usize,
    {
        cpu.reg.f = Flags { z: cpu.reg.f.z, n: false, h: false, c: !cpu.reg.f.c };
        1
    }
}

/// Set the Carry flag; Subtract and Half-carry clear, Zero untouched.
#[derive(Clone, Copy, Debug, PartialEq, Eq, Structural)]
pub struct SCF;

impl SCF {
    pub open spec fn effect(self, v: CpuView) -> CpuView {
        CpuView {
            reg: Register { f: Flags { z: v.reg.f.z, n: false, h: false, c: true }, ..v.reg },
            ..v
        }
    }

    pub fn call(self, cpu: &mut CPU) -> (r: usize)
        ensures
            final(cpu)@ == self.effect(old(cpu)@),
            r == 1usize,
    {
        cpu.reg.f = Flags { z: cpu.reg.f.z, n: false, h: false, c: true };
        1
    }
}

/// Rotate the accumulator left: the old top bit becomes both the new
/// low bit and the Carry flag; Zero, Subtract and Half-carry are
/// cleared.
#[derive(Clone, Copy, Debug, PartialEq, Eq, Structural)]
pub struct RLCA;

impl RLCA {
    pub open spec fn effect(self, v: CpuView) -> CpuView {
        let a = v.reg.a;
        let r = ((a * 2 + a / 128) % 256) as u8;
        CpuView {
            reg: Register {
                a: r,
                f: Flags { z: false, n: false, h: false, c: a >= 128 },
                ..v.reg
            },
            ..v
        }
    }

    pub fn call(self, cpu: &mut CPU) -> (r: usize)
        ensures
            final(cpu)@ == self.effect(old(cpu)@),
            r == 1usize,
    {
        let a = cpu.reg.a;
        let value = ((a as u16 * 2 + a as u16 / 128) % 256) as u8;
        cpu.reg.f = Flags { z: false, n: false, h: false, c: a >= 128 };
        cpu.reg.a = value;
        1
    }
}

/// Rotate the accumulator left through Carry: the prior Carry flag
/// becomes the new low bit and the old top bit becomes the new Carry;
/// Zero, Subtract and Half-carry are cleared.
#[derive(Clone, Copy, Debug, PartialEq, Eq, Structural)]
pub struct RLA;

impl RLA {
    pub open spec fn effect(self, v: CpuView) -> CpuView {
        let a = v.reg.a;
        let r = ((a * 2 + (if v.reg.f.c {
            1int
        } else {
            0int
        })) % 256) as u8;
        CpuView {
            reg: Register {
                a: r,
                f: Flags { z: false, n: false, h: false, c: a >= 128 },
                ..v.reg
            },
            ..v
        }
    }

    pub fn call(self, cpu: &mut CPU) -> (r: usize)
        ensures
            final(cpu)@ == self.effect(old(cpu)@),
            r == 1usize,
    {
        let a = cpu.reg.a;
        let cin: u16 = if cpu.reg.f.c {
            1
        } else {
            0
        };
        let value = ((a as u16 * 2 + cin) % 256) as u8;
        cpu.reg.f = Flags { z: false, n: false, h: false, c: a >= 128 };
        cpu.reg.a = value;
        1
    }
}

/// Rotate the accumulator right: the old low bit becomes both the new
/// top bit and the Carry flag; Zero, Subtract and Half-carry are
/// cleared.
#[derive(Clone, Copy, Debug, PartialEq, Eq, Structural)]
pub struct RRCA;

impl RRCA {
    pub open spec fn effect(self, v: CpuView) -> CpuView {
        let a = v.reg.a;
        let r = (a / 2 + a % 2 * 128) as u8;
        CpuView {
            reg: Register {
                a: r,
                f: Flags { z: false, n: false, h: false, c: a % 2 == 1 },
                ..v.reg
            },
            ..v
        }
    }

    pub fn call(self, cpu: &mut CPU) -> (r: usize)
        ensures
            final(cpu)@ == self.effect(old(cpu)@),
            r == 1usize,
    {
        let a = cpu.reg.a;
        let value = a / 2 + a % 2 * 128;
        cpu.reg.f = Flags { z: false, n: false, h: false, c: a % 2 == 1 };
        cpu.reg.a = value;
        1
    }
}

/// Rotate the accumulator right through Carry: the prior Carry flag
/// becomes the new top bit and the old low bit becomes the new Carry;
/// Zero, Subtract and Half-carry are cleared.
#[derive(Clone, Copy, Debug, PartialEq, Eq, Structural)]
pub struct RRA;

impl RRA {
    pub open spec fn effect(self, v: CpuView) -> CpuView {
        let a = v.reg.a;
        let r = (a / 2 + (if v.reg.f.c {
            128int
        } else {
            0int
        })) as u8;
        CpuView {
            reg: Register {
                a: r,
                f: Flags { z: false, n: false, h: false, c: a % 2 == 1 },
                ..v.reg
            },
            ..v
        }
    }

    pub fn call(self, cpu: &mut CPU) -> (r: usize)
        ensures
            final(cpu)@ == self.effect(old(cpu)@),
            r == 1usize,
    {
        let a = cpu.reg.a;
        let cin: u8 = if cpu.reg.f.c {
            128
        } else {
            0
        };
        let value = a / 2 + cin;
        cpu.reg.f = Flags { z: false, n: false, h: false, c: a % 2 == 1 };
        cpu.reg.a = value;
        1
    }
}

/// Absolute jump, optionally conditional: when the condition holds the
/// program counter is replaced with the 16-bit literal; the cycle cost
/// differs between the taken and not-taken paths.
#[derive(Clone, Copy, Debug, PartialEq, Eq, Structural)]
pub struct JP(pub Option<Cond>, pub u16);

impl JP {
    pub open spec fn effect(self, v: CpuView) -> CpuView {
        if spec_cond_met(self.0, v.reg.f) {
            CpuView { reg: Register { pc: self.1, ..v.reg }, ..v }
        } else {
            v
        }
    }

    pub open spec fn cycles(self, v: CpuView) -> usize {
        if spec_cond_met(self.0, v.reg.f) {
            4usize
        } else {
            3usize
        }
    }

    pub fn call(self, cpu: &mut CPU) -> (r: usize)
        ensures
            final(cpu)@ == self.effect(old(cpu)@),
            r == self.cycles(old(cpu)@),
    {
        let ok = match self.0 {
            Option::None => true,
            Option::Some(Cond::Z) => cpu.reg.f.z,
            Option::Some(Cond::NZ) => !cpu.reg.f.z,
            Option::Some(Cond::C) => cpu.reg.f.c,
            Option::Some(Cond::NC) => !cpu.reg.f.c,
        };
        if ok {
            cpu.reg.pc = self.1;
            4
        } else {
            3
        }
    }
}

/// Relative jump, optionally conditional: when the condition holds the
/// program counter moves by a signed 8-bit displacement (wrapping); the
/// cycle cost differs between the taken and not-taken paths.
#[derive(Clone, Copy, Debug, PartialEq, Eq, Structural)]
pub struct JR(pub Option<Cond>, pub u8);

impl JR {
    pub open spec fn effect(self, v: CpuView) -> CpuView {
        if spec_cond_met(self.0, v.reg.f) {
            CpuView { reg: Register { pc: spec_add_signed_val(v.reg.pc, self.1), ..v.reg }, ..v }
        } else {
            v
        }
    }

    pub open spec fn cycles(self, v: CpuView) -> usize {
        if spec_cond_met(self.0, v.reg.f) {
            3usize
        } else {
            2usize
        }
    }

    pub fn call(self, cpu: &mut CPU) -> (r: usize)
        ensures
            final(cpu)@ == self.effect(old(cpu)@),
            r == self.cycles(old(cpu)@),
    {
        let ok = match self.0 {
            Option::None => true,
            Option::Some(Cond::Z) => cpu.reg.f.z,
            Option::Some(Cond::NZ) => !cpu.reg.f.z,
            Option::Some(Cond::C) => cpu.reg.f.c,
            Option::Some(Cond::NC) => !cpu.reg.f.c,
        };
        if ok {
            let n = self.1;
            let ext: u32 = if n < 128 {
                n as u32
            } else {
                n as u32 + 0xFF00
            };
            cpu.reg.pc = ((cpu.reg.pc as u32 + ext) % 0x10000) as u16;
            3
        } else {
            2
        }
    }
}

} // verus!
