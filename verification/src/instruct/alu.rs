//! Arithmetic and logical instructions: the accumulator forms, the
//! 16-bit adds, increments and decrements, decimal adjust and
//! complement.
use crate::cpu::spec_adc_flags;
use crate::cpu::spec_adc_val;
use crate::cpu::spec_add_signed_val;
use crate::cpu::spec_add_sp_flags;
use crate::cpu::spec_daa_flags;
use crate::cpu::spec_daa_val;
use crate::cpu::spec_sbc_flags;
use crate::cpu::spec_sbc_val;
use crate::cpu::CpuView;
use crate::cpu::Flags;
use crate::cpu::Register;
use crate::cpu::CPU;
use crate::instruct::Addr;
use crate::instruct::Param;
use crate::instruct::Reg;
use vstd::prelude::*;

verus! {

/// Whether a parameter is a valid 8-bit ALU source operand: an 8-bit
/// register, an 8-bit immediate, or the byte HL points at.
pub open spec fn operand_wf(p: Param) -> bool {
    match p {
        Param::Reg(r) => r.is_reg8(),
        Param::Imm8(_) => true,
        Param::Addr(a) => a == Addr::HL,
        _ => false,
    }
}

/// The value an 8-bit ALU source operand denotes in a given state.
pub open spec fn operand_val(v: CpuView, p: Param) -> u8 {
    match p {
        Param::Reg(r) => v.reg.spec_reg8(r),
        Param::Imm8(n) => n,
        Param::Addr(_) => v.mmu.read_spec(v.addr_of(Addr::HL)),
        _ => 0,
    }
}

/// The machine cycles an accumulator-form ALU instruction costs: one
/// for a register source, two for an immediate or memory source.
pub open spec fn operand_cycles(p: Param) -> usize {
    match p {
        Param::Reg(_) => 1usize,
        _ => 2usize,
    }
}

/// Reads the value of an 8-bit ALU source operand.
pub(crate) fn operand_fetch(cpu: &CPU, p: Param) -> (v: u8)
    requires
        operand_wf(p),
    ensures
        v == operand_val(cpu@, p),
{
    match p {
        Param::Reg(r) => cpu.reg.get_reg8(r),
        Param::Imm8(n) => n,
        Param::Addr(_) => cpu.mmu.read(cpu.reg.get_hl()),
        _ => 0,
    }
}

/// Add: the accumulator form `A + src`, the 16-bit form `HL + pair`,
/// and the stack-pointer form `SP + signed immediate`.
#[derive(Clone, Copy, Debug, PartialEq, Eq, Structural)]
pub struct ADD(pub Param, pub Param);

impl ADD {
    pub open spec fn wf(self) -> bool {
        match (self.0, self.1) {
            (Param::Reg(Reg::HL), Param::Reg(rr)) => rr == Reg::BC || rr == Reg::DE || rr == Reg::HL
                || rr == Reg::SP,
            (Param::Reg(Reg::SP), Param::Imm8(_)) => true,
            (Param::Reg(Reg::A), p) => operand_wf(p),
            _ => false,
        }
    }

    pub open spec fn effect(self, v: CpuView) -> CpuView {
        match (self.0, self.1) {
            (Param::Reg(Reg::HL), Param::Reg(rr)) => {
                let hl = v.reg.spec_pair(Reg::HL);
                let val = v.reg.spec_pair(rr);
                let f = Flags {
                    z: v.reg.f.z,
                    n: v.reg.f.n,
                    h: hl % 4096 + val % 4096 > 4095,
                    c: hl + val > 65535,
                };
                CpuView {
                    reg: (Register { f, ..v.reg }).spec_with_pair(
                        Reg::HL,
                        (((hl + val) % 65536) as u16),
                    ),
                    ..v
                }
            },
            (Param::Reg(Reg::SP), Param::Imm8(n)) => CpuView {
                reg: Register {
                    sp: spec_add_signed_val(v.reg.sp, n),
                    f: spec_add_sp_flags(v.reg.sp, n),
                    ..v.reg
                },
                ..v
            },
            (Param::Reg(Reg::A), p) => {
                let x = operand_val(v, p);
                CpuView {
                    reg: Register {
                        a: spec_adc_val(v.reg.a, x, false),
                        f: spec_adc_flags(v.reg.a, x, false),
                        ..v.reg
                    },
                    ..v
                }
            },
            _ => v,
        }
    }

    pub open spec fn cycles(self, v: CpuView) -> usize {
        match (self.0, self.1) {
            (Param::Reg(Reg::HL), Param::Reg(_)) => 2usize,
            (Param::Reg(Reg::SP), Param::Imm8(_)) => 1usize,
            (Param::Reg(Reg::A), p) => operand_cycles(p),
            _ => 1usize,
        }
    }

    pub fn call(self, cpu: &mut CPU) -> (r: usize)
        requires
            self.wf(),
        ensures
            final(cpu)@ == self.effect(old(cpu)@),
            r == self.cycles(old(cpu)@),
    {
        match (self.0, self.1) {
            (Param::Reg(Reg::HL), Param::Reg(rr)) => {
                let hl = cpu.reg.get_hl();
                let val = cpu.reg.get_pair(rr);
                let sum = cpu.reg.alu_add_u16(hl, val);
                cpu.reg.set_hl(sum);
                2
            },
            (Param::Reg(Reg::SP), Param::Imm8(n)) => {
                let sum = cpu.reg.alu_add_sp_i8(n);
                cpu.reg.sp = sum;
                1
            },
            (Param::Reg(Reg::A), p) => {
                let x = operand_fetch(cpu, p);
                let a = cpu.reg.a;
                let sum = cpu.reg.alu_add(a, x);
                cpu.reg.a = sum;
                match p {
                    Param::Reg(_) => 1,
                    _ => 2,
                }
            },
            _ => 1,
        }
    }
}

/// Add with carry: `A + src + Carry`.
#[derive(Clone, Copy, Debug, PartialEq, Eq, Structural)]
pub struct ADC(pub Param, pub Param);

impl ADC {
    pub open spec fn wf(self) -> bool {
        self.0 == Param::Reg(Reg::A) && operand_wf(self.1)
    }

    pub open spec fn effect(self, v: CpuView) -> CpuView {
        let x = operand_val(v, self.1);
        CpuView {
            reg: Register {
                a: spec_adc_val(v.reg.a, x, v.reg.f.c),
                f: spec_adc_flags(v.reg.a, x, v.reg.f.c),
                ..v.reg
            },
            ..v
        }
    }

    pub fn call(self, cpu: &mut CPU) -> (r: usize)
        requires
            self.wf(),
        ensures
            final(cpu)@ == self.effect(old(cpu)@),
            r == operand_cycles(self.1),
    {
        let x = operand_fetch(cpu, self.1);
        let a = cpu.reg.a;
        let sum = cpu.reg.alu_adc(a, x);
        cpu.reg.a = sum;
        match self.1 {
            Param::Reg(_) => 1,
            _ => 2,
        }
    }
}

/// Subtract: `A - src`.
#[derive(Clone, Copy, Debug, PartialEq, Eq, Structural)]
pub struct SUB(pub Param, pub Param);

impl SUB {
    pub open spec fn wf(self) -> bool {
        self.0 == Param::Reg(Reg::A) && operand_wf(self.1)
    }

    pub open spec fn effect(self, v: CpuView) -> CpuView {
        let x = operand_val(v, self.1);
        CpuView {
            reg: Register {
                a: spec_sbc_val(v.reg.a, x, false),
                f: spec_sbc_flags(v.reg.a, x, false),
                ..v.reg
            },
            ..v
        }
    }

    pub fn call(self, cpu: &mut CPU) -> (r: usize)
        requires
            self.wf(),
        ensures
            final(cpu)@ == self.effect(old(cpu)@),
            r == operand_cycles(self.1),
    {
        let x = operand_fetch(cpu, self.1);
        let a = cpu.reg.a;
        let diff = cpu.reg.alu_sub(a, x);
        cpu.reg.a = diff;
        match self.1 {
            Param::Reg(_) => 1,
            _ => 2,
        }
    }
}

/// Subtract with borrow: `A - src - Carry`.
#[derive(Clone, Copy, Debug, PartialEq, Eq, Structural)]
pub struct SBC(pub Param, pub Param);

impl SBC {
    pub open spec fn wf(self) -> bool {
        self.0 == Param::Reg(Reg::A) && operand_wf(self.1)
    }

    pub open spec fn effect(self, v: CpuView) -> CpuView {
        let x = operand_val(v, self.1);
        CpuView {
            reg: Register {
                a: spec_sbc_val(v.reg.a, x, v.reg.f.c),
                f: spec_sbc_flags(v.reg.a, x, v.reg.f.c),
                ..v.reg
            },
            ..v
        }
    }

    pub fn call(self, cpu: &mut CPU) -> (r: usize)
        requires
            self.wf(),
        ensures
            final(cpu)@ == self.effect(old(cpu)@),
            r == operand_cycles(self.1),
    {
        let x = operand_fetch(cpu, self.1);
        let a = cpu.reg.a;
        let diff = cpu.reg.alu_sbc(a, x);
        cpu.reg.a = diff;
        match self.1 {
            Param::Reg(_) => 1,
            _ => 2,
        }
    }
}

/// Bitwise AND of the accumulator with a source operand.
#[derive(Clone, Copy, Debug, PartialEq, Eq, Structural)]
pub struct AND(pub Param, pub Param);

impl AND {
    pub open spec fn wf(self) -> bool {
        self.0 == Param::Reg(Reg::A) && operand_wf(self.1)
    }

    pub open spec fn effect(self, v: CpuView) -> CpuView {
        let x = operand_val(v, self.1);
        CpuView {
            reg: Register {
                a: v.reg.a & x,
                f: Flags { z: (v.reg.a & x) == 0, n: false, h: true, c: false },
                ..v.reg
            },
            ..v
        }
    }

    pub fn call(self, cpu: &mut CPU) -> (r: usize)
        requires
            self.wf(),
        ensures
            final(cpu)@ == self.effect(old(cpu)@),
            r == operand_cycles(self.1),
    {
        let x = operand_fetch(cpu, self.1);
        let a = cpu.reg.a;
        let value = cpu.reg.alu_and(a, x);
        cpu.reg.a = value;
        match self.1 {
            Param::Reg(_) => 1,
            _ => 2,
        }
    }
}

/// Bitwise OR of the accumulator with a source operand.
#[derive(Clone, Copy, Debug, PartialEq, Eq, Structural)]
pub struct OR(pub Param, pub Param);

impl OR {
    pub open spec fn wf(self) -> bool {
        self.0 == Param::Reg(Reg::A) && operand_wf(self.1)
    }

    pub open spec fn effect(self, v: CpuView) -> CpuView {
        let x = operand_val(v, self.1);
        CpuView {
            reg: Register {
                a: v.reg.a | x,
                f: Flags { z: (v.reg.a | x) == 0, n: false, h: false, c: false },
                ..v.reg
            },
            ..v
        }
    }

    pub fn call(self, cpu: &mut CPU) -> (r: usize)
        requires
            self.wf(),
        ensures
            final(cpu)@ == self.effect(old(cpu)@),
            r == operand_cycles(self.1),
    {
        let x = operand_fetch(cpu, self.1);
        let a = cpu.reg.a;
        let value = cpu.reg.alu_or(a, x);
        cpu.reg.a = value;
        match self.1 {
            Param::Reg(_) => 1,
            _ => 2,
        }
    }
}

/// Bitwise XOR of the accumulator with a source operand.
#[derive(Clone, Copy, Debug, PartialEq, Eq, Structural)]
pub struct XOR(pub Param, pub Param);

impl XOR {
    pub open spec fn wf(self) -> bool {
        self.0 == Param::Reg(Reg::A) && operand_wf(self.1)
    }

    pub open spec fn effect(self, v: CpuView) -> CpuView {
        let x = operand_val(v, self.1);
        CpuView {
            reg: Register {
                a: v.reg.a ^ x,
                f: Flags { z: (v.reg.a ^ x) == 0, n: false, h: false, c: false },
                ..v.reg
            },
            ..v
        }
    }

    pub fn call(self, cpu: &mut CPU) -> (r: usize)
        requires
            self.wf(),
        ensures
            final(cpu)@ == self.effect(old(cpu)@),
            r == operand_cycles(self.1),
    {
        let x = operand_fetch(cpu, self.1);
        let a = cpu.reg.a;
        let value = cpu.reg.alu_xor(a, x);
        cpu.reg.a = value;
        match self.1 {
            Param::Reg(_) => 1,
            _ => 2,
        }
    }
}

/// Compare: computes the flags of `A - src` and discards the result.
#[derive(Clone, Copy, Debug, PartialEq, Eq, Structural)]
pub struct CP(pub Param, pub Param);

impl CP {
    pub open spec fn wf(self) -> bool {
        self.0 == Param::Reg(Reg::A) && operand_wf(self.1)
    }

    pub open spec fn effect(self, v: CpuView) -> CpuView {
        let x = operand_val(v, self.1);
        CpuView { reg: Register { f: spec_sbc_flags(v.reg.a, x, false), ..v.reg }, ..v }
    }

    pub fn call(self, cpu: &mut CPU) -> (r: usize)
        requires
            self.wf(),
        ensures
            final(cpu)@ == self.effect(old(cpu)@),
            r == operand_cycles(self.1),
    {
        let x = operand_fetch(cpu, self.1);
        let a = cpu.reg.a;
        let _ = cpu.reg.alu_sub(a, x);
        match self.1 {
            Param::Reg(_) => 1,
            _ => 2,
        }
    }
}

/// Increment: an 8-bit register, the byte HL points at (Zero, Subtract
/// and Half-carry recomputed, Carry untouched), or a 16-bit pair
/// (wrapping, no flags).
#[derive(Clone, Copy, Debug, PartialEq, Eq, Structural)]
pub struct INC(pub Param);

impl INC {
    pub open spec fn wf(self) -> bool {
        match self.0 {
            Param::Reg(r) => r.is_reg8() || r == Reg::BC || r == Reg::DE || r == Reg::HL || r
                == Reg::SP,
            Param::Addr(a) => a == Addr::HL,
            _ => false,
        }
    }

    pub open spec fn effect(self, v: CpuView) -> CpuView {
        match self.0 {
            Param::Reg(r) => if r.is_reg8() {
                let x = v.reg.spec_reg8(r);
                let f = Flags { z: (x + 1) % 256 == 0, n: false, h: x % 16 == 15, c: v.reg.f.c };
                CpuView {
                    reg: (Register { f, ..v.reg }).spec_with_reg8(r, (((x + 1) % 256) as u8)),
                    ..v
                }
            } else {
                let x = v.reg.spec_pair(r);
                CpuView { reg: v.reg.spec_with_pair(r, (((x + 1) % 65536) as u16)), ..v }
            },
            Param::Addr(_) => {
                let addr = v.addr_of(Addr::HL);
                let x = v.mmu.read_spec(addr);
                let f = Flags { z: (x + 1) % 256 == 0, n: false, h: x % 16 == 15, c: v.reg.f.c };
                CpuView {
                    reg: Register { f, ..v.reg },
                    mmu: v.mmu.write_spec(addr, (((x + 1) % 256) as u8)),
                    ..v
                }
            },
            _ => v,
        }
    }

    pub open spec fn cycles(self, v: CpuView) -> usize {
        match self.0 {
            Param::Reg(r) => if r.is_reg8() {
                1usize
            } else {
                2usize
            },
            Param::Addr(_) => 3usize,
            _ => 1usize,
        }
    }

    pub fn call(self, cpu: &mut CPU) -> (r: usize)
        requires
            self.wf(),
        ensures
            final(cpu)@ == self.effect(old(cpu)@),
            r == self.cycles(old(cpu)@),
    {
        match self.0 {
            Param::Reg(rr) => {
                if rr.is8() {
                    let x = cpu.reg.get_reg8(rr);
                    let value = cpu.reg.alu_inc(x);
                    cpu.reg.set_reg8(rr, value);
                    1
                } else {
                    let x = cpu.reg.get_pair(rr);
                    cpu.reg.set_pair(rr, ((x as u32 + 1) % 0x10000) as u16);
                    2
                }
            },
            Param::Addr(_) => {
                let addr = cpu.reg.get_hl();
                let x = cpu.mmu.read(addr);
                let value = cpu.reg.alu_inc(x);
                cpu.mmu.write(addr, value);
                3
            },
            _ => 1,
        }
    }
}

/// Decrement: an 8-bit register, the byte HL points at (Zero, Subtract
/// and Half-carry recomputed, Carry untouched), or a 16-bit pair
/// (wrapping, no flags).
#[derive(Clone, Copy, Debug, PartialEq, Eq, Structural)]
pub struct DEC(pub Param);

impl DEC {
    pub open spec fn wf(self) -> bool {
        match self.0 {
            Param::Reg(r) => r.is_reg8() || r == Reg::BC || r == Reg::DE || r == Reg::HL || r
                == Reg::SP,
            Param::Addr(a) => a == Addr::HL,
            _ => false,
        }
    }

    pub open spec fn effect(self, v: CpuView) -> CpuView {
        match self.0 {
            Param::Reg(r) => if r.is_reg8() {
                let x = v.reg.spec_reg8(r);
                let f = Flags { z: (x - 1) % 256 == 0, n: true, h: x % 16 == 0, c: v.reg.f.c };
                CpuView {
                    reg: (Register { f, ..v.reg }).spec_with_reg8(r, (((x - 1) % 256) as u8)),
                    ..v
                }
            } else {
                let x = v.reg.spec_pair(r);
                CpuView { reg: v.reg.spec_with_pair(r, (((x - 1) % 65536) as u16)), ..v }
            },
            Param::Addr(_) => {
                let addr = v.addr_of(Addr::HL);
                let x = v.mmu.read_spec(addr);
                let f = Flags { z: (x - 1) % 256 == 0, n: true, h: x % 16 == 0, c: v.reg.f.c };
                CpuView {
                    reg: Register { f, ..v.reg },
                    mmu: v.mmu.write_spec(addr, (((x - 1) % 256) as u8)),
                    ..v
                }
            },
            _ => v,
        }
    }

    pub open spec fn cycles(self, v: CpuView) -> usize {
        match self.0 {
            Param::Reg(r) => if r.is_reg8() {
                1usize
            } else {
                2usize
            },
            Param::Addr(_) => 3usize,
            _ => 1usize,
        }
    }

    pub fn call(self, cpu: &mut CPU) -> (r: usize)
        requires
            self.wf(),
        ensures
            final(cpu)@ == self.effect(old(cpu)@),
            r == self.cycles(old(cpu)@),
    {
        match self.0 {
            Param::Reg(rr) => {
                if rr.is8() {
                    let x = cpu.reg.get_reg8(rr);
                    let value = cpu.reg.alu_dec(x);
                    cpu.reg.set_reg8(rr, value);
                    1
                } else {
                    let x = cpu.reg.get_pair(rr);
                    cpu.reg.set_pair(rr, ((x as u32 + 0xFFFF) % 0x10000) as u16);
                    2
                }
            },
            Param::Addr(_) => {
                let addr = cpu.reg.get_hl();
                let x = cpu.mmu.read(addr);
                let value = cpu.reg.alu_dec(x);
                cpu.mmu.write(addr, value);
                3
            },
            _ => 1,
        }
    }
}

/// Decimal adjust: applies the standard BCD correction to the
/// accumulator after an addition or subtraction.
#[derive(Clone, Copy, Debug, PartialEq, Eq, Structural)]
pub struct DAA;

impl DAA {
    pub open spec fn effect(self, v: CpuView) -> CpuView {
        CpuView {
            reg: Register {
                a: spec_daa_val(v.reg.a, v.reg.f),
                f: spec_daa_flags(v.reg.a, v.reg.f),
                ..v.reg
            },
            ..v
        }
    }

    pub fn call(self, cpu: &mut CPU) -> (r: usize)
        ensures
            final(cpu)@ == self.effect(old(cpu)@),
            r == 1usize,
    {
        let a = cpu.reg.a;
        let value = cpu.reg.alu_daa(a);
        cpu.reg.a = value;
        1
    }
}

/// Complement the accumulator; Subtract and Half-carry set, Zero and
/// Carry untouched.
#[derive(Clone, Copy, Debug, PartialEq, Eq, Structural)]
pub struct CPL;

impl CPL {
    pub open spec fn effect(self, v: CpuView) -> CpuView {
        CpuView {
            reg: Register {
                a: (255 - v.reg.a) as u8,
                f: Flags { z: v.reg.f.z, n: true, h: true, c: v.reg.f.c },
                ..v.reg
            },
            ..v
        }
    }

    pub fn call(self, cpu: &mut CPU) -> (r: usize)
        ensures
            final(cpu)@ == self.effect(old(cpu)@),
            r == 1usize,
    {
        cpu.reg.a = 255 - cpu.reg.a;
        cpu.reg.f = Flags { z: cpu.reg.f.z, n: true, h: true, c: cpu.reg.f.c };
        1
    }
}

} // verus!
