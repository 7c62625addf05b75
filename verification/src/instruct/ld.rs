//! Loads: register-to-register moves, immediate loads, memory loads and
//! stores through every addressing mode, the 16-bit pair loads, and the
//! stack-pointer forms.
use crate::cpu::spec_add_signed_val;
use crate::cpu::spec_add_sp_flags;
use crate::cpu::CpuView;
use crate::cpu::Register;
use crate::cpu::CPU;
use crate::instruct::read_addr;
use crate::instruct::write_addr;
use crate::instruct::Addr;
use crate::instruct::Param;
use crate::instruct::Reg;
use vstd::prelude::*;

verus! {

/// Load: copies the source operand's value to the destination operand.
/// The 8-bit forms move bytes between registers, immediates and memory;
/// the 16-bit forms load a pair from an immediate, copy HL to the stack
/// pointer, store the stack pointer to memory, or load HL with the
/// stack pointer plus a signed displacement (the only flag-affecting
/// load).
#[derive(Clone, Copy, Debug, PartialEq, Eq, Structural)]
pub struct LD(pub Param, pub Param);

impl LD {
    /// The destination/source pairs the instruction set defines.
    pub open spec fn wf(self) -> bool {
        match (self.0, self.1) {
            (Param::Reg(d), Param::Reg(s)) => (d.is_reg8() && s.is_reg8()) || (d == Reg::SP && s
                == Reg::HL),
            (Param::Reg(d), Param::Imm8(_)) => d.is_reg8(),
            (Param::Reg(d), Param::Addr(a)) => d.is_reg8() && (a == Addr::HL || d == Reg::A),
            (Param::Addr(a), Param::Reg(s)) => (a == Addr::HL && s.is_reg8()) || s == Reg::A || (s
                == Reg::SP && a matches Addr::Abs(_)),
            (Param::Addr(a), Param::Imm8(_)) => a == Addr::HL,
            (Param::Reg(d), Param::Imm16(_)) => d == Reg::BC || d == Reg::DE || d == Reg::HL || d
                == Reg::SP,
            (Param::Reg(d), Param::SpImm8(_)) => d == Reg::HL,
            _ => false,
        }
    }

    pub open spec fn effect(self, v: CpuView) -> CpuView {
        match (self.0, self.1) {
            (Param::Reg(Reg::SP), Param::Reg(Reg::HL)) => CpuView {
                reg: Register { sp: v.reg.spec_pair(Reg::HL), ..v.reg },
                ..v
            },
            (Param::Reg(d), Param::Reg(s)) => CpuView {
                reg: v.reg.spec_with_reg8(d, v.reg.spec_reg8(s)),
                ..v
            },
            (Param::Reg(d), Param::Imm8(n)) => CpuView { reg: v.reg.spec_with_reg8(d, n), ..v },
            (Param::Reg(d), Param::Addr(a)) => {
                let x = v.mmu.read_spec(v.addr_of(a));
                let side = v.addr_side_effect(a);
                CpuView { reg: side.reg.spec_with_reg8(d, x), ..side }
            },
            (Param::Addr(a), Param::Reg(Reg::SP)) => CpuView {
                mmu: v.mmu.write_word_spec(v.addr_of(a), v.reg.sp),
                ..v
            },
            (Param::Addr(a), Param::Reg(s)) => (CpuView {
                mmu: v.mmu.write_spec(v.addr_of(a), v.reg.spec_reg8(s)),
                ..v
            }).addr_side_effect(a),
            (Param::Addr(a), Param::Imm8(n)) => (CpuView {
                mmu: v.mmu.write_spec(v.addr_of(a), n),
                ..v
            }).addr_side_effect(a),
            (Param::Reg(d), Param::Imm16(n)) => CpuView { reg: v.reg.spec_with_pair(d, n), ..v },
            (Param::Reg(_), Param::SpImm8(n)) => CpuView {
                reg: (Register { f: spec_add_sp_flags(v.reg.sp, n), ..v.reg }).spec_with_pair(
                    Reg::HL,
                    spec_add_signed_val(v.reg.sp, n),
                ),
                ..v
            },
            _ => v,
        }
    }

    pub open spec fn cycles(self, v: CpuView) -> usize {
        match (self.0, self.1) {
            (Param::Reg(Reg::SP), Param::Reg(Reg::HL)) => 2usize,
            (Param::Reg(_), Param::Reg(_)) => 1usize,
            (Param::Reg(_), Param::Imm8(_)) => 2usize,
            (Param::Reg(_), Param::Addr(a)) => match a {
                Addr::High8(_) => 3usize,
                Addr::Abs(_) => 4usize,
                _ => 2usize,
            },
            (Param::Addr(_), Param::Reg(Reg::SP)) => 5usize,
            (Param::Addr(a), Param::Reg(_)) => match a {
                Addr::High8(_) => 3usize,
                Addr::Abs(_) => 4usize,
                _ => 2usize,
            },
            (Param::Addr(_), Param::Imm8(_)) => 2usize,
            (Param::Reg(_), Param::Imm16(_)) => 3usize,
            (Param::Reg(_), Param::SpImm8(_)) => 3usize,
            _ => 1usize,
        }
    }

    #[verifier::rlimit(60)]
    pub fn call(self, cpu: &mut CPU) -> (r: usize)
        requires
            self.wf(),
        ensures
            final(cpu)@ == self.effect(old(cpu)@),
            r == self.cycles(old(cpu)@),
    {
        match (self.0, self.1) {
            (Param::Reg(Reg::SP), Param::Reg(Reg::HL)) => {
                cpu.reg.sp = cpu.reg.get_hl();
                2
            },
            (Param::Reg(d), Param::Reg(s)) => {
                let x = cpu.reg.get_reg8(s);
                cpu.reg.set_reg8(d, x);
                1
            },
            (Param::Reg(d), Param::Imm8(n)) => {
                cpu.reg.set_reg8(d, n);
                2
            },
            (Param::Reg(d), Param::Addr(a)) => {
                let x = read_addr(cpu, a);
                cpu.reg.set_reg8(d, x);
                match a {
                    Addr::High8(_) => 3,
                    Addr::Abs(_) => 4,
                    _ => 2,
                }
            },
            (Param::Addr(a), Param::Reg(Reg::SP)) => {
                let addr = match a {
                    Addr::Abs(n) => n,
                    _ => 0,
                };
                cpu.mmu.write_word(addr, cpu.reg.sp);
                5
            },
            (Param::Addr(a), Param::Reg(s)) => {
                let x = cpu.reg.get_reg8(s);
                write_addr(cpu, a, x);
                match a {
                    Addr::High8(_) => 3,
                    Addr::Abs(_) => 4,
                    _ => 2,
                }
            },
            (Param::Addr(a), Param::Imm8(n)) => {
                write_addr(cpu, a, n);
                2
            },
            (Param::Reg(d), Param::Imm16(n)) => {
                cpu.reg.set_pair(d, n);
                3
            },
            (Param::Reg(_), Param::SpImm8(n)) => {
                let x = cpu.reg.alu_add_sp_i8(n);
                cpu.reg.set_hl(x);
                3
            },
            _ => 1,
        }
    }
}

} // verus!
