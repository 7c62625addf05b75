//! Instruction decoding and execution.
//!
//! An `Instruction` is a decoded, self-contained value carrying an
//! operation kind and its resolved operands; it is constructed once per
//! fetch, executed exactly once against the register file and the bus,
//! and returns its cycle cost. Costs are counted in one canonical unit
//! throughout: machine cycles, one machine cycle being the standard
//! group of four elementary clock pulses. The scheduling loop consumes
//! that unit as-is and never re-scales it.
use crate::cpu::CpuError;
use crate::cpu::CpuView;
use crate::cpu::Flags;
use crate::cpu::Register;
use crate::cpu::CPU;
use vstd::arithmetic::div_mod::lemma_add_mod_noop_right;
use vstd::prelude::*;

pub mod alu;
pub mod control;
pub mod ld;
pub mod stack;

use self::alu::operand_cycles;
use self::alu::ADC;
use self::alu::ADD;
use self::alu::AND;
use self::alu::CP;
use self::alu::CPL;
use self::alu::DAA;
use self::alu::DEC;
use self::alu::INC;
use self::alu::OR;
use self::alu::SBC;
use self::alu::SUB;
use self::alu::XOR;
use self::control::CCF;
use self::control::DI;
use self::control::EI;
use self::control::HALT;
use self::control::JP;
use self::control::JR;
use self::control::NOP;
use self::control::RLA;
use self::control::RLCA;
use self::control::RRA;
use self::control::RRCA;
use self::control::SCF;
use self::control::STOP;
use self::ld::LD;
use self::stack::POP;
use self::stack::PUSH;

verus! {

/// A register name: one of the eight 8-bit registers or one of the
/// 16-bit pairs.
#[derive(Clone, Copy, Debug, PartialEq, Eq, Structural)]
pub enum Reg {
    A,
    B,
    C,
    D,
    E,
    H,
    L,
    BC,
    DE,
    HL,
    AF,
    SP,
}

impl Reg {
    /// Whether this names one of the eight 8-bit registers.
    pub open spec fn is_reg8(self) -> bool {
        match self {
            Reg::A | Reg::B | Reg::C | Reg::D | Reg::E | Reg::H | Reg::L => true,
            _ => false,
        }
    }

    /// Whether this names a 16-bit pair (or the stack pointer).
    pub open spec fn is_pair(self) -> bool {
        match self {
            Reg::BC | Reg::DE | Reg::HL | Reg::AF | Reg::SP => true,
            _ => false,
        }
    }

    /// Tests whether this names one of the eight 8-bit registers.
    pub fn is8(&self) -> (r: bool)
        ensures
            r == self.is_reg8(),
    {
        match self {
            Reg::A | Reg::B | Reg::C | Reg::D | Reg::E | Reg::H | Reg::L => true,
            _ => false,
        }
    }
}

/// A memory operand: an address resolved through a register pair
/// (optionally auto-incrementing or auto-decrementing HL after the
/// access), through the fast 0xFF00 page, or taken as an absolute
/// 16-bit literal.
#[derive(Clone, Copy, Debug, PartialEq, Eq, Structural)]
pub enum Addr {
    /// The address in HL.
    HL,
    /// The address in BC.
    BC,
    /// The address in DE.
    DE,
    /// 0xFF00 plus the C register.
    C,
    /// The address in HL, incrementing HL after the access.
    HLInc,
    /// The address in HL, decrementing HL after the access.
    HLDec,
    /// 0xFF00 plus an 8-bit immediate.
    High8(u8),
    /// An absolute 16-bit immediate address.
    Abs(u16),
}

/// A branch condition evaluated against the flag register: `Z` takes
/// the branch when the Zero flag is set, `NZ` when it is clear, and
/// `C`/`NC` likewise for the Carry flag. Which opcode byte carries
/// which condition is fixed by the instruction table alone.
#[derive(Clone, Copy, Debug, PartialEq, Eq, Structural)]
pub enum Cond {
    Z,
    NZ,
    C,
    NC,
}

/// Whether a branch condition holds under the given flags; an absent
/// condition always holds.
pub open spec fn spec_cond_met(c: Option<Cond>, f: Flags) -> bool {
    match c {
        Option::None => true,
        Option::Some(Cond::Z) => f.z,
        Option::Some(Cond::NZ) => !f.z,
        Option::Some(Cond::C) => f.c,
        Option::Some(Cond::NC) => !f.c,
    }
}

/// An instruction operand: a named register, a memory operand, an 8- or
/// 16-bit immediate, or the stack pointer plus a signed 8-bit
/// displacement.
#[derive(Clone, Copy, Debug, PartialEq, Eq, Structural)]
pub enum Param {
    Reg(Reg),
    Addr(Addr),
    Imm8(u8),
    Imm16(u16),
    /// The stack pointer plus a signed 8-bit displacement.
    SpImm8(u8),
}

impl Register {
    /// The value of an 8-bit register.
    pub open spec fn spec_reg8(self, r: Reg) -> u8 {
        match r {
            Reg::A => self.a,
            Reg::B => self.b,
            Reg::C => self.c,
            Reg::D => self.d,
            Reg::E => self.e,
            Reg::H => self.h,
            Reg::L => self.l,
            _ => 0,
        }
    }

    /// The register file with one 8-bit register replaced.
    pub open spec fn spec_with_reg8(self, r: Reg, v: u8) -> Register {
        match r {
            Reg::A => Register { a: v, ..self },
            Reg::B => Register { b: v, ..self },
            Reg::C => Register { c: v, ..self },
            Reg::D => Register { d: v, ..self },
            Reg::E => Register { e: v, ..self },
            Reg::H => Register { h: v, ..self },
            Reg::L => Register { l: v, ..self },
            _ => self,
        }
    }

    /// The value of a 16-bit pair, composed as `high * 256 + low`; AF
    /// reads the accumulator over the packed flag byte.
    pub open spec fn spec_pair(self, r: Reg) -> u16 {
        match r {
            Reg::BC => (self.b * 256 + self.c) as u16,
            Reg::DE => (self.d * 256 + self.e) as u16,
            Reg::HL => (self.h * 256 + self.l) as u16,
            Reg::AF => (self.a * 256 + self.f.spec_bits()) as u16,
            Reg::SP => self.sp,
            _ => 0,
        }
    }

    /// The register file with one 16-bit pair replaced, both halves
    /// written atomically; writing AF decodes the low byte's top nibble
    /// into the flags.
    pub open spec fn spec_with_pair(self, r: Reg, v: u16) -> Register {
        match r {
            Reg::BC => Register { b: (v / 256) as u8, c: (v % 256) as u8, ..self },
            Reg::DE => Register { d: (v / 256) as u8, e: (v % 256) as u8, ..self },
            Reg::HL => Register { h: (v / 256) as u8, l: (v % 256) as u8, ..self },
            Reg::AF => Register {
                a: (v / 256) as u8,
                f: Flags::spec_from_bits((v % 256) as u8),
                ..self
            },
            Reg::SP => Register { sp: v, ..self },
            _ => self,
        }
    }

    /// Reads an 8-bit register by name.
    pub fn get_reg8(&self, r: Reg) -> (v: u8)
        requires
            r.is_reg8(),
        ensures
            v == self.spec_reg8(r),
    {
        match r {
            Reg::A => self.a,
            Reg::B => self.b,
            Reg::C => self.c,
            Reg::D => self.d,
            Reg::E => self.e,
            Reg::H => self.h,
            Reg::L => self.l,
            _ => 0,
        }
    }

    /// Writes an 8-bit register by name.
    pub fn set_reg8(&mut self, r: Reg, v: u8)
        requires
            r.is_reg8(),
        ensures
            *final(self) == old(self).spec_with_reg8(r, v),
    {
        match r {
            Reg::A => self.a = v,
            Reg::B => self.b = v,
            Reg::C => self.c = v,
            Reg::D => self.d = v,
            Reg::E => self.e = v,
            Reg::H => self.h = v,
            Reg::L => self.l = v,
            _ => (),
        }
    }

    /// Reads a 16-bit pair by name.
    pub fn get_pair(&self, r: Reg) -> (v: u16)
        requires
            r.is_pair(),
        ensures
            v == self.spec_pair(r),
    {
        match r {
            Reg::BC => self.get_bc(),
            Reg::DE => self.get_de(),
            Reg::HL => self.get_hl(),
            Reg::AF => self.get_af(),
            Reg::SP => self.sp,
            _ => 0,
        }
    }

    /// Writes a 16-bit pair by name, both halves atomically.
    pub fn set_pair(&mut self, r: Reg, v: u16)
        requires
            r.is_pair(),
        ensures
            *final(self) == old(self).spec_with_pair(r, v),
    {
        match r {
            Reg::BC => self.set_bc(v),
            Reg::DE => self.set_de(v),
            Reg::HL => self.set_hl(v),
            Reg::AF => self.set_af(v),
            Reg::SP => self.sp = v,
            _ => (),
        }
    }
}

impl CpuView {
    /// The 16-bit address a memory operand resolves to.
    pub open spec fn addr_of(self, a: Addr) -> u16 {
        match a {
            Addr::HL => self.reg.spec_pair(Reg::HL),
            Addr::BC => self.reg.spec_pair(Reg::BC),
            Addr::DE => self.reg.spec_pair(Reg::DE),
            Addr::C => (0xFF00 + self.reg.c) as u16,
            Addr::HLInc => self.reg.spec_pair(Reg::HL),
            Addr::HLDec => self.reg.spec_pair(Reg::HL),
            Addr::High8(n) => (0xFF00 + n) as u16,
            Addr::Abs(n) => n,
        }
    }

    /// The state after a memory operand's side effect: the
    /// auto-incrementing and auto-decrementing forms adjust HL
    /// (wrapping) after the access; every other form leaves the state
    /// unchanged.
    pub open spec fn addr_side_effect(self, a: Addr) -> CpuView {
        match a {
            Addr::HLInc => CpuView {
                reg: self.reg.spec_with_pair(
                    Reg::HL,
                    (((self.reg.spec_pair(Reg::HL) + 1) % 0x10000) as u16),
                ),
                ..self
            },
            Addr::HLDec => CpuView {
                reg: self.reg.spec_with_pair(
                    Reg::HL,
                    (((self.reg.spec_pair(Reg::HL) - 1) % 0x10000) as u16),
                ),
                ..self
            },
            _ => self,
        }
    }
}

/// Reads the byte a memory operand names and applies the operand's HL
/// side effect.
pub(crate) fn read_addr(cpu: &mut CPU, a: Addr) -> (v: u8)
    ensures
        v == old(cpu)@.mmu.read_spec(old(cpu)@.addr_of(a)),
        final(cpu)@ == old(cpu)@.addr_side_effect(a),
{
    let addr = match a {
        Addr::HL => cpu.reg.get_hl(),
        Addr::BC => cpu.reg.get_bc(),
        Addr::DE => cpu.reg.get_de(),
        Addr::C => 0xFF00 + cpu.reg.c as u16,
        Addr::HLInc => cpu.reg.get_hl(),
        Addr::HLDec => cpu.reg.get_hl(),
        Addr::High8(n) => 0xFF00 + n as u16,
        Addr::Abs(n) => n,
    };
    let v = cpu.mmu.read(addr);
    match a {
        Addr::HLInc => {
            let hl = cpu.reg.get_hl();
            cpu.reg.set_hl(((hl as u32 + 1) % 0x10000) as u16);
        },
        Addr::HLDec => {
            let hl = cpu.reg.get_hl();
            cpu.reg.set_hl(((hl as u32 + 0xFFFF) % 0x10000) as u16);
        },
        _ => (),
    }
    v
}

/// Writes a byte to the address a memory operand names and applies the
/// operand's HL side effect.
#[verifier::rlimit(60)]
pub(crate) fn write_addr(cpu: &mut CPU, a: Addr, v: u8)
    ensures
        final(cpu)@ == (CpuView {
            mmu: old(cpu)@.mmu.write_spec(old(cpu)@.addr_of(a), v),
            ..old(cpu)@
        }).addr_side_effect(a),
{
    let addr = match a {
        Addr::HL => cpu.reg.get_hl(),
        Addr::BC => cpu.reg.get_bc(),
        Addr::DE => cpu.reg.get_de(),
        Addr::C => 0xFF00 + cpu.reg.c as u16,
        Addr::HLInc => cpu.reg.get_hl(),
        Addr::HLDec => cpu.reg.get_hl(),
        Addr::High8(n) => 0xFF00 + n as u16,
        Addr::Abs(n) => n,
    };
    cpu.mmu.write(addr, v);
    match a {
        Addr::HLInc => {
            let hl = cpu.reg.get_hl();
            cpu.reg.set_hl(((hl as u32 + 1) % 0x10000) as u16);
        },
        Addr::HLDec => {
            let hl = cpu.reg.get_hl();
            cpu.reg.set_hl(((hl as u32 + 0xFFFF) % 0x10000) as u16);
        },
        _ => (),
    }
}

/// A decoded instruction: an operation kind with its resolved operands.
/// Constructed once per fetch, executed exactly once.
#[derive(Clone, Copy, Debug, PartialEq, Eq, Structural)]
pub enum Instruction {
    NOP(NOP),
    LD(LD),
    PUSH(PUSH),
    POP(POP),
    ADD(ADD),
    ADC(ADC),
    SUB(SUB),
    SBC(SBC),
    AND(AND),
    OR(OR),
    XOR(XOR),
    CP(CP),
    INC(INC),
    DEC(DEC),
    DAA(DAA),
    CPL(CPL),
    CCF(CCF),
    SCF(SCF),
    HALT(HALT),
    DI(DI),
    EI(EI),
    RLCA(RLCA),
    RLA(RLA),
    RRCA(RRCA),
    RRA(RRA),
    JP(JP),
    JR(JR),
    STOP(STOP),
}

impl Instruction {
    /// Whether the operand combination is one the instruction set
    /// defines; the decoder only produces well-formed instructions.
    pub open spec fn wf(self) -> bool {
        match self {
            Instruction::LD(i) => i.wf(),
            Instruction::PUSH(i) => i.wf(),
            Instruction::POP(i) => i.wf(),
            Instruction::ADD(i) => i.wf(),
            Instruction::ADC(i) => i.wf(),
            Instruction::SUB(i) => i.wf(),
            Instruction::SBC(i) => i.wf(),
            Instruction::AND(i) => i.wf(),
            Instruction::OR(i) => i.wf(),
            Instruction::XOR(i) => i.wf(),
            Instruction::CP(i) => i.wf(),
            Instruction::INC(i) => i.wf(),
            Instruction::DEC(i) => i.wf(),
            _ => true,
        }
    }

    /// The machine state after executing this instruction (the cycle
    /// counter of the scheduling loop aside).
    pub open spec fn effect(self, v: CpuView) -> CpuView {
        match self {
            Instruction::NOP(_) => v,
            Instruction::LD(i) => i.effect(v),
            Instruction::PUSH(i) => i.effect(v),
            Instruction::POP(i) => i.effect(v),
            Instruction::ADD(i) => i.effect(v),
            Instruction::ADC(i) => i.effect(v),
            Instruction::SUB(i) => i.effect(v),
            Instruction::SBC(i) => i.effect(v),
            Instruction::AND(i) => i.effect(v),
            Instruction::OR(i) => i.effect(v),
            Instruction::XOR(i) => i.effect(v),
            Instruction::CP(i) => i.effect(v),
            Instruction::INC(i) => i.effect(v),
            Instruction::DEC(i) => i.effect(v),
            Instruction::DAA(i) => i.effect(v),
            Instruction::CPL(i) => i.effect(v),
            Instruction::CCF(i) => i.effect(v),
            Instruction::SCF(i) => i.effect(v),
            Instruction::HALT(i) => i.effect(v),
            Instruction::DI(i) => i.effect(v),
            Instruction::EI(i) => i.effect(v),
            Instruction::RLCA(i) => i.effect(v),
            Instruction::RLA(i) => i.effect(v),
            Instruction::RRCA(i) => i.effect(v),
            Instruction::RRA(i) => i.effect(v),
            Instruction::JP(i) => i.effect(v),
            Instruction::JR(i) => i.effect(v),
            Instruction::STOP(_) => v,
        }
    }

    /// The instruction's cycle cost, in machine cycles; conditional
    /// jumps cost more on the taken path.
    pub open spec fn cycles(self, v: CpuView) -> usize {
        match self {
            Instruction::LD(i) => i.cycles(v),
            Instruction::PUSH(_) => 5usize,
            Instruction::POP(_) => 5usize,
            Instruction::ADD(i) => i.cycles(v),
            Instruction::ADC(i) => operand_cycles(i.1),
            Instruction::SUB(i) => operand_cycles(i.1),
            Instruction::SBC(i) => operand_cycles(i.1),
            Instruction::AND(i) => operand_cycles(i.1),
            Instruction::OR(i) => operand_cycles(i.1),
            Instruction::XOR(i) => operand_cycles(i.1),
            Instruction::CP(i) => operand_cycles(i.1),
            Instruction::INC(i) => i.cycles(v),
            Instruction::DEC(i) => i.cycles(v),
            Instruction::JP(i) => i.cycles(v),
            Instruction::JR(i) => i.cycles(v),
            _ => 1usize,
        }
    }

    /// Executes the instruction against the register file and the bus
    /// and returns its cost in machine cycles (always at least one).
    pub fn call(self, cpu: &mut CPU) -> (r: usize)
        requires
            self.wf(),
        ensures
            final(cpu)@ == self.effect(old(cpu)@),
            r == self.cycles(old(cpu)@),
            1 <= r,
    {
        match self {
            Instruction::NOP(i) => i.call(cpu),
            Instruction::LD(i) => i.call(cpu),
            Instruction::PUSH(i) => i.call(cpu),
            Instruction::POP(i) => i.call(cpu),
            Instruction::ADD(i) => i.call(cpu),
            Instruction::ADC(i) => i.call(cpu),
            Instruction::SUB(i) => i.call(cpu),
            Instruction::SBC(i) => i.call(cpu),
            Instruction::AND(i) => i.call(cpu),
            Instruction::OR(i) => i.call(cpu),
            Instruction::XOR(i) => i.call(cpu),
            Instruction::CP(i) => i.call(cpu),
            Instruction::INC(i) => i.call(cpu),
            Instruction::DEC(i) => i.call(cpu),
            Instruction::DAA(i) => i.call(cpu),
            Instruction::CPL(i) => i.call(cpu),
            Instruction::CCF(i) => i.call(cpu),
            Instruction::SCF(i) => i.call(cpu),
            Instruction::HALT(i) => i.call(cpu),
            Instruction::DI(i) => i.call(cpu),
            Instruction::EI(i) => i.call(cpu),
            Instruction::RLCA(i) => i.call(cpu),
            Instruction::RLA(i) => i.call(cpu),
            Instruction::RRCA(i) => i.call(cpu),
            Instruction::RRA(i) => i.call(cpu),
            Instruction::JP(i) => i.call(cpu),
            Instruction::JR(i) => i.call(cpu),
            Instruction::STOP(i) => i.call(cpu),
        }
    }
}

/// The operand an index in the regular opcode blocks selects: B, C, D,
/// E, H, L, the byte HL points at, A.
pub open spec fn spec_code_param(i: int) -> Param {
    if i == 0 {
        Param::Reg(Reg::B)
    } else if i == 1 {
        Param::Reg(Reg::C)
    } else if i == 2 {
        Param::Reg(Reg::D)
    } else if i == 3 {
        Param::Reg(Reg::E)
    } else if i == 4 {
        Param::Reg(Reg::H)
    } else if i == 5 {
        Param::Reg(Reg::L)
    } else if i == 6 {
        Param::Addr(Addr::HL)
    } else {
        Param::Reg(Reg::A)
    }
}

fn code_param(i: u8) -> (p: Param)
    requires
        i < 8,
    ensures
        p == spec_code_param(i as int),
{
    match i {
        0 => Param::Reg(Reg::B),
        1 => Param::Reg(Reg::C),
        2 => Param::Reg(Reg::D),
        3 => Param::Reg(Reg::E),
        4 => Param::Reg(Reg::H),
        5 => Param::Reg(Reg::L),
        6 => Param::Addr(Addr::HL),
        _ => Param::Reg(Reg::A),
    }
}

/// The accumulator-form ALU instruction an index in the regular opcode
/// blocks selects: add, add-with-carry, subtract, subtract-with-borrow,
/// and, xor, or, compare.
pub open spec fn spec_alu_op(k: int, s: Param) -> Instruction {
    if k == 0 {
        Instruction::ADD(ADD(Param::Reg(Reg::A), s))
    } else if k == 1 {
        Instruction::ADC(ADC(Param::Reg(Reg::A), s))
    } else if k == 2 {
        Instruction::SUB(SUB(Param::Reg(Reg::A), s))
    } else if k == 3 {
        Instruction::SBC(SBC(Param::Reg(Reg::A), s))
    } else if k == 4 {
        Instruction::AND(AND(Param::Reg(Reg::A), s))
    } else if k == 5 {
        Instruction::XOR(XOR(Param::Reg(Reg::A), s))
    } else if k == 6 {
        Instruction::OR(OR(Param::Reg(Reg::A), s))
    } else {
        Instruction::CP(CP(Param::Reg(Reg::A), s))
    }
}

fn alu_op(k: u8, s: Param) -> (r: Instruction)
    requires
        k < 8,
    ensures
        r == spec_alu_op(k as int, s),
{
    match k {
        0 => Instruction::ADD(ADD(Param::Reg(Reg::A), s)),
        1 => Instruction::ADC(ADC(Param::Reg(Reg::A), s)),
        2 => Instruction::SUB(SUB(Param::Reg(Reg::A), s)),
        3 => Instruction::SBC(SBC(Param::Reg(Reg::A), s)),
        4 => Instruction::AND(AND(Param::Reg(Reg::A), s)),
        5 => Instruction::XOR(XOR(Param::Reg(Reg::A), s)),
        6 => Instruction::OR(OR(Param::Reg(Reg::A), s)),
        _ => Instruction::CP(CP(Param::Reg(Reg::A), s)),
    }
}

/// How many immediate operand bytes follow an opcode in the
/// instruction stream.
pub open spec fn imm_len(op: u8) -> int {
    if op < 0x40 && op % 8 == 6 {
        1
    } else if 0x40 <= op < 0xC0 {
        0
    } else if op >= 0xC0 && op % 8 == 6 {
        1
    } else if op == 0xE8 || op == 0x18 || op == 0x20 || op == 0x28 || op == 0x30 || op == 0x38 {
        1
    } else if op == 0xC3 || op == 0xC2 || op == 0xCA || op == 0xD2 || op == 0xDA {
        2
    } else {
        0
    }
}

/// The instruction table: maps an opcode byte (with the immediate bytes
/// that follow it in the stream) to a decoded instruction, or to
/// nothing when the table has no entry for the byte.
pub open spec fn decode_spec(op: u8, n8: u8, n16: u16) -> Option<Instruction> {
    if op == 0x76 {
        Option::Some(Instruction::HALT(HALT))
    } else if 0x40 <= op < 0x80 {
        Option::Some(
            Instruction::LD(LD(spec_code_param((op - 0x40) / 8), spec_code_param((op % 8) as int))),
        )
    } else if 0x80 <= op < 0xC0 {
        Option::Some(spec_alu_op((op - 0x80) / 8, spec_code_param((op % 8) as int)))
    } else if op < 0x40 && op % 8 == 6 {
        Option::Some(Instruction::LD(LD(spec_code_param((op / 8) as int), Param::Imm8(n8))))
    } else if op < 0x40 && op % 8 == 4 {
        Option::Some(Instruction::INC(INC(spec_code_param((op / 8) as int))))
    } else if op < 0x40 && op % 8 == 5 {
        Option::Some(Instruction::DEC(DEC(spec_code_param((op / 8) as int))))
    } else if op >= 0xC0 && op % 8 == 6 {
        Option::Some(spec_alu_op((op - 0xC0) / 8, Param::Imm8(n8)))
    } else {
        match op {
            0x00u8 => Option::Some(Instruction::NOP(NOP)),
            0x02u8 => Option::Some(
                Instruction::LD(LD(Param::Addr(Addr::BC), Param::Reg(Reg::A))),
            ),
            0x12u8 => Option::Some(
                Instruction::LD(LD(Param::Addr(Addr::DE), Param::Reg(Reg::A))),
            ),
            0x0Au8 => Option::Some(
                Instruction::LD(LD(Param::Reg(Reg::A), Param::Addr(Addr::BC))),
            ),
            0x1Au8 => Option::Some(
                Instruction::LD(LD(Param::Reg(Reg::A), Param::Addr(Addr::DE))),
            ),
            0x22u8 => Option::Some(
                Instruction::LD(LD(Param::Addr(Addr::HLInc), Param::Reg(Reg::A))),
            ),
            0xE2u8 => Option::Some(Instruction::LD(LD(Param::Addr(Addr::C), Param::Reg(Reg::A)))),
            0xF2u8 => Option::Some(Instruction::LD(LD(Param::Reg(Reg::A), Param::Addr(Addr::C)))),
            0xC5u8 => Option::Some(Instruction::PUSH(PUSH(Reg::BC))),
            0xD5u8 => Option::Some(Instruction::PUSH(PUSH(Reg::DE))),
            0xE5u8 => Option::Some(Instruction::PUSH(PUSH(Reg::HL))),
            0xF5u8 => Option::Some(Instruction::PUSH(PUSH(Reg::AF))),
            0xC1u8 => Option::Some(Instruction::POP(POP(Reg::BC))),
            0xD1u8 => Option::Some(Instruction::POP(POP(Reg::DE))),
            0xE1u8 => Option::Some(Instruction::POP(POP(Reg::HL))),
            0xF1u8 => Option::Some(Instruction::POP(POP(Reg::AF))),
            0x09u8 => Option::Some(
                Instruction::ADD(ADD(Param::Reg(Reg::HL), Param::Reg(Reg::BC))),
            ),
            0x19u8 => Option::Some(
                Instruction::ADD(ADD(Param::Reg(Reg::HL), Param::Reg(Reg::DE))),
            ),
            0x29u8 => Option::Some(
                Instruction::ADD(ADD(Param::Reg(Reg::HL), Param::Reg(Reg::HL))),
            ),
            0x39u8 => Option::Some(
                Instruction::ADD(ADD(Param::Reg(Reg::HL), Param::Reg(Reg::SP))),
            ),
            0xE8u8 => Option::Some(
                Instruction::ADD(ADD(Param::Reg(Reg::SP), Param::Imm8(n8))),
            ),
            0x03u8 => Option::Some(Instruction::INC(INC(Param::Reg(Reg::BC)))),
            0x13u8 => Option::Some(Instruction::INC(INC(Param::Reg(Reg::DE)))),
            0x23u8 => Option::Some(Instruction::INC(INC(Param::Reg(Reg::HL)))),
            0x33u8 => Option::Some(Instruction::INC(INC(Param::Reg(Reg::SP)))),
            0x0Bu8 => Option::Some(Instruction::DEC(DEC(Param::Reg(Reg::BC)))),
            0x1Bu8 => Option::Some(Instruction::DEC(DEC(Param::Reg(Reg::DE)))),
            0x2Bu8 => Option::Some(Instruction::DEC(DEC(Param::Reg(Reg::HL)))),
            0x3Bu8 => Option::Some(Instruction::DEC(DEC(Param::Reg(Reg::SP)))),
            0x27u8 => Option::Some(Instruction::DAA(DAA)),
            0x2Fu8 => Option::Some(Instruction::CPL(CPL)),
            0x3Fu8 => Option::Some(Instruction::CCF(CCF)),
            0x37u8 => Option::Some(Instruction::SCF(SCF)),
            0xF3u8 => Option::Some(Instruction::DI(DI)),
            0xFBu8 => Option::Some(Instruction::EI(EI)),
            0x07u8 => Option::Some(Instruction::RLCA(RLCA)),
            0x17u8 => Option::Some(Instruction::RLA(RLA)),
            0x0Fu8 => Option::Some(Instruction::RRCA(RRCA)),
            0x1Fu8 => Option::Some(Instruction::RRA(RRA)),
            0xC3u8 => Option::Some(Instruction::JP(JP(Option::None, n16))),
            0xC2u8 => Option::Some(Instruction::JP(JP(Option::Some(Cond::Z), n16))),
            0xCAu8 => Option::Some(Instruction::JP(JP(Option::Some(Cond::NZ), n16))),
            0xD2u8 => Option::Some(Instruction::JP(JP(Option::Some(Cond::C), n16))),
            0xDAu8 => Option::Some(Instruction::JP(JP(Option::Some(Cond::NC), n16))),
            0x18u8 => Option::Some(Instruction::JR(JR(Option::None, n8))),
            0x20u8 => Option::Some(Instruction::JR(JR(Option::Some(Cond::Z), n8))),
            0x28u8 => Option::Some(Instruction::JR(JR(Option::Some(Cond::NZ), n8))),
            0x30u8 => Option::Some(Instruction::JR(JR(Option::Some(Cond::C), n8))),
            0x38u8 => Option::Some(Instruction::JR(JR(Option::Some(Cond::NC), n8))),
            _ => Option::None,
        }
    }
}

impl Instruction {
    /// Fetches and decodes the next instruction: reads the opcode byte
    /// at the program counter and exactly the immediate bytes its table
    /// entry calls for, advancing the counter past all consumed bytes
    /// (wrapping). An opcode byte with no table entry yields the fatal
    /// unknown-opcode error, with the counter advanced past the byte.
    #[verifier::rlimit(100)]
    pub fn fetch(cpu: &mut CPU) -> (r: Result<Instruction, CpuError>)
        ensures
            ({
                let v = old(cpu)@;
                let op = v.mmu.read_spec(v.reg.pc);
                let n8 = v.mmu.read_spec((((v.reg.pc + 1) % 0x10000) as u16));
                let n16 = (n8 + 256 * v.mmu.read_spec((((v.reg.pc + 2) % 0x10000) as u16))) as u16;
                match decode_spec(op, n8, n16) {
                    Option::Some(i) => r == Ok::<Instruction, CpuError>(i) && i.wf() && final(cpu)@
                        == (CpuView {
                        reg: Register {
                            pc: (((v.reg.pc + 1 + imm_len(op)) % 0x10000) as u16),
                            ..v.reg
                        },
                        ..v
                    }),
                    Option::None => r == Err::<Instruction, CpuError>(CpuError::UnknownOpcode(op))
                        && final(cpu)@ == (CpuView {
                        reg: Register { pc: (((v.reg.pc + 1) % 0x10000) as u16), ..v.reg },
                        ..v
                    }),
                }
            }),
    {
        proof {
            let p = old(cpu)@.reg.pc as int;
            lemma_add_mod_noop_right(1, p + 1, 0x10000);
            lemma_add_mod_noop_right(2, p + 1, 0x10000);
        }
        let op = cpu.fetch();
        if op == 0x76 {
            return Ok(Instruction::HALT(HALT));
        }
        if 0x40 <= op && op < 0x80 {
            let d = code_param((op - 0x40) / 8);
            let s = code_param(op % 8);
            return Ok(Instruction::LD(LD(d, s)));
        }
        if 0x80 <= op && op < 0xC0 {
            let s = code_param(op % 8);
            return Ok(alu_op((op - 0x80) / 8, s));
        }
        if op < 0x40 && op % 8 == 6 {
            let n = cpu.fetch();
            return Ok(Instruction::LD(LD(code_param(op / 8), Param::Imm8(n))));
        }
        if op < 0x40 && op % 8 == 4 {
            return Ok(Instruction::INC(INC(code_param(op / 8))));
        }
        if op < 0x40 && op % 8 == 5 {
            return Ok(Instruction::DEC(DEC(code_param(op / 8))));
        }
        if op >= 0xC0 && op % 8 == 6 {
            let n = cpu.fetch();
            return Ok(alu_op((op - 0xC0) / 8, Param::Imm8(n)));
        }
        match op {
            0x00 => Ok(Instruction::NOP(NOP)),
            0x02 => Ok(Instruction::LD(LD(Param::Addr(Addr::BC), Param::Reg(Reg::A)))),
            0x12 => Ok(Instruction::LD(LD(Param::Addr(Addr::DE), Param::Reg(Reg::A)))),
            0x0A => Ok(Instruction::LD(LD(Param::Reg(Reg::A), Param::Addr(Addr::BC)))),
            0x1A => Ok(Instruction::LD(LD(Param::Reg(Reg::A), Param::Addr(Addr::DE)))),
            0x22 => Ok(Instruction::LD(LD(Param::Addr(Addr::HLInc), Param::Reg(Reg::A)))),
            0xE2 => Ok(Instruction::LD(LD(Param::Addr(Addr::C), Param::Reg(Reg::A)))),
            0xF2 => Ok(Instruction::LD(LD(Param::Reg(Reg::A), Param::Addr(Addr::C)))),
            0xC5 => Ok(Instruction::PUSH(PUSH(Reg::BC))),
            0xD5 => Ok(Instruction::PUSH(PUSH(Reg::DE))),
            0xE5 => Ok(Instruction::PUSH(PUSH(Reg::HL))),
            0xF5 => Ok(Instruction::PUSH(PUSH(Reg::AF))),
            0xC1 => Ok(Instruction::POP(POP(Reg::BC))),
            0xD1 => Ok(Instruction::POP(POP(Reg::DE))),
            0xE1 => Ok(Instruction::POP(POP(Reg::HL))),
            0xF1 => Ok(Instruction::POP(POP(Reg::AF))),
            0x09 => Ok(Instruction::ADD(ADD(Param::Reg(Reg::HL), Param::Reg(Reg::BC)))),
            0x19 => Ok(Instruction::ADD(ADD(Param::Reg(Reg::HL), Param::Reg(Reg::DE)))),
            0x29 => Ok(Instruction::ADD(ADD(Param::Reg(Reg::HL), Param::Reg(Reg::HL)))),
            0x39 => Ok(Instruction::ADD(ADD(Param::Reg(Reg::HL), Param::Reg(Reg::SP)))),
            0xE8 => {
                let n = cpu.fetch();
                Ok(Instruction::ADD(ADD(Param::Reg(Reg::SP), Param::Imm8(n))))
            },
            0x03 => Ok(Instruction::INC(INC(Param::Reg(Reg::BC)))),
            0x13 => Ok(Instruction::INC(INC(Param::Reg(Reg::DE)))),
            0x23 => Ok(Instruction::INC(INC(Param::Reg(Reg::HL)))),
            0x33 => Ok(Instruction::INC(INC(Param::Reg(Reg::SP)))),
            0x0B => Ok(Instruction::DEC(DEC(Param::Reg(Reg::BC)))),
            0x1B => Ok(Instruction::DEC(DEC(Param::Reg(Reg::DE)))),
            0x2B => Ok(Instruction::DEC(DEC(Param::Reg(Reg::HL)))),
            0x3B => Ok(Instruction::DEC(DEC(Param::Reg(Reg::SP)))),
            0x27 => Ok(Instruction::DAA(DAA)),
            0x2F => Ok(Instruction::CPL(CPL)),
            0x3F => Ok(Instruction::CCF(CCF)),
            0x37 => Ok(Instruction::SCF(SCF)),
            0xF3 => Ok(Instruction::DI(DI)),
            0xFB => Ok(Instruction::EI(EI)),
            0x07 => Ok(Instruction::RLCA(RLCA)),
            0x17 => Ok(Instruction::RLA(RLA)),
            0x0F => Ok(Instruction::RRCA(RRCA)),
            0x1F => Ok(Instruction::RRA(RRA)),
            0xC3 => {
                let w = cpu.fetch_word();
                Ok(Instruction::JP(JP(None, w)))
            },
            0xC2 => {
                let w = cpu.fetch_word();
                Ok(Instruction::JP(JP(Some(Cond::Z), w)))
            },
            0xCA => {
                let w = cpu.fetch_word();
                Ok(Instruction::JP(JP(Some(Cond::NZ), w)))
            },
            0xD2 => {
                let w = cpu.fetch_word();
                Ok(Instruction::JP(JP(Some(Cond::C), w)))
            },
            0xDA => {
                let w = cpu.fetch_word();
                Ok(Instruction::JP(JP(Some(Cond::NC), w)))
            },
            0x18 => {
                let n = cpu.fetch();
                Ok(Instruction::JR(JR(None, n)))
            },
            0x20 => {
                let n = cpu.fetch();
                Ok(Instruction::JR(JR(Some(Cond::Z), n)))
            },
            0x28 => {
                let n = cpu.fetch();
                Ok(Instruction::JR(JR(Some(Cond::NZ), n)))
            },
            0x30 => {
                let n = cpu.fetch();
                Ok(Instruction::JR(JR(Some(Cond::C), n)))
            },
            0x38 => {
                let n = cpu.fetch();
                Ok(Instruction::JR(JR(Some(Cond::NC), n)))
            },
            _ => Err(CpuError::UnknownOpcode(op)),
        }
    }
}

impl CPU {
    /// One step of the two-state scheduling machine, driven once per
    /// machine cycle. Executing (counter above zero): the counter is
    /// decremented and nothing else happens. Idle (counter zero): the
    /// next instruction is fetched, decoded and executed, and the
    /// counter is set to its cycle cost minus one - the cycle that
    /// performed the fetch counts as the first. A fetched opcode byte
    /// without a table entry is a fatal error, reported and never
    /// silently skipped.
    #[verifier::rlimit(100)]
    pub fn tick(&mut self) -> (r: Result<(), CpuError>)
        ensures
            ({
                let v = old(self)@;
                if v.remain_ticks > 0 {
                    r == Ok::<(), CpuError>(()) && final(self)@ == (CpuView {
                        remain_ticks: (v.remain_ticks - 1) as usize,
                        ..v
                    })
                } else {
                    let op = v.mmu.read_spec(v.reg.pc);
                    let n8 = v.mmu.read_spec((((v.reg.pc + 1) % 0x10000) as u16));
                    let n16 = (n8 + 256 * v.mmu.read_spec(
                        (((v.reg.pc + 2) % 0x10000) as u16),
                    )) as u16;
                    match decode_spec(op, n8, n16) {
                        Option::Some(i) => {
                            let fetched = CpuView {
                                reg: Register {
                                    pc: (((v.reg.pc + 1 + imm_len(op)) % 0x10000) as u16),
                                    ..v.reg
                                },
                                ..v
                            };
                            r == Ok::<(), CpuError>(()) && final(self)@ == (CpuView {
                                remain_ticks: ((i.cycles(fetched) - 1) as usize),
                                ..i.effect(fetched)
                            })
                        },
                        Option::None => r == Err::<(), CpuError>(CpuError::UnknownOpcode(op))
                            && final(self)@ == (CpuView {
                            reg: Register { pc: (((v.reg.pc + 1) % 0x10000) as u16), ..v.reg },
                            ..v
                        }),
                    }
                }
            }),
    {
        if self.remain_ticks > 0 {
            self.remain_ticks = self.remain_ticks - 1;
            return Ok(());
        }
        match Instruction::fetch(self) {
            Err(e) => Err(e),
            Ok(i) => {
                let cost = i.call(self);
                self.remain_ticks = cost - 1;
                Ok(())
            },
        }
    }
}

} // verus!


