//! CPU register file and ALU.
//!
//! The flag register is modelled as four booleans (Zero, Subtract,
//! Half-carry, Carry); the low nibble of the packed flag byte is always
//! zero. Every ALU primitive recomputes the flags it touches as a pure
//! function of its operands (and, for the carry-aware variants, the prior
//! Carry flag), so no operation leaves stale flag bits behind.
use crate::mmu::MMU;
use crate::mmu::MmuView;
use vstd::arithmetic::div_mod::lemma_fundamental_div_mod;
use vstd::arithmetic::div_mod::lemma_mod_add_multiples_vanish;
use vstd::arithmetic::div_mod::lemma_small_mod;
use vstd::prelude::*;

verus! {

/// The CPU flag register: only the top nibble of the packed byte is
/// meaningful (Zero, Subtract, Half-carry, Carry); the bottom nibble
/// always reads back as zero.
#[derive(Clone, Copy, Debug, PartialEq, Eq, Structural)]
pub struct Flags {
    /// Zero flag (bit 7 of the packed byte).
    pub z: bool,
    /// Subtract flag (bit 6).
    pub n: bool,
    /// Half-carry flag (bit 5).
    pub h: bool,
    /// Carry flag (bit 4).
    pub c: bool,
}

impl Flags {
    /// The flag register with every flag clear.
    pub open spec fn spec_empty() -> Flags {
        Flags { z: false, n: false, h: false, c: false }
    }

    /// The packed byte: flags in the top nibble, low nibble zero.
    pub open spec fn spec_bits(self) -> u8 {
        ((if self.z { 128int } else { 0int }) + (if self.n { 64int } else { 0int })
            + (if self.h { 32int } else { 0int }) + (if self.c { 16int } else { 0int })) as u8
    }

    /// The flags encoded in the top nibble of a byte; the low nibble is
    /// discarded.
    pub open spec fn spec_from_bits(b: u8) -> Flags {
        Flags {
            z: b / 128 % 2 == 1,
            n: b / 64 % 2 == 1,
            h: b / 32 % 2 == 1,
            c: b / 16 % 2 == 1,
        }
    }

    pub fn empty() -> (r: Flags)
        ensures
            r == Flags::spec_empty(),
    {
        Flags { z: false, n: false, h: false, c: false }
    }

    pub fn bits(&self) -> (r: u8)
        ensures
            r == self.spec_bits(),
    {
        (if self.z { 128u8 } else { 0u8 }) + (if self.n { 64u8 } else { 0u8 })
            + (if self.h { 32u8 } else { 0u8 }) + (if self.c { 16u8 } else { 0u8 })
    }

    pub fn from_bits(b: u8) -> (r: Flags)
        ensures
            r == Flags::spec_from_bits(b),
    {
        Flags { z: b / 128 % 2 == 1, n: b / 64 % 2 == 1, h: b / 32 % 2 == 1, c: b / 16 % 2 == 1 }
    }
}

/// The register file: eight 8-bit registers, the flag register, the
/// 16-bit program counter and stack pointer. Register pairs are views
/// composed as `high * 256 + low`.
#[derive(Clone, Copy, Debug, PartialEq, Eq, Structural)]
pub struct Register {
    pub a: u8,
    pub b: u8,
    pub c: u8,
    pub d: u8,
    pub e: u8,
    /// flag register
    pub f: Flags,
    pub h: u8,
    pub l: u8,
    /// program counter
    pub pc: u16,
    /// stack pointer
    pub sp: u16,
}

/// Result of 8-bit addition with carry-in, modulo 256.
pub open spec fn spec_adc_val(v1: u8, v2: u8, cin: bool) -> u8 {
    ((v1 + v2 + (if cin { 1int } else { 0int })) % 256) as u8
}

/// Flags produced by 8-bit addition with carry-in: Zero from the result,
/// Subtract clear, Half-carry from bit 3 of the low-nibble sum, Carry
/// from bit 7.
pub open spec fn spec_adc_flags(v1: u8, v2: u8, cin: bool) -> Flags {
    let carry = if cin { 1int } else { 0int };
    Flags {
        z: (v1 + v2 + carry) % 256 == 0,
        n: false,
        h: v1 % 16 + v2 % 16 + carry > 15,
        c: v1 + v2 + carry > 255,
    }
}

/// Result of 8-bit subtraction with borrow-in, modulo 256.
pub open spec fn spec_sbc_val(v1: u8, v2: u8, cin: bool) -> u8 {
    ((v1 - v2 - (if cin { 1int } else { 0int })) % 256) as u8
}

/// Flags produced by 8-bit subtraction with borrow-in: Zero from the
/// result, Subtract set, Half-carry when the low nibble borrows, Carry
/// when the full byte borrows.
pub open spec fn spec_sbc_flags(v1: u8, v2: u8, cin: bool) -> Flags {
    let borrow = if cin { 1int } else { 0int };
    Flags {
        z: (v1 - v2 - borrow) % 256 == 0,
        n: true,
        h: v1 % 16 < v2 % 16 + borrow,
        c: (v1 as int) < v2 + borrow,
    }
}

/// The sign extension of an 8-bit two's-complement value.
pub open spec fn spec_signed8(n: u8) -> int {
    if n < 128 {
        n as int
    } else {
        n - 256
    }
}

/// Result of adding a signed 8-bit displacement to a 16-bit value,
/// modulo 65536.
pub open spec fn spec_add_signed_val(base: u16, n: u8) -> u16 {
    ((base + spec_signed8(n)) % 65536) as u16
}

/// Flags produced by the stack-pointer-relative signed add: Zero and
/// Subtract cleared; Half-carry and Carry from the unsigned low-nibble
/// and low-byte sums.
pub open spec fn spec_add_sp_flags(sp: u16, n: u8) -> Flags {
    Flags { z: false, n: false, h: n % 16 + sp % 16 > 15, c: n + sp % 256 > 255 }
}

/// The decimal-adjust correction amount: 0x06 for the low nibble when
/// Half-carry is set (or, after an addition, when the low nibble exceeds
/// 9), plus 0x60 for the high nibble when Carry is set (or, after an
/// addition, when the accumulator exceeds 0x99).
pub open spec fn spec_daa_adjust(a: u8, f: Flags) -> u8 {
    let lo = f.h || (!f.n && a % 16 > 9);
    let hi = f.c || (!f.n && a > 0x99);
    ((if hi { 0x60int } else { 0int }) + (if lo { 0x06int } else { 0int })) as u8
}

/// The decimal-adjusted accumulator: the correction is added after an
/// addition and subtracted after a subtraction, modulo 256.
pub open spec fn spec_daa_val(a: u8, f: Flags) -> u8 {
    if !f.n {
        ((a + spec_daa_adjust(a, f)) % 256) as u8
    } else {
        ((a - spec_daa_adjust(a, f)) % 256) as u8
    }
}

/// Flags after decimal adjust: Zero recomputed, Carry set exactly when a
/// high-nibble correction was applied, Half-carry always cleared,
/// Subtract unchanged.
pub open spec fn spec_daa_flags(a: u8, f: Flags) -> Flags {
    Flags { z: spec_daa_val(a, f) == 0, n: f.n, h: false, c: spec_daa_adjust(a, f) >= 0x60 }
}

impl Register {
    /// Fresh register file: all data registers and flags clear, the
    /// program counter at the cartridge entry point 0x0100 and the stack
    /// pointer at the top of the high RAM area, 0xFFFE.
    pub fn new() -> (r: Register)
        ensures
            r == (Register {
                a: 0u8,
                b: 0u8,
                c: 0u8,
                d: 0u8,
                e: 0u8,
                f: Flags::spec_empty(),
                h: 0u8,
                l: 0u8,
                pc: 0x0100u16,
                sp: 0xFFFEu16,
            }),
    {
        Register {
            a: 0,
            b: 0,
            c: 0,
            d: 0,
            e: 0,
            f: Flags::empty(),
            h: 0,
            l: 0,
            pc: 0x0100,
            sp: 0xFFFE,
        }
    }

    /// The HL pair read as `h * 256 + l`.
    pub fn get_hl(&self) -> (r: u16)
        ensures
            r == self.h * 256 + self.l,
    {
        (self.h as u16) * 256 + (self.l as u16)
    }

    /// Writes both halves of HL atomically.
    pub fn set_hl(&mut self, value: u16)
        ensures
            *final(self) == (Register {
                h: (value / 256) as u8,
                l: (value % 256) as u8,
                ..*old(self)
            }),
    {
        self.h = (value / 256) as u8;
        self.l = (value % 256) as u8;
    }

    /// The BC pair read as `b * 256 + c`.
    pub fn get_bc(&self) -> (r: u16)
        ensures
            r == self.b * 256 + self.c,
    {
        (self.b as u16) * 256 + (self.c as u16)
    }

    /// Writes both halves of BC atomically.
    pub fn set_bc(&mut self, value: u16)
        ensures
            *final(self) == (Register {
                b: (value / 256) as u8,
                c: (value % 256) as u8,
                ..*old(self)
            }),
    {
        self.b = (value / 256) as u8;
        self.c = (value % 256) as u8;
    }

    /// The DE pair read as `d * 256 + e`.
    pub fn get_de(&self) -> (r: u16)
        ensures
            r == self.d * 256 + self.e,
    {
        (self.d as u16) * 256 + (self.e as u16)
    }

    /// Writes both halves of DE atomically.
    pub fn set_de(&mut self, value: u16)
        ensures
            *final(self) == (Register {
                d: (value / 256) as u8,
                e: (value % 256) as u8,
                ..*old(self)
            }),
    {
        self.d = (value / 256) as u8;
        self.e = (value % 256) as u8;
    }

    /// The AF pair: accumulator in the high byte, packed flag byte (low
    /// nibble zero) in the low byte.
    pub fn get_af(&self) -> (r: u16)
        ensures
            r == self.a * 256 + self.f.spec_bits(),
    {
        (self.a as u16) * 256 + (self.f.bits() as u16)
    }

    /// Writes the accumulator and the flag register; the low nibble of
    /// the flag byte is discarded, so it reads back as zero.
    pub fn set_af(&mut self, value: u16)
        ensures
            *final(self) == (Register {
                a: (value / 256) as u8,
                f: Flags::spec_from_bits((value % 256) as u8),
                ..*old(self)
            }),
    {
        self.a = (value / 256) as u8;
        self.f = Flags::from_bits((value % 256) as u8);
    }

    /// 8-bit add: result is `value1 + value2` mod 256; Zero from the
    /// result, Subtract clear, Half-carry out of bit 3, Carry out of
    /// bit 7.
    pub fn alu_add(&mut self, value1: u8, value2: u8) -> (r: u8)
        ensures
            r == spec_adc_val(value1, value2, false),
            *final(self) == (Register { f: spec_adc_flags(value1, value2, false), ..*old(self) }),
    {
        let sum: u16 = value1 as u16 + value2 as u16;
        let value = (sum % 256) as u8;
        self.f = Flags { z: value == 0, n: false, h: value1 % 16 + value2 % 16 > 15, c: sum > 255 };
        value
    }

    /// 8-bit add with carry: like `alu_add` but the prior Carry flag
    /// joins the sum and the half-carry computation.
    pub fn alu_adc(&mut self, value1: u8, value2: u8) -> (r: u8)
        ensures
            r == spec_adc_val(value1, value2, old(self).f.c),
            *final(self) == (Register {
                f: spec_adc_flags(value1, value2, old(self).f.c),
                ..*old(self)
            }),
    {
        let carry: u16 = if self.f.c { 1 } else { 0 };
        let sum: u16 = value1 as u16 + value2 as u16 + carry;
        let value = (sum % 256) as u8;
        self.f = Flags {
            z: value == 0,
            n: false,
            h: value1 as u16 % 16 + value2 as u16 % 16 + carry > 15,
            c: sum > 255,
        };
        value
    }

    /// 8-bit subtract: result is `value1 - value2` mod 256; Zero from
    /// the result, Subtract set, Half-carry when the low nibble borrows,
    /// Carry when the whole byte borrows.
    pub fn alu_sub(&mut self, value1: u8, value2: u8) -> (r: u8)
        ensures
            r == spec_sbc_val(value1, value2, false),
            *final(self) == (Register { f: spec_sbc_flags(value1, value2, false), ..*old(self) }),
    {
        let diff: u16 = (value1 as u16 + 256) - value2 as u16;
        let value = (diff % 256) as u8;
        self.f = Flags { z: value == 0, n: true, h: value1 % 16 < value2 % 16, c: value1 < value2 };
        value
    }

    /// 8-bit subtract with borrow: like `alu_sub` but the prior Carry
    /// flag joins the subtrahend and the borrow computations.
    pub fn alu_sbc(&mut self, value1: u8, value2: u8) -> (r: u8)
        ensures
            r == spec_sbc_val(value1, value2, old(self).f.c),
            *final(self) == (Register {
                f: spec_sbc_flags(value1, value2, old(self).f.c),
                ..*old(self)
            }),
    {
        let borrow: u16 = if self.f.c { 1 } else { 0 };
        let diff: u16 = (value1 as u16 + 512) - value2 as u16 - borrow;
        let value = (diff % 256) as u8;
        self.f = Flags {
            z: value == 0,
            n: true,
            h: ((value1 % 16) as u16) < (value2 % 16) as u16 + borrow,
            c: (value1 as u16) < value2 as u16 + borrow,
        };
        value
    }

    /// Bitwise AND: Zero from the result, Subtract clear, Half-carry
    /// set, Carry clear.
    pub fn alu_and(&mut self, value1: u8, value2: u8) -> (r: u8)
        ensures
            r == (value1 & value2),
            *final(self) == (Register {
                f: Flags { z: (value1 & value2) == 0, n: false, h: true, c: false },
                ..*old(self)
            }),
    {
        let value = value1 & value2;
        self.f = Flags { z: value == 0, n: false, h: true, c: false };
        value
    }

    /// Bitwise OR: Zero from the result, Subtract, Half-carry and Carry
    /// clear.
    pub fn alu_or(&mut self, value1: u8, value2: u8) -> (r: u8)
        ensures
            r == (value1 | value2),
            *final(self) == (Register {
                f: Flags { z: (value1 | value2) == 0, n: false, h: false, c: false },
                ..*old(self)
            }),
    {
        let value = value1 | value2;
        self.f = Flags { z: value == 0, n: false, h: false, c: false };
        value
    }

    /// Bitwise XOR: Zero from the result, Subtract, Half-carry and Carry
    /// clear.
    pub fn alu_xor(&mut self, value1: u8, value2: u8) -> (r: u8)
        ensures
            r == (value1 ^ value2),
            *final(self) == (Register {
                f: Flags { z: (value1 ^ value2) == 0, n: false, h: false, c: false },
                ..*old(self)
            }),
    {
        let value = value1 ^ value2;
        self.f = Flags { z: value == 0, n: false, h: false, c: false };
        value
    }

    /// Increment by one, modulo 256: Zero and Half-carry recomputed,
    /// Subtract cleared, Carry never touched.
    pub fn alu_inc(&mut self, value1: u8) -> (r: u8)
        ensures
            r == ((value1 + 1) % 256) as u8,
            *final(self) == (Register {
                f: Flags {
                    z: (value1 + 1) % 256 == 0,
                    n: false,
                    h: value1 % 16 == 15,
                    c: old(self).f.c,
                },
                ..*old(self)
            }),
    {
        let value = ((value1 as u16 + 1) % 256) as u8;
        self.f = Flags { z: value == 0, n: false, h: value1 % 16 == 15, c: self.f.c };
        value
    }

    /// Decrement by one, modulo 256: Zero and Half-carry recomputed,
    /// Subtract set, Carry never touched.
    pub fn alu_dec(&mut self, value1: u8) -> (r: u8)
        ensures
            r == ((value1 - 1) % 256) as u8,
            *final(self) == (Register {
                f: Flags {
                    z: (value1 - 1) % 256 == 0,
                    n: true,
                    h: value1 % 16 == 0,
                    c: old(self).f.c,
                },
                ..*old(self)
            }),
    {
        let value = ((value1 as u16 + 255) % 256) as u8;
        self.f = Flags { z: value == 0, n: true, h: value1 % 16 == 0, c: self.f.c };
        value
    }

    /// Adds a signed 8-bit displacement to the stack pointer value,
    /// modulo 65536, and returns the sum without writing it back. Zero
    /// and Subtract are cleared; Half-carry and Carry come from the
    /// unsigned low-nibble and low-byte sums.
    pub fn alu_add_sp_i8(&mut self, i: u8) -> (r: u16)
        ensures
            r == spec_add_signed_val(old(self).sp, i),
            *final(self) == (Register { f: spec_add_sp_flags(old(self).sp, i), ..*old(self) }),
    {
        let sp = self.sp;
        let ext: u32 = if i < 128 {
            i as u32
        } else {
            i as u32 + 0xFF00
        };
        self.f = Flags {
            z: false,
            n: false,
            h: i % 16 + (sp % 16) as u8 > 15,
            c: i as u16 + sp % 256 > 255,
        };
        ((sp as u32 + ext) % 65536) as u16
    }

    /// 16-bit add, modulo 65536: Half-carry is the carry out of bit 11,
    /// Carry the carry out of bit 15; Zero and Subtract are unaffected.
    pub fn alu_add_u16(&mut self, value1: u16, value2: u16) -> (r: u16)
        ensures
            r == ((value1 + value2) % 65536) as u16,
            *final(self) == (Register {
                f: Flags {
                    z: old(self).f.z,
                    n: old(self).f.n,
                    h: value1 % 4096 + value2 % 4096 > 4095,
                    c: value1 + value2 > 65535,
                },
                ..*old(self)
            }),
    {
        let sum: u32 = value1 as u32 + value2 as u32;
        self.f = Flags {
            z: self.f.z,
            n: self.f.n,
            h: value1 % 4096 + value2 % 4096 > 4095,
            c: sum > 65535,
        };
        (sum % 65536) as u16
    }

    /// Decimal adjust: applies the standard BCD correction to the given
    /// accumulator value based on the Subtract, Half-carry and Carry
    /// flags; recomputes Zero and Carry and always clears Half-carry.
    pub fn alu_daa(&mut self, a: u8) -> (r: u8)
        ensures
            r == spec_daa_val(a, old(self).f),
            *final(self) == (Register { f: spec_daa_flags(a, old(self).f), ..*old(self) }),
    {
        let lo = self.f.h || (!self.f.n && a % 16 > 9);
        let hi = self.f.c || (!self.f.n && a > 0x99);
        let adjust: u8 = (if hi { 0x60u8 } else { 0u8 }) + (if lo { 0x06u8 } else { 0u8 });
        let value: u8 = if !self.f.n {
            ((a as u16 + adjust as u16) % 256) as u8
        } else {
            ((a as u16 + 256 - adjust as u16) % 256) as u8
        };
        self.f = Flags { z: value == 0, n: self.f.n, h: false, c: adjust >= 0x60 };
        value
    }
}

/// Register-pair round trip: a 16-bit value split into its high byte
/// `x / 256` and low byte `x % 256` (as the pair setters store it)
/// recomposes to exactly the original value (as the pair getters read
/// it); this holds for every 16-bit value, so BC, DE and HL round-trip.
pub proof fn lemma_pair_round_trip(x: u16)
    ensures
        (x / 256) * 256 + x % 256 == x,
{
    lemma_fundamental_div_mod(x as int, 256);
}

/// AF round trip: writing a 16-bit value to AF and reading it back
/// yields the value with the low nibble of the flag byte cleared, for
/// every 16-bit value; in particular the low nibble always reads back
/// as zero.
pub proof fn lemma_af_round_trip(x: u16)
    ensures
        (x / 256) * 256 + Flags::spec_from_bits((x % 256) as u8).spec_bits() == x - x % 16,
        (x - x % 16) % 16 == 0,
{
    let b = (x % 256) as u8;
    lemma_flag_bits_round_trip(b);
    assert(b == x % 256);
    assert((x / 256) * 256 + ((x % 256) / 16) * 16 == x - x % 16) by (bit_vector);
    assert((x - x % 16) % 16 == 0) by (bit_vector);
}

/// Packing the flags decoded from a byte reproduces exactly the byte's
/// top nibble.
pub proof fn lemma_flag_bits_round_trip(b: u8)
    ensures
        Flags::spec_from_bits(b).spec_bits() == (b / 16) * 16,
{
    let f = Flags::spec_from_bits(b);
    let zb: u8 = if f.z {
        1
    } else {
        0
    };
    let nb: u8 = if f.n {
        1
    } else {
        0
    };
    let hb: u8 = if f.h {
        1
    } else {
        0
    };
    let cb: u8 = if f.c {
        1
    } else {
        0
    };
    assert(zb == b / 128 % 2 && nb == b / 64 % 2 && hb == b / 32 % 2 && cb == b / 16 % 2);
    assert(b / 128 % 2 * 128 + b / 64 % 2 * 64 + b / 32 % 2 * 32 + b / 16 % 2 * 16 == b / 16 * 16)
        by (bit_vector);
    assert(f.spec_bits() == zb * 128 + nb * 64 + hb * 32 + cb * 16);
}

/// A fatal condition inside the running emulator.
#[derive(Clone, Copy, Debug, PartialEq, Eq, Structural)]
pub enum CpuError {
    /// The fetched opcode byte has no entry in the instruction table:
    /// the emulator's table is incomplete, which is always reported and
    /// never silently skipped.
    UnknownOpcode(u8),
}

/// The abstract state of the CPU: the register file, the routed address
/// space, the remaining machine cycles of the in-flight instruction and
/// the halt and interrupt-enable/disable latches.
#[verifier::ext_equal]
pub struct CpuView {
    pub reg: Register,
    pub mmu: MmuView,
    pub remain_ticks: usize,
    pub halted: bool,
    pub di: bool,
    pub ei: bool,
}

impl CpuView {
    /// The state after pushing a 16-bit value: the stack pointer moves
    /// down by two (wrapping) and the value is stored little-endian at
    /// the new stack pointer.
    pub open spec fn push_spec(self, value: u16) -> CpuView {
        let sp = ((self.reg.sp - 2) % 0x10000) as u16;
        CpuView {
            reg: Register { sp, ..self.reg },
            mmu: self.mmu.write_word_spec(sp, value),
            ..self
        }
    }

    /// The 16-bit value a pop would read at the current stack pointer.
    pub open spec fn pop_val(self) -> u16 {
        self.mmu.read_word_spec(self.reg.sp)
    }

    /// The state after popping: the stack pointer moves up by two
    /// (wrapping); memory is unchanged.
    pub open spec fn pop_spec(self) -> CpuView {
        CpuView { reg: Register { sp: ((self.reg.sp + 2) % 0x10000) as u16, ..self.reg }, ..self }
    }
}

/// Stack round trip: pushing a 16-bit value and then popping returns
/// exactly that value, the stack pointer decreases by exactly two on
/// the push and increases by exactly two on the pop, ending where it
/// began. This holds whenever the two bytes below the stack pointer lie
/// in storing memory (the banked controller's enabled external RAM).
pub proof fn lemma_stack_round_trip(cpu: CpuView, value: u16)
    requires
        cpu.mmu.stores((((cpu.reg.sp - 2) % 0x10000) as u16)),
        cpu.mmu.stores((((cpu.reg.sp - 1) % 0x10000) as u16)),
    ensures
        cpu.push_spec(value).reg.sp == (cpu.reg.sp - 2) % 0x10000,
        cpu.push_spec(value).pop_val() == value,
        cpu.push_spec(value).pop_spec().reg.sp == cpu.reg.sp,
{
    let m = 0x10000int;
    let sp = cpu.reg.sp as int;
    let sp2 = (((sp - 2) % m)) as u16;
    vstd::arithmetic::div_mod::lemma_add_mod_noop_right(1, sp - 2, m);
    assert((sp2 + 1) % m == (sp - 1) % m);
    crate::mmu::lemma_mmu_store_word_round_trip(cpu.mmu, sp2, value);
    vstd::arithmetic::div_mod::lemma_add_mod_noop_right(2, sp - 2, m);
    lemma_small_mod(cpu.reg.sp as nat, 0x10000nat);
    assert((sp2 + 2) % m == sp);
}

/// The CPU: the register file, the routed address space, and the
/// two-state scheduling machine (idle between instructions when the
/// remaining-cycle counter is zero, executing otherwise).
#[derive(Debug)]
pub struct CPU {
    pub reg: Register,
    pub mmu: MMU,
    /// Machine cycles still owed by the instruction dispatched last.
    pub remain_ticks: usize,
    /// Set by the halt instruction; interrupt delivery is out of scope.
    pub halted: bool,
    /// Interrupt-disable latch.
    pub di: bool,
    /// Interrupt-enable latch.
    pub ei: bool,
}

impl View for CPU {
    type V = CpuView;

    open spec fn view(&self) -> CpuView {
        CpuView {
            reg: self.reg,
            mmu: self.mmu@,
            remain_ticks: self.remain_ticks,
            halted: self.halted,
            di: self.di,
            ei: self.ei,
        }
    }
}

impl CPU {
    /// A CPU at the reset state, attached to the given address space.
    pub fn new(mmu: MMU) -> (r: CPU)
        ensures
            r@ == (CpuView {
                reg: Register {
                    a: 0u8,
                    b: 0u8,
                    c: 0u8,
                    d: 0u8,
                    e: 0u8,
                    f: Flags::spec_empty(),
                    h: 0u8,
                    l: 0u8,
                    pc: 0x0100u16,
                    sp: 0xFFFEu16,
                },
                mmu: mmu@,
                remain_ticks: 0usize,
                halted: false,
                di: false,
                ei: false,
            }),
    {
        CPU { reg: Register::new(), mmu, remain_ticks: 0, halted: false, di: false, ei: false }
    }

    /// Fetches the byte at the program counter and advances the counter
    /// by one, wrapping.
    pub fn fetch(&mut self) -> (r: u8)
        ensures
            r == old(self)@.mmu.read_spec(old(self).reg.pc),
            final(self)@ == (CpuView {
                reg: Register {
                    pc: ((old(self).reg.pc + 1) % 0x10000) as u16,
                    ..old(self).reg
                },
                ..old(self)@
            }),
    {
        let value = self.mmu.read(self.reg.pc);
        self.reg.pc = ((self.reg.pc as u32 + 1) % 0x10000) as u16;
        value
    }

    /// Fetches the little-endian 16-bit value at the program counter and
    /// advances the counter by two, wrapping.
    pub fn fetch_word(&mut self) -> (r: u16)
        ensures
            r == old(self)@.mmu.read_word_spec(old(self).reg.pc),
            final(self)@ == (CpuView {
                reg: Register {
                    pc: ((old(self).reg.pc + 2) % 0x10000) as u16,
                    ..old(self).reg
                },
                ..old(self)@
            }),
    {
        let value = self.mmu.read_word(self.reg.pc);
        self.reg.pc = ((self.reg.pc as u32 + 2) % 0x10000) as u16;
        value
    }

    /// Pushes a 16-bit value: the stack pointer moves down by two
    /// (wrapping) and the value is stored little-endian at the new stack
    /// pointer.
    pub fn push_stack(&mut self, value: u16)
        ensures
            final(self)@ == old(self)@.push_spec(value),
    {
        self.reg.sp = (((self.reg.sp as u32) + 0x10000 - 2) % 0x10000) as u16;
        proof {
            lemma_mod_add_multiples_vanish(old(self).reg.sp - 2, 0x10000);
        }
        self.mmu.write_word(self.reg.sp, value);
    }

    /// Pops a 16-bit value from the stack: reads little-endian at the
    /// stack pointer, then moves the pointer up by two (wrapping).
    pub fn pop_stack(&mut self) -> (r: u16)
        ensures
            r == old(self)@.pop_val(),
            final(self)@ == old(self)@.pop_spec(),
    {
        let value = self.mmu.read_word(self.reg.sp);
        self.reg.sp = ((self.reg.sp as u32 + 2) % 0x10000) as u16;
        value
    }
}

} // verus!
