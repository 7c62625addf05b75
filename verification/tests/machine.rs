//! End-to-end programs, the scheduling loop, the stack, the serial
//! registers and the decoder.
use gbcore::cpu::CpuError;
use gbcore::cpu::CPU;
use gbcore::instruct::Addr;
use gbcore::instruct::Instruction;
use gbcore::instruct::Param;
use gbcore::instruct::Reg;
use gbcore::instruct::ld::LD;
use gbcore::instruct::alu::DEC;
use gbcore::instruct::alu::INC;
use gbcore::instruct::control::RLA;
use gbcore::instruct::control::RRA;
use gbcore::instruct::stack::POP;
use gbcore::instruct::stack::PUSH;
use gbcore::mbc::new_mbc;
use gbcore::mmu::MMU;
use gbcore::serial::Serial;

/// A CPU over a bankless cartridge whose ROM holds `program` at the
/// entry point 0x0100.
fn boot(program: &[u8]) -> CPU {
    let mut data = vec![0u8; 0x150];
    for (k, b) in program.iter().enumerate() {
        data[0x100 + k] = *b;
    }
    let mut v: u8 = 0;
    for i in 0x134..0x14D {
        v = v.wrapping_sub(data[i]).wrapping_sub(1);
    }
    data[0x14D] = v;
    let cart = new_mbc(data).unwrap();
    CPU::new(MMU::new(cart, Serial::new()))
}

/// A CPU over a banked cartridge with enabled external RAM, so that
/// stack traffic at 0xA000-0xBFFF is actually stored.
fn boot_with_ram(program: &[u8]) -> CPU {
    let mut data = vec![0u8; 0x150];
    data[0x147] = 0x02;
    for (k, b) in program.iter().enumerate() {
        data[0x100 + k] = *b;
    }
    let mut v: u8 = 0;
    for i in 0x134..0x14D {
        v = v.wrapping_sub(data[i]).wrapping_sub(1);
    }
    data[0x14D] = v;
    let cart = new_mbc(data).unwrap();
    let mut cpu = CPU::new(MMU::new(cart, Serial::new()));
    cpu.mmu.write(0x0000, 0x0A);
    cpu
}

#[test]
fn program_add_then_halt() {
    // LD A,5; LD B,3; ADD A,B; HALT
    let mut cpu = boot(&[0x3E, 0x05, 0x06, 0x03, 0x80, 0x76]);
    let mut guard = 0;
    while !cpu.halted {
        cpu.tick().unwrap();
        guard += 1;
        assert!(guard < 100, "program must halt");
    }
    assert_eq!(cpu.reg.a, 8);
    assert!(!cpu.reg.f.z);
    assert!(!cpu.reg.f.n);
    assert!(!cpu.reg.f.h);
    assert!(!cpu.reg.f.c);
    assert!(cpu.halted);
}

#[test]
fn program_inc_wraps_accumulator() {
    // LD A,0xFF; INC A
    let mut cpu = boot(&[0x3E, 0xFF, 0x3C]);
    for _ in 0..3 {
        cpu.tick().unwrap();
    }
    assert_eq!(cpu.reg.a, 0x00);
    assert!(cpu.reg.f.z);
    assert!(cpu.reg.f.h);
}

#[test]
fn unknown_opcode_is_fatal() {
    let mut cpu = boot(&[0xD3]);
    assert_eq!(cpu.tick(), Err(CpuError::UnknownOpcode(0xD3)));
}

#[test]
fn tick_counts_multi_cycle_instructions() {
    // LD A,5 costs two machine cycles: the fetch tick and one more.
    let mut cpu = boot(&[0x3E, 0x05, 0x00]);
    cpu.tick().unwrap();
    assert_eq!(cpu.reg.a, 5, "executed on the fetch tick");
    assert_eq!(cpu.remain_ticks, 1);
    cpu.tick().unwrap();
    assert_eq!(cpu.remain_ticks, 0);
    let pc = cpu.reg.pc;
    cpu.tick().unwrap();
    assert_eq!(cpu.reg.pc, pc + 1, "next fetch happens only when idle");
}

#[test]
fn jumps_absolute_and_relative() {
    // JP 0x0110 (taken, unconditional)
    let mut cpu = boot(&[0xC3, 0x10, 0x01]);
    cpu.tick().unwrap();
    assert_eq!(cpu.reg.pc, 0x0110);
    assert_eq!(cpu.remain_ticks, 3);

    // JP Z,0x0110 with Z clear: not taken.
    let mut cpu = boot(&[0xC2, 0x10, 0x01]);
    cpu.tick().unwrap();
    assert_eq!(cpu.reg.pc, 0x0103);
    assert_eq!(cpu.remain_ticks, 2);

    // JR -2: loops back onto itself.
    let mut cpu = boot(&[0x18, 0xFE]);
    cpu.tick().unwrap();
    assert_eq!(cpu.reg.pc, 0x0100);
    assert_eq!(cpu.remain_ticks, 2);
}

#[test]
fn stack_push_pop_round_trip() {
    let mut cpu = boot_with_ram(&[]);
    cpu.reg.sp = 0xB000;
    cpu.push_stack(0xABCD);
    assert_eq!(cpu.reg.sp, 0xAFFE, "push decreases the stack pointer by two");
    let got = cpu.pop_stack();
    assert_eq!(got, 0xABCD);
    assert_eq!(cpu.reg.sp, 0xB000, "pop increases the stack pointer by two");
}

#[test]
fn stack_push_pop_instructions() {
    let mut cpu = boot_with_ram(&[]);
    cpu.reg.sp = 0xB000;
    cpu.reg.set_bc(0x1234);
    PUSH(Reg::BC).call(&mut cpu);
    cpu.reg.set_bc(0);
    POP(Reg::BC).call(&mut cpu);
    assert_eq!(cpu.reg.get_bc(), 0x1234);
    assert_eq!(cpu.reg.sp, 0xB000);

    cpu.reg.set_af(0x12FF);
    PUSH(Reg::AF).call(&mut cpu);
    cpu.reg.set_af(0);
    POP(Reg::AF).call(&mut cpu);
    assert_eq!(cpu.reg.get_af(), 0x12F0, "AF low nibble reads back zero");
}

#[test]
fn sixteen_bit_increment_decrement_wraps() {
    let mut cpu = boot(&[]);
    for r in [Reg::BC, Reg::DE, Reg::HL, Reg::SP] {
        cpu.reg.set_pair(r, 0xFFFF);
        INC(Param::Reg(r)).call(&mut cpu);
        assert_eq!(cpu.reg.get_pair(r), 0x0000, "0xFFFF + 1 wraps to zero");
        DEC(Param::Reg(r)).call(&mut cpu);
        assert_eq!(cpu.reg.get_pair(r), 0xFFFF, "0x0000 - 1 wraps to 0xFFFF");
    }
}

#[test]
fn hl_auto_increment_and_decrement_loads() {
    let mut cpu = boot_with_ram(&[]);
    cpu.reg.a = 0x5C;
    cpu.reg.set_hl(0xA000);
    LD(Param::Addr(Addr::HLInc), Param::Reg(Reg::A)).call(&mut cpu);
    assert_eq!(cpu.reg.get_hl(), 0xA001, "store through HL+ increments HL");
    assert_eq!(cpu.mmu.read(0xA000), 0x5C);

    cpu.reg.a = 0;
    cpu.reg.set_hl(0xA000);
    LD(Param::Reg(Reg::A), Param::Addr(Addr::HLDec)).call(&mut cpu);
    assert_eq!(cpu.reg.a, 0x5C, "load through HL- reads the stored byte");
    assert_eq!(cpu.reg.get_hl(), 0x9FFF);
}

#[test]
fn rotate_through_carry_semantics() {
    let mut cpu = boot(&[]);
    // RLA: carry-out is the old top bit, carry-in becomes the low bit.
    cpu.reg.a = 0x80;
    cpu.reg.f = gbcore::cpu::Flags { z: true, n: true, h: true, c: false };
    RLA.call(&mut cpu);
    assert_eq!(cpu.reg.a, 0x00);
    assert!(cpu.reg.f.c && !cpu.reg.f.n && !cpu.reg.f.h);
    assert!(!cpu.reg.f.z, "the accumulator rotates always clear Zero");
    RLA.call(&mut cpu);
    assert_eq!(cpu.reg.a, 0x01, "the prior carry becomes the new low bit");
    assert!(!cpu.reg.f.c);

    // RRA: carry-out is the old low bit, carry-in becomes the top bit.
    cpu.reg.a = 0x01;
    cpu.reg.f = gbcore::cpu::Flags { z: false, n: false, h: false, c: false };
    RRA.call(&mut cpu);
    assert_eq!(cpu.reg.a, 0x00);
    assert!(cpu.reg.f.c);
    assert!(!cpu.reg.f.z, "a zero rotate result still leaves Zero clear");
    RRA.call(&mut cpu);
    assert_eq!(cpu.reg.a, 0x80, "the prior carry becomes the new top bit");
    assert!(!cpu.reg.f.c);
}

#[test]
fn serial_transfer_emits_data_byte() {
    let mut cpu = boot(&[]);
    cpu.mmu.write(0xFF01, 0x41);
    assert_eq!(cpu.mmu.read(0xFF01), 0x41);
    cpu.mmu.write(0xFF02, 0x80);
    assert!(cpu.mmu.serial.output.is_empty(), "start without internal clock emits nothing");
    cpu.mmu.write(0xFF02, 0x81);
    assert_eq!(cpu.mmu.serial.output, vec![0x41]);
    let taken = cpu.mmu.serial.take_output();
    assert_eq!(taken, vec![0x41]);
    assert!(cpu.mmu.serial.output.is_empty());
}

#[test]
fn unimplemented_addresses_read_zero_and_discard_writes() {
    let mut cpu = boot(&[]);
    assert_eq!(cpu.mmu.read(0xC123), 0);
    cpu.mmu.write(0xC123, 0x55);
    assert_eq!(cpu.mmu.read(0xC123), 0, "writes to stubs are discarded");
    assert_eq!(cpu.mmu.read(0xFF40), 0);
}

#[test]
fn word_accesses_are_little_endian() {
    let mut cpu = boot_with_ram(&[]);
    cpu.mmu.write_word(0xA100, 0xBEEF);
    assert_eq!(cpu.mmu.read(0xA100), 0xEF, "low byte first");
    assert_eq!(cpu.mmu.read(0xA101), 0xBE);
    assert_eq!(cpu.mmu.read_word(0xA100), 0xBEEF);
}

#[test]
fn decoder_produces_expected_instructions() {
    let mut cpu = boot(&[0x06, 0x2A]);
    let i = Instruction::fetch(&mut cpu).unwrap();
    assert_eq!(i, Instruction::LD(LD(Param::Reg(Reg::B), Param::Imm8(0x2A))));
    assert_eq!(cpu.reg.pc, 0x0102, "decode consumes the immediate exactly once");

    let mut cpu = boot(&[0x7E]);
    let i = Instruction::fetch(&mut cpu).unwrap();
    assert_eq!(i, Instruction::LD(LD(Param::Reg(Reg::A), Param::Addr(Addr::HL))));

    let mut cpu = boot(&[0xFE, 0x07]);
    let i = Instruction::fetch(&mut cpu).unwrap();
    match i {
        Instruction::CP(cp) => assert_eq!(cp.1, Param::Imm8(0x07)),
        other => panic!("expected a compare, got {other:?}"),
    }
}
