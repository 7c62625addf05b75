//! Core of a Game Boy-class handheld emulator: the CPU register file and
//! ALU with bit-exact flag semantics, the instruction decoder/executor,
//! the bus/address router with its cartridge controllers and serial
//! registers, and the tick-barrier state machine that paces all
//! subsystems to a common logical clock.
pub mod clock;
pub mod cpu;
pub mod instruct;
pub mod mbc;
pub mod mmu;
pub mod serial;
