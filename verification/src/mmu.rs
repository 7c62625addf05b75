//! The bus/address router.
//!
//! A stateless router over the full 16-bit address space: cartridge
//! ranges (0x0000-0x7FFF and 0xA000-0xBFFF) delegate to the attached
//! cartridge controller, the serial-register range (0xFF01-0xFF02)
//! delegates to the serial device, and every other address reads as zero
//! and ignores writes - an explicit stub, not an error, so a ROM can be
//! brought up without full peripheral support. 16-bit accesses are
//! little-endian, composed from two 8-bit accesses.
use crate::mbc::Cartridge;
use crate::mbc::CartridgeView;
use crate::mbc::MBC;
use crate::serial::Serial;
use crate::serial::SerialView;
use vstd::prelude::*;

verus! {

/// The abstract state of the routed address space: the cartridge
/// controller and the serial device.
#[verifier::ext_equal]
pub struct MmuView {
    pub cart: CartridgeView,
    pub serial: SerialView,
}

impl MmuView {
    /// Whether `addr` is routed to the cartridge controller: the ROM
    /// range for reads and control writes, and the external RAM range.
    pub open spec fn in_cart_range(addr: u16) -> bool {
        addr < 0x8000 || (0xA000 <= addr < 0xC000)
    }

    /// Whether `addr` is one of the two serial registers.
    pub open spec fn in_serial_range(addr: u16) -> bool {
        0xFF01 <= addr <= 0xFF02
    }

    /// The byte a read of `addr` yields: routed to the cartridge or the
    /// serial device, zero everywhere else.
    pub open spec fn read_spec(self, addr: u16) -> u8 {
        if Self::in_cart_range(addr) {
            self.cart.read_spec(addr)
        } else if Self::in_serial_range(addr) {
            self.serial.read_spec(addr)
        } else {
            0
        }
    }

    /// The state after a write to `addr`: routed to the cartridge or the
    /// serial device, discarded everywhere else.
    pub open spec fn write_spec(self, addr: u16, value: u8) -> MmuView {
        if Self::in_cart_range(addr) {
            MmuView { cart: self.cart.write_spec(addr, value), ..self }
        } else if Self::in_serial_range(addr) {
            MmuView { serial: self.serial.write_spec(addr, value), ..self }
        } else {
            self
        }
    }

    /// The little-endian 16-bit value read at `addr`: low byte first,
    /// high byte at the wrapping successor address.
    pub open spec fn read_word_spec(self, addr: u16) -> u16 {
        (self.read_spec(addr) + 256 * self.read_spec(((addr + 1) % 0x10000) as u16)) as u16
    }

    /// The state after a little-endian 16-bit write at `addr`: low byte
    /// first, high byte at the wrapping successor address.
    pub open spec fn write_word_spec(self, addr: u16, value: u16) -> MmuView {
        self.write_spec(addr, (value % 256) as u8).write_spec(
            ((addr + 1) % 0x10000) as u16,
            (value / 256) as u8,
        )
    }
}

impl MmuView {
    /// Whether a byte written at `addr` is stored and read back through
    /// the router: exactly the storing addresses of the cartridge
    /// controller.
    pub open spec fn stores(self, addr: u16) -> bool {
        Self::in_cart_range(addr) && self.cart.stores(addr)
    }
}

/// A 16-bit value written little-endian at a pair of storing addresses
/// reads back unchanged.
pub proof fn lemma_mmu_store_word_round_trip(m: MmuView, addr: u16, value: u16)
    requires
        m.stores(addr),
        m.stores((((addr + 1) % 0x10000) as u16)),
    ensures
        m.write_word_spec(addr, value).read_word_spec(addr) == value,
{
    let next = ((addr + 1) % 0x10000) as u16;
    assert(next != addr);
    let lo = (value % 256) as u8;
    let hi = (value / 256) as u8;
    let m1 = m.write_spec(addr, lo);
    crate::mbc::lemma_cart_store_frame(m.cart, addr, lo, next);
    crate::mbc::lemma_cart_store_read_back(m.cart, addr, lo);
    let m2 = m1.write_spec(next, hi);
    crate::mbc::lemma_cart_store_read_back(m1.cart, next, hi);
    crate::mbc::lemma_cart_store_frame(m1.cart, next, hi, addr);
    assert(m2.read_spec(addr) == lo);
    assert(m2.read_spec(next) == hi);
    vstd::arithmetic::div_mod::lemma_fundamental_div_mod(value as int, 256);
}

/// The bus/address router: owns the cartridge controller and the serial
/// device and dispatches by address range.
#[derive(Debug)]
pub struct MMU {
    pub mbc: Cartridge,
    pub serial: Serial,
}

impl View for MMU {
    type V = MmuView;

    open spec fn view(&self) -> MmuView {
        MmuView { cart: self.mbc@, serial: self.serial@ }
    }
}

impl MMU {
    pub fn new(mbc: Cartridge, serial: Serial) -> (r: MMU)
        ensures
            r@ == (MmuView { cart: mbc@, serial: serial@ }),
    {
        MMU { mbc, serial }
    }

    /// Reads one byte, routed by address range; unimplemented ranges
    /// read zero.
    pub fn read(&self, addr: u16) -> (r: u8)
        ensures
            r == self@.read_spec(addr),
    {
        if addr < 0x8000 || (0xA000 <= addr && addr < 0xC000) {
            self.mbc.read(addr)
        } else if 0xFF01 <= addr && addr <= 0xFF02 {
            self.serial.read(addr)
        } else {
            0
        }
    }

    /// Reads a little-endian 16-bit value: the low byte at `addr`, the
    /// high byte at the wrapping successor address.
    pub fn read_word(&self, addr: u16) -> (r: u16)
        ensures
            r == self@.read_word_spec(addr),
    {
        let lo = self.read(addr);
        let hi = self.read(((addr as u32 + 1) % 0x10000) as u16);
        lo as u16 + 256 * hi as u16
    }

    /// Writes one byte, routed by address range; writes to
    /// unimplemented ranges are discarded.
    pub fn write(&mut self, addr: u16, value: u8)
        ensures
            final(self)@ == old(self)@.write_spec(addr, value),
    {
        if addr < 0x8000 || (0xA000 <= addr && addr < 0xC000) {
            self.mbc.write(addr, value);
        } else if 0xFF01 <= addr && addr <= 0xFF02 {
            self.serial.write(addr, value);
        }
    }

    /// Writes a little-endian 16-bit value: the low byte at `addr`, the
    /// high byte at the wrapping successor address.
    pub fn write_word(&mut self, addr: u16, value: u16)
        ensures
            final(self)@ == old(self)@.write_word_spec(addr, value),
    {
        self.write(addr, (value % 256) as u8);
        self.write(((addr as u32 + 1) % 0x10000) as u16, (value / 256) as u8);
    }
}

} // verus!
