//! Cartridge controllers (memory bank controllers).
//!
//! A controller owns the ROM bytes and, for the banked variant, optional
//! external RAM; it exposes byte-granular reads and writes over the
//! cartridge address ranges. The controller variant is selected once at
//! load time by the header byte at offset 0x147, after the ROM size and
//! header checksum have been validated.
use vstd::prelude::*;
use vstd::arithmetic::div_mod::lemma_add_mod_noop_right;
use vstd::arithmetic::div_mod::lemma_fundamental_div_mod;
use vstd::arithmetic::div_mod::lemma_mod_add_multiples_vanish;

verus! {

/// A startup failure: the ROM image is rejected before any emulation
/// begins.
#[derive(Clone, Copy, Debug, PartialEq, Eq, Structural)]
pub enum MbcError {
    /// The image is smaller than the 0x150 bytes a complete header needs.
    RomTooSmall,
    /// The header checksum byte at 0x14D does not match the bytes it
    /// covers.
    InvalidChecksum,
    /// The controller-type byte at 0x147 names a controller this
    /// emulator does not implement.
    UnsupportedMbcType,
}

/// Which use the two shared bank-number bits are put to, selected by the
/// top bit of the bank-number register.
#[derive(Clone, Copy, Debug, PartialEq, Eq, Structural)]
pub enum BankMode {
    Rom,
    Ram,
}

/// The mode encoded in the top bit of the bank-number register.
pub open spec fn spec_bank_mode(bank_number: u8) -> BankMode {
    if bank_number >= 128 {
        BankMode::Rom
    } else {
        BankMode::Ram
    }
}

/// The selected ROM bank: all seven low bits of the bank-number register
/// in one mode, only the five low bits in the other.
pub open spec fn spec_rom_bank(bank_number: u8) -> int {
    match spec_bank_mode(bank_number) {
        BankMode::Rom => (bank_number % 128) as int,
        BankMode::Ram => (bank_number % 32) as int,
    }
}

/// The selected RAM bank: the two shared bits, or bank zero when they
/// are lent to the ROM bank number.
pub open spec fn spec_ram_bank(bank_number: u8) -> int {
    match spec_bank_mode(bank_number) {
        BankMode::Rom => 0,
        BankMode::Ram => (bank_number / 32 % 4) as int,
    }
}

/// The abstract state of a cartridge controller.
#[verifier::ext_equal]
pub enum CartridgeView {
    Mbc0 { data: Seq<u8> },
    Mbc1 { data: Seq<u8>, bank_number: u8, ram_enabled: bool, external_ram: Seq<u8> },
}

impl CartridgeView {
    /// The byte a read of `addr` yields. The bankless controller maps
    /// the ROM as-is; the banked controller maps the fixed first ROM
    /// bank at 0x0000-0x3FFF, the selected ROM bank at 0x4000-0x5FFF and
    /// the selected external RAM bank at 0xA000-0xBFFF when RAM is
    /// enabled. Everything else, and any index beyond the owned bytes,
    /// reads zero.
    pub open spec fn read_spec(self, addr: u16) -> u8 {
        match self {
            CartridgeView::Mbc0 { data } => {
                if addr < data.len() {
                    data[addr as int]
                } else {
                    0
                }
            },
            CartridgeView::Mbc1 { data, bank_number, ram_enabled, external_ram } => {
                if addr < 0x4000 {
                    if addr < data.len() {
                        data[addr as int]
                    } else {
                        0
                    }
                } else if addr < 0x6000 {
                    let idx = spec_rom_bank(bank_number) * 0x4000 + (addr - 0x4000);
                    if idx < data.len() {
                        data[idx]
                    } else {
                        0
                    }
                } else if 0xA000 <= addr < 0xC000 {
                    let idx = spec_ram_bank(bank_number) * 0x2000 + (addr - 0xA000);
                    if ram_enabled && idx < external_ram.len() {
                        external_ram[idx]
                    } else {
                        0
                    }
                } else {
                    0
                }
            },
        }
    }

    /// The controller state after a write of `value` to `addr`. The
    /// bankless controller ignores every write. On the banked
    /// controller, 0x0000-0x1FFF enables RAM exactly for values with
    /// 0x0A in the low nibble; 0x2000-0x3FFF sets the five low ROM-bank
    /// bits (a zero value selects bank one); 0x4000-0x5FFF sets the two
    /// shared bits; 0x6000-0x7FFF sets the mode bit; 0xA000-0xBFFF
    /// stores into the selected external RAM bank when RAM is enabled
    /// and the index is owned. Other writes are ignored.
    pub open spec fn write_spec(self, addr: u16, value: u8) -> CartridgeView {
        match self {
            CartridgeView::Mbc0 { data } => self,
            CartridgeView::Mbc1 { data, bank_number, ram_enabled, external_ram } => {
                if addr < 0x2000 {
                    CartridgeView::Mbc1 {
                        data,
                        bank_number,
                        ram_enabled: value % 16 == 0x0A,
                        external_ram,
                    }
                } else if addr < 0x4000 {
                    let lower = if value % 32 == 0 {
                        1u8
                    } else {
                        value % 32
                    };
                    CartridgeView::Mbc1 {
                        data,
                        bank_number: (bank_number / 32 * 32 + lower) as u8,
                        ram_enabled,
                        external_ram,
                    }
                } else if addr < 0x6000 {
                    CartridgeView::Mbc1 {
                        data,
                        bank_number: (bank_number / 128 * 128 + bank_number % 32 + value % 4
                            * 32) as u8,
                        ram_enabled,
                        external_ram,
                    }
                } else if addr < 0x8000 {
                    CartridgeView::Mbc1 {
                        data,
                        bank_number: (bank_number % 128 + value % 2 * 128) as u8,
                        ram_enabled,
                        external_ram,
                    }
                } else if 0xA000 <= addr < 0xC000 {
                    let idx = spec_ram_bank(bank_number) * 0x2000 + (addr - 0xA000);
                    if ram_enabled && idx < external_ram.len() {
                        CartridgeView::Mbc1 {
                            data,
                            bank_number,
                            ram_enabled,
                            external_ram: external_ram.update(idx, value),
                        }
                    } else {
                        self
                    }
                } else {
                    self
                }
            },
        }
    }
}

/// The running header checksum after folding the first `n` covered
/// bytes (the covered range starts at offset 0x134): each byte and an
/// extra one are subtracted from the accumulator, wrapping modulo 256.
pub open spec fn checksum_acc(data: Seq<u8>, n: nat) -> u8
    decreases n,
{
    if n == 0 {
        0
    } else {
        ((checksum_acc(data, (n - 1) as nat) - data[0x134 + n - 1] - 1) % 256) as u8
    }
}

/// The header checksum of a ROM image: the fold over the 25 covered
/// bytes at offsets 0x134-0x14C. A valid image stores this value at
/// offset 0x14D.
pub open spec fn spec_header_checksum(data: Seq<u8>) -> u8 {
    checksum_acc(data, 25)
}

/// The plain sum of the first `n` covered header bytes.
pub open spec fn cover_sum(data: Seq<u8>, n: nat) -> int
    decreases n,
{
    if n == 0 {
        0
    } else {
        cover_sum(data, (n - 1) as nat) + data[0x134 + n - 1]
    }
}

/// The folded checksum equals the negated byte sum, less the byte
/// count, reduced modulo 256.
pub proof fn lemma_checksum_closed_form(data: Seq<u8>, n: nat)
    requires
        0x134 + n <= data.len(),
    ensures
        checksum_acc(data, n) == (0 - cover_sum(data, n) - n) % 256,
    decreases n,
{
    if n > 0 {
        let m = (n - 1) as nat;
        lemma_checksum_closed_form(data, m);
        let d = data[0x134 + n - 1] as int;
        let x = 0 - cover_sum(data, m) - m;
        assert(checksum_acc(data, n) == ((x % 256) - d - 1) % 256);
        lemma_add_mod_noop_right(0 - d - 1, x, 256);
        assert((0 - d - 1 + (x % 256)) % 256 == (0 - d - 1 + x) % 256);
    }
}

/// Replacing one covered byte shifts the byte sum by exactly the
/// difference of the bytes.
pub proof fn lemma_cover_sum_update(data: Seq<u8>, n: nat, i: int, b: u8)
    requires
        0x134 + n <= data.len(),
        0x134 <= i < data.len(),
    ensures
        cover_sum(data.update(i, b), n) == cover_sum(data, n) + (if i < 0x134 + n {
            b - data[i]
        } else {
            0int
        }),
    decreases n,
{
    if n > 0 {
        lemma_cover_sum_update(data, (n - 1) as nat, i, b);
    }
}

/// Two remainders modulo 256 of values less than 256 apart differ
/// unless the values are equal.
proof fn lemma_mod_injective_nearby(a: int, b: int)
    requires
        -256 < a - b < 256,
        a % 256 == b % 256,
    ensures
        a == b,
{
    lemma_fundamental_div_mod(a, 256);
    lemma_fundamental_div_mod(b, 256);
}

/// Header-checksum sensitivity: replacing any single byte in the
/// covered range 0x134-0x14C with a different value changes the
/// computed checksum, so a previously valid header fails validation.
pub proof fn lemma_checksum_detects_flip(data: Seq<u8>, i: int, b: u8)
    requires
        data.len() >= 0x14E,
        0x134 <= i < 0x14D,
        b != data[i],
    ensures
        spec_header_checksum(data.update(i, b)) != spec_header_checksum(data),
        data.update(i, b)[0x14D] == data[0x14D],
{
    let data2 = data.update(i, b);
    lemma_checksum_closed_form(data, 25);
    lemma_checksum_closed_form(data2, 25);
    lemma_cover_sum_update(data, 25, i, b);
    let s = cover_sum(data, 25);
    let delta = b - data[i];
    assert(cover_sum(data2, 25) == s + delta);
    if spec_header_checksum(data2) == spec_header_checksum(data) {
        lemma_mod_injective_nearby(0 - s - delta - 25, 0 - s - 25);
    }
}

impl CartridgeView {
    /// Whether a byte written at `addr` is stored and read back: only
    /// the banked controller's external RAM range stores, and only while
    /// RAM is enabled and the selected bank index falls inside the owned
    /// bytes.
    pub open spec fn stores(self, addr: u16) -> bool {
        match self {
            CartridgeView::Mbc0 { data } => false,
            CartridgeView::Mbc1 { data, bank_number, ram_enabled, external_ram } => {
                &&& 0xA000 <= addr < 0xC000
                &&& ram_enabled
                &&& spec_ram_bank(bank_number) * 0x2000 + (addr - 0xA000) < external_ram.len()
            },
        }
    }
}

/// A byte written at a storing address reads back unchanged.
pub proof fn lemma_cart_store_read_back(c: CartridgeView, addr: u16, value: u8)
    requires
        c.stores(addr),
    ensures
        c.write_spec(addr, value).read_spec(addr) == value,
{
}

/// A write to a storing address leaves every other address unchanged:
/// it reads the same byte and stores if and only if it stored before.
pub proof fn lemma_cart_store_frame(c: CartridgeView, addr: u16, value: u8, other: u16)
    requires
        c.stores(addr),
        other != addr,
    ensures
        c.write_spec(addr, value).read_spec(other) == c.read_spec(other),
        c.write_spec(addr, value).stores(other) == c.stores(other),
{
}

/// A cartridge controller: byte-granular reads and writes over the
/// cartridge address ranges, with any bank-selection state mutated only
/// through writes to its control ranges.
pub trait MBC: Sized + View<V = CartridgeView> {
    fn read(&self, addr: u16) -> (r: u8)
        ensures
            r == self@.read_spec(addr),
    ;

    fn write(&mut self, addr: u16, value: u8)
        ensures
            final(self)@ == old(self)@.write_spec(addr, value),
    ;
}

/// The bankless controller: the ROM is mapped as-is and writes are
/// ignored.
#[derive(Debug)]
pub struct MBC0 {
    pub data: Vec<u8>,
}

impl View for MBC0 {
    type V = CartridgeView;

    open spec fn view(&self) -> CartridgeView {
        CartridgeView::Mbc0 { data: self.data@ }
    }
}

impl MBC0 {
    pub fn new(data: Vec<u8>) -> (r: MBC0)
        ensures
            r@ == (CartridgeView::Mbc0 { data: data@ }),
    {
        MBC0 { data }
    }
}

impl MBC for MBC0 {
    fn read(&self, addr: u16) -> (r: u8) {
        if (addr as usize) < self.data.len() {
            self.data[addr as usize]
        } else {
            0
        }
    }

    fn write(&mut self, addr: u16, value: u8) {
    }
}

/// The banked controller: ROM banks of 0x4000 bytes, optional external
/// RAM banks of 0x2000 bytes, and a packed bank-number register
/// (1 mode bit, 2 shared bits, 5 ROM-bank bits).
#[derive(Debug)]
pub struct MBC1 {
    pub data: Vec<u8>,
    /// Bank Number
    /// Bank Mode   RAM Bank Bits   ROM Bank Bits
    /// 1 bit       2 bit           5 bit
    pub bank_number: u8,
    pub ram_enabled: bool,
    pub external_ram: Vec<u8>,
}

impl View for MBC1 {
    type V = CartridgeView;

    open spec fn view(&self) -> CartridgeView {
        CartridgeView::Mbc1 {
            data: self.data@,
            bank_number: self.bank_number,
            ram_enabled: self.ram_enabled,
            external_ram: self.external_ram@,
        }
    }
}

impl MBC1 {
    pub fn new(data: Vec<u8>, external_ram: Vec<u8>) -> (r: MBC1)
        ensures
            r@ == (CartridgeView::Mbc1 {
                data: data@,
                bank_number: 0u8,
                ram_enabled: false,
                external_ram: external_ram@,
            }),
    {
        MBC1 { data, bank_number: 0, ram_enabled: false, external_ram }
    }

    pub fn bank_mode(&self) -> (r: BankMode)
        ensures
            r == spec_bank_mode(self.bank_number),
    {
        if self.bank_number >= 128 {
            BankMode::Rom
        } else {
            BankMode::Ram
        }
    }

    pub fn rom_bank(&self) -> (r: usize)
        ensures
            r == spec_rom_bank(self.bank_number),
    {
        (match self.bank_mode() {
            BankMode::Rom => self.bank_number % 128,
            BankMode::Ram => self.bank_number % 32,
        }) as usize
    }

    pub fn ram_bank(&self) -> (r: usize)
        ensures
            r == spec_ram_bank(self.bank_number),
    {
        (match self.bank_mode() {
            BankMode::Rom => 0,
            BankMode::Ram => self.bank_number / 32 % 4,
        }) as usize
    }
}

impl MBC for MBC1 {
    fn read(&self, addr: u16) -> (r: u8) {
        if addr < 0x4000 {
            if (addr as usize) < self.data.len() {
                self.data[addr as usize]
            } else {
                0
            }
        } else if addr < 0x6000 {
            let idx: usize = self.rom_bank() * 0x4000 + (addr as usize - 0x4000);
            if idx < self.data.len() {
                self.data[idx]
            } else {
                0
            }
        } else if 0xA000 <= addr && addr < 0xC000 {
            let idx: usize = self.ram_bank() * 0x2000 + (addr as usize - 0xA000);
            if self.ram_enabled && idx < self.external_ram.len() {
                self.external_ram[idx]
            } else {
                0
            }
        } else {
            0
        }
    }

    fn write(&mut self, addr: u16, value: u8) {
        if addr < 0x2000 {
            self.ram_enabled = value % 16 == 0x0A;
        } else if addr < 0x4000 {
            let lower: u8 = if value % 32 == 0 {
                1
            } else {
                value % 32
            };
            self.bank_number = self.bank_number / 32 * 32 + lower;
        } else if addr < 0x6000 {
            self.bank_number = self.bank_number / 128 * 128 + self.bank_number % 32 + value % 4
                * 32;
        } else if addr < 0x8000 {
            self.bank_number = self.bank_number % 128 + value % 2 * 128;
        } else if 0xA000 <= addr && addr < 0xC000 {
            let idx: usize = self.ram_bank() * 0x2000 + (addr as usize - 0xA000);
            if self.ram_enabled && idx < self.external_ram.len() {
                self.external_ram[idx] = value;
            }
        }
    }
}

/// The controller variants a ROM image can select at load time.
#[derive(Debug)]
pub enum Cartridge {
    Mbc0(MBC0),
    Mbc1(MBC1),
}

impl View for Cartridge {
    type V = CartridgeView;

    open spec fn view(&self) -> CartridgeView {
        match self {
            Cartridge::Mbc0(m) => m@,
            Cartridge::Mbc1(m) => m@,
        }
    }
}

impl MBC for Cartridge {
    fn read(&self, addr: u16) -> (r: u8) {
        match self {
            Cartridge::Mbc0(m) => m.read(addr),
            Cartridge::Mbc1(m) => m.read(addr),
        }
    }

    fn write(&mut self, addr: u16, value: u8) {
        match self {
            Cartridge::Mbc0(m) => m.write(addr, value),
            Cartridge::Mbc1(m) => m.write(addr, value),
        }
    }
}

/// Verifies the cartridge header checksum: the fold over the covered
/// bytes at 0x134-0x14C must equal the byte stored at 0x14D.
pub fn check_checksum(data: &Vec<u8>) -> (r: Result<(), MbcError>)
    requires
        data@.len() >= 0x14E,
    ensures
        r == if spec_header_checksum(data@) == data@[0x14D] {
            Ok::<(), MbcError>(())
        } else {
            Err::<(), MbcError>(MbcError::InvalidChecksum)
        },
{
    let mut value: u8 = 0;
    let mut i: usize = 0x134;
    while i < 0x14D
        invariant
            0x134 <= i <= 0x14D,
            data@.len() >= 0x14E,
            value == checksum_acc(data@, (i - 0x134) as nat),
        decreases 0x14D - i,
    {
        let d = data[i];
        proof {
            lemma_mod_add_multiples_vanish(value - d - 1 + 256, 256);
            lemma_mod_add_multiples_vanish(value - d - 1, 256);
        }
        value = ((value as u16 + 511 - d as u16) % 256) as u8;
        i += 1;
    }
    if value != data[0x14D] {
        Err(MbcError::InvalidChecksum)
    } else {
        Ok(())
    }
}

/// A fresh external RAM image: `len` bytes, all zero.
fn zeroed_ram(len: usize) -> (r: Vec<u8>)
    ensures
        r@ == Seq::new(len as nat, |i: int| 0u8),
{
    let mut r: Vec<u8> = Vec::new();
    let mut i: usize = 0;
    while i < len
        invariant
            i <= len,
            r@.len() == i,
            forall|j: int| 0 <= j < i ==> r@[j] == 0u8,
        decreases len - i,
    {
        r.push(0);
        i += 1;
    }
    proof {
        assert(r@ =~= Seq::new(len as nat, |i: int| 0u8));
    }
    r
}

/// Validates a ROM image and selects the cartridge controller its
/// header names: the image must be at least 0x150 bytes, its header
/// checksum must match, and the controller-type byte at 0x147 must name
/// a supported controller (0x00 bankless; 0x01 banked without RAM; 0x02
/// and 0x03 banked with a zeroed 0x2000-byte external RAM). Any other
/// type byte is unsupported and fatal.
pub fn new_mbc(data: Vec<u8>) -> (r: Result<Cartridge, MbcError>)
    ensures
        data@.len() < 0x150 ==> r == Err::<Cartridge, MbcError>(MbcError::RomTooSmall),
        data@.len() >= 0x150 && spec_header_checksum(data@) != data@[0x14D] ==> r == Err::<
            Cartridge,
            MbcError,
        >(MbcError::InvalidChecksum),
        data@.len() >= 0x150 && spec_header_checksum(data@) == data@[0x14D] ==> match data@[0x147] {
            0u8 => r matches Ok(c) && c@ == (CartridgeView::Mbc0 { data: data@ }),
            1u8 => r matches Ok(c) && c@ == (CartridgeView::Mbc1 {
                data: data@,
                bank_number: 0u8,
                ram_enabled: false,
                external_ram: Seq::<u8>::empty(),
            }),
            2u8 | 3u8 => r matches Ok(c) && c@ == (CartridgeView::Mbc1 {
                data: data@,
                bank_number: 0u8,
                ram_enabled: false,
                external_ram: Seq::new(0x2000, |i: int| 0u8),
            }),
            _ => r == Err::<Cartridge, MbcError>(MbcError::UnsupportedMbcType),
        },
{
    if data.len() < 0x150 {
        return Err(MbcError::RomTooSmall);
    }
    if let Err(e) = check_checksum(&data) {
        return Err(e);
    }
    match data[0x147] {
        0x00 => Ok(Cartridge::Mbc0(MBC0::new(data))),
        0x01 => Ok(Cartridge::Mbc1(MBC1::new(data, Vec::new()))),
        0x02 | 0x03 => {
            let ram = zeroed_ram(0x2000);
            Ok(Cartridge::Mbc1(MBC1::new(data, ram)))
        },
        _ => Err(MbcError::UnsupportedMbcType),
    }
}

} // verus!
