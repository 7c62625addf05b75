//! Header validation, controller selection and banked-controller
//! behavior.
use gbcore::mbc::check_checksum;
use gbcore::mbc::new_mbc;
use gbcore::mbc::BankMode;
use gbcore::mbc::Cartridge;
use gbcore::mbc::MbcError;
use gbcore::mbc::MBC1;
use gbcore::mbc::MBC;

/// A minimal ROM image with the given controller-type byte and a
/// correct header checksum.
fn rom_with(mbc_type: u8) -> Vec<u8> {
    let mut data = vec![0u8; 0x150];
    data[0x147] = mbc_type;
    let mut v: u8 = 0;
    for i in 0x134..0x14D {
        v = v.wrapping_sub(data[i]).wrapping_sub(1);
    }
    data[0x14D] = v;
    data
}

#[test]
fn checksum_known_valid_header_passes() {
    let data = rom_with(0x00);
    assert!(check_checksum(&data).is_ok());
}

#[test]
fn checksum_fails_for_any_single_byte_flip() {
    let data = rom_with(0x00);
    for i in 0x134..0x14D {
        let mut bad = data.clone();
        bad[i] ^= 0x5A;
        assert_eq!(
            check_checksum(&bad),
            Err(MbcError::InvalidChecksum),
            "flip at {i:#x} must fail validation"
        );
    }
}

#[test]
fn rom_too_small_is_rejected() {
    assert_eq!(new_mbc(vec![0u8; 0x14F]).err(), Some(MbcError::RomTooSmall));
    assert_eq!(new_mbc(Vec::new()).err(), Some(MbcError::RomTooSmall));
}

#[test]
fn bad_checksum_is_rejected() {
    let mut data = rom_with(0x00);
    data[0x140] = 7;
    assert_eq!(new_mbc(data).err(), Some(MbcError::InvalidChecksum));
}

#[test]
fn unsupported_controller_types_are_rejected() {
    for t in [0x05u8, 0x06, 0x0F, 0x13, 0x19, 0x1E, 0xFF] {
        assert_eq!(
            new_mbc(rom_with(t)).err(),
            Some(MbcError::UnsupportedMbcType),
            "type {t:#x} must be unsupported"
        );
    }
}

#[test]
fn supported_controller_types_are_selected() {
    assert!(matches!(new_mbc(rom_with(0x00)), Ok(Cartridge::Mbc0(_))));
    assert!(matches!(new_mbc(rom_with(0x01)), Ok(Cartridge::Mbc1(_))));
    match new_mbc(rom_with(0x02)) {
        Ok(Cartridge::Mbc1(m)) => assert_eq!(m.external_ram.len(), 0x2000),
        other => panic!("expected a banked controller with RAM, got {other:?}"),
    }
    match new_mbc(rom_with(0x03)) {
        Ok(Cartridge::Mbc1(m)) => assert_eq!(m.external_ram.len(), 0x2000),
        other => panic!("expected a banked controller with RAM, got {other:?}"),
    }
}

#[test]
fn mbc0_reads_rom_ignores_writes() {
    let mut data = rom_with(0x00);
    data[0x0042] = 0xAB;
    let mut cart = new_mbc(data).unwrap();
    assert_eq!(cart.read(0x0042), 0xAB);
    cart.write(0x0042, 0x11);
    assert_eq!(cart.read(0x0042), 0xAB, "bankless controller ignores writes");
    assert_eq!(cart.read(0xA000), 0, "no external RAM reads zero");
}

#[test]
fn mbc1_ram_enable_and_store() {
    let mut m = MBC1::new(rom_with(0x03), vec![0u8; 0x2000]);
    m.write(0xA010, 0x77);
    assert_eq!(m.read(0xA010), 0, "disabled RAM discards writes and reads zero");
    m.write(0x0000, 0x0A);
    assert!(m.ram_enabled);
    m.write(0xA010, 0x77);
    assert_eq!(m.read(0xA010), 0x77);
    m.write(0x0000, 0x00);
    assert_eq!(m.read(0xA010), 0, "disabling RAM hides it again");
}

#[test]
fn mbc1_bank_number_register() {
    let mut m = MBC1::new(rom_with(0x01), Vec::new());
    assert!(matches!(m.bank_mode(), BankMode::Ram));
    assert_eq!(m.rom_bank(), 0);
    m.write(0x2000, 0x00);
    assert_eq!(m.rom_bank(), 1, "a zero write selects bank one");
    m.write(0x2000, 0x1F);
    assert_eq!(m.rom_bank(), 0x1F);
    m.write(0x4000, 0x03);
    assert_eq!(m.ram_bank(), 3);
    m.write(0x6000, 0x01);
    assert!(matches!(m.bank_mode(), BankMode::Rom));
    assert_eq!(m.ram_bank(), 0, "shared bits lent to the ROM bank");
    assert_eq!(m.rom_bank(), 0x7F & (0x60 | 0x1F));
}
