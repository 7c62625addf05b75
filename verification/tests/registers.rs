//! Register-pair round trips and 16-bit wrap behavior.
use gbcore::cpu::Register;
use gbcore::instruct::Reg;

#[test]
fn new_register_reset_state() {
    let r = Register::new();
    assert_eq!(r.a, 0);
    assert_eq!(r.b, 0);
    assert_eq!(r.f.bits(), 0);
    assert_eq!(r.pc, 0x0100);
    assert_eq!(r.sp, 0xFFFE);
}

#[test]
fn pair_round_trip_bc_de_hl() {
    let mut r = Register::new();
    for x in 0u32..0x10000 {
        let x = x as u16;
        r.set_bc(x);
        assert_eq!(r.get_bc(), x);
        r.set_de(x);
        assert_eq!(r.get_de(), x);
        r.set_hl(x);
        assert_eq!(r.get_hl(), x);
    }
}

#[test]
fn pair_round_trip_af_low_nibble_reads_zero() {
    let mut r = Register::new();
    for x in 0u32..0x10000 {
        let x = x as u16;
        r.set_af(x);
        let back = r.get_af();
        assert_eq!(back, x & 0xFFF0, "flag low nibble reads back as zero");
        assert_eq!(back % 16, 0);
    }
}

#[test]
fn named_pair_round_trip() {
    let mut r = Register::new();
    r.set_pair(Reg::BC, 0xBEEF);
    assert_eq!(r.get_pair(Reg::BC), 0xBEEF);
    assert_eq!(r.b, 0xBE);
    assert_eq!(r.c, 0xEF);
    r.set_pair(Reg::SP, 0x1234);
    assert_eq!(r.sp, 0x1234);
}

#[test]
fn flag_byte_composition() {
    let mut r = Register::new();
    r.set_af(0x00F0);
    assert!(r.f.z && r.f.n && r.f.h && r.f.c);
    r.set_af(0x0080);
    assert!(r.f.z && !r.f.n && !r.f.h && !r.f.c);
    r.set_af(0x0010);
    assert!(!r.f.z && !r.f.n && !r.f.h && r.f.c);
}
