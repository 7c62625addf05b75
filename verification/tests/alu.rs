//! Exhaustive table-driven checks of the flag-producing ALU primitives.
use gbcore::cpu::Flags;
use gbcore::cpu::Register;

fn fresh() -> Register {
    Register::new()
}

#[test]
fn add_all_operands() {
    let mut r = fresh();
    for v1 in 0u16..256 {
        for v2 in 0u16..256 {
            let got = r.alu_add(v1 as u8, v2 as u8);
            let sum = v1 + v2;
            assert_eq!(got as u16, sum % 256);
            assert_eq!(r.f.z, sum % 256 == 0);
            assert_eq!(r.f.n, false);
            assert_eq!(r.f.h, (v1 % 16) + (v2 % 16) > 0xF);
            assert_eq!(r.f.c, sum > 0xFF);
        }
    }
}

#[test]
fn adc_all_operands_and_carry() {
    for cin in [false, true] {
        let mut r = fresh();
        for v1 in 0u16..256 {
            for v2 in 0u16..256 {
                r.f = Flags { z: false, n: false, h: false, c: cin };
                let got = r.alu_adc(v1 as u8, v2 as u8);
                let sum = v1 + v2 + cin as u16;
                assert_eq!(got as u16, sum % 256);
                assert_eq!(r.f.z, sum % 256 == 0);
                assert_eq!(r.f.n, false);
                assert_eq!(r.f.h, (v1 % 16) + (v2 % 16) + cin as u16 > 0xF);
                assert_eq!(r.f.c, sum > 0xFF);
            }
        }
    }
}

#[test]
fn sub_all_operands() {
    let mut r = fresh();
    for v1 in 0i32..256 {
        for v2 in 0i32..256 {
            let got = r.alu_sub(v1 as u8, v2 as u8);
            let diff = (v1 - v2).rem_euclid(256);
            assert_eq!(got as i32, diff);
            assert_eq!(r.f.z, diff == 0);
            assert_eq!(r.f.n, true);
            assert_eq!(r.f.h, v1 % 16 < v2 % 16);
            assert_eq!(r.f.c, v1 < v2);
        }
    }
}

#[test]
fn sbc_all_operands_and_carry() {
    for cin in [false, true] {
        let mut r = fresh();
        for v1 in 0i32..256 {
            for v2 in 0i32..256 {
                r.f = Flags { z: false, n: false, h: false, c: cin };
                let got = r.alu_sbc(v1 as u8, v2 as u8);
                let diff = (v1 - v2 - cin as i32).rem_euclid(256);
                assert_eq!(got as i32, diff);
                assert_eq!(r.f.z, diff == 0);
                assert_eq!(r.f.n, true);
                assert_eq!(r.f.h, v1 % 16 < v2 % 16 + cin as i32);
                assert_eq!(r.f.c, v1 < v2 + cin as i32);
            }
        }
    }
}

#[test]
fn and_or_xor_all_operands() {
    let mut r = fresh();
    for v1 in 0u16..256 {
        for v2 in 0u16..256 {
            let a = v1 as u8;
            let b = v2 as u8;

            let got = r.alu_and(a, b);
            assert_eq!(got, a & b);
            assert!(r.f.z == (a & b == 0) && !r.f.n && r.f.h && !r.f.c);

            let got = r.alu_or(a, b);
            assert_eq!(got, a | b);
            assert!(r.f.z == (a | b == 0) && !r.f.n && !r.f.h && !r.f.c);

            let got = r.alu_xor(a, b);
            assert_eq!(got, a ^ b);
            assert!(r.f.z == (a ^ b == 0) && !r.f.n && !r.f.h && !r.f.c);
        }
    }
}

#[test]
fn inc_dec_all_operands_preserve_carry() {
    for cin in [false, true] {
        let mut r = fresh();
        for v in 0u16..256 {
            r.f = Flags { z: true, n: true, h: true, c: cin };
            let got = r.alu_inc(v as u8);
            assert_eq!(got as u16, (v + 1) % 256);
            assert_eq!(r.f.z, (v + 1) % 256 == 0);
            assert_eq!(r.f.n, false);
            assert_eq!(r.f.h, v % 16 == 0xF);
            assert_eq!(r.f.c, cin, "inc must never touch carry");

            r.f = Flags { z: true, n: false, h: true, c: cin };
            let got = r.alu_dec(v as u8);
            assert_eq!(got as u16, (v + 255) % 256);
            assert_eq!(r.f.z, (v + 255) % 256 == 0);
            assert_eq!(r.f.n, true);
            assert_eq!(r.f.h, v % 16 == 0);
            assert_eq!(r.f.c, cin, "dec must never touch carry");
        }
    }
}

#[test]
fn daa_all_inputs_match_bcd_correction() {
    for n in [false, true] {
        for h in [false, true] {
            for c in [false, true] {
                let mut r = fresh();
                for a in 0u16..256 {
                    r.f = Flags { z: false, n, h, c };
                    let got = r.alu_daa(a as u8);

                    // The standard BCD correction: 0x06 for the low
                    // nibble, 0x60 for the high one, added after an
                    // addition and subtracted after a subtraction.
                    let lo = h || (!n && a % 16 > 9);
                    let hi = c || (!n && a > 0x99);
                    let adjust = if hi { 0x60u16 } else { 0 } + if lo { 0x06u16 } else { 0 };
                    let expect = if !n { (a + adjust) % 256 } else { (a + 256 - adjust) % 256 };

                    assert_eq!(got as u16, expect);
                    assert_eq!(r.f.z, expect == 0);
                    assert_eq!(r.f.n, n, "daa keeps the subtract flag");
                    assert_eq!(r.f.h, false, "daa always clears half-carry");
                    assert_eq!(r.f.c, adjust >= 0x60);
                }
            }
        }
    }
}

#[test]
fn add_sixteen_bit_flags() {
    let mut r = fresh();
    r.f = Flags { z: true, n: true, h: false, c: false };
    let sum = r.alu_add_u16(0x0FFF, 0x0001);
    assert_eq!(sum, 0x1000);
    assert!(r.f.h, "carry out of bit 11");
    assert!(!r.f.c);
    assert!(r.f.z && r.f.n, "zero and subtract unaffected");

    let sum = r.alu_add_u16(0xFFFF, 0x0001);
    assert_eq!(sum, 0x0000);
    assert!(r.f.c, "carry out of bit 15");
}

#[test]
fn add_sp_signed_displacement() {
    let mut r = fresh();
    r.sp = 0xFFF8;
    let v = r.alu_add_sp_i8(0x08);
    assert_eq!(v, 0x0000, "positive displacement wraps");
    assert!(!r.f.z && !r.f.n, "zero and subtract cleared");

    r.sp = 0x0000;
    let v = r.alu_add_sp_i8(0xFF);
    assert_eq!(v, 0xFFFF, "negative displacement wraps");
}
