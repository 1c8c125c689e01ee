use nes::cpu::Cpu;

fn fresh_cpu() -> Cpu {
    Cpu {
        pc: 0,
        a: 0,
        x: 0,
        y: 0,
        sp: 0,
        n: false,
        v: false,
        d: false,
        i: false,
        z: false,
        c: false,
    }
}

#[test]
fn load_sets_negative_and_zero_like_the_high_bit_and_zero_test() {
    for v in 0..=255u8 {
        let mut cpu = fresh_cpu();
        cpu.lda(v);
        assert_eq!(cpu.a, v);
        assert_eq!(cpu.n, (v >> 7) == 1);
        assert_eq!(cpu.z, v == 0);
        let mut cpu = fresh_cpu();
        cpu.ldx(v);
        assert_eq!(cpu.n, (v >> 7) == 1);
        assert_eq!(cpu.z, v == 0);
        let mut cpu = fresh_cpu();
        cpu.ldy(v);
        assert_eq!(cpu.n, (v >> 7) == 1);
        assert_eq!(cpu.z, v == 0);
    }
}

#[test]
fn logic_and_shift_results_set_negative_and_zero() {
    for v in 0..=255u8 {
        let mut cpu = fresh_cpu();
        cpu.a = 0xff;
        cpu.and(v);
        assert_eq!(cpu.n, (v >> 7) == 1);
        assert_eq!(cpu.z, v == 0);

        let mut cpu = fresh_cpu();
        let r = cpu.asl(v);
        assert_eq!(r, v << 1);
        assert_eq!(cpu.c, (v >> 7) == 1);
        assert_eq!(cpu.n, (r >> 7) == 1);
        assert_eq!(cpu.z, r == 0);

        let mut cpu = fresh_cpu();
        let r = cpu.lsr(v);
        assert_eq!(r, v >> 1);
        assert_eq!(cpu.c, (v & 1) == 1);
        assert_eq!(cpu.n, false);
        assert_eq!(cpu.z, r == 0);

        let mut cpu = fresh_cpu();
        cpu.c = true;
        let r = cpu.rol(v);
        assert_eq!(r, (v << 1) | 1);
        assert_eq!(cpu.c, (v >> 7) == 1);

        let mut cpu = fresh_cpu();
        cpu.c = true;
        let r = cpu.ror(v);
        assert_eq!(r, (v >> 1) | 0x80);
        assert_eq!(cpu.c, (v & 1) == 1);
    }
}

#[test]
fn adc_reference_overflow_vectors() {
    // The classic signed-overflow table for add-with-carry, carry clear.
    let cases: [(u8, u8, u8, bool, bool); 8] = [
        (0x50, 0x10, 0x60, false, false),
        (0x50, 0x50, 0xa0, false, true),
        (0x50, 0x90, 0xe0, false, false),
        (0x50, 0xd0, 0x20, true, false),
        (0xd0, 0x10, 0xe0, false, false),
        (0xd0, 0x50, 0x20, true, false),
        (0xd0, 0x90, 0x60, true, true),
        (0xd0, 0xd0, 0xa0, true, false),
    ];
    for (a, m, want, want_c, want_v) in cases {
        let mut cpu = fresh_cpu();
        cpu.a = a;
        cpu.adc(m);
        assert_eq!(cpu.a, want);
        assert_eq!(cpu.c, want_c);
        assert_eq!(cpu.v, want_v);
        assert_eq!(cpu.n, (want >> 7) == 1);
        assert_eq!(cpu.z, want == 0);
    }
}

#[test]
fn sbc_reference_overflow_vectors() {
    // The classic signed-overflow table for subtract-with-carry, carry set.
    let cases: [(u8, u8, u8, bool, bool); 8] = [
        (0x50, 0xf0, 0x60, false, false),
        (0x50, 0xb0, 0xa0, false, true),
        (0x50, 0x70, 0xe0, false, false),
        (0x50, 0x30, 0x20, true, false),
        (0xd0, 0xf0, 0xe0, false, false),
        (0xd0, 0xb0, 0x20, true, false),
        (0xd0, 0x70, 0x60, true, true),
        (0xd0, 0x30, 0xa0, true, false),
    ];
    for (a, m, want, want_c, want_v) in cases {
        let mut cpu = fresh_cpu();
        cpu.a = a;
        cpu.c = true;
        cpu.sbc(m);
        assert_eq!(cpu.a, want);
        assert_eq!(cpu.c, want_c);
        assert_eq!(cpu.v, want_v);
    }
}

#[test]
fn adc_then_sbc_restores_the_accumulator_where_carries_differ() {
    // For every (a, b, c) with carry-out differing from carry-in, the
    // subtraction of the same operand with the resulting carry is the
    // inverse of the addition.
    for a in 0..=255u8 {
        for b in 0..=255u8 {
            for c in [false, true] {
                let mut cpu = fresh_cpu();
                cpu.a = a;
                cpu.c = c;
                cpu.adc(b);
                let carry_out = cpu.c;
                if carry_out != c {
                    cpu.sbc(b);
                    assert_eq!(cpu.a, a);
                }
            }
        }
    }
}

#[test]
fn adc_then_sbc_off_by_one_where_carries_agree() {
    // a = 0, b = 0, carry clear: the round trip yields 255, not 0.
    let mut cpu = fresh_cpu();
    cpu.adc(0);
    assert!(!cpu.c);
    cpu.sbc(0);
    assert_eq!(cpu.a, 0xff);
}

#[test]
fn compare_sets_carry_as_no_borrow() {
    for a in [0u8, 1, 0x7f, 0x80, 0xff] {
        for m in [0u8, 1, 0x7f, 0x80, 0xff] {
            let mut cpu = fresh_cpu();
            cpu.a = a;
            cpu.cmp(m);
            assert_eq!(cpu.c, a >= m);
            assert_eq!(cpu.z, a == m);
            assert_eq!(cpu.n, (a.wrapping_sub(m) >> 7) == 1);
        }
    }
}

#[test]
fn bit_copies_the_operand_high_bits() {
    let mut cpu = fresh_cpu();
    cpu.a = 0x0f;
    cpu.bit(0xc0);
    assert!(cpu.n);
    assert!(cpu.v);
    assert!(cpu.z);
    cpu.a = 0xff;
    cpu.bit(0x01);
    assert!(!cpu.n);
    assert!(!cpu.v);
    assert!(!cpu.z);
}

#[test]
fn flag_instructions_touch_one_flag() {
    let mut cpu = fresh_cpu();
    cpu.sec();
    assert!(cpu.c);
    cpu.sed();
    assert!(cpu.d);
    cpu.sei();
    assert!(cpu.i);
    cpu.clc();
    assert!(!cpu.c);
    assert!(cpu.d && cpu.i);
    cpu.cld();
    cpu.cli();
    assert!(!cpu.d && !cpu.i);
    cpu.v = true;
    cpu.clv();
    assert!(!cpu.v);
}

#[test]
fn increments_and_decrements_wrap() {
    let mut cpu = fresh_cpu();
    cpu.x = 0xff;
    cpu.inx();
    assert_eq!(cpu.x, 0);
    assert!(cpu.z);
    cpu.dex();
    assert_eq!(cpu.x, 0xff);
    assert!(cpu.n);
    cpu.y = 0;
    cpu.dey();
    assert_eq!(cpu.y, 0xff);
    let r = cpu.inc(0xff);
    assert_eq!(r, 0);
    let r = cpu.dec(0);
    assert_eq!(r, 0xff);
}
