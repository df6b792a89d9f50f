use idsp::shift_pll::ShiftPLL;

#[test]
fn shift_pll_step_response() {
    let mut p = ShiftPLL::default();
    assert_eq!(p.update(Some(0x10000), 8, 4), (0x87c, 0x1078));
}

#[test]
fn shift_pll_converge() {
    let mut p = ShiftPLL::default();
    let f0 = 0x71f63049_i32;
    let (shift_frequency, shift_phase) = (10, 9);
    let n = 31 << (shift_frequency + 2);
    let mut x = 0i32;
    for i in 0..n {
        x = x.wrapping_add(f0);
        let (y, f) = p.update(Some(x), shift_frequency, shift_phase);
        if i > n / 4 {
            assert!(f.wrapping_sub(f0).abs() <= 1 << 10);
        }
        if i > n / 2 {
            assert!(y.wrapping_sub(x).abs() < 1 << 18);
        }
    }
}

#[test]
fn shift_pll_missing_sample_extrapolates() {
    let mut p = ShiftPLL::default();
    let f0 = 0x0100_0000_i32;
    let mut x = 0i32;
    for _ in 0..4000 {
        x = x.wrapping_add(f0);
        p.update(Some(x), 8, 4);
    }
    let before = p;
    let (y, f) = p.update(None, 8, 4);
    x = x.wrapping_add(f0);
    assert_eq!(p.f, before.f);
    assert_eq!(p.x, before.x.wrapping_add(before.f));
    assert!(y.wrapping_sub(x).abs() < 1 << 12);
    assert!(f.wrapping_sub(f0).abs() < 1 << 4);
}

#[test]
fn shift_pll_rounds_half_up() {
    // df = (0x180 + 0x80) >> 8 = 2, so the midpoint frequency is 1;
    // dy = (0x180 - 1 + 1) >> 1 = 0xc0, so the midpoint phase is 0xc1 - 0x60.
    let mut p = ShiftPLL::default();
    assert_eq!(p.update(Some(0x180), 8, 1), (0x61, 0xc1));
    assert_eq!((p.x, p.f, p.y), (0x180, 2, 0xc1));
}

#[test]
fn shift_pll_locked_stays_locked() {
    let f0 = -0x7000_0000_i32;
    let mut p = ShiftPLL { x: 0x7fff_fff0, f: f0, y: 0x7fff_fff0 };
    let x = 0x7fff_fff0_i32.wrapping_add(f0);
    assert_eq!(p.update(Some(x), 12, 3), (x, f0));
    assert_eq!((p.x, p.f, p.y), (x, f0, x));
}
