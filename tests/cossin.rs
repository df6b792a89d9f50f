use core::f64::consts::PI;
use idsp::cossin::cossin;

#[test]
fn cossin_error_max_rms_all_phase() {
    // Constant amplitude error due to LUT data range.
    const AMPLITUDE: f64 = (1i64 << 31) as f64 - 0.85 * (1i64 << 15) as f64;
    const MAX_PHASE: f64 = (1i64 << 32) as _;
    let mut rms_err = (0f64, 0f64);
    let mut sum_err = (0f64, 0f64);
    let mut max_err = (0f64, 0f64);
    let mut sum = (0f64, 0f64);
    let mut demod = (0f64, 0f64);

    // log2 of the number of phase values to check
    const PHASE_DEPTH: usize = 20;

    for phase in 0..(1 << PHASE_DEPTH) {
        let phase = (phase << (32 - PHASE_DEPTH)) as i32;
        let have = cossin(phase);

        let have = (have.0 as f64 / AMPLITUDE, have.1 as f64 / AMPLITUDE);

        let radian_phase = 2. * PI * phase as f64 / MAX_PHASE;
        let want = (radian_phase.cos(), radian_phase.sin());

        sum.0 += have.0;
        sum.1 += have.1;

        demod.0 += have.0 * want.0 - have.1 * want.1;
        demod.1 += have.1 * want.0 + have.0 * want.1;

        let err = (have.0 - want.0, have.1 - want.1);

        sum_err.0 += err.0;
        sum_err.1 += err.1;

        rms_err.0 += err.0 * err.0;
        rms_err.1 += err.1 * err.1;

        max_err.0 = max_err.0.max(err.0.abs());
        max_err.1 = max_err.1.max(err.1.abs());
    }
    rms_err.0 /= (1 << PHASE_DEPTH) as f64;
    rms_err.1 /= (1 << PHASE_DEPTH) as f64;

    println!("sum: {:.2e} {:.2e}", sum.0, sum.1);
    println!("demod: {:.2e} {:.2e}", demod.0, demod.1);
    println!("sum_err: {:.2e} {:.2e}", sum_err.0, sum_err.1);
    println!("rms: {:.2e} {:.2e}", rms_err.0.sqrt(), rms_err.1.sqrt());
    println!("max: {:.2e} {:.2e}", max_err.0, max_err.1);

    assert!(sum.0.abs() < 4e-10);
    assert!(sum.1.abs() < 3e-8);

    assert!(demod.0.abs() < 4e-10);
    assert!(demod.1.abs() < 1e-8);

    assert!(sum_err.0.abs() < 4e-10);
    assert!(sum_err.1.abs() < 4e-10);

    assert!(rms_err.0.sqrt() < 4e-6);
    assert!(rms_err.1.sqrt() < 4e-6);

    assert!(max_err.0 < 1e-5);
    assert!(max_err.1 < 1e-5);
}

#[test]
fn cossin_zero_phase_is_full_scale_cosine() {
    assert_eq!(cossin(0), (2147454703, -1898));
}

#[test]
fn cossin_quarter_turns() {
    let (c, s) = cossin(0);
    assert_eq!(cossin(1 << 30), (-s, c));
    assert_eq!(cossin(i32::MIN), (-c, -s));
    assert_eq!(cossin(-(1 << 30)), (s, -c));
    let p = 0x1234_5678;
    let (c, s) = cossin(p);
    assert_eq!(cossin(p.wrapping_add(1 << 30)), (-s, c));
}

#[test]
fn cossin_octant_mirror_swaps() {
    for p in [0, 1, 0x0123_4567, 0x1fff_ffff, 0x2000_0000, 0x3fff_ffff] {
        let (c, s) = cossin(p);
        assert_eq!(cossin(0x3fff_ffff - p), (s, c));
    }
}

#[test]
fn cossin_eighth_turn_is_balanced() {
    // Both components are close to sqrt(1/2) of full scale at pi/4.
    let (c, s) = cossin(1 << 29);
    assert_eq!((c, s), (1518488231, 1518478556));
}
