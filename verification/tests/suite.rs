use yttria_math::arithmetic::RadioVectorArithmetic;
use yttria_math::bits::YttriaVectorBitwise;
use yttria_math::complex::{divide_const_inplace, multiply, Complex, YttriaVectorComplex};
use yttria_math::fft::YttriaVectorComplexFft;
use yttria_math::firwin::{arange, firwin2, linspace, FirwinError};
use yttria_math::float::FloatVectorMath;
use yttria_math::scalar::Real;
use yttria_math::sqrt::RadioUnitSqrt;
use yttria_math::statistics::YttriaVectorStatistics;
use yttria_math::vec_utils::YttriaVectorUtils;
use yttria_math::windows::{cos_sum, hamming, hann};

fn r(x: f64) -> Real {
    Real { bits: x.to_bits() }
}

fn rv(xs: &[f64]) -> Vec<Real> {
    xs.iter().map(|&x| r(x)).collect()
}

fn fv(xs: &[Real]) -> Vec<f64> {
    xs.iter().map(|x| f64::from_bits(x.bits)).collect()
}

fn c(re: f64, im: f64) -> Complex {
    Complex { re: r(re), im: r(im) }
}

fn cv(xs: &[(f64, f64)]) -> Vec<Complex> {
    xs.iter().map(|&(re, im)| c(re, im)).collect()
}

fn cfv(xs: &[Complex]) -> Vec<(f64, f64)> {
    xs.iter().map(|x| (f64::from_bits(x.re.bits), f64::from_bits(x.im.bits))).collect()
}

#[test]
fn test_arange() {
    let range = arange(0, 10, 3);
    println!("{range:?}");
    assert_eq!(range, vec![0, 3, 6, 9]);
}

#[test]
fn test_linspace() {
    let space = linspace(r(3.0), r(10.0), 3, false);
    println!("{:?}", fv(&space));
    let delta = (10.0f64 - 3.0) / 3.0;
    let expected = [3.0f64 + delta * 0.0, 3.0 + delta * 1.0, 3.0 + delta * 2.0];
    for i in 0..3 {
        assert_eq!(space[i].bits, expected[i].to_bits());
    }
}

#[test]
fn test_firwin2() {
    let space = firwin2(
        10,
        &rv(&[0.0, 0.5, 0.5, 1.0]),
        &rv(&[1.0, 1.0, 0.0, 0.0]),
        false,
    )
    .unwrap();
    println!("{:?}", fv(&space));
}

#[test]
fn arithmetic_test_add_i32() {
    let one = rv(&[0.0, 1.0, 2.0, 3.0, 4.0, 5.0]);
    let two = rv(&[0.0, 1.0, -1.0, 1.0, -1.0, 1.0]);

    let out = one.add(&two);
    println!("{:?}", fv(&out));
    assert_eq!(fv(&out), vec![0.0, 2.0, 1.0, 4.0, 3.0, 6.0]);

    let out = out.add_const(r(2.0));
    println!("{:?}", fv(&out));
    assert_eq!(fv(&out), vec![2.0, 4.0, 3.0, 6.0, 5.0, 8.0]);
}

#[test]
fn arithmetic_test_diff_i32() {
    let test = rv(&[0.0, 1.0, 5.0, 11.0]);
    let interpd = test.diff();
    println!("{:?}", fv(&interpd));
    assert_eq!(fv(&interpd), vec![1.0, 4.0, 6.0]);
}

#[test]
fn arithmetic_test_diff_f32() {
    let test = rv(&[0.0, 1.0, 5.0, 11.0]);
    let interpd = test.diff();
    println!("{:?}", fv(&interpd));
}

#[test]
fn arithmetic_test_interp_f32() {
    let test = rv(&[-1.0, -0.5, 0.0, 0.5, 1.0, 1.5, 2.0, 2.5, 3.0]);
    let x = rv(&[0.0, 1.0, 2.0]);
    let y = rv(&[0.0, 1.0, 0.0]);
    let interpd = test.interp(&x, &y);
    println!("{:?}", fv(&interpd));
    assert_eq!(fv(&interpd), vec![0.0, 0.0, 0.0, 0.5, 1.0, 0.5, 0.0, 0.0, 0.0]);
}

#[test]
fn float_test_interp_f32() {
    let test = rv(&[-1.0, -0.5, 0.0, 0.5, 1.0, 1.5, 2.0, 2.5, 3.0]);
    let x = rv(&[0.0, 1.0, 2.0]);
    let y = rv(&[0.0, 1.0, 0.0]);
    let interpd = test.interp(&x, &y);
    println!("{:?}", fv(&interpd));
}

#[test]
fn test_unpack_bits() {
    let data: Vec<u8> = vec![129, 15];
    let expected_unpacked = [1, 0, 0, 0, 0, 0, 0, 1, 0, 0, 0, 0, 1, 1, 1, 1];
    let bits = data.unpackbits();
    println!("{bits:?}");

    assert!(bits.iter().eq(expected_unpacked.iter()));

    let recon_data = bits.packbits();
    println!("{recon_data:?}");

    assert!(data.iter().eq(recon_data.iter()));
}

#[test]
fn test_pack_into() {
    let data: Vec<u8> = vec![1, 0, 0, 0, 0, 0, 0, 1, 0, 0, 0, 0, 1, 1, 1, 1];
    let expected_packed: u64 = 33_039;

    let packed = data.pack_into();
    println!("{packed:b}");

    assert_eq!(packed, expected_packed);
}

#[test]
fn complex_test_real() {
    let test = cv(&[(0.0, 0.0), (1.0, 2.0), (2.0, 5.0), (3.0, 7.0), (4.0, 9.0)]);
    let split = test.real_part();
    assert_eq!(fv(&split), vec![0.0, 1.0, 2.0, 3.0, 4.0]);
}

#[test]
fn fft_test_real() {
    let test = cv(&[(0.0, 0.0), (1.0, 2.0), (2.0, 5.0), (3.0, 7.0), (4.0, 9.0)]);
    let _split = test.real_part();
}

#[test]
fn test_ifft() {
    let test = cv(&[(1.0, 0.0), (0.0, -1.0), (-1.0, 0.0)]);
    let fft = test.ifft();
    println!("{:?}", cfv(&fft));
}

#[test]
fn test_irfft() {
    let test = cv(&[(1.0, 0.0), (0.0, -1.0), (-1.0, 0.0), (2.0, 0.0), (0.0, 3.0)]);
    let fft = test.irfft();
    println!("{:?}", fv(&fft));
    assert_eq!(fft.len(), 2 * (5 - 1));
}

#[test]
fn test_mean_i32() {
    let test: Vec<i64> = vec![0, 1, 2, 3, 4, 5];
    let out = test.mean();
    println!("{out}");
    assert_eq!(out, 2);
}

#[test]
fn generic_test_add_i32() {
    let one = rv(&[0.0, 1.0, 2.0, 3.0, 4.0, 5.0]);
    let two = rv(&[0.0, 1.0, -1.0, 1.0, -1.0, 1.0]);

    let out = one.add(&two);
    println!("{:?}", fv(&out));

    let out = out.add_const(r(2.0));
    println!("{:?}", fv(&out));
}

#[test]
fn generic_test_diff_i32() {
    let test = rv(&[0.0, 1.0, 5.0, 11.0]);
    let interpd = test.diff();
    println!("{:?}", fv(&interpd));
}

#[test]
fn generic_test_diff_f32() {
    let test = rv(&[0.0, 1.0, 5.0, 11.0]);
    let interpd = test.diff();
    println!("{:?}", fv(&interpd));
}

#[test]
fn generic_test_fftshift() {
    let freqs = rv(&[0.0, 1.0, 2.0, 3.0, 4.0, -5.0, -4.0, -3.0, -2.0, -1.0]);
    let shifted = freqs.fftshift();
    println!("{:?}", fv(&shifted));
    assert_eq!(fv(&shifted), vec![-5.0, -4.0, -3.0, -2.0, -1.0, 0.0, 1.0, 2.0, 3.0, 4.0]);
}

#[test]
fn utils_test_fftshift() {
    let freqs = rv(&[0.0, 1.0, 2.0, 3.0, 4.0, -5.0, -4.0, -3.0, -2.0, -1.0]);
    let shifted = freqs.fftshift();
    println!("{:?}", fv(&shifted));
}

#[test]
fn test_hamming() {
    let test = hamming(20);
    println!("{:?}", fv(&test));
    let alpha = 25.0f64 / 46.0;
    for i in 0..20 {
        let expected = alpha
            - (1.0 - alpha) * (2.0 * std::f64::consts::PI * (i as f64) / (19 as f64)).cos();
        assert_eq!(test[i].bits, expected.to_bits());
    }
}

#[test]
fn test_hann_values() {
    let test = hann(4);
    for i in 0..4 {
        let expected = 0.5 - 0.5 * (2.0 * std::f64::consts::PI * (i as f64) / (3 as f64)).cos();
        assert_eq!(test[i].bits, expected.to_bits());
    }
}

#[test]
fn test_cos_sum_single_point_is_nan() {
    let test = cos_sum(1, r(0.5));
    assert_eq!(test.len(), 1);
    assert!(f64::from_bits(test[0].bits).is_nan());
}

fn naive_dft(x: &[(f64, f64)]) -> Vec<(f64, f64)> {
    let n = x.len();
    let mut out = Vec::new();
    for k in 0..n {
        let mut re = 0.0f64;
        let mut im = 0.0f64;
        for (j, &(xr, xi)) in x.iter().enumerate() {
            let ang = -2.0 * std::f64::consts::PI * (k as f64) * (j as f64) / (n as f64);
            re += xr * ang.cos() - xi * ang.sin();
            im += xr * ang.sin() + xi * ang.cos();
        }
        out.push((re, im));
    }
    out
}

#[test]
fn test_forward_transform_matches_reference() {
    let input = [(1.0, 0.0), (0.0, -1.0), (-1.0, 0.0)];
    let x = cv(&input);
    let transformed = x.fft();
    let expected = naive_dft(&input);
    let got = cfv(&transformed);
    for k in 0..3 {
        // the layer scales the forward transform by 1/N
        assert!((got[k].0 * 3.0 - expected[k].0).abs() < 1e-9);
        assert!((got[k].1 * 3.0 - expected[k].1).abs() < 1e-9);
    }
}

#[test]
fn test_irfft_length() {
    let half = cv(&[(1.0, 0.0), (0.5, 0.5), (0.0, 0.0)]);
    let time = half.irfft();
    assert_eq!(time.len(), 2 * (3 - 1));
}

#[test]
fn test_round_trip_scales_by_square() {
    let input = [(1.0, 0.5), (-2.0, 1.0), (0.25, -3.0), (4.0, 0.0)];
    let x = cv(&input);
    let back = x.ifft().fft();
    let got = cfv(&back);
    // both directions divide by N while the unnormalized engine pair
    // composes to N times the identity, so the round trip is not the
    // identity: it lands on x / N
    for k in 0..4 {
        assert!((got[k].0 - input[k].0 / 4.0).abs() < 1e-12);
        assert!((got[k].1 - input[k].1 / 4.0).abs() < 1e-12);
    }
}

#[test]
fn test_firwin2_type_ii_lowpass() {
    let taps = firwin2(
        10,
        &rv(&[0.0, 0.5, 0.5, 1.0]),
        &rv(&[1.0, 1.0, 0.0, 0.0]),
        false,
    )
    .unwrap();
    assert_eq!(taps.len(), 10);
    let vals = fv(&taps);
    for &v in &vals {
        assert!(v.is_finite());
    }
    for i in 0..10 {
        assert!((vals[i] - vals[9 - i]).abs() < 1e-12);
    }
}

#[test]
fn test_firwin2_type_iii_rejects_bad_gains() {
    // antisymmetric with an odd tap count must fail fast when a boundary
    // gain is not zero
    let err = firwin2(
        7,
        &rv(&[0.0, 0.5, 1.0]),
        &rv(&[1.0, 0.5, 0.0]),
        true,
    )
    .unwrap_err();
    assert_eq!(err, FirwinError::TypeIiiBoundaryGain);

    let err = firwin2(
        7,
        &rv(&[0.0, 0.5, 1.0]),
        &rv(&[0.0, 0.5, 1.0]),
        true,
    )
    .unwrap_err();
    assert_eq!(err, FirwinError::TypeIiiBoundaryGain);
}

#[test]
fn test_firwin2_type_ii_rejects_nyquist_gain() {
    let err = firwin2(
        10,
        &rv(&[0.0, 1.0]),
        &rv(&[1.0, 1.0]),
        false,
    )
    .unwrap_err();
    assert_eq!(err, FirwinError::TypeIiNyquistGain);
}

#[test]
fn test_firwin2_type_iv_rejects_zero_gain() {
    let err = firwin2(
        8,
        &rv(&[0.0, 1.0]),
        &rv(&[0.5, 1.0]),
        true,
    )
    .unwrap_err();
    assert_eq!(err, FirwinError::TypeIvZeroGain);
}

#[test]
fn test_firwin2_type_iii_center_tap_zero() {
    let taps = firwin2(
        9,
        &rv(&[0.0, 0.3, 0.7, 1.0]),
        &rv(&[0.0, 1.0, 1.0, 0.0]),
        true,
    )
    .unwrap();
    assert_eq!(taps.len(), 9);
    assert_eq!(taps[4].bits, 0u64);
    assert_eq!(f64::from_bits(taps[4].bits), 0.0);
}

#[test]
fn test_firwin2_response_boundaries() {
    let fx = yttria_math::firwin::firwin2_response(
        10,
        &rv(&[0.0, 0.5, 0.5, 1.0]),
        &rv(&[1.0, 1.0, 0.0, 0.0]),
    );
    // grid of 1 + 2^ceil(log2(10)) = 17 points; passband start and stopband
    // end take the boundary gains exactly
    assert_eq!(fx.len(), 17);
    assert_eq!(f64::from_bits(fx[0].bits), 1.0);
    assert_eq!(f64::from_bits(fx[16].bits), 0.0);
}

#[test]
fn test_firwin2_phases_values() {
    let phases = yttria_math::firwin::firwin2_phases(10);
    assert_eq!(phases.len(), 17);
    let delta = (1.0f64 - 0.0) / 16.0;
    let t3 = (10.0f64 - 1.0) / -2.0 * std::f64::consts::PI;
    for i in 0..17 {
        assert_eq!(f64::from_bits(phases[i].re.bits), 0.0);
        let x = 0.0 + delta * (i as f64);
        let expected = t3 * x / 1.0;
        assert_eq!(phases[i].im.bits, expected.to_bits());
    }
}

#[test]
fn test_interp_clamps_at_boundaries() {
    let xp = rv(&[0.0, 1.0]);
    let fp = rv(&[5.0, 7.0]);
    let below = rv(&[-1.0]).interp(&xp, &fp);
    assert_eq!(f64::from_bits(below[0].bits), 5.0);
    let above = rv(&[2.0]).interp(&xp, &fp);
    assert_eq!(f64::from_bits(above[0].bits), 7.0);
}

#[test]
fn test_interp_midpoint() {
    let xp = rv(&[0.0, 1.0]);
    let fp = rv(&[0.0, 10.0]);
    let mid = rv(&[0.5]).interp(&xp, &fp);
    assert_eq!(f64::from_bits(mid[0].bits), 5.0);
}

#[test]
fn test_elementwise_arithmetic_exact() {
    let a = rv(&[1.5]);
    let b = rv(&[2.25]);
    assert_eq!(fv(&a.add(&b)), vec![3.75]);
    assert_eq!(fv(&a.subtract(&b)), vec![-0.75]);
    assert_eq!(fv(&a.multiply(&b)), vec![3.375]);
    assert_eq!(fv(&rv(&[7.5]).divide(&rv(&[2.5]))), vec![3.0]);
    assert_eq!(fv(&rv(&[7.5]).divide_const(r(2.5))), vec![3.0]);
    assert_eq!(fv(&rv(&[1.5, 2.0]).multiply_const(r(2.0))), vec![3.0, 4.0]);
    assert_eq!(fv(&rv(&[4.0]).subtract_const(r(1.0))), vec![3.0]);
}

#[test]
fn test_multiply_inplace() {
    let mut a = rv(&[1.5, 2.0]);
    let b = rv(&[2.0, 0.5]);
    a.multiply_inplace(&b);
    assert_eq!(fv(&a), vec![3.0, 1.0]);
}

#[test]
fn test_sum_and_cumsum() {
    let a = rv(&[1.0, 2.0, 3.5]);
    assert_eq!(f64::from_bits(a.sum().bits), 6.5);
    assert_eq!(fv(&a.cumsum()), vec![1.0, 3.0, 6.5]);
}

#[test]
fn test_clamp_keeps_nan() {
    let a = rv(&[-1.0, 5.0, 10.0, f64::NAN]);
    let clamped = a.clamp(r(0.0), r(8.0));
    let vals = fv(&clamped);
    assert_eq!(&vals[0..3], &[0.0, 5.0, 8.0]);
    assert!(vals[3].is_nan());
}

#[test]
fn test_complex_multiply_exact() {
    let a = cv(&[(1.0, 2.0)]);
    let b = cv(&[(3.0, 4.0)]);
    let p = multiply(&a, &b);
    assert_eq!(cfv(&p), vec![(-5.0, 10.0)]);
}

#[test]
fn test_complex_divide_const_exact() {
    let mut v = cv(&[(10.0, 20.0)]);
    divide_const_inplace(&mut v, c(2.0, 0.0));
    assert_eq!(cfv(&v), vec![(5.0, 10.0)]);
}

#[test]
fn test_complex_conj_and_parts() {
    let v = cv(&[(1.0, 2.0), (3.0, -4.0)]);
    let conjd = v.conj();
    assert_eq!(cfv(&conjd), vec![(1.0, -2.0), (3.0, 4.0)]);
    assert_eq!(fv(&v.imag()), vec![2.0, -4.0]);
    let mut w = v.clone();
    w.conj_inplace();
    assert_eq!(cfv(&w), cfv(&conjd));
}

#[test]
fn test_complex_exp_matches_formula() {
    let v = cv(&[(0.0, std::f64::consts::PI)]);
    let e = v.exp();
    let expected_re = 0.0f64.exp() * std::f64::consts::PI.cos();
    let expected_im = 0.0f64.exp() * std::f64::consts::PI.sin();
    assert_eq!(e[0].re.bits, expected_re.to_bits());
    assert_eq!(e[0].im.bits, expected_im.to_bits());
}

#[test]
fn test_map_exact() {
    let out = yttria_math::firwin::map(r(5.0), r(0.0), r(10.0), r(0.0), r(100.0));
    assert_eq!(f64::from_bits(out.bits), 50.0);
}

#[test]
fn test_unit_sqrt() {
    assert_eq!(17u64.sqrt(), 4);
    assert_eq!(16u32.sqrt(), 4);
    assert_eq!(15u16.sqrt(), 3);
    assert_eq!(255u8.sqrt(), 15);
    assert_eq!(1_000_000usize.sqrt(), 1000);
}

#[test]
fn test_statistics_exact() {
    let v: Vec<i64> = vec![0, 1, 2, 3, 4, 5];
    assert_eq!(YttriaVectorStatistics::min(&v), 0);
    assert_eq!(YttriaVectorStatistics::max(&v), 5);
    assert_eq!(v.extremes(), (0, 5));
    assert_eq!(v.mean(), 2);
    assert_eq!(v.var(), 3);
    assert_eq!(v.std_dev(), 1);

    let w: Vec<i64> = vec![-7, 3];
    assert_eq!(w.mean(), -2);
}

#[test]
fn test_vec_utils_exact() {
    let v = rv(&[1.0, 2.0]);
    assert_eq!(fv(&v.repeat(3)), vec![1.0, 1.0, 1.0, 2.0, 2.0, 2.0]);
    assert_eq!(fv(&v.tile(3)), vec![1.0, 2.0, 1.0, 2.0, 1.0, 2.0]);
    assert_eq!(fv(&v.concatenate(&rv(&[3.0]))), vec![1.0, 2.0, 3.0]);

    let w = rv(&[1.0, 2.0, 3.0, 4.0, 5.0]);
    assert_eq!(fv(&w.roll(2)), vec![3.0, 4.0, 5.0, 1.0, 2.0]);

    // the sequential in-place roll overwrites as it goes, so later slots
    // read already-rolled values
    let mut p = rv(&[1.0, 2.0, 3.0, 4.0, 5.0]);
    p.roll_in_place(2);
    assert_eq!(fv(&p), vec![3.0, 4.0, 5.0, 3.0, 4.0]);
}

#[test]
fn test_powi_exact() {
    let mut v = rv(&[2.0, 3.0]);
    let cubed = v.powi(3);
    assert_eq!(fv(&cubed), vec![8.0, 27.0]);
    let zeroth = v.powi(0);
    assert_eq!(fv(&zeroth), vec![1.0, 1.0]);
    let mut w = rv(&[4.0]);
    w.powi_inplace(2);
    assert_eq!(fv(&w), vec![16.0]);
}

#[test]
fn test_trapz_exact() {
    let a = rv(&[1.0, 2.0, 3.0]);
    // one trapezoid step per adjacent pair: 1*2/2 + 2*3/2
    assert_eq!(f64::from_bits(a.trapz().bits), 4.0);
}

#[test]
fn test_convolve_exact() {
    let a = rv(&[1.0, 2.0, 3.0]);
    let kernel = rv(&[1.0, 1.0, 1.0]);
    let out = a.convolve(&kernel);
    // the sum at slot o stops before kernel index o, so the first slot
    // stays zero
    assert_eq!(fv(&out), vec![0.0, 2.0, 5.0]);
}

#[test]
fn test_angle_unwrap_matches_recurrence() {
    let data = [0.0f64, 3.0, 6.0];
    let unwrapped = rv(&data).angle_unwrap(None);
    let p = 2.0 * std::f64::consts::PI;
    let d = p / 2.0;
    let mut expected = vec![0.0f64];
    for i in 1..3 {
        let wrapped = (data[i] - data[i - 1] + d).rem_euclid(p) - d;
        let prev = expected[i - 1];
        expected.push(prev + wrapped);
    }
    for i in 0..3 {
        assert_eq!(unwrapped[i].bits, expected[i].to_bits());
    }
}

#[test]
fn test_angle_unwrap_in_place_reads_unwrapped_prefix() {
    let data = [0.0f64, 6.0, 6.0];
    let mut buf = rv(&data);
    buf.angle_unwrap_in_place(None);
    let p = 2.0 * std::f64::consts::PI;
    let d = p / 2.0;
    // the in-place variant diffs against the already-unwrapped slot
    let u1 = 0.0 + ((6.0 - 0.0 + d).rem_euclid(p) - d);
    let u2 = u1 + ((6.0 - u1 + d).rem_euclid(p) - d);
    assert_eq!(buf[0].bits, (0.0f64).to_bits());
    assert_eq!(buf[1].bits, u1.to_bits());
    assert_eq!(buf[2].bits, u2.to_bits());
}

#[test]
fn test_mean_if32() {
    let test = rv(&[0.0, 1.0, 2.0, 3.0, 4.0, 5.0]);
    let out = FloatVectorMath::mean(&test);
    println!("{}", f64::from_bits(out.bits));
    assert_eq!(f64::from_bits(out.bits), 2.5);
}

#[test]
fn test_float_extremes() {
    let v = rv(&[3.0, -1.0, 2.0]);
    assert_eq!(f64::from_bits(FloatVectorMath::min(&v).bits), -1.0);
    assert_eq!(f64::from_bits(FloatVectorMath::max(&v).bits), 3.0);
    let (low, high) = v.extremes();
    assert_eq!(f64::from_bits(low.bits), -1.0);
    assert_eq!(f64::from_bits(high.bits), 3.0);
}

#[test]
fn test_float_sqrt() {
    let v = rv(&[4.0, 2.0]);
    let roots = FloatVectorMath::sqrt(&v);
    assert_eq!(roots[0].bits, (2.0f64).to_bits());
    assert_eq!(roots[1].bits, (2.0f64).sqrt().to_bits());
    let mut w = rv(&[9.0]);
    w.sqrt_inplace();
    assert_eq!(fv(&w), vec![3.0]);
}

#[test]
fn test_float_statistics() {
    let v = rv(&[1.0, 2.0, 3.0, 4.0]);
    assert_eq!(f64::from_bits(FloatVectorMath::mean(&v).bits), 2.5);
    assert_eq!(f64::from_bits(FloatVectorMath::var(&v).bits), 1.25);
    assert_eq!(FloatVectorMath::std_dev(&v).bits, (1.25f64).sqrt().to_bits());
}

#[test]
fn test_linspace_endpoint() {
    let space = linspace(r(0.0), r(1.0), 5, true);
    assert_eq!(fv(&space), vec![0.0, 0.25, 0.5, 0.75, 1.0]);
}
