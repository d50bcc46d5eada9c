use stp_pow::Error;
use stp_pow::physics::total_stopping_powers;
use stp_pow::pipeline::{
    build_interpolant, stopping_power_table, stopping_power_table_cached,
    stopping_power_table_via_cache,
};
use stp_pow::spline::fit_spline;

const ME: f64 = 0.5109989461;

fn bits(v: &[f64]) -> Vec<u64> {
    v.iter().map(|x| x.to_bits()).collect()
}

fn sample_table() -> (Vec<u64>, Vec<u64>) {
    let e_k = [0.01f64, 0.1, 1.0, 10.0, 100.0, 1.0e4];
    let rad = [0.3f64, 0.8, 1.5, 2.9, 4.2, 9.7];
    (bits(&e_k), bits(&rad))
}

#[test]
fn single_knot_is_a_domain_error() {
    let x = vec![1.0f64.to_bits()];
    let y = vec![0.0f64.to_bits()];
    match fit_spline(&x, &y) {
        Err(Error::DomainError { .. }) => {},
        _ => panic!("one knot must fail the fit with a domain error"),
    }
}

#[test]
fn empty_table_is_a_domain_error() {
    match fit_spline(&vec![], &vec![]) {
        Err(Error::DomainError { index }) => assert_eq!(index, 0),
        _ => panic!("an empty knot set must fail the fit"),
    }
}

#[test]
fn non_monotone_knots_are_a_domain_error() {
    let x = bits(&[0.0f64, 2.0, 1.0, 3.0]);
    let y = bits(&[1.0f64, 1.0, 1.0, 1.0]);
    match fit_spline(&x, &y) {
        Err(Error::DomainError { index }) => assert_eq!(index, 1),
        _ => panic!("non-monotone abscissae must fail the fit"),
    }
}

#[test]
fn spline_interpolates_at_knots() {
    let (e_k, rad) = sample_table();
    let n_h = 0.1f64.to_bits();
    let s = match build_interpolant(&e_k, &rad, n_h) {
        Ok(s) => s,
        Err(_) => panic!("the sample table must fit"),
    };
    let ys = total_stopping_powers(&e_k, &rad, n_h);
    for i in 0..e_k.len() {
        let x = libm::log10(f64::from_bits(e_k[i])).to_bits();
        let got = f64::from_bits(s.value_at(x));
        let want = f64::from_bits(ys[i]);
        assert!((got - want).abs() < 1e-12, "knot {i}: {got} vs {want}");
    }
}

#[test]
fn two_knots_interpolate_linearly_in_log_energy() {
    // Both knots carry no radiative term; the ordinates are the
    // collisional values, and between the knots the interpolant is the
    // straight line in log-energy.
    let e_k = bits(&[0.01f64, 1.0e4]);
    let rad = bits(&[0.0f64, 0.0]);
    let n_h = 0.1f64.to_bits();
    let ys = total_stopping_powers(&e_k, &rad, n_h);
    let (y0, y1) = (f64::from_bits(ys[0]), f64::from_bits(ys[1]));
    let (x0, x1) = (libm::log10(0.01), libm::log10(1.0e4));
    let out = stopping_power_table(&e_k, &rad, n_h).unwrap();
    // Grid point 333 sits at x = -2 + step * 333, near log10(E) = 0.
    let step = (4.0 - (-2.0)) / (1000.0 - 1.0);
    let x = -2.0 + step * 333.0;
    let expect = y0 + (y1 - y0) / (x1 - x0) * (x - x0);
    assert_eq!(out.1[333], expect.to_bits());
    assert_eq!(out.0[333], libm::pow(10.0, x).to_bits());
}

#[test]
fn pipeline_is_deterministic_across_runs() {
    let (e_k, rad) = sample_table();
    let n_h = 0.1f64.to_bits();
    let first = stopping_power_table(&e_k, &rad, n_h).unwrap();
    let second = stopping_power_table(&e_k, &rad, n_h).unwrap();
    assert_eq!(first, second);
}

#[test]
fn cache_round_trip_is_bit_identical() {
    let (e_k, rad) = sample_table();
    let n_h = 0.1f64.to_bits();
    let fresh = stopping_power_table(&e_k, &rad, n_h).unwrap();
    let cached = stopping_power_table_via_cache(&e_k, &rad, n_h).unwrap();
    assert_eq!(fresh, cached);
    let s = match build_interpolant(&e_k, &rad, n_h) {
        Ok(s) => s,
        Err(_) => panic!("the sample table must fit"),
    };
    let from_bytes = stopping_power_table_cached(&s.to_cache_bytes()).unwrap();
    assert_eq!(fresh, from_bytes);
}

#[test]
fn cache_image_with_bad_knots_is_corrupt() {
    // Structurally decodable bytes whose knots are not strictly
    // increasing do not load either.
    let xs: Vec<u64> = vec![2.0f64.to_bits(), 1.0f64.to_bits()];
    let ys: Vec<u64> = vec![0.5f64.to_bits(), 0.25f64.to_bits()];
    let bytes = bincode::serialize(&(xs, ys)).unwrap();
    match stopping_power_table_cached(&bytes) {
        Err(e) => assert_eq!(e, Error::CacheCorrupt),
        Ok(_) => panic!("non-monotone cached knots must not load"),
    }
}

#[test]
fn corrupt_cache_is_reported() {
    let garbage: Vec<u8> = vec![0xFF; 64];
    match stopping_power_table_cached(&garbage) {
        Err(e) => assert_eq!(e, Error::CacheCorrupt),
        Ok(_) => panic!("random bytes must not load as a cached interpolant"),
    }
}
