use stp_pow::physics::{
    approx_linear_stopping_power, convert_mass_to_linear, total_energy, total_stopping_powers,
};

const ME: f64 = 0.5109989461;
const MH: f64 = 1.6735575e-24;

#[test]
fn unit_conversion_formula() {
    for &(s, n) in &[(0.0f64, 0.1f64), (2.5, 0.1), (1.75e3, 0.25), (9.9e-7, 123.0)] {
        let got = convert_mass_to_linear(s.to_bits(), n.to_bits());
        let expect = s * n * MH;
        assert_eq!(got, expect.to_bits());
    }
}

#[test]
fn unit_conversion_zero() {
    for &n in &[0.1f64, 1.0, 7.25e3] {
        let got = f64::from_bits(convert_mass_to_linear(0.0f64.to_bits(), n.to_bits()));
        assert_eq!(got, 0.0);
    }
}

#[test]
fn unit_conversion_scales_with_density() {
    // Scaling the density by a power of two is exact in double precision.
    let s = 3.7f64;
    let n = 0.1f64;
    let k = 4.0f64;
    let base = f64::from_bits(convert_mass_to_linear(s.to_bits(), n.to_bits()));
    let scaled = f64::from_bits(convert_mass_to_linear(s.to_bits(), (n * k).to_bits()));
    assert_eq!(scaled, base * k);
}

fn collision_expected(e_tot: f64, n_h: f64) -> f64 {
    let gamma = e_tot / ME;
    let beta2 = 1.0 - 1.0 / (gamma * gamma);
    n_h / 0.1 * 7.6e-26 / beta2 * (libm::log(gamma) + 6.6)
}

#[test]
fn collision_matches_formula() {
    for &(e, n) in &[(1.0f64, 0.1f64), (0.7, 0.1), (12.5, 0.3), (1.0e4, 0.05)] {
        let got = approx_linear_stopping_power(e.to_bits(), n.to_bits());
        assert_eq!(got, collision_expected(e, n).to_bits());
    }
}

#[test]
fn collision_specializes_at_reference_density() {
    // At n_H = 0.1 the normalisation factor is exactly 1 and the result
    // is bit-identical to 7.6e-26 / beta^2 * (ln(gamma) + 6.6).
    for &e in &[0.6f64, 1.0, 2.0, 55.5, 9.0e3] {
        let got = approx_linear_stopping_power(e.to_bits(), 0.1f64.to_bits());
        let gamma = e / ME;
        let beta2 = 1.0 - 1.0 / (gamma * gamma);
        let special = 7.6e-26 / beta2 * (libm::log(gamma) + 6.6);
        assert_eq!(got, special.to_bits());
    }
}

#[test]
fn collision_value_at_one_mev() {
    // S_col(1.0, 0.1) against the written-out expression, to three
    // significant figures near 5.18e-25.
    let got = f64::from_bits(approx_linear_stopping_power(1.0f64.to_bits(), 0.1f64.to_bits()));
    let expect = 7.6e-26 * (libm::log(1.0 / ME) + 6.6) / (1.0 - ME * ME);
    assert!((got - expect).abs() / expect < 1e-10);
    assert!((got - 7.48e-25).abs() < 0.005e-25);
}

#[test]
fn total_energy_formula_and_range() {
    for &e in &[0.0f64, 0.01, 0.5, 1.0, 1.0e4] {
        let got = f64::from_bits(total_energy(e.to_bits()));
        assert_eq!(got.to_bits(), ((e * e + ME * ME).sqrt()).to_bits());
        // E_tot >= m_e, so gamma >= 1 and beta^2 sits in [0, 1).
        assert!(got >= ME);
        let gamma = got / ME;
        assert!(gamma >= 1.0);
        let beta2 = 1.0 - 1.0 / (gamma * gamma);
        assert!((0.0..1.0).contains(&beta2));
    }
}

#[test]
fn totals_sum_elementwise() {
    let e_k = [0.01f64, 0.1, 1.0, 10.0];
    let rad = [0.5f64, 1.25, 0.0, 3.5];
    let n_h = 0.1f64;
    let eb: Vec<u64> = e_k.iter().map(|x| x.to_bits()).collect();
    let rb: Vec<u64> = rad.iter().map(|x| x.to_bits()).collect();
    let got = total_stopping_powers(&eb, &rb, n_h.to_bits());
    assert_eq!(got.len(), 4);
    for i in 0..4 {
        let e_tot = (e_k[i] * e_k[i] + ME * ME).sqrt();
        let expect = collision_expected(e_tot, n_h) + rad[i] * n_h * MH;
        assert_eq!(got[i], expect.to_bits());
    }
}
