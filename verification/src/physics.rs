//! The physics of the pipeline: unit conversion from mass to linear
//! stopping power, the analytic collisional approximation for positrons in
//! neutral hydrogen, and the per-row assembly of the summed linear
//! stopping power. Each contract pins the exact sequence of IEEE-754
//! operations, stated over the named operations of [`crate::fp`].

use vstd::prelude::*;
use crate::fp::{
    fp_sum, fp_diff, fp_prod, fp_quot, fp_sqrt_of, fp_ln_of, fp_log10_of,
    f_add, f_sub, f_mul, f_div, f_sqrt, f_ln, f_log10,
    ME_BITS, MH_BITS, TENTH_BITS, COEFF_BITS, SIX_SIX_BITS, ONE_BITS,
};

verus! {

/// The linear stopping power obtained from a mass stopping power `s` and
/// a hydrogen number density `n_h`: `s * n_h * m_H`, evaluated left to
/// right.
pub open spec fn convert_spec(s: u64, n_h: u64) -> u64 {
    fp_prod(fp_prod(s, n_h), MH_BITS)
}

/// The Lorentz factor `gamma = e_tot / m_e`.
pub open spec fn gamma_spec(e_tot: u64) -> u64 {
    fp_quot(e_tot, ME_BITS)
}

/// `beta^2 = 1 - 1 / gamma^2`, with the square taken as a product.
pub open spec fn beta2_spec(e_tot: u64) -> u64 {
    fp_diff(ONE_BITS, fp_quot(ONE_BITS, fp_prod(gamma_spec(e_tot), gamma_spec(e_tot))))
}

/// The bracketed logarithmic term `ln(gamma) + 6.6`.
pub open spec fn ln_term_spec(e_tot: u64) -> u64 {
    fp_sum(fp_ln_of(gamma_spec(e_tot)), SIX_SIX_BITS)
}

/// The collisional stopping power
/// `n_h / 0.1 * 7.6e-26 / beta^2 * (ln(gamma) + 6.6)`,
/// evaluated left to right.
pub open spec fn collision_spec(e_tot: u64, n_h: u64) -> u64 {
    fp_prod(
        fp_quot(fp_prod(fp_quot(n_h, TENTH_BITS), COEFF_BITS), beta2_spec(e_tot)),
        ln_term_spec(e_tot),
    )
}

/// The collisional stopping power at the reference density itself:
/// `7.6e-26 / beta^2 * (ln(gamma) + 6.6)`.
pub open spec fn collision_ref_spec(e_tot: u64) -> u64 {
    fp_prod(fp_quot(COEFF_BITS, beta2_spec(e_tot)), ln_term_spec(e_tot))
}

/// The total energy `sqrt(e_k^2 + m_e^2)` of a positron with kinetic
/// energy `e_k`, with the squares taken as products.
pub open spec fn total_energy_spec(e_k: u64) -> u64 {
    fp_sqrt_of(fp_sum(fp_prod(e_k, e_k), fp_prod(ME_BITS, ME_BITS)))
}

/// The summed linear stopping power of one table row: the collisional
/// term at the total energy plus the converted radiative term.
pub open spec fn total_spec(e_k: u64, rad: u64, n_h: u64) -> u64 {
    fp_sum(collision_spec(total_energy_spec(e_k), n_h), convert_spec(rad, n_h))
}

/// Converts a mass stopping power [MeV cm^2/g] at hydrogen number density
/// `n_h` [cm^-3] to a linear stopping power [MeV/cm]: `s * n_h * m_H`.
pub fn convert_mass_to_linear(s: u64, n_h: u64) -> (r: u64)
    ensures
        r == convert_spec(s, n_h),
{
    f_mul(f_mul(s, n_h), MH_BITS)
}

/// The total energy `sqrt(e_k^2 + m_e^2)`.
pub fn total_energy(e_k: u64) -> (r: u64)
    ensures
        r == total_energy_spec(e_k),
{
    f_sqrt(f_add(f_mul(e_k, e_k), f_mul(ME_BITS, ME_BITS)))
}

/// The analytic collisional stopping power of a positron with total
/// energy `e_tot` in neutral hydrogen of number density `n_h`. At the
/// reference density 0.1 the normalisation factor `n_h / 0.1` is exactly
/// 1.0 and the result reduces to `7.6e-26 / beta^2 * (ln(gamma) + 6.6)`.
pub fn approx_linear_stopping_power(e_tot: u64, n_h: u64) -> (r: u64)
    ensures
        r == collision_spec(e_tot, n_h),
        n_h == TENTH_BITS ==> r == collision_ref_spec(e_tot),
{
    let gamma = f_div(e_tot, ME_BITS);
    let beta2 = f_sub(ONE_BITS, f_div(ONE_BITS, f_mul(gamma, gamma)));
    let scale = f_div(f_mul(f_div(n_h, TENTH_BITS), COEFF_BITS), beta2);
    f_mul(scale, f_add(f_ln(gamma), SIX_SIX_BITS))
}

/// The summed linear stopping power of every row: elementwise, length
/// preserving, radiative term taken at the tabulated kinetic energy and
/// collisional term at the corresponding total energy.
pub fn total_stopping_powers(e_k: &Vec<u64>, rad: &Vec<u64>, n_h: u64) -> (r: Vec<u64>)
    requires
        e_k@.len() == rad@.len(),
    ensures
        r@.len() == e_k@.len(),
        forall|i: int| 0 <= i < r@.len() ==> r@[i] == total_spec(e_k@[i], rad@[i], n_h),
{
    let mut out: Vec<u64> = Vec::new();
    let mut i: usize = 0;
    while i < e_k.len()
        invariant
            e_k@.len() == rad@.len(),
            i <= e_k@.len(),
            out@.len() == i,
            forall|j: int| 0 <= j < i ==> out@[j] == total_spec(e_k@[j], rad@[j], n_h),
        decreases e_k@.len() - i,
    {
        let e_tot = total_energy(e_k[i]);
        let col = approx_linear_stopping_power(e_tot, n_h);
        let lin = convert_mass_to_linear(rad[i], n_h);
        out.push(f_add(col, lin));
        i = i + 1;
    }
    out
}

/// The base-10 logarithms of the tabulated kinetic energies: the
/// abscissae of the interpolant.
pub fn log_abscissae(e_k: &Vec<u64>) -> (r: Vec<u64>)
    ensures
        r@.len() == e_k@.len(),
        forall|i: int| 0 <= i < r@.len() ==> r@[i] == fp_log10_of(e_k@[i]),
{
    let mut out: Vec<u64> = Vec::new();
    let mut i: usize = 0;
    while i < e_k.len()
        invariant
            i <= e_k@.len(),
            out@.len() == i,
            forall|j: int| 0 <= j < i ==> out@[j] == fp_log10_of(e_k@[j]),
        decreases e_k@.len() - i,
    {
        out.push(f_log10(e_k[i]));
        i = i + 1;
    }
    out
}

} // verus!
