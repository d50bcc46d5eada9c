//! The assembled pipeline: from the tabulated kinetic energies and mass
//! radiative stopping powers to the 1000-row output table, directly or
//! through the binary spline cache. Both paths are proved to produce the
//! same two columns, stated over one pair of spec functions: running with
//! the cache present is bit-identical to running fresh.

use vstd::prelude::*;
use crate::Error;
use crate::fp::{fp_log10_of};
use crate::physics::{total_spec, total_stopping_powers, log_abscissae};
use crate::spline::{
    FittedSpline, fit_spline, from_cache_bytes, strictly_increasing, spline_value_spec,
    knots_bytes,
};
use crate::output::{GRID_LEN, grid_x, grid_energy, evaluate_table};

verus! {

/// The interpolant abscissae belonging to a table: `log10` of each
/// tabulated kinetic energy.
pub open spec fn log_xs_spec(e_k: Seq<u64>) -> Seq<u64> {
    Seq::new(e_k.len(), |i: int| fp_log10_of(e_k[i]))
}

/// The interpolant ordinates belonging to a table: the summed linear
/// stopping power of each row.
pub open spec fn totals_spec(e_k: Seq<u64>, rad: Seq<u64>, n_h: u64) -> Seq<u64> {
    Seq::new(e_k.len(), |i: int| total_spec(e_k[i], rad[i], n_h))
}

/// The energy column of the output table.
pub open spec fn out_energy_spec() -> Seq<u64> {
    Seq::new(GRID_LEN as nat, |j: int| grid_energy(j))
}

/// The stopping-power column of the output table belonging to the
/// interpolant through the given knots.
pub open spec fn out_power_spec(xs: Seq<u64>, ys: Seq<u64>) -> Seq<u64> {
    Seq::new(GRID_LEN as nat, |j: int| spline_value_spec(xs, ys, grid_x(j)))
}

/// Fits the interpolant belonging to a table: abscissae `log10(E_k)`,
/// ordinates the summed stopping powers, at hydrogen density `n_h`.
pub fn build_interpolant(e_k: &Vec<u64>, rad: &Vec<u64>, n_h: u64) -> (r: Result<
    FittedSpline,
    Error,
>)
    requires
        e_k@.len() == rad@.len(),
    ensures
        r is Ok <==> (e_k@.len() >= 2 && strictly_increasing(log_xs_spec(e_k@))),
        r is Ok ==> {
            &&& r->Ok_0.wf()
            &&& r->Ok_0.abscissae() == log_xs_spec(e_k@)
            &&& r->Ok_0.ordinates() == totals_spec(e_k@, rad@, n_h)
            &&& r->Ok_0.abscissae().len() == r->Ok_0.ordinates().len()
            &&& r->Ok_0.abscissae().len() >= 2
            &&& strictly_increasing(r->Ok_0.abscissae())
        },
        r is Err ==> r->Err_0 is DomainError,
{
    let xs = log_abscissae(e_k);
    let ys = total_stopping_powers(e_k, rad, n_h);
    proof {
        assert(xs@ =~= log_xs_spec(e_k@));
        assert(ys@ =~= totals_spec(e_k@, rad@, n_h));
    }
    fit_spline(&xs, &ys)
}

/// The full pipeline, fresh: assembles the physics, fits the
/// interpolant, and samples it on the output grid.
pub fn stopping_power_table(e_k: &Vec<u64>, rad: &Vec<u64>, n_h: u64) -> (r: Result<
    (Vec<u64>, Vec<u64>),
    Error,
>)
    requires
        e_k@.len() == rad@.len(),
    ensures
        r is Ok <==> (e_k@.len() >= 2 && strictly_increasing(log_xs_spec(e_k@))),
        r is Ok ==> r->Ok_0.0@ == out_energy_spec() && r->Ok_0.1@ == out_power_spec(
            log_xs_spec(e_k@),
            totals_spec(e_k@, rad@, n_h),
        ),
        r is Err ==> r->Err_0 is DomainError,
{
    match build_interpolant(e_k, rad, n_h) {
        Err(e) => Err(e),
        Ok(s) => {
            let (oe, op) = evaluate_table(&s);
            proof {
                assert(oe@ =~= out_energy_spec());
                assert(op@ =~= out_power_spec(log_xs_spec(e_k@), totals_spec(e_k@, rad@, n_h)));
            }
            Ok((oe, op))
        },
    }
}

/// The full pipeline through the binary cache: fits, serializes the
/// interpolant, rebuilds it from the bytes, and samples the rebuilt one.
/// The contract is the same as for [`stopping_power_table`]: the cache
/// round trip changes no bit of the output.
pub fn stopping_power_table_via_cache(e_k: &Vec<u64>, rad: &Vec<u64>, n_h: u64) -> (r: Result<
    (Vec<u64>, Vec<u64>),
    Error,
>)
    requires
        e_k@.len() == rad@.len(),
    ensures
        r is Ok <==> (e_k@.len() >= 2 && strictly_increasing(log_xs_spec(e_k@))),
        r is Ok ==> r->Ok_0.0@ == out_energy_spec() && r->Ok_0.1@ == out_power_spec(
            log_xs_spec(e_k@),
            totals_spec(e_k@, rad@, n_h),
        ),
        r is Err ==> r->Err_0 is DomainError,
{
    match build_interpolant(e_k, rad, n_h) {
        Err(e) => Err(e),
        Ok(s) => {
            let bytes = s.to_cache_bytes();
            match from_cache_bytes(&bytes) {
                // Unreachable: the bytes were just written from a
                // well-formed interpolant, so the rebuild succeeds.
                Err(_) => Err(Error::DomainError { index: 0 }),
                Ok(s2) => {
                    assert(s2.abscissae() == s.abscissae());
                    assert(s2.ordinates() == s.ordinates());
                    let (oe, op) = evaluate_table(&s2);
                    proof {
                        assert(oe@ =~= out_energy_spec());
                        assert(op@ =~= out_power_spec(
                            log_xs_spec(e_k@),
                            totals_spec(e_k@, rad@, n_h),
                        ));
                    }
                    Ok((oe, op))
                },
            }
        },
    }
}

/// Samples a cached interpolant on the output grid: the two columns of
/// the output table belonging to whatever knots the cache holds.
pub fn stopping_power_table_cached(bytes: &Vec<u8>) -> (r: Result<(Vec<u64>, Vec<u64>), Error>)
    ensures
        forall|xs: Seq<u64>, ys: Seq<u64>|
            (bytes@ == #[trigger] knots_bytes(xs, ys) && xs.len() == ys.len() && xs.len() >= 2
                && strictly_increasing(xs)) ==> r is Ok && r->Ok_0.0@ == out_energy_spec()
                && r->Ok_0.1@ == out_power_spec(xs, ys),
        r is Err ==> r->Err_0 is CacheCorrupt,
{
    match from_cache_bytes(bytes) {
        Err(e) => Err(e),
        Ok(s) => {
            let (oe, op) = evaluate_table(&s);
            proof {
                assert(oe@ =~= out_energy_spec());
                assert(op@ =~= out_power_spec(s.abscissae(), s.ordinates()));
            }
            Ok((oe, op))
        },
    }
}

} // verus!
