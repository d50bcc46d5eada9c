//! The output stage: the uniform log-energy grid over [-2, 4] with 1000
//! points, the spline sampled on it, and the map of each abscissa back to
//! linear energy by `10^x`.

use vstd::prelude::*;
use crate::fp::{
    fp_sum, fp_diff, fp_quot, fp_prod, fp_of_int, fp_pow_of,
    f_add, f_sub, f_div, f_mul, f_of_int, f_pow,
    ONE_BITS, TEN_BITS, NEG_TWO_BITS, FOUR_BITS,
};
use crate::spline::{FittedSpline, spline_value_spec};

verus! {

/// The number of rows of the output table.
pub const GRID_LEN: usize = 1000;

/// The grid step `(4 - (-2)) / (1000 - 1)`.
pub open spec fn grid_step() -> u64 {
    fp_quot(fp_diff(FOUR_BITS, NEG_TWO_BITS), fp_diff(fp_of_int(1000), ONE_BITS))
}

/// The `j`-th log-energy abscissa: the bounds themselves at the ends,
/// `-2 + step * j` between them.
pub open spec fn grid_x(j: int) -> u64 {
    if j == 0 {
        NEG_TWO_BITS
    } else if j == GRID_LEN - 1 {
        FOUR_BITS
    } else {
        fp_sum(NEG_TWO_BITS, fp_prod(grid_step(), fp_of_int(j as u64)))
    }
}

/// The uniform log-energy grid: 1000 points from -2 to 4, both ends
/// exact.
pub fn log_energy_grid() -> (r: Vec<u64>)
    ensures
        r@.len() == GRID_LEN,
        forall|j: int| 0 <= j < r@.len() ==> r@[j] == grid_x(j),
{
    let step = f_div(f_sub(FOUR_BITS, NEG_TWO_BITS), f_sub(f_of_int(1000), ONE_BITS));
    let mut out: Vec<u64> = Vec::new();
    let mut j: usize = 0;
    while j < GRID_LEN
        invariant
            step == grid_step(),
            j <= GRID_LEN,
            out@.len() == j,
            forall|k: int| 0 <= k < j ==> out@[k] == grid_x(k),
        decreases GRID_LEN - j,
    {
        if j == 0 {
            out.push(NEG_TWO_BITS);
        } else if j == GRID_LEN - 1 {
            out.push(FOUR_BITS);
        } else {
            out.push(f_add(NEG_TWO_BITS, f_mul(step, f_of_int(j as u64))));
        }
        j = j + 1;
    }
    out
}

/// The `j`-th output energy: `10^grid_x(j)` MeV.
pub open spec fn grid_energy(j: int) -> u64 {
    fp_pow_of(TEN_BITS, grid_x(j))
}

/// Samples the interpolant on the grid and maps the abscissae back to
/// linear energy: the two columns of the output table, 1000 rows each.
pub fn evaluate_table(s: &FittedSpline) -> (r: (Vec<u64>, Vec<u64>))
    requires
        s.wf(),
    ensures
        r.0@.len() == GRID_LEN,
        r.1@.len() == GRID_LEN,
        forall|j: int| 0 <= j < r.0@.len() ==> r.0@[j] == grid_energy(j),
        forall|j: int|
            0 <= j < r.1@.len() ==> r.1@[j] == spline_value_spec(
                s.abscissae(),
                s.ordinates(),
                grid_x(j),
            ),
{
    let grid = log_energy_grid();
    let mut e_k: Vec<u64> = Vec::new();
    let mut stp: Vec<u64> = Vec::new();
    let mut j: usize = 0;
    while j < grid.len()
        invariant
            s.wf(),
            grid@.len() == GRID_LEN,
            forall|k: int| 0 <= k < grid@.len() ==> grid@[k] == grid_x(k),
            j <= grid@.len(),
            e_k@.len() == j,
            stp@.len() == j,
            forall|k: int| 0 <= k < j ==> e_k@[k] == grid_energy(k),
            forall|k: int|
                0 <= k < j ==> stp@[k] == spline_value_spec(
                    s.abscissae(),
                    s.ordinates(),
                    grid_x(k),
                ),
        decreases grid@.len() - j,
    {
        stp.push(s.value_at(grid[j]));
        e_k.push(f_pow(TEN_BITS, grid[j]));
        j = j + 1;
    }
    (e_k, stp)
}

} // verus!
