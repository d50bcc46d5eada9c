use stp_pow::output::log_energy_grid;
use stp_pow::pipeline::stopping_power_table;

#[test]
fn grid_is_the_linspace_over_log_energy() {
    let grid = log_energy_grid();
    assert_eq!(grid.len(), 1000);
    assert_eq!(grid[0], (-2.0f64).to_bits());
    assert_eq!(grid[999], 4.0f64.to_bits());
    let step = (4.0 - (-2.0)) / (1000.0 - 1.0);
    for j in 1..999 {
        assert_eq!(grid[j], (-2.0 + step * j as f64).to_bits(), "grid point {j}");
    }
}

#[test]
fn output_energies_cover_the_six_decades() {
    let e_k: Vec<u64> = [0.01f64, 1.0, 1.0e4].iter().map(|x| x.to_bits()).collect();
    let rad: Vec<u64> = [0.0f64, 0.0, 0.0].iter().map(|x| x.to_bits()).collect();
    let out = stopping_power_table(&e_k, &rad, 0.1f64.to_bits()).unwrap();
    // Exactly 1000 rows in both columns.
    assert_eq!(out.0.len(), 1000);
    assert_eq!(out.1.len(), 1000);
    // The energy column is 10^x over the grid: 0.01 and 10000 at the
    // ends to full double precision, strictly increasing between them.
    assert_eq!(out.0[0], 0.01f64.to_bits());
    assert_eq!(out.0[999], 10000.0f64.to_bits());
    let step = (4.0 - (-2.0)) / (1000.0 - 1.0);
    for j in 0..1000 {
        let x = if j == 0 {
            -2.0
        } else if j == 999 {
            4.0
        } else {
            -2.0 + step * j as f64
        };
        assert_eq!(out.0[j], libm::pow(10.0, x).to_bits(), "energy {j}");
    }
    for j in 1..1000 {
        assert!(f64::from_bits(out.0[j - 1]) < f64::from_bits(out.0[j]));
    }
    // Every sampled stopping power over this table is finite.
    for j in 0..1000 {
        assert!(f64::from_bits(out.1[j]).is_finite());
    }
}
