use grainheat::grid::{
    energy_grid_exponents, log_grid_numerators, temperature_grid_exponents, ENERGY_EXP_DENOM,
    ENERGY_POINT_COUNT, TEMP_EXP_DENOM, TEMP_POINT_COUNT,
};

#[test]
fn temperature_grid_shape_exact() {
    let g = temperature_grid_exponents();
    assert_eq!(g.len(), TEMP_POINT_COUNT);
    assert_eq!(g.len(), 201);
    assert_eq!(g[0], 0);
    assert_eq!(g[200], 1800);
    for i in 0..g.len() {
        assert_eq!(g[i], 9 * i as i64);
    }
    for i in 1..g.len() {
        assert!(g[i - 1] < g[i]);
    }
}

#[test]
fn temperature_grid_float_values() {
    let g = temperature_grid_exponents();
    let first = 10f64.powf(g[0] as f64 / TEMP_EXP_DENOM as f64);
    let last = 10f64.powf(g[g.len() - 1] as f64 / TEMP_EXP_DENOM as f64);
    assert!((first - 1.0).abs() <= 1e-12);
    assert!(((last - 1.0e9) / 1.0e9).abs() <= 1e-12);
    let mut prev = 0.0f64;
    for &q in g.iter() {
        let t = 10f64.powf(q as f64 / TEMP_EXP_DENOM as f64);
        assert!(t.is_finite());
        assert!(t > prev);
        prev = t;
    }
}

#[test]
fn energy_grid_shape_exact() {
    let g = energy_grid_exponents();
    assert_eq!(g.len(), ENERGY_POINT_COUNT);
    assert_eq!(g.len(), 401);
    assert_eq!(g[0], -200);
    assert_eq!(g[400], 200);
    for i in 0..g.len() {
        assert_eq!(g[i], i as i64 - 200);
    }
    for i in 1..g.len() {
        assert!(g[i - 1] < g[i]);
    }
}

#[test]
fn energy_grid_float_values() {
    let g = energy_grid_exponents();
    let first = 10f64.powf(g[0] as f64 / ENERGY_EXP_DENOM as f64);
    let last = 10f64.powf(g[g.len() - 1] as f64 / ENERGY_EXP_DENOM as f64);
    assert!(((first - 1.0e-2) / 1.0e-2).abs() <= 1e-12);
    assert!(((last - 1.0e2) / 1.0e2).abs() <= 1e-12);
    let mut prev = 0.0f64;
    for &q in g.iter() {
        let z = 10f64.powf(q as f64 / ENERGY_EXP_DENOM as f64);
        assert!(z.is_finite());
        assert!(z > prev);
        prev = z;
    }
}

#[test]
fn log_grid_small_example() {
    let g = log_grid_numerators(5, 10, 30);
    assert_eq!(g, vec![10, 15, 20, 25, 30]);
}

#[test]
fn log_grid_two_points() {
    let g = log_grid_numerators(2, -7, 13);
    assert_eq!(g, vec![-7, 13]);
}

#[test]
fn log_grid_constant_when_bounds_equal() {
    let g = log_grid_numerators(4, 5, 5);
    assert_eq!(g, vec![5, 5, 5, 5]);
}

#[test]
fn grids_are_idempotent() {
    let a = temperature_grid_exponents();
    let b = temperature_grid_exponents();
    assert_eq!(a, b);
    let c = energy_grid_exponents();
    let d = energy_grid_exponents();
    assert_eq!(c, d);
}
