//! Exact models of the log-spaced sample grids.
//!
//! Both grids of the computation are log-spaced: a point with exponent
//! numerator `q` over denominator `d` stands for the value `10^(q/d)`.
//! Working with the numerators keeps the grid exact: point counts, bounds,
//! spacing and monotonicity are all integer facts and are proved here.

use vstd::prelude::*;

verus! {

/// Number of points in the temperature grid.
pub const TEMP_POINT_COUNT: usize = 201;

/// log10 of the smallest grid temperature, in K.
pub const TEMP_LOG10_MIN: i64 = 0;

/// log10 of the largest grid temperature, in K.
pub const TEMP_LOG10_MAX: i64 = 9;

/// Denominator of the temperature-grid exponents: grid point `i` has
/// log10(T_i) = (exponent numerator of `i`) / `TEMP_EXP_DENOM`.
pub const TEMP_EXP_DENOM: i64 = 200;

/// Exponent-numerator step between adjacent temperature grid points.
pub const TEMP_EXP_STEP: i64 = 9;

/// Number of points in the quadrature (energy) grid.
pub const ENERGY_POINT_COUNT: usize = 401;

/// log10 of the smallest quadrature sample point.
pub const ENERGY_LOG10_MIN: i64 = -2;

/// log10 of the largest quadrature sample point.
pub const ENERGY_LOG10_MAX: i64 = 2;

/// Denominator of the energy-grid exponents.
pub const ENERGY_EXP_DENOM: i64 = 100;

/// Exponent-numerator step between adjacent energy grid points.
pub const ENERGY_EXP_STEP: i64 = 1;

/// Exponent numerator of point `i` of an arithmetic progression that
/// starts at `first` and advances by `step`.
pub open spec fn grid_num(first: int, step: int, i: int) -> int {
    first + i * step
}

/// `s` lists, in order, the exponent numerators of a log-spaced grid
/// starting at `first` with spacing `step`.
pub open spec fn is_log_grid(s: Seq<i64>, first: int, step: int) -> bool {
    forall|i: int| 0 <= i < s.len() ==> #[trigger] grid_num(first, step, i) == s[i] as int
}

/// A log-spaced grid with positive spacing is strictly increasing.
pub proof fn lemma_log_grid_strictly_increasing(s: Seq<i64>, first: int, step: int)
    requires
        is_log_grid(s, first, step),
        step > 0,
    ensures
        forall|i: int, j: int| 0 <= i < j < s.len() ==> s[i] < s[j],
{
    assert forall|i: int, j: int| 0 <= i < j < s.len() implies s[i] < s[j] by {
        assert(grid_num(first, step, i) == s[i] as int);
        assert(grid_num(first, step, j) == s[j] as int);
        assert(i * step < j * step) by (nonlinear_arith)
            requires
                i < j,
                step > 0,
        ;
    }
}

/// Two log-spaced grids of the same length, start and spacing are equal:
/// the grid is determined by its parameters, so rebuilding it with the
/// same parameters yields the same sequence.
pub proof fn lemma_log_grid_unique(a: Seq<i64>, b: Seq<i64>, first: int, step: int)
    requires
        a.len() == b.len(),
        is_log_grid(a, first, step),
        is_log_grid(b, first, step),
    ensures
        a == b,
{
    assert forall|i: int| 0 <= i < a.len() implies a[i] == b[i] by {
        assert(grid_num(first, step, i) == a[i] as int);
        assert(grid_num(first, step, i) == b[i] as int);
    }
    assert(a =~= b);
}

/// Exponent numerators of a log-spaced grid of `count` points running from
/// `first` to `last` inclusive.  The spacing is `(last - first) / (count - 1)`,
/// which the preconditions require to be exact, so the grid hits both bounds.
pub fn log_grid_numerators(count: usize, first: i64, last: i64) -> (r: Vec<i64>)
    requires
        2 <= count <= 100_000,
        -1_000_000 <= first <= last <= 1_000_000,
        (last - first) % ((count - 1) as int) == 0,
    ensures
        r@.len() == count,
        is_log_grid(r@, first as int, (last - first) / ((count - 1) as int)),
        r@[0] == first,
        r@[count as int - 1] == last,
{
    let intervals: u64 = (count - 1) as u64;
    let span: u64 = (last - first) as u64;
    let step: i64 = (span / intervals) as i64;
    proof {
        vstd::arithmetic::div_mod::lemma_fundamental_div_mod(span as int, intervals as int);
        assert(span as int == intervals as int * (step as int));
    }
    let ghost gstep: int = (last - first) / ((count - 1) as int);
    proof {
        assert(gstep == step as int);
    }
    let mut r: Vec<i64> = Vec::new();
    let mut n: usize = 0;
    while n < count
        invariant
            n <= count,
            2 <= count <= 100_000,
            -1_000_000 <= first <= last <= 1_000_000,
            0 <= step,
            (count - 1) as int * (step as int) == last - first,
            r@.len() == n,
            forall|i: int| 0 <= i < n ==> #[trigger] grid_num(first as int, step as int, i)
                == r@[i] as int,
        decreases count - n,
    {
        proof {
            assert(0 <= n as int * (step as int) <= (count - 1) as int * (step as int))
                by (nonlinear_arith)
                requires
                    0 <= n as int <= (count - 1) as int,
                    0 <= step as int,
            ;
        }
        let value: i64 = first + (n as i64) * step;
        r.push(value);
        n = n + 1;
    }
    assert(grid_num(first as int, step as int, 0) == first as int);
    assert(grid_num(first as int, step as int, count as int - 1) == last as int);
    r
}

/// The temperature grid: `TEMP_POINT_COUNT` log-spaced points from
/// 10^`TEMP_LOG10_MIN` K to 10^`TEMP_LOG10_MAX` K inclusive, given by their
/// exact exponent numerators over `TEMP_EXP_DENOM`.  The sequence is strictly
/// increasing, starts at the lower bound and ends at the upper bound.
pub fn temperature_grid_exponents() -> (r: Vec<i64>)
    ensures
        r@.len() == TEMP_POINT_COUNT,
        is_log_grid(r@, (TEMP_LOG10_MIN * TEMP_EXP_DENOM) as int, TEMP_EXP_STEP as int),
        r@[0] as int == TEMP_LOG10_MIN * TEMP_EXP_DENOM,
        r@[TEMP_POINT_COUNT as int - 1] as int == TEMP_LOG10_MAX * TEMP_EXP_DENOM,
        forall|i: int, j: int| 0 <= i < j < r@.len() ==> r@[i] < r@[j],
{
    let r = log_grid_numerators(
        TEMP_POINT_COUNT,
        TEMP_LOG10_MIN * TEMP_EXP_DENOM,
        TEMP_LOG10_MAX * TEMP_EXP_DENOM,
    );
    proof {
        lemma_log_grid_strictly_increasing(
            r@,
            (TEMP_LOG10_MIN * TEMP_EXP_DENOM) as int,
            TEMP_EXP_STEP as int,
        );
    }
    r
}

/// The quadrature grid: `ENERGY_POINT_COUNT` log-spaced points from
/// 10^`ENERGY_LOG10_MIN` to 10^`ENERGY_LOG10_MAX` inclusive, given by their
/// exact exponent numerators over `ENERGY_EXP_DENOM`.  The sequence is
/// strictly increasing, starts at the lower bound and ends at the upper bound.
pub fn energy_grid_exponents() -> (r: Vec<i64>)
    ensures
        r@.len() == ENERGY_POINT_COUNT,
        is_log_grid(r@, (ENERGY_LOG10_MIN * ENERGY_EXP_DENOM) as int, ENERGY_EXP_STEP as int),
        r@[0] as int == ENERGY_LOG10_MIN * ENERGY_EXP_DENOM,
        r@[ENERGY_POINT_COUNT as int - 1] as int == ENERGY_LOG10_MAX * ENERGY_EXP_DENOM,
        forall|i: int, j: int| 0 <= i < j < r@.len() ==> r@[i] < r@[j],
{
    let r = log_grid_numerators(
        ENERGY_POINT_COUNT,
        ENERGY_LOG10_MIN * ENERGY_EXP_DENOM,
        ENERGY_LOG10_MAX * ENERGY_EXP_DENOM,
    );
    proof {
        lemma_log_grid_strictly_increasing(
            r@,
            (ENERGY_LOG10_MIN * ENERGY_EXP_DENOM) as int,
            ENERGY_EXP_STEP as int,
        );
    }
    r
}

} // verus!
