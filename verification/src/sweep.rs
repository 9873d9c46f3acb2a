//! Verified assembly of the temperature sweep.
//!
//! The numeric heating rates are evaluated outside the verified core and
//! handed in as opaque 64-bit words, one per temperature grid point.  What
//! is proved here is the shape of the result: every word is paired with the
//! grid point it was computed for, and the sequence keeps grid order.

use vstd::prelude::*;

verus! {

/// Numerator of the hydrogen mass fraction of the gas (solar abundance).
pub const HYDROGEN_MASS_FRACTION_NUM: u64 = 10;

/// Denominator of the hydrogen mass fraction of the gas.
pub const HYDROGEN_MASS_FRACTION_DEN: u64 = 14;

/// Electron-to-hydrogen number-density ratio, in tenths (fixed ionization).
pub const ELECTRON_RATIO_TENTHS: u64 = 12;

/// One entry of the result sequence: the exponent numerator of a temperature
/// grid point (over `grid::TEMP_EXP_DENOM`) and the combined heating
/// coefficient computed at that temperature, carried as an opaque 64-bit word.
#[derive(Clone, Copy, Debug, PartialEq, Eq, Structural)]
pub struct HeatingSample {
    /// Exponent numerator of the grid temperature this sample belongs to.
    pub temp_exp_num: i64,
    /// The combined heating coefficient at that temperature, as a 64-bit word.
    pub rate_word: u64,
}

/// Sample `i` of `s` pairs temperature exponent `t[i]` with rate word `w[i]`.
pub open spec fn sample_matches(t: Seq<i64>, w: Seq<u64>, s: Seq<HeatingSample>, i: int) -> bool {
    s[i].temp_exp_num == t[i] && s[i].rate_word == w[i]
}

/// `s` pairs each temperature exponent of `t` with the rate word of `w` at
/// the same position, in order, covering all of `t`.
pub open spec fn samples_match(t: Seq<i64>, w: Seq<u64>, s: Seq<HeatingSample>) -> bool {
    &&& s.len() == t.len()
    &&& forall|i: int| 0 <= i < s.len() ==> #[trigger] sample_matches(t, w, s, i)
}

/// The assembly is determined by its inputs: two sample sequences assembled
/// from the same temperatures and the same rate words are equal, so repeating
/// the sweep with identical parameters yields an identical result sequence.
pub proof fn lemma_samples_unique(
    t: Seq<i64>,
    w: Seq<u64>,
    a: Seq<HeatingSample>,
    b: Seq<HeatingSample>,
)
    requires
        samples_match(t, w, a),
        samples_match(t, w, b),
    ensures
        a == b,
{
    assert forall|i: int| 0 <= i < a.len() implies a[i] == b[i] by {
        assert(sample_matches(t, w, a, i));
        assert(sample_matches(t, w, b, i));
    }
    assert(a =~= b);
}

/// Pairs each temperature exponent with the heating-rate word computed at
/// that temperature, in order.  Entry `i` of the result holds exactly
/// `temp_exps[i]` and `rate_words[i]`.
pub fn assemble_samples(temp_exps: &Vec<i64>, rate_words: &Vec<u64>) -> (r: Vec<HeatingSample>)
    requires
        temp_exps@.len() == rate_words@.len(),
    ensures
        r@.len() == temp_exps@.len(),
        samples_match(temp_exps@, rate_words@, r@),
{
    let mut r: Vec<HeatingSample> = Vec::new();
    let mut n: usize = 0;
    while n < temp_exps.len()
        invariant
            n <= temp_exps@.len(),
            temp_exps@.len() == rate_words@.len(),
            r@.len() == n,
            forall|i: int| 0 <= i < n ==> #[trigger] sample_matches(temp_exps@, rate_words@, r@, i),
        decreases temp_exps@.len() - n,
    {
        let ghost prev = r@;
        let sample = HeatingSample { temp_exp_num: temp_exps[n], rate_word: rate_words[n] };
        r.push(sample);
        proof {
            assert forall|i: int| 0 <= i < n as int + 1 implies #[trigger] sample_matches(
                temp_exps@,
                rate_words@,
                r@,
                i,
            ) by {
                if i < n as int {
                    assert(sample_matches(temp_exps@, rate_words@, prev, i));
                }
            }
        }
        n = n + 1;
    }
    r
}

/// Runs the verified part of the temperature sweep: builds the temperature
/// grid and pairs each grid point, in increasing-temperature order, with the
/// heating-rate word computed for it.  Entry `i` of the result carries the
/// exponent numerator of grid point `i` and the word `rate_words[i]`.
pub fn sweep_samples(rate_words: &Vec<u64>) -> (r: Vec<HeatingSample>)
    requires
        rate_words@.len() == crate::grid::TEMP_POINT_COUNT,
    ensures
        r@.len() == crate::grid::TEMP_POINT_COUNT,
        forall|i: int| 0 <= i < r@.len() ==> #[trigger] r@[i].temp_exp_num as int
            == crate::grid::grid_num(
                (crate::grid::TEMP_LOG10_MIN * crate::grid::TEMP_EXP_DENOM) as int,
                crate::grid::TEMP_EXP_STEP as int,
                i,
            ),
        forall|i: int| 0 <= i < r@.len() ==> #[trigger] r@[i].rate_word == rate_words@[i],
        forall|i: int, j: int| 0 <= i < j < r@.len() ==> r@[i].temp_exp_num < r@[j].temp_exp_num,
{
    let temps = crate::grid::temperature_grid_exponents();
    let r = assemble_samples(&temps, rate_words);
    proof {
        assert forall|i: int| 0 <= i < r@.len() implies #[trigger] r@[i].temp_exp_num as int
            == crate::grid::grid_num(
                (crate::grid::TEMP_LOG10_MIN * crate::grid::TEMP_EXP_DENOM) as int,
                crate::grid::TEMP_EXP_STEP as int,
                i,
            ) by {
            assert(sample_matches(temps@, rate_words@, r@, i));
        }
        assert forall|i: int| 0 <= i < r@.len() implies #[trigger] r@[i].rate_word
            == rate_words@[i] by {
            assert(sample_matches(temps@, rate_words@, r@, i));
        }
        assert forall|i: int, j: int| 0 <= i < j < r@.len() implies r@[i].temp_exp_num
            < r@[j].temp_exp_num by {
            assert(sample_matches(temps@, rate_words@, r@, i));
            assert(sample_matches(temps@, rate_words@, r@, j));
        }
    }
    r
}

} // verus!
