use vstd::prelude::*;
use crate::config::ColorMode;

verus! {

/// A completion percentage as the exact fraction `num / den`.
#[derive(Clone, Copy, Debug, PartialEq, Eq, Structural)]
pub struct Percent {
    pub num: u128,
    pub den: u128,
}

/// Common denominator of every checkpoint of a call that emits paths for `n` clusters.
pub open spec fn schedule_den(n: int) -> int {
    if n > 0 {
        n
    } else {
        1
    }
}

/// Fixed checkpoint `k` percent over denominator `d`.
pub open spec fn fixed_pct(k: int, d: int) -> Percent {
    Percent { num: (k * d) as u128, den: d as u128 }
}

/// Percentage at which the emission loop starts, and the span it covers up to 95.
pub open spec fn emission_start(mode: ColorMode) -> int {
    match mode {
        ColorMode::Color => 55,
        ColorMode::Binary => 40,
    }
}

/// Fixed checkpoints before emission: decode 5, configuration 10, keying or thresholding 15,
/// then clustering (50, and 55 after the optional cutout pass) or connected components (40).
pub open spec fn leading_checkpoints(mode: ColorMode, d: int) -> Seq<Percent> {
    match mode {
        ColorMode::Color => seq![
            fixed_pct(0, d),
            fixed_pct(5, d),
            fixed_pct(10, d),
            fixed_pct(15, d),
            fixed_pct(50, d),
            fixed_pct(55, d),
        ],
        ColorMode::Binary => seq![
            fixed_pct(0, d),
            fixed_pct(5, d),
            fixed_pct(10, d),
            fixed_pct(15, d),
            fixed_pct(40, d),
        ],
    }
}

/// Checkpoint after the `i`-th of `n` clusters (from 0): a proportional step toward 95.
pub open spec fn emission_pct(mode: ColorMode, i: int, n: int) -> Percent {
    Percent {
        num: (emission_start(mode) * n + (95 - emission_start(mode)) * (i + 1)) as u128,
        den: n as u128,
    }
}

/// Every percentage reported by one conversion whose emission stage walks `n` clusters.
pub open spec fn progress_schedule_of(mode: ColorMode, n: int) -> Seq<Percent> {
    leading_checkpoints(mode, schedule_den(n)) + Seq::new(
        n as nat,
        |i: int| emission_pct(mode, i, n),
    ) + seq![fixed_pct(95, schedule_den(n)), fixed_pct(100, schedule_den(n))]
}

/// The percentages one conversion reports, in order, when its emission stage walks
/// `total_clusters` clusters.
pub fn progress_schedule(mode: ColorMode, total_clusters: usize) -> (r: Vec<Percent>)
    ensures
        r@ == progress_schedule_of(mode, total_clusters as int),
{
    let n = total_clusters as u128;
    let d: u128 = if total_clusters > 0 {
        n
    } else {
        1
    };
    assert(n <= 0x1_0000_0000_0000_0000);
    let start: u128 = match mode {
        ColorMode::Color => 55,
        ColorMode::Binary => 40,
    };
    let mut r: Vec<Percent> = Vec::new();
    r.push(Percent { num: 0, den: d });
    r.push(Percent { num: 5 * d, den: d });
    r.push(Percent { num: 10 * d, den: d });
    r.push(Percent { num: 15 * d, den: d });
    match mode {
        ColorMode::Color => {
            r.push(Percent { num: 50 * d, den: d });
        },
        ColorMode::Binary => {},
    }
    r.push(Percent { num: start * d, den: d });
    let ghost lead = r@;
    assert(lead =~= leading_checkpoints(mode, schedule_den(total_clusters as int)));
    let mut i: usize = 0;
    while i < total_clusters
        invariant
            0 <= i <= total_clusters,
            n == total_clusters,
            start == emission_start(mode),
            n <= 0x1_0000_0000_0000_0000,
            r@ =~= lead + Seq::new(i as nat, |j: int| emission_pct(mode, j, n as int)),
        decreases total_clusters - i,
    {
        let k = i as u128 + 1;
        proof {
            assert(start * n + (95 - start) * k <= 95 * n) by (nonlinear_arith)
                requires start <= 55, 1 <= k <= n, 0 <= n;
            assert(95 * n <= 95 * 0x1_0000_0000_0000_0000) by (nonlinear_arith)
                requires n <= 0x1_0000_0000_0000_0000;
        }
        r.push(Percent { num: start * n + (95 - start) * k, den: n });
        i = i + 1;
    }
    r.push(Percent { num: 95 * d, den: d });
    r.push(Percent { num: 100 * d, den: d });
    r
}

/// Reported progress never decreases, starts at 0 and ends at exactly 100, whatever the number
/// of clusters (none included): all checkpoints share one positive denominator and their
/// numerators are non-decreasing.
pub proof fn lemma_progress_monotone(mode: ColorMode, n: int)
    requires
        0 <= n <= u64::MAX,
    ensures
        ({
            let s = progress_schedule_of(mode, n);
            &&& s.len() >= 2
            &&& s[0].num == 0
            &&& s[s.len() - 1].num == 100 * s[s.len() - 1].den
            &&& forall|i: int| 0 <= i < s.len() ==> #[trigger] s[i].den == schedule_den(n)
            &&& forall|i: int, j: int|
                0 <= i <= j < s.len() ==> #[trigger] s[i].num <= #[trigger] s[j].num
        }),
{
    let s = progress_schedule_of(mode, n);
    let d = schedule_den(n);
    let lead = leading_checkpoints(mode, d);
    let st = emission_start(mode);
    let l = lead.len() as int;
    assert(d * 100 <= u64::MAX * 100) by (nonlinear_arith)
        requires 1 <= d <= u64::MAX;
    assert forall|i: int| 0 <= i < s.len() implies (#[trigger] s[i]).den == d && s[i].num
        == if i < l {
        lead[i].num as int
    } else if i < l + n {
        st * n + (95 - st) * (i - l + 1)
    } else if i == l + n {
        95 * d
    } else {
        100 * d
    } by {
        if l <= i < l + n {
            assert((95 - st) * (i - l + 1) <= (95 - st) * n) by (nonlinear_arith)
                requires 0 <= i - l + 1 <= n, 0 <= 95 - st;
        }
    }
    assert forall|i: int, j: int| 0 <= i <= j < s.len() implies #[trigger] s[i].num
        <= #[trigger] s[j].num by {
        if l <= i < l + n {
            assert((95 - st) * (i - l + 1) <= (95 - st) * n) by (nonlinear_arith)
                requires 0 <= i - l + 1 <= n, 0 <= 95 - st;
        }
        if l <= j < l + n {
            assert((95 - st) * (j - l + 1) <= (95 - st) * n) by (nonlinear_arith)
                requires 0 <= j - l + 1 <= n, 0 <= 95 - st;
            assert((95 - st) * (j - l + 1) >= 0) by (nonlinear_arith)
                requires 0 <= j - l + 1, 0 <= 95 - st;
            if l <= i {
                assert((95 - st) * (i - l + 1) <= (95 - st) * (j - l + 1)) by (nonlinear_arith)
                    requires i <= j, 0 <= 95 - st;
            }
        }
    }
}

} // verus!
