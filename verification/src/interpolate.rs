use vstd::prelude::*;

verus! {

use vstd::arithmetic::div_mod::{
    lemma_div_is_ordered, lemma_div_of0, lemma_div_pos_is_pos, lemma_multiply_divide_le,
};
use vstd::arithmetic::mul::{lemma_mul_inequality, lemma_mul_nonnegative, lemma_mul_upper_bound};

/// One calibration reference point: a raw 12-bit reading and the air
/// velocity it stands for, in micrometers per second.
#[derive(Clone, Copy, Debug, PartialEq, Eq, Structural)]
pub struct CalPoint {
    /// The raw reading at which this point was calibrated.
    pub raw: u16,
    /// The calibrated velocity, micrometers per second.
    pub velocity: u32,
}

/// A well-formed calibration table: at least two points, strictly
/// increasing raw thresholds, non-decreasing velocities.
pub open spec fn wf_table(t: Seq<CalPoint>) -> bool {
    &&& t.len() >= 2
    &&& forall|i: int| 0 <= i < t.len() - 1 ==> #[trigger] t[i].raw < t[i + 1].raw
    &&& forall|i: int| 0 <= i < t.len() - 1 ==> #[trigger] t[i].velocity <= t[i + 1].velocity
}

/// In a well-formed table the thresholds are sorted pairwise, and so
/// are the velocities.
pub proof fn lemma_table_sorted(t: Seq<CalPoint>, i: int, j: int)
    requires
        wf_table(t),
        0 <= i <= j < t.len(),
    ensures
        t[i].raw <= t[j].raw,
        i < j ==> t[i].raw < t[j].raw,
        t[i].velocity <= t[j].velocity,
    decreases j - i,
{
    if i < j {
        lemma_table_sorted(t, i, j - 1);
        assert(t[j - 1].raw < t[j].raw);
        assert(t[j - 1].velocity <= t[j].velocity);
    }
}

/// The index of the segment a measurement falls in: the highest index
/// whose threshold is at or below the measurement, or 0 if there is
/// none.
pub open spec fn seg_index(t: Seq<CalPoint>, m: int) -> int
    decreases t.len(),
{
    if t.len() <= 1 {
        0
    } else if t[t.len() - 1].raw <= m {
        t.len() - 1
    } else {
        seg_index(t.drop_last(), m)
    }
}

proof fn lemma_seg_index_props(t: Seq<CalPoint>, m: int)
    requires
        t.len() >= 1,
    ensures
        0 <= seg_index(t, m) < t.len(),
        t[0].raw <= m ==> t[seg_index(t, m)].raw <= m,
        t[seg_index(t, m)].raw <= m || seg_index(t, m) == 0,
        forall|k: int| seg_index(t, m) < k < t.len() ==> m < #[trigger] t[k].raw,
    decreases t.len(),
{
    if t.len() == 1 {
    } else if t[t.len() - 1].raw <= m {
    } else {
        let prev = t.drop_last();
        lemma_seg_index_props(prev, m);
        let s = seg_index(t, m);
        assert(s == seg_index(prev, m));
        assert(prev[0] == t[0]);
        assert(t[0].raw <= m ==> prev[s] == t[s]);
        assert forall|k: int| s < k < t.len() implies m < #[trigger] t[k].raw by {
            if k < t.len() - 1 {
                assert(prev[k] == t[k]);
            }
        }
    }
}

proof fn lemma_seg_index_unique(t: Seq<CalPoint>, m: int, i: int)
    requires
        t.len() >= 1,
        0 <= i < t.len(),
        t[i].raw <= m,
        forall|k: int| i < k < t.len() ==> m < #[trigger] t[k].raw,
    ensures
        seg_index(t, m) == i,
{
    lemma_seg_index_props(t, m);
    let s = seg_index(t, m);
    if s < i {
        assert(m < t[i].raw);
        assert(false);
    } else if i < s {
        assert(s != 0);
        assert(t[s].raw <= m);
        assert(m < t[s].raw);
        assert(false);
    }
}

/// The raw-to-velocity conversion, stated mathematically.
///
/// Below the first threshold the velocity clamps to zero; at or above
/// the last threshold it clamps to the last calibrated velocity; in
/// between, it interpolates linearly (with the fraction rounded down
/// to the micrometer-per-second grid) between the two points that
/// bracket the measurement.
pub open spec fn interpolate_spec(t: Seq<CalPoint>, m: int) -> int {
    if m < t[0].raw {
        0
    } else {
        let i = seg_index(t, m);
        if i == t.len() - 1 {
            t[i].velocity as int
        } else {
            t[i].velocity + (m - t[i].raw) * (t[i + 1].velocity - t[i].velocity) / (t[i
                + 1].raw - t[i].raw)
        }
    }
}

/// Inside its segment, an interpolated velocity lies between the two
/// bracketing calibrated velocities.
proof fn lemma_interp_segment_bounds(t: Seq<CalPoint>, m: int)
    requires
        wf_table(t),
        t[0].raw <= m,
    ensures
        t[seg_index(t, m)].velocity <= interpolate_spec(t, m),
        seg_index(t, m) < t.len() - 1 ==> interpolate_spec(t, m) <= t[seg_index(t, m)
            + 1].velocity,
{
    lemma_seg_index_props(t, m);
    let s = seg_index(t, m);
    if s < t.len() - 1 {
        let lr = t[s].raw as int;
        let hr = t[s + 1].raw as int;
        let lv = t[s].velocity as int;
        let hv = t[s + 1].velocity as int;
        assert(t[s].raw < t[s + 1].raw);
        assert(t[s].velocity <= t[s + 1].velocity);
        let dr = hr - lr;
        let dv = hv - lv;
        assert(m < hr);
        lemma_mul_nonnegative(m - lr, dv);
        lemma_div_pos_is_pos((m - lr) * dv, dr);
        lemma_mul_inequality(m - lr, dr, dv);
        lemma_multiply_divide_le((m - lr) * dv, dr, dv);
        assert(interpolate_spec(t, m) == lv + (m - lr) * dv / dr);
    }
}

/// Floor clamp: any measurement below the first threshold converts to
/// zero velocity.
pub proof fn lemma_interpolate_floor(t: Seq<CalPoint>, m: int)
    requires
        wf_table(t),
        m < t[0].raw,
    ensures
        interpolate_spec(t, m) == 0,
{
}

/// Ceiling clamp: any measurement at or above the last threshold
/// converts to the last calibrated velocity.
pub proof fn lemma_interpolate_ceiling(t: Seq<CalPoint>, m: int)
    requires
        wf_table(t),
        t[t.len() - 1].raw <= m,
    ensures
        interpolate_spec(t, m) == t[t.len() - 1].velocity,
{
    lemma_table_sorted(t, 0, t.len() - 1);
}

/// Exact-point conversion: a measurement that equals a calibration
/// threshold converts to exactly that point's calibrated velocity.
pub proof fn lemma_interpolate_exact(t: Seq<CalPoint>, k: int)
    requires
        wf_table(t),
        0 <= k < t.len(),
    ensures
        interpolate_spec(t, t[k].raw as int) == t[k].velocity,
{
    let m = t[k].raw as int;
    lemma_table_sorted(t, 0, k);
    assert forall|j: int| k < j < t.len() implies m < #[trigger] t[j].raw by {
        lemma_table_sorted(t, k, j);
    }
    lemma_seg_index_unique(t, m, k);
    if k < t.len() - 1 {
        let dv = t[k + 1].velocity - t[k].velocity;
        let dr = t[k + 1].raw - t[k].raw;
        assert(t[k].raw < t[k + 1].raw);
        assert((m - t[k].raw) * dv == 0);
        lemma_div_of0(dr);
    }
}

/// Monotonicity: for a fixed well-formed table, the interpolated
/// velocity is non-decreasing in the measurement.
pub proof fn lemma_interpolate_monotonic(t: Seq<CalPoint>, m1: int, m2: int)
    requires
        wf_table(t),
        m1 <= m2,
    ensures
        interpolate_spec(t, m1) <= interpolate_spec(t, m2),
{
    if m2 < t[0].raw {
        // Both below the floor: both zero.
    } else if m1 < t[0].raw {
        lemma_interp_segment_bounds(t, m2);
    } else {
        lemma_seg_index_props(t, m1);
        lemma_seg_index_props(t, m2);
        let s1 = seg_index(t, m1);
        let s2 = seg_index(t, m2);
        if s2 < s1 {
            assert(m2 < t[s1].raw);
            assert(false);
        }
        if s1 == s2 {
            if s1 < t.len() - 1 {
                let lr = t[s1].raw as int;
                let dr = t[s1 + 1].raw - t[s1].raw;
                let dv = t[s1 + 1].velocity - t[s1].velocity;
                assert(t[s1].raw < t[s1 + 1].raw);
                assert(t[s1].velocity <= t[s1 + 1].velocity);
                lemma_mul_inequality(m1 - lr, m2 - lr, dv);
                lemma_div_is_ordered((m1 - lr) * dv, (m2 - lr) * dv, dr);
            }
        } else {
            lemma_interp_segment_bounds(t, m1);
            lemma_interp_segment_bounds(t, m2);
            lemma_table_sorted(t, s1 + 1, s2);
        }
    }
}

/// Convert a raw reading to a velocity in micrometers per second by
/// linear interpolation over a calibration table.
///
/// Scans from the highest threshold downward for the segment that
/// holds the measurement, clamping to zero below the table and to the
/// last calibrated velocity at or above its end.
pub fn interpolate(measurement: u16, table: &Vec<CalPoint>) -> (r: u32)
    requires
        wf_table(table@),
    ensures
        r as int == interpolate_spec(table@, measurement as int),
{
    let n = table.len();
    if measurement < table[0].raw {
        return 0;
    }
    let mut i: usize = n - 1;
    while table[i].raw > measurement
        invariant
            wf_table(table@),
            n == table@.len(),
            0 <= i < n,
            table@[0].raw <= measurement,
            forall|k: int| i < k < n ==> measurement < #[trigger] table@[k].raw,
        decreases i,
    {
        assert(i > 0);
        i = i - 1;
    }
    proof {
        lemma_seg_index_unique(table@, measurement as int, i as int);
    }
    let lower = table[i];
    if i == n - 1 {
        return lower.velocity;
    }
    let higher = table[i + 1];
    proof {
        assert(table@[i as int].raw < table@[i as int + 1].raw);
        assert(table@[i as int].velocity <= table@[i as int + 1].velocity);
    }
    let dr = (higher.raw - lower.raw) as u64;
    let dv = (higher.velocity - lower.velocity) as u64;
    let offset = (measurement - lower.raw) as u64;
    proof {
        lemma_mul_upper_bound(offset as int, 0xffff, dv as int, 0xffff_ffff);
        lemma_mul_nonnegative(offset as int, dv as int);
        lemma_div_pos_is_pos(offset as int * dv as int, dr as int);
        lemma_mul_inequality(offset as int, dr as int, dv as int);
        lemma_multiply_divide_le(offset as int * dv as int, dr as int, dv as int);
    }
    let frac = (offset * dv) / dr;
    lower.velocity + (frac as u32)
}

} // verus!
