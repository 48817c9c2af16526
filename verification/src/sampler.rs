use vstd::prelude::*;
use vstd::arithmetic::div_mod::lemma_div_is_ordered;
use vstd::arithmetic::div_mod::lemma_div_multiples_vanish;
use vstd::arithmetic::div_mod::lemma_div_of0;
use vstd::arithmetic::div_mod::lemma_div_pos_is_pos;
use vstd::arithmetic::div_mod::lemma_fundamental_div_mod;
use vstd::arithmetic::div_mod::lemma_mod_division_less_than_divisor;
use vstd::arithmetic::mul::lemma_mul_by_zero_is_zero;
use vstd::arithmetic::mul::lemma_mul_inequality;
use vstd::arithmetic::mul::lemma_mul_is_distributive_sub_other_way;
use vstd::arithmetic::mul::lemma_mul_left_inequality;
use vstd::arithmetic::mul::lemma_mul_nonnegative;
use vstd::arithmetic::mul::lemma_mul_upper_bound;

use crate::types::LatLngE5;

verus! {

// Waypoints are sampled by cumulative ground distance along a decoded
// path. The distance of each path segment comes in as data, in whole
// millimetres, so the resampling itself is exact integer arithmetic:
// waypoint `i` of `n` sits at distance `total * (2*i + 1) / (2*n)` along
// the path, centred in the `i`-th of `n` equal arc spans.

/// No honest ground distance of a single segment exceeds this: half the
/// Earth's circumference is below 2.1e10 mm.
pub const MAX_SEGMENT_MM: u64 = 0x8_0000_0000;

/// Cap on the number of path segments a sampled route may have, so that
/// every cumulative distance fits comfortably in 64 bits.
pub const MAX_SEGMENTS: usize = 0x1000_0000;

/// Cap on the requested waypoint count.
pub const MAX_WAYPOINT_COUNT: usize = 0xFFFF_FFFF;

/// The distance from the start of the path to the end of segment
/// `i - 1`, that is, to path point `i`.
pub open spec fn dist_sum(dists: Seq<u64>, i: int) -> int
    decreases i,
{
    if i <= 0 {
        0
    } else {
        dist_sum(dists, i - 1) + dists[i - 1]
    }
}

/// The whole path's length: the running distance at its last point.
pub open spec fn total_dist(dists: Seq<u64>) -> int {
    dist_sum(dists, dists.len() as int)
}

/// The along-path distance at which waypoint `i` of `n` is placed.
pub open spec fn target_dist(total: int, i: int, n: int) -> int {
    (total * (2 * i + 1)) / (2 * n)
}

/// How many of the first `m` path points lie strictly closer to the
/// start than `t`.
pub open spec fn count_below(dists: Seq<u64>, m: int, t: int) -> int
    decreases m,
{
    if m <= 0 {
        0
    } else {
        count_below(dists, m - 1, t) + if dist_sum(dists, m - 1) < t {
            1int
        } else {
            0int
        }
    }
}

/// The index of the segment that contains along-path distance `t`: one
/// before the first point at or past `t`, clamped to a real segment.
pub open spec fn segment_index(dists: Seq<u64>, t: int) -> int {
    let pp = count_below(dists, dists.len() as int + 1, t);
    let s = if pp == 0 {
        0
    } else {
        pp - 1
    };
    if s > dists.len() - 1 {
        dists.len() - 1
    } else {
        s
    }
}

/// Linear interpolation between coordinates `a` and `b` by the fraction
/// `num / den`, rounded towards `a`.
pub open spec fn interp_coord(a: i64, b: i64, num: int, den: int) -> i64 {
    if b >= a {
        (a + ((b - a) * num) / den) as i64
    } else {
        (a - ((a - b) * num) / den) as i64
    }
}

/// Waypoint `i` of `n`: the point at along-path distance
/// `target_dist(total, i, n)`, interpolated within its segment, or the
/// segment's start point when the segment has zero length.
pub open spec fn waypoint_at(points: Seq<LatLngE5>, dists: Seq<u64>, n: int, i: int) -> LatLngE5 {
    let t = target_dist(total_dist(dists), i, n);
    let s = segment_index(dists, t);
    let seg_len = dists[s];
    if seg_len == 0 {
        points[s]
    } else {
        let num = t - dist_sum(dists, s);
        LatLngE5 {
            latitude_e5: interp_coord(points[s].latitude_e5, points[s + 1].latitude_e5, num, seg_len as int),
            longitude_e5: interp_coord(points[s].longitude_e5, points[s + 1].longitude_e5, num, seg_len as int),
        }
    }
}

/// What sampling returns: the path itself when no resampling is possible
/// or requested, the first point alone when the whole path has length
/// zero, and otherwise one waypoint for each of the `n` arc spans.
pub open spec fn sample_spec(points: Seq<LatLngE5>, dists: Seq<u64>, n: int) -> Seq<LatLngE5> {
    if points.len() <= 1 || n == 0 {
        points
    } else if total_dist(dists) == 0 {
        seq![points[0]]
    } else {
        Seq::new(n as nat, |i: int| waypoint_at(points, dists, n, i))
    }
}

/// Running distances never decrease along the path.
pub proof fn lemma_dist_sum_mono(dists: Seq<u64>, a: int, b: int)
    requires
        0 <= a <= b,
    ensures
        dist_sum(dists, a) <= dist_sum(dists, b),
    decreases b,
{
    if a < b {
        lemma_dist_sum_mono(dists, a, b - 1);
    }
}

/// A running distance over segments no longer than `cap` is at most
/// `q * cap`.
proof fn lemma_dist_sum_cap(dists: Seq<u64>, q: int, cap: int)
    requires
        0 <= q <= dists.len(),
        0 <= cap,
        forall|j: int| 0 <= j < dists.len() ==> dists[j] <= cap,
    ensures
        dist_sum(dists, q) <= q * cap,
    decreases q,
{
    if q > 0 {
        lemma_dist_sum_cap(dists, q - 1, cap);
        assert(dist_sum(dists, q) == dist_sum(dists, q - 1) + dists[q - 1]);
        assert(dists[q - 1] <= cap);
        lemma_mul_is_distributive_sub_other_way(cap, q, 1);
        assert((q - 1) * cap == q * cap - 1 * cap);
        assert(1 * cap == cap) by (nonlinear_arith);
    } else {
        lemma_mul_by_zero_is_zero(cap);
    }
}

/// A boundary below which all running distances are under `t` and from
/// which on none is pins down `count_below`.
proof fn lemma_count_below_is_boundary(dists: Seq<u64>, m: int, t: int, pp: int)
    requires
        0 <= pp <= m,
        forall|q: int| 0 <= q < pp ==> dist_sum(dists, q) < t,
        forall|q: int| pp <= q < m ==> dist_sum(dists, q) >= t,
    ensures
        count_below(dists, m, t) == pp,
    decreases m,
{
    if m > 0 {
        if pp == m {
            lemma_count_below_is_boundary(dists, m - 1, t, pp - 1);
        } else {
            lemma_count_below_is_boundary(dists, m - 1, t, pp);
        }
    }
}

/// A nonnegative number below `q * d` divides by `d` to below `q`.
proof fn lemma_div_below(x: int, d: int, q: int)
    requires
        0 <= x,
        0 < d,
        x < q * d,
    ensures
        x / d < q,
{
    lemma_fundamental_div_mod(x, d);
    lemma_mod_division_less_than_divisor(x, d);
    if x / d >= q {
        lemma_mul_inequality(q, x / d, d);
        assert(q * d <= (x / d) * d);
        assert(d * (x / d) == (x / d) * d) by (nonlinear_arith);
        assert(x >= d * (x / d));
        assert(false);
    }
}

/// Scaling by a fraction of at most one does not increase a
/// nonnegative number.
proof fn lemma_frac_le(diff: int, num: int, den: int)
    requires
        0 <= diff,
        0 <= num <= den,
        0 < den,
    ensures
        0 <= (diff * num) / den <= diff,
{
    lemma_mul_nonnegative(diff, num);
    lemma_div_pos_is_pos(diff * num, den);
    if diff == 0 {
        lemma_mul_by_zero_is_zero(num);
        lemma_div_of0(den);
    } else {
        lemma_mul_left_inequality(diff, num, den);
        lemma_div_is_ordered(diff * num, diff * den, den);
        lemma_div_multiples_vanish(diff, den);
    }
}

/// `count_below` over a running-distance table is a boundary: every
/// point before it is strictly closer to the start than `t`, and no
/// point from it on is.
proof fn lemma_count_below_props(dists: Seq<u64>, m: int, t: int)
    requires
        0 <= m,
    ensures
        0 <= count_below(dists, m, t) <= m,
        forall|q: int| 0 <= q < count_below(dists, m, t) ==> dist_sum(dists, q) < t,
        forall|q: int| count_below(dists, m, t) <= q < m ==> dist_sum(dists, q) >= t,
    decreases m,
{
    if m > 0 {
        lemma_count_below_props(dists, m - 1, t);
        let pp1 = count_below(dists, m - 1, t);
        if dist_sum(dists, m - 1) < t {
            assert forall|q: int| 0 <= q < m - 1 implies dist_sum(dists, q) < t by {
                lemma_dist_sum_mono(dists, q, m - 1);
            }
            if pp1 < m - 1 {
                assert(dist_sum(dists, pp1) >= t);
                assert(false);
            }
        }
    }
}

/// Waypoints are spaced evenly by along-path distance: waypoint `i` of
/// `n` is aimed at distance `total * (2*i + 1) / (2*n)`, the centre of
/// the `i`-th of `n` equal arc spans. The targets are nonnegative, never
/// decrease with `i`, stay strictly inside the path's total length, and
/// the segment chosen for a waypoint contains its target distance.
pub proof fn lemma_waypoint_spacing(points: Seq<LatLngE5>, dists: Seq<u64>, n: int, i: int)
    requires
        points.len() > 1,
        dists.len() == points.len() - 1,
        0 < n,
        0 <= i < n,
        0 < total_dist(dists),
    ensures
        sample_spec(points, dists, n).len() == n,
        sample_spec(points, dists, n)[i] == waypoint_at(points, dists, n, i),
        0 <= target_dist(total_dist(dists), i, n) < total_dist(dists),
        i + 1 < n ==> target_dist(total_dist(dists), i, n) <= target_dist(
            total_dist(dists),
            i + 1,
            n,
        ),
        0 <= segment_index(dists, target_dist(total_dist(dists), i, n)) < dists.len(),
        dist_sum(dists, segment_index(dists, target_dist(total_dist(dists), i, n)))
            <= target_dist(total_dist(dists), i, n),
        target_dist(total_dist(dists), i, n) <= dist_sum(
            dists,
            segment_index(dists, target_dist(total_dist(dists), i, n)) + 1,
        ),
{
    let total = total_dist(dists);
    let t = target_dist(total, i, n);
    lemma_mul_nonnegative(total, 2 * i + 1);
    lemma_div_pos_is_pos(total * (2 * i + 1), 2 * n);
    lemma_mul_left_inequality(total, 2 * i + 1, 2 * n);
    lemma_div_below(total * (2 * i + 1), 2 * n, total);
    if i + 1 < n {
        lemma_mul_left_inequality(total, 2 * i + 1, 2 * (i + 1) + 1);
        lemma_div_is_ordered(total * (2 * i + 1), total * (2 * (i + 1) + 1), 2 * n);
    }
    lemma_count_below_props(dists, dists.len() as int + 1, t);
    let pp = count_below(dists, dists.len() as int + 1, t);
    if pp == dists.len() + 1 {
        assert(dist_sum(dists, dists.len() as int) < t);
        assert(false);
    }
    if pp == 0 {
        assert(dist_sum(dists, 0) >= t);
    } else {
        assert(dist_sum(dists, pp - 1) < t);
        assert(dist_sum(dists, pp) >= t);
    }
}

/// Whether `x` lies between `a` and `b`, whichever way round they are.
pub open spec fn coord_between(a: i64, b: i64, x: i64) -> bool {
    if a <= b {
        a <= x <= b
    } else {
        b <= x <= a
    }
}

/// Interpolating by a fraction of at most one stays between the two
/// endpoints.
proof fn lemma_interp_coord_between(a: i64, b: i64, num: int, den: int)
    requires
        0 < den,
        0 <= num <= den,
    ensures
        coord_between(a, b, interp_coord(a, b, num, den)),
{
    if b >= a {
        lemma_frac_le(b - a, num, den);
    } else {
        lemma_frac_le(a - b, num, den);
    }
}

/// A waypoint never leaves its segment: a zero-length segment yields the
/// segment's start point, and otherwise each coordinate of the
/// interpolated waypoint lies between the segment's two endpoints.
pub proof fn lemma_waypoint_on_segment(points: Seq<LatLngE5>, dists: Seq<u64>, n: int, i: int)
    requires
        points.len() > 1,
        dists.len() == points.len() - 1,
        0 < n,
        0 <= i < n,
        0 < total_dist(dists),
    ensures
        ({
            let t = target_dist(total_dist(dists), i, n);
            let s = segment_index(dists, t);
            let w = waypoint_at(points, dists, n, i);
            &&& dists[s] == 0 ==> w == points[s]
            &&& dists[s] != 0 ==> coord_between(
                points[s].latitude_e5,
                points[s + 1].latitude_e5,
                w.latitude_e5,
            )
            &&& dists[s] != 0 ==> coord_between(
                points[s].longitude_e5,
                points[s + 1].longitude_e5,
                w.longitude_e5,
            )
        }),
{
    lemma_waypoint_spacing(points, dists, n, i);
    let t = target_dist(total_dist(dists), i, n);
    let s = segment_index(dists, t);
    if dists[s] != 0 {
        assert(dist_sum(dists, s + 1) == dist_sum(dists, s) + dists[s]);
        let num = t - dist_sum(dists, s);
        lemma_interp_coord_between(
            points[s].latitude_e5,
            points[s + 1].latitude_e5,
            num,
            dists[s] as int,
        );
        lemma_interp_coord_between(
            points[s].longitude_e5,
            points[s + 1].longitude_e5,
            num,
            dists[s] as int,
        );
    }
}

/// Linear interpolation between two coordinates; the fraction
/// `num / den` must not exceed one.
fn interp(a: i64, b: i64, num: u64, den: u64) -> (r: i64)
    requires
        0 < den <= MAX_SEGMENT_MM,
        num <= den,
    ensures
        r == interp_coord(a, b, num as int, den as int),
{
    if b >= a {
        let diff_i: i128 = (b as i128) - (a as i128);
        let diff: u128 = diff_i as u128;
        proof {
            lemma_frac_le(diff as int, num as int, den as int);
            lemma_mul_upper_bound(diff as int, 0xffff_ffff_ffff_ffff, num as int, MAX_SEGMENT_MM as int);
        }
        let off: u128 = diff * (num as u128) / (den as u128);
        let r_wide: i128 = (a as i128) + (off as i128);
        r_wide as i64
    } else {
        let diff_i: i128 = (a as i128) - (b as i128);
        let diff: u128 = diff_i as u128;
        proof {
            lemma_frac_le(diff as int, num as int, den as int);
            lemma_mul_upper_bound(diff as int, 0xffff_ffff_ffff_ffff, num as int, MAX_SEGMENT_MM as int);
        }
        let off: u128 = diff * (num as u128) / (den as u128);
        let r_wide: i128 = (a as i128) - (off as i128);
        r_wide as i64
    }
}

/// The first index at which the sorted table reaches `t`.
fn partition_point_lt(cums: &Vec<u64>, t: u64) -> (pp: usize)
    requires
        forall|p: int, q: int| 0 <= p <= q < cums@.len() ==> cums@[p] <= cums@[q],
    ensures
        pp <= cums@.len(),
        forall|q: int| 0 <= q < pp ==> cums@[q] < t,
        forall|q: int| pp <= q < cums@.len() ==> cums@[q] >= t,
{
    let mut lo: usize = 0;
    let mut hi: usize = cums.len();
    while lo < hi
        invariant
            lo <= hi <= cums@.len(),
            forall|p: int, q: int| 0 <= p <= q < cums@.len() ==> cums@[p] <= cums@[q],
            forall|q: int| 0 <= q < lo ==> cums@[q] < t,
            forall|q: int| hi <= q < cums@.len() ==> cums@[q] >= t,
        decreases hi - lo,
    {
        let mid: usize = lo + (hi - lo) / 2;
        if cums[mid] < t {
            lo = mid + 1;
        } else {
            hi = mid;
        }
    }
    lo
}

/// Copies a point vector.
fn copy_points(points: &Vec<LatLngE5>) -> (r: Vec<LatLngE5>)
    ensures
        r@ == points@,
{
    let mut r: Vec<LatLngE5> = Vec::new();
    let mut i: usize = 0;
    while i < points.len()
        invariant
            i <= points@.len(),
            r@ == points@.subrange(0, i as int),
        decreases points@.len() - i,
    {
        r.push(points[i]);
        proof {
            assert(r@ =~= points@.subrange(0, i + 1 as int));
        }
        i = i + 1;
    }
    proof {
        assert(r@ =~= points@);
    }
    r
}

/// The running-distance table of a path: entry `j` is the distance from
/// the start to point `j`.
fn cumulative_table(dists: &Vec<u64>) -> (cums: Vec<u64>)
    requires
        dists@.len() <= MAX_SEGMENTS,
        forall|j: int| 0 <= j < dists@.len() ==> dists@[j] <= MAX_SEGMENT_MM,
    ensures
        cums@.len() == dists@.len() + 1,
        forall|q: int| 0 <= q < cums@.len() ==> cums@[q] == dist_sum(dists@, q),
{
    let mut cums: Vec<u64> = Vec::new();
    cums.push(0);
    let mut j: usize = 1;
    while j <= dists.len()
        invariant
            1 <= j <= dists@.len() + 1,
            dists@.len() <= MAX_SEGMENTS,
            forall|q: int| 0 <= q < dists@.len() ==> dists@[q] <= MAX_SEGMENT_MM,
            cums@.len() == j,
            forall|q: int| 0 <= q < j ==> cums@[q] == dist_sum(dists@, q),
        decreases dists@.len() + 1 - j,
    {
        proof {
            lemma_dist_sum_cap(dists@, j - 1 as int, MAX_SEGMENT_MM as int);
            lemma_mul_upper_bound(j - 1 as int, MAX_SEGMENTS as int, MAX_SEGMENT_MM as int, MAX_SEGMENT_MM as int);
        }
        let c: u64 = cums[j - 1] + dists[j - 1];
        cums.push(c);
        j = j + 1;
    }
    cums
}

/// Resamples a path into waypoints evenly spaced by along-path distance.
///
/// `dists` carries the ground distance of each consecutive segment in
/// millimetres. A path of at most one point, or a request for zero
/// waypoints, is returned unchanged; a path whose total length is zero
/// collapses to its first point; otherwise waypoint `i` of `n` is placed
/// at along-path distance `total * (2*i + 1) / (2*n)`, linearly
/// interpolated inside the segment that contains that distance.
pub fn sample_waypoints(points: &Vec<LatLngE5>, dists: &Vec<u64>, n: usize) -> (wps: Vec<
    LatLngE5,
>)
    requires
        points@.len() > 1 && n > 0 ==> dists@.len() == points@.len() - 1,
        dists@.len() <= MAX_SEGMENTS,
        n <= MAX_WAYPOINT_COUNT,
        forall|j: int| 0 <= j < dists@.len() ==> dists@[j] <= MAX_SEGMENT_MM,
    ensures
        wps@ == sample_spec(points@, dists@, n as int),
        points@.len() <= 1 || n == 0 ==> wps@ == points@,
        points@.len() > 1 && n > 0 && total_dist(dists@) == 0 ==> wps@ == seq![points@[0]],
        points@.len() > 1 && n > 0 && total_dist(dists@) != 0 ==> wps@.len() == n,
{
    if points.len() <= 1 || n == 0 {
        return copy_points(points);
    }
    let m: usize = points.len();
    let cums: Vec<u64> = cumulative_table(dists);
    let total: u64 = cums[m - 1];
    if total == 0 {
        let mut one: Vec<LatLngE5> = Vec::new();
        one.push(points[0]);
        proof {
            assert(one@ =~= seq![points@[0]]);
        }
        return one;
    }
    proof {
        assert forall|p: int, q: int| 0 <= p <= q < cums@.len() implies cums@[p] <= cums@[q] by {
            lemma_dist_sum_mono(dists@, p, q);
        }
        lemma_dist_sum_cap(dists@, dists@.len() as int, MAX_SEGMENT_MM as int);
        lemma_mul_upper_bound(
            dists@.len() as int,
            MAX_SEGMENTS as int,
            MAX_SEGMENT_MM as int,
            MAX_SEGMENT_MM as int,
        );
    }
    let mut wps: Vec<LatLngE5> = Vec::new();
    let mut i: usize = 0;
    while i < n
        invariant
            i <= n,
            0 < n <= MAX_WAYPOINT_COUNT,
            2 <= m == points@.len(),
            dists@.len() == m - 1,
            dists@.len() <= MAX_SEGMENTS,
            forall|j: int| 0 <= j < dists@.len() ==> dists@[j] <= MAX_SEGMENT_MM,
            cums@.len() == m,
            forall|q: int| 0 <= q < cums@.len() ==> cums@[q] == dist_sum(dists@, q),
            forall|p: int, q: int| 0 <= p <= q < cums@.len() ==> cums@[p] <= cums@[q],
            total == total_dist(dists@),
            0 < total,
            total <= MAX_SEGMENTS * MAX_SEGMENT_MM,
            wps@.len() == i,
            forall|q: int|
                0 <= q < i ==> wps@[q] == waypoint_at(points@, dists@, n as int, q),
        decreases n - i,
    {
        let ghost gtotal = total as int;
        let ghost gn = n as int;
        let ghost gi = i as int;
        proof {
            lemma_mul_upper_bound(gtotal, 0x8000_0000_0000_0000, 2 * gi + 1, 0x1_ffff_ffff);
            // The target distance stays strictly inside the path.
            lemma_mul_left_inequality(gtotal, 2 * gi + 1, 2 * gn);
            lemma_div_below(gtotal * (2 * gi + 1), 2 * gn, gtotal);
        }
        let ti: u128 = (total as u128) * (2 * (i as u128) + 1) / (2 * (n as u128));
        let target: u64 = ti as u64;
        proof {
            assert(target == target_dist(gtotal, gi, gn));
            assert(0 <= target_dist(gtotal, gi, gn)) by {
                lemma_mul_inequality(0, gtotal, 2 * gi + 1);
                lemma_div_is_ordered(0, gtotal * (2 * gi + 1), 2 * gn);
            }
        }
        let pp: usize = partition_point_lt(&cums, target);
        proof {
            lemma_count_below_is_boundary(dists@, m as int, target as int, pp as int);
            assert(pp < m) by {
                assert(cums@[m - 1] == total_dist(dists@));
            }
        }
        let s0: usize = if pp == 0 {
            0
        } else {
            pp - 1
        };
        let seg: usize = if s0 > m - 2 {
            m - 2
        } else {
            s0
        };
        proof {
            assert(seg == segment_index(dists@, target as int));
        }
        let c0: u64 = cums[seg];
        let seg_len: u64 = dists[seg];
        let wp: LatLngE5 = if seg_len == 0 {
            points[seg]
        } else {
            proof {
                if pp == 0 {
                    assert(cums@[0] == 0);
                    assert(target == 0);
                } else {
                    assert(cums@[pp - 1] < target);
                    assert(cums@[pp as int] >= target);
                    assert(cums@[seg + 1] == cums@[seg as int] + dists@[seg as int]);
                }
            }
            let num: u64 = target - c0;
            let lat: i64 = interp(
                points[seg].latitude_e5,
                points[seg + 1].latitude_e5,
                num,
                seg_len,
            );
            let lng: i64 = interp(
                points[seg].longitude_e5,
                points[seg + 1].longitude_e5,
                num,
                seg_len,
            );
            LatLngE5 { latitude_e5: lat, longitude_e5: lng }
        };
        proof {
            assert(wp == waypoint_at(points@, dists@, gn, gi));
        }
        wps.push(wp);
        i = i + 1;
    }
    proof {
        assert(wps@ =~= Seq::new(n as nat, |q: int| waypoint_at(points@, dists@, n as int, q)));
    }
    wps
}

} // verus!
