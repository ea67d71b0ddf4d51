//! Loudness of a block of 16-bit PCM samples.
//!
//! The loudness is the root mean square of the block, rounded down to a whole
//! amplitude step: the largest `l` with `l * l * len <= sum of squares`.

use vstd::prelude::*;

verus! {

/// Largest loudness any block can have (every sample at `i16::MIN`).
pub const MAX_LEVEL: u16 = 32768;

/// Sum of the squares of all samples of the block.
pub open spec fn sum_squares(samples: Seq<i16>) -> int
    decreases samples.len(),
{
    if samples.len() == 0 {
        0
    } else {
        sum_squares(samples.drop_last()) + (samples.last() as int) * (samples.last() as int)
    }
}

/// `l` is the root mean square of `samples`, rounded down; 0 for an empty block.
pub open spec fn is_level(samples: Seq<i16>, l: int) -> bool {
    if samples.len() == 0 {
        l == 0
    } else {
        &&& 0 <= l
        &&& l * l * samples.len() <= sum_squares(samples)
        &&& sum_squares(samples) < (l + 1) * (l + 1) * samples.len()
    }
}

/// The loudness of a block: the one `l` for which `is_level` holds.
pub open spec fn level_of(samples: Seq<i16>) -> int {
    choose|l: int| is_level(samples, l)
}

/// `out` is `samples` with every sample multiplied by `k`.
pub open spec fn scaled(samples: Seq<i16>, k: int, out: Seq<i16>) -> bool {
    &&& out.len() == samples.len()
    &&& forall|i: int| 0 <= i < samples.len() ==> (#[trigger] out[i]) as int == k * (samples[i] as int)
}

/// The sum of squares is never negative and at most `2^30` per sample.
pub proof fn sum_squares_bounds(samples: Seq<i16>)
    ensures
        0 <= sum_squares(samples) <= samples.len() * 0x4000_0000,
    decreases samples.len(),
{
    if samples.len() > 0 {
        sum_squares_bounds(samples.drop_last());
        let s = samples.last() as int;
        assert(0 <= s * s <= 0x4000_0000) by (nonlinear_arith)
            requires
                -32768 <= s <= 32767,
        ;
    }
}

/// At most one value is the loudness of a block.
pub proof fn level_unique(samples: Seq<i16>, a: int, b: int)
    requires
        is_level(samples, a),
        is_level(samples, b),
    ensures
        a == b,
{
    if samples.len() > 0 {
        let n = samples.len() as int;
        let s = sum_squares(samples);
        if a < b {
            assert((a + 1) * (a + 1) * n <= b * b * n) by (nonlinear_arith)
                requires
                    0 <= a,
                    a + 1 <= b,
                    n > 0,
            ;
        }
        if b < a {
            assert((b + 1) * (b + 1) * n <= a * a * n) by (nonlinear_arith)
                requires
                    0 <= b,
                    b + 1 <= a,
                    n > 0,
            ;
        }
    }
}

proof fn level_search(samples: Seq<i16>, l: int)
    requires
        samples.len() > 0,
        0 <= l,
        l * l * samples.len() <= sum_squares(samples),
    ensures
        exists|r: int| is_level(samples, r),
    decreases sum_squares(samples) - l * l * samples.len(),
{
    let n = samples.len() as int;
    if sum_squares(samples) < (l + 1) * (l + 1) * n {
        assert(is_level(samples, l));
    } else {
        assert(l * l * n < (l + 1) * (l + 1) * n) by (nonlinear_arith)
            requires
                0 <= l,
                n > 0,
        ;
        level_search(samples, l + 1);
    }
}

/// Every block has a loudness, and `level_of` names it.
pub proof fn level_of_is_level(samples: Seq<i16>)
    ensures
        is_level(samples, level_of(samples)),
        0 <= level_of(samples) <= MAX_LEVEL,
{
    if samples.len() == 0 {
        assert(is_level(samples, 0));
    } else {
        sum_squares_bounds(samples);
        let n = samples.len() as int;
        assert(0 * 0 * n == 0) by (nonlinear_arith);
        level_search(samples, 0);
    }
    let l = level_of(samples);
    if samples.len() > 0 && l > 32768 {
        sum_squares_bounds(samples);
        let n = samples.len() as int;
        assert(l * l * n > n * 0x4000_0000) by (nonlinear_arith)
            requires
                l >= 32769,
                n > 0,
        ;
    }
}

/// An empty block has loudness zero.
pub proof fn level_of_empty_is_zero()
    ensures
        level_of(Seq::<i16>::empty()) == 0,
{
    level_of_is_level(Seq::<i16>::empty());
}

/// Scaling every sample by `k` scales the sum of squares by `k * k`.
pub proof fn sum_squares_scales(samples: Seq<i16>, k: int, out: Seq<i16>)
    requires
        scaled(samples, k, out),
    ensures
        sum_squares(out) == k * k * sum_squares(samples),
    decreases samples.len(),
{
    if samples.len() > 0 {
        let a = samples.drop_last();
        let b = out.drop_last();
        assert(scaled(a, k, b)) by {
            assert forall|i: int| 0 <= i < a.len() implies (#[trigger] b[i]) as int == k * (
            a[i] as int) by {
                assert(b[i] == out[i]);
            }
        }
        sum_squares_scales(a, k, b);
        let s = samples.last() as int;
        let t = out.last() as int;
        let r = sum_squares(a);
        assert(out[out.len() - 1] as int == k * (samples[out.len() - 1] as int));
        assert(k * k * r + t * t == k * k * (r + s * s)) by (nonlinear_arith)
            requires
                t == k * s,
        ;
    }
}

/// The magnitude of a scaling factor.
pub open spec fn magnitude(k: int) -> int {
    if k < 0 {
        -k
    } else {
        k
    }
}

/// A block whose sum of squares is `k * k` times that of another block of
/// the same length has `k` times its loudness, up to rounding.
proof fn level_follows_sum_squares(samples: Seq<i16>, k: int, out: Seq<i16>)
    requires
        0 <= k,
        out.len() == samples.len(),
        sum_squares(out) == k * k * sum_squares(samples),
    ensures
        0 <= level_of(samples),
        k * level_of(samples) <= level_of(out),
        k > 0 ==> level_of(out) < k * (level_of(samples) + 1),
        k == 0 ==> level_of(out) == 0,
{
    level_of_is_level(samples);
    level_of_is_level(out);
    let l = level_of(samples);
    let m = level_of(out);
    let n = samples.len() as int;
    if n == 0 {
        assert(k * 0 == 0 && k * (0 + 1) == k) by (nonlinear_arith);
    } else {
        let s = sum_squares(samples);
        let t = sum_squares(out);
        assert(k * l >= 0) by (nonlinear_arith)
            requires
                k >= 0,
                l >= 0,
        ;
        // (k l)^2 n <= t < (k (l + 1))^2 n
        assert((k * l) * (k * l) * n <= t) by (nonlinear_arith)
            requires
                t == k * k * s,
                l * l * n <= s,
                k >= 0,
        ;
        if m < k * l {
            assert((m + 1) * (m + 1) * n <= (k * l) * (k * l) * n) by (nonlinear_arith)
                requires
                    0 <= m,
                    m + 1 <= k * l,
                    n > 0,
            ;
        }
        if k > 0 {
            assert(t < (k * (l + 1)) * (k * (l + 1)) * n) by (nonlinear_arith)
                requires
                    t == k * k * s,
                    s < (l + 1) * (l + 1) * n,
                    k > 0,
            ;
            if m >= k * (l + 1) {
                assert((k * (l + 1)) * (k * (l + 1)) * n <= m * m * n) by (nonlinear_arith)
                    requires
                        0 <= k * (l + 1),
                        k * (l + 1) <= m,
                        n > 0,
                ;
            }
        } else {
            assert(t == 0) by (nonlinear_arith)
                requires
                    t == k * k * s,
                    k == 0,
            ;
            if m > 0 {
                assert(m * m * n > 0) by (nonlinear_arith)
                    requires
                        m > 0,
                        n > 0,
                ;
            }
        }
    }
}

/// Loudness is never negative and follows a uniform scaling of the amplitude:
/// when every sample is multiplied by `k`, of either sign, the loudness is
/// multiplied by the magnitude of `k`, up to the rounding of one amplitude
/// step of the unscaled block.
pub proof fn level_scales_linearly(samples: Seq<i16>, k: int, out: Seq<i16>)
    requires
        scaled(samples, k, out),
    ensures
        0 <= level_of(samples),
        magnitude(k) * level_of(samples) <= level_of(out),
        k != 0 ==> level_of(out) < magnitude(k) * (level_of(samples) + 1),
        k == 0 ==> level_of(out) == 0,
{
    sum_squares_scales(samples, k, out);
    let a = magnitude(k);
    assert(a * a == k * k) by (nonlinear_arith)
        requires
            a == k || a == -k,
    ;
    level_follows_sum_squares(samples, a, out);
}

/// Computes the loudness of a block of samples.
pub fn level(samples: &[i16]) -> (r: u16)
    ensures
        r as int == level_of(samples@),
        is_level(samples@, r as int),
        r <= MAX_LEVEL,
{
    let n: usize = samples.len();
    if n == 0 {
        proof {
            level_of_is_level(samples@);
        }
        return 0;
    }
    let mut sum: u128 = 0;
    let mut i: usize = 0;
    while i < n
        invariant
            i <= n,
            n == samples@.len(),
            sum as int == sum_squares(samples@.take(i as int)),
            sum <= i * 0x4000_0000,
        decreases n - i,
    {
        let s: i32 = samples[i] as i32;
        assert(0 <= s * s <= 0x4000_0000) by (nonlinear_arith)
            requires
                -32768 <= s <= 32767,
        ;
        let sq: i32 = s * s;
        proof {
            let next = samples@.take(i as int + 1);
            assert(next.drop_last() =~= samples@.take(i as int));
            assert(next.last() == samples@[i as int]);
        }
        sum = sum + sq as u128;
        i = i + 1;
    }
    assert(samples@.take(n as int) =~= samples@);
    let count: u128 = n as u128;
    let mut lo: u128 = 0;
    let mut hi: u128 = 32769;
    assert(32769 * 32769 * count > count * 0x4000_0000) by (nonlinear_arith)
        requires
            count > 0,
    ;
    assert(0 * 0 * count == 0) by (nonlinear_arith);
    while hi - lo > 1
        invariant
            lo < hi <= 32769,
            count == n,
            0 < n == samples@.len(),
            sum as int == sum_squares(samples@),
            lo * lo * count <= sum,
            sum < hi * hi * count,
        decreases hi - lo,
    {
        let mid: u128 = lo + (hi - lo) / 2;
        assert(mid * mid <= 32769 * 32769) by (nonlinear_arith)
            requires
                0 <= mid <= 32769,
        ;
        assert(mid * mid * count <= 32769 * 32769 * 0x1_0000_0000_0000_0000) by (nonlinear_arith)
            requires
                0 <= mid * mid <= 32769 * 32769,
                0 <= count <= 0x1_0000_0000_0000_0000,
        ;
        if mid * mid * count <= sum {
            lo = mid;
        } else {
            hi = mid;
        }
    }
    proof {
        assert(is_level(samples@, lo as int));
        level_of_is_level(samples@);
        level_unique(samples@, lo as int, level_of(samples@));
    }
    lo as u16
}

} // verus!
