//! Cosine similarity over fixed-point embedding vectors.
//!
//! A vector component of `SCALE` (one million) stands for 1.0.  Similarity
//! scores use the same scale: a score of 1_000_000 means cosine 1.0.  The
//! similarity of two vectors is 0 when their lengths differ or when either
//! has zero magnitude; otherwise it is `dot(a, b) / (|a| * |b|)`, evaluated
//! with an exact integer square root and truncating division, and clamped
//! into `[-SCALE, SCALE]`: true cosine never leaves that range, so the clamp
//! only corrects the overshoot that the rounded-down square roots would
//! otherwise cause.  The residual truncation error for distinct vectors is
//! on the order of one part in the vectors' magnitude: negligible for
//! unit-normalized embeddings (about a million quanta), large only for
//! vectors of a few quanta.

use vstd::prelude::*;

verus! {

/// Fixed-point scale: this many units stand for 1.0.
pub const SCALE: i64 = 1_000_000;

/// Largest admitted magnitude of a single vector component (4.0 in fixed
/// point).  This is a limit of the representation, not of the data model:
/// it is what keeps every intermediate product within 128 bits for any
/// vector length.  Embedding models hand out unit-normalized vectors, whose
/// components lie well inside it.
pub const COMPONENT_LIMIT: i64 = 4_000_000;

/// All components of `v` lie within `[-COMPONENT_LIMIT, COMPONENT_LIMIT]`.
pub open spec fn bounded_components(v: Seq<i64>) -> bool {
    forall|i: int| 0 <= i < v.len() ==> -4_000_000 <= #[trigger] v[i] <= 4_000_000
}

/// Dot product of the first `n` components of `a` and `b`.
pub open spec fn dot_prefix(a: Seq<i64>, b: Seq<i64>, n: int) -> int
    decreases n,
{
    if n <= 0 {
        0
    } else {
        dot_prefix(a, b, n - 1) + a[n - 1] * b[n - 1]
    }
}

/// Dot product of two equal-length vectors.
pub open spec fn spec_dot(a: Seq<i64>, b: Seq<i64>) -> int {
    dot_prefix(a, b, a.len() as int)
}

/// Squared magnitude of a vector.
pub open spec fn spec_norm_sq(a: Seq<i64>) -> int {
    spec_dot(a, a)
}

/// `r` is the integer square root of `n`.
pub open spec fn is_sqrt(n: int, r: int) -> bool {
    0 <= r && r * r <= n && n < (r + 1) * (r + 1)
}

/// The integer square root of a non-negative `n`.
pub open spec fn spec_isqrt(n: int) -> int {
    choose|r: int| is_sqrt(n, r)
}

/// Cosine similarity in fixed point: 0 on length mismatch or zero
/// magnitude, else `SCALE * dot / (isqrt(|a|^2) * isqrt(|b|^2))`, truncated
/// toward zero and clamped into `[-SCALE, SCALE]`.
pub open spec fn spec_cosine(a: Seq<i64>, b: Seq<i64>) -> int {
    if a.len() != b.len() {
        0
    } else {
        let dot = spec_dot(a, b);
        let sa = spec_isqrt(spec_norm_sq(a));
        let sb = spec_isqrt(spec_norm_sq(b));
        if sa == 0 || sb == 0 {
            0
        } else {
            let mag = if dot >= 0 {
                dot
            } else {
                -dot
            };
            let raw = ((SCALE as int) * mag) / (sa * sb);
            let clamped = if raw > SCALE as int {
                SCALE as int
            } else {
                raw
            };
            if dot >= 0 {
                clamped
            } else {
                -clamped
            }
        }
    }
}

/// The integer square root is unique.
pub proof fn lemma_isqrt_unique(n: int, r1: int, r2: int)
    requires
        is_sqrt(n, r1),
        is_sqrt(n, r2),
    ensures
        r1 == r2,
{
    assert(r1 == r2) by (nonlinear_arith)
        requires
            0 <= r1 && r1 * r1 <= n && n < (r1 + 1) * (r1 + 1),
            0 <= r2 && r2 * r2 <= n && n < (r2 + 1) * (r2 + 1),
    ;
}

/// A witness pins down `spec_isqrt`.
pub proof fn lemma_isqrt_is(n: int, r: int)
    requires
        is_sqrt(n, r),
    ensures
        spec_isqrt(n) == r,
{
    assert(is_sqrt(n, spec_isqrt(n)));
    lemma_isqrt_unique(n, spec_isqrt(n), r);
}

/// Partial dot products of bounded vectors stay within `n` times the largest
/// possible product of two components.
proof fn lemma_dot_prefix_bound(a: Seq<i64>, b: Seq<i64>, n: int)
    requires
        bounded_components(a),
        bounded_components(b),
        0 <= n <= a.len(),
        n <= b.len(),
    ensures
        -(n * 16_000_000_000_000) <= dot_prefix(a, b, n) <= n * 16_000_000_000_000,
    decreases n,
{
    if n <= 0 {
    } else {
        lemma_dot_prefix_bound(a, b, n - 1);
        assert(dot_prefix(a, b, n) == dot_prefix(a, b, n - 1) + a[n - 1] * b[n - 1]);
        assert(-16_000_000_000_000 <= a[n - 1] * b[n - 1] <= 16_000_000_000_000)
            by (nonlinear_arith)
            requires
                -4_000_000 <= a[n - 1] <= 4_000_000,
                -4_000_000 <= b[n - 1] <= 4_000_000,
        ;
        assert((n - 1) * 16_000_000_000_000 + 16_000_000_000_000 == n * 16_000_000_000_000)
            by (nonlinear_arith);
        assert(-(n * 16_000_000_000_000) == -((n - 1) * 16_000_000_000_000)
            - 16_000_000_000_000) by (nonlinear_arith);
    }
}

/// A vector's partial dot product with itself is non-negative, and zero
/// exactly when the covered components are all zero.
proof fn lemma_norm_prefix(a: Seq<i64>, n: int)
    requires
        n <= a.len(),
    ensures
        dot_prefix(a, a, n) >= 0,
        dot_prefix(a, a, n) == 0 <==> (forall|i: int| 0 <= i < n ==> a[i] == 0),
    decreases n,
{
    if n <= 0 {
    } else {
        lemma_norm_prefix(a, n - 1);
        assert(a[n - 1] * a[n - 1] >= 0 && (a[n - 1] * a[n - 1] == 0 <==> a[n - 1] == 0))
            by (nonlinear_arith);
    }
}

/// The squared magnitude is non-negative; it is zero exactly for the zero
/// vector.
pub proof fn lemma_norm_sq_nonneg(a: Seq<i64>)
    ensures
        spec_norm_sq(a) >= 0,
        spec_norm_sq(a) == 0 <==> (forall|i: int| 0 <= i < a.len() ==> a[i] == 0),
{
    lemma_norm_prefix(a, a.len() as int);
}

/// Cosine similarity is exactly 0 for mismatched-length vectors and for any
/// zero-magnitude vector.
pub proof fn lemma_cosine_degenerate(a: Seq<i64>, b: Seq<i64>)
    ensures
        a.len() != b.len() ==> spec_cosine(a, b) == 0,
        spec_norm_sq(a) == 0 ==> spec_cosine(a, b) == 0,
        spec_norm_sq(b) == 0 ==> spec_cosine(a, b) == 0,
{
    if a.len() == b.len() {
        lemma_norm_sq_nonneg(a);
        lemma_norm_sq_nonneg(b);
        if spec_norm_sq(a) == 0 {
            lemma_isqrt_is(0, 0);
        }
        if spec_norm_sq(b) == 0 {
            lemma_isqrt_is(0, 0);
        }
    }
}

/// Cosine similarity of a non-zero vector with itself is exactly 1.0: the
/// rounded-down square roots can only make the raw quotient overshoot
/// `SCALE`, and the clamp brings it back.
pub proof fn lemma_cosine_self(a: Seq<i64>)
    requires
        spec_norm_sq(a) > 0,
    ensures
        spec_cosine(a, a) == SCALE,
{
    let n = spec_norm_sq(a);
    let s = spec_isqrt(n);
    lemma_isqrt_exists(n);
    assert(is_sqrt(n, s));
    assert(s >= 1) by (nonlinear_arith)
        requires
            0 <= s && s * s <= n && n < (s + 1) * (s + 1),
            n > 0,
    ;
    assert(spec_dot(a, a) == n);
    let scale = SCALE as int;
    // The raw quotient SCALE * n / s^2 is at least SCALE because s^2 <= n,
    // so the clamp leaves exactly SCALE.
    assert((scale * n) / (s * s) >= scale) by (nonlinear_arith)
        requires
            s >= 1,
            s * s <= n,
            scale == 1_000_000,
    ;
}

/// Cosine similarity never leaves `[-SCALE, SCALE]`, whatever the vectors.
pub proof fn lemma_cosine_range(a: Seq<i64>, b: Seq<i64>)
    ensures
        -(SCALE as int) <= spec_cosine(a, b) <= SCALE as int,
{
    if a.len() == b.len() {
        let dot = spec_dot(a, b);
        let sa = spec_isqrt(spec_norm_sq(a));
        let sb = spec_isqrt(spec_norm_sq(b));
        lemma_norm_sq_nonneg(a);
        lemma_norm_sq_nonneg(b);
        lemma_isqrt_exists(spec_norm_sq(a));
        lemma_isqrt_exists(spec_norm_sq(b));
        if sa != 0 && sb != 0 {
            let mag = if dot >= 0 {
                dot
            } else {
                -dot
            };
            assert(((SCALE as int) * mag) / (sa * sb) >= 0) by (nonlinear_arith)
                requires
                    mag >= 0,
                    sa >= 1,
                    sb >= 1,
            ;
        }
    }
}

/// Every non-negative `n` has an integer square root.
pub proof fn lemma_isqrt_exists(n: int)
    requires
        n >= 0,
    ensures
        is_sqrt(n, spec_isqrt(n)),
    decreases n,
{
    if n == 0 {
        assert(is_sqrt(0, 0));
    } else {
        lemma_isqrt_exists(n - 1);
        let r = spec_isqrt(n - 1);
        assert(is_sqrt(n - 1, r));
        if n < (r + 1) * (r + 1) {
            assert(is_sqrt(n, r));
        } else {
            // Then n == (r + 1)^2, and r + 1 is the root.
            assert(n == (r + 1) * (r + 1));
            assert(n < ((r + 1) + 1) * ((r + 1) + 1)) by (nonlinear_arith)
                requires
                    0 <= r,
                    n == (r + 1) * (r + 1),
            ;
            assert(is_sqrt(n, r + 1));
        }
    }
    assert(exists|r: int| is_sqrt(n, r));
}

/// Dot product of two bounded, equal-length vectors.
fn dot(a: &Vec<i64>, b: &Vec<i64>) -> (r: i128)
    requires
        a@.len() == b@.len(),
        bounded_components(a@),
        bounded_components(b@),
    ensures
        r as int == spec_dot(a@, b@),
{
    let n: usize = a.len();
    let mut acc: i128 = 0;
    let mut i: usize = 0;
    proof {
        lemma_dot_prefix_bound(a@, b@, 0);
    }
    while i < n
        invariant
            n == a@.len() == b@.len(),
            bounded_components(a@),
            bounded_components(b@),
            0 <= i <= n,
            acc as int == dot_prefix(a@, b@, i as int),
            -((i as int) * 16_000_000_000_000) <= acc as int <= (i as int) * 16_000_000_000_000,
        decreases n - i,
    {
        proof {
            assert(-16_000_000_000_000 <= a@[i as int] * b@[i as int] <= 16_000_000_000_000)
                by (nonlinear_arith)
                requires
                    -4_000_000 <= a@[i as int] <= 4_000_000,
                    -4_000_000 <= b@[i as int] <= 4_000_000,
            ;
        }
        let p: i128 = (a[i] as i128) * (b[i] as i128);
        acc = acc + p;
        i = i + 1;
    }
    acc
}

/// Integer square root by bisection; the result fits in 64 bits.
fn isqrt(n: u128) -> (r: u128)
    ensures
        is_sqrt(n as int, r as int),
        r as int == spec_isqrt(n as int),
        r < 0x1_0000_0000_0000_0000,
{
    let mut lo: u128 = 0;
    let mut hi: u128 = 0x1_0000_0000_0000_0000;
    proof {
        assert((0x1_0000_0000_0000_0000 as int) * (0x1_0000_0000_0000_0000 as int)
            > u128::MAX as int) by (nonlinear_arith);
    }
    while lo + 1 < hi
        invariant
            lo < hi <= 0x1_0000_0000_0000_0000,
            (lo as int) * (lo as int) <= n as int,
            (n as int) < (hi as int) * (hi as int),
        decreases hi - lo,
    {
        let mid: u128 = lo + (hi - lo) / 2;
        proof {
            assert((mid as int) * (mid as int) < (0x1_0000_0000_0000_0000 as int)
                * (0x1_0000_0000_0000_0000 as int)) by (nonlinear_arith)
                requires
                    0 <= (mid as int),
                    (mid as int) < 0x1_0000_0000_0000_0000 as int,
            ;
            assert((0x1_0000_0000_0000_0000 as int) * (0x1_0000_0000_0000_0000 as int)
                == u128::MAX as int + 1) by (nonlinear_arith);
        }
        let mid_sq: u128 = mid * mid;
        if mid_sq <= n {
            lo = mid;
        } else {
            hi = mid;
        }
    }
    proof {
        assert(is_sqrt(n as int, lo as int));
        lemma_isqrt_is(n as int, lo as int);
    }
    lo
}

/// Cosine similarity of two fixed-point vectors, as a score in millionths,
/// always within `[-SCALE, SCALE]`.
///
/// Returns exactly 0 when the lengths differ or when either vector has zero
/// magnitude; otherwise the fixed-point quotient `SCALE * dot / (|a| * |b|)`,
/// truncated toward zero and clamped into the range of true cosine.
pub fn cosine_similarity(a: &Vec<i64>, b: &Vec<i64>) -> (r: i128)
    requires
        bounded_components(a@),
        bounded_components(b@),
    ensures
        r as int == spec_cosine(a@, b@),
        -(SCALE as int) <= r as int <= SCALE as int,
{
    proof {
        lemma_cosine_range(a@, b@);
    }
    if a.len() != b.len() {
        return 0;
    }
    let d: i128 = dot(a, b);
    let na: i128 = dot(a, a);
    let nb: i128 = dot(b, b);
    proof {
        lemma_norm_sq_nonneg(a@);
        lemma_norm_sq_nonneg(b@);
        lemma_dot_prefix_bound(a@, b@, a@.len() as int);
        lemma_dot_prefix_bound(a@, a@, a@.len() as int);
        lemma_dot_prefix_bound(b@, b@, b@.len() as int);
    }
    let sa: u128 = isqrt(na as u128);
    let sb: u128 = isqrt(nb as u128);
    if sa == 0 || sb == 0 {
        return 0;
    }
    let mag: u128 = if d >= 0 {
        d as u128
    } else {
        (-d) as u128
    };
    proof {
        // The numerator and the product of the square roots both fit in
        // 128 bits: the dot products are bounded by len * 16 * 10^12 and
        // the roots by 2^64.
        assert((a@.len() as int) * 16_000_000_000_000 * 1_000_000
            < u128::MAX as int) by (nonlinear_arith)
            requires
                a@.len() as int <= usize::MAX as int,
                usize::MAX as int <= 0xFFFF_FFFF_FFFF_FFFF as int,
        ;
        assert((mag as int) * 1_000_000 <= (a@.len() as int) * 16_000_000_000_000 * 1_000_000)
            by (nonlinear_arith)
            requires
                mag as int <= (a@.len() as int) * 16_000_000_000_000,
        ;
        assert((sa as int) * (sb as int) < (0x1_0000_0000_0000_0000 as int)
            * (0x1_0000_0000_0000_0000 as int)) by (nonlinear_arith)
            requires
                0 <= (sa as int),
                (sa as int) < 0x1_0000_0000_0000_0000 as int,
                0 <= (sb as int),
                (sb as int) < 0x1_0000_0000_0000_0000 as int,
        ;
        assert((0x1_0000_0000_0000_0000 as int) * (0x1_0000_0000_0000_0000 as int)
            == u128::MAX as int + 1) by (nonlinear_arith);
    }
    let num: u128 = mag * (SCALE as u128);
    let prod: u128 = sa * sb;
    proof {
        assert((sa as int) * (sb as int) >= 1) by (nonlinear_arith)
            requires
                sa as int >= 1,
                sb as int >= 1,
        ;
    }
    let q: u128 = num / prod;
    let clamped: u128 = if q > SCALE as u128 {
        SCALE as u128
    } else {
        q
    };
    if d >= 0 {
        clamped as i128
    } else {
        -(clamped as i128)
    }
}

} // verus!
