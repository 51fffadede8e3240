use vstd::prelude::*;

verus! {

/// The magnitude of an integer.
pub open spec fn abs_int(v: int) -> int {
    if v < 0 {
        -v
    } else {
        v
    }
}

/// How far the coordinate of index `k` on an axis that starts at `first`
/// and steps by `step` lies from `target`.
pub open spec fn axis_distance(first: int, step: int, k: int, target: int) -> int {
    abs_int(first + k * step - target)
}

/// Flipping the signs of both the step and the offset leaves every
/// distance unchanged, so a negative step reduces to a positive one.
proof fn lemma_axis_distance_normalized(first: int, step: int, k: int, target: int)
    ensures
        step > 0 ==> axis_distance(first, step, k, target) == abs_int(
            k * step - (target - first),
        ),
        step < 0 ==> axis_distance(first, step, k, target) == abs_int(
            k * (-step) - (first - target),
        ),
{
    assert(first + k * step - target == -(k * (-step) - (first - target))) by (nonlinear_arith);
    assert(first + k * step - target == k * step - (target - first)) by (nonlinear_arith);
}

/// The distance from any index `m` to the offset `d`, in terms of the
/// floor quotient `q` and remainder `rm` of `d` by the step: indices at or
/// below the quotient lie `rm` plus whole steps short of the offset, and
/// indices above it lie whole steps minus `rm` past it.
proof fn lemma_bracket_distance(d: int, sa: int, q: int, rm: int, m: int)
    requires
        sa > 0,
        0 <= rm < sa,
        d == q * sa + rm,
    ensures
        m <= q ==> abs_int(m * sa - d) == rm + (q - m) * sa,
        m > q ==> abs_int(m * sa - d) == (m - q) * sa - rm,
{
    if m <= q {
        assert(m * sa - d == -(rm + (q - m) * sa) && (q - m) * sa >= 0) by (nonlinear_arith)
            requires
                d == q * sa + rm,
                m <= q,
                sa > 0,
        ;
    } else {
        assert(m * sa - d == (m - q) * sa - rm && (m - q) * sa >= sa) by (nonlinear_arith)
            requires
                d == q * sa + rm,
                m > q,
                sa > 0,
        ;
    }
}

/// Finds the index on one grid axis whose coordinate lies nearest the
/// target: over all indices below `count`, none lies strictly nearer.
/// Nothing on an empty axis or a degenerate (zero) step.
pub fn nearest_axis_index(first: i64, step: i64, count: u32, target: i64) -> (r: Option<u32>)
    ensures
        r is Some <==> count > 0 && step != 0,
        r matches Some(k) ==> k < count && forall|m: int|
            0 <= m < count ==> axis_distance(first as int, step as int, k as int, target as int)
                <= axis_distance(first as int, step as int, m, target as int),
{
    if count == 0 || step == 0 {
        return None;
    }
    let step_abs: i128 = if step > 0 {
        (step as i128)
    } else {
        -(step as i128)
    };
    // distances are unchanged when both the step and the offset flip sign,
    // so work with a positive step
    let diff: i128 = if step > 0 {
        (target as i128) - (first as i128)
    } else {
        (first as i128) - (target as i128)
    };
    let sa: u128 = step_abs as u128;
    // floor quotient and nonnegative remainder of the offset by the step
    let (qf, rem): (i128, u128) = if diff >= 0 {
        let du: u128 = diff as u128;
        proof {
            assert(du / sa <= du) by (nonlinear_arith)
                requires
                    sa >= 1,
            ;
        }
        ((du / sa) as i128, du % sa)
    } else {
        let nd: u128 = (-diff) as u128;
        proof {
            assert(nd / sa <= nd) by (nonlinear_arith)
                requires
                    sa >= 1,
            ;
        }
        let q0: u128 = nd / sa;
        let r0: u128 = nd % sa;
        if r0 == 0 {
            (-(q0 as i128), 0)
        } else {
            (-(q0 as i128) - 1, sa - r0)
        }
    };
    proof {
        assert(diff as int == (qf as int) * (step_abs as int) + rem as int) by (nonlinear_arith)
            requires
                step_abs as int == sa as int,
                sa >= 1,
                diff >= 0 ==> qf as int == (diff as u128) as int / (sa as int) && rem as int == (
                diff as u128) as int % (sa as int),
                diff < 0 ==> {
                    let nd = (-diff) as u128;
                    &&& ((nd as int % sa as int == 0) ==> qf as int == -(nd as int / sa as int)
                        && rem == 0)
                    &&& ((nd as int % sa as int != 0) ==> qf as int == -(nd as int / sa as int) - 1
                        && rem as int == sa as int - nd as int % sa as int)
                    &&& nd as int == -(diff as int)
                },
        ;
    }
    // of the two indices that bracket the offset, the nearer one
    let cand: i128 = if 2 * rem <= sa {
        qf
    } else {
        qf + 1
    };
    let k: u32 = if cand < 0 {
        0
    } else if cand >= (count as i128) {
        count - 1
    } else {
        cand as u32
    };
    proof {
        let f = first as int;
        let st = step as int;
        let t = target as int;
        let sal = step_abs as int;
        let d = diff as int;
        let q = qf as int;
        let rm = rem as int;
        assert forall|m: int| 0 <= m < count implies axis_distance(f, st, k as int, t)
            <= axis_distance(f, st, m, t) by {
            assert(d == q * sal + rm);
            assert(0 <= rm < sal);
            lemma_axis_distance_normalized(f, st, m, t);
            lemma_axis_distance_normalized(f, st, k as int, t);
            assert(axis_distance(f, st, m, t) == abs_int(m * sal - d));
            assert(axis_distance(f, st, k as int, t) == abs_int((k as int) * sal - d));
            lemma_bracket_distance(d, sal, q, rm, m);
            lemma_bracket_distance(d, sal, q, rm, k as int);
            if 0 <= cand < count as int {
                // the unclamped bracket index: its distance is the smaller
                // of the remainder and its complement
                if 2 * rm <= sal {
                    assert((q - k as int) * sal == 0) by (nonlinear_arith)
                        requires
                            k as int == q,
                    ;
                } else {
                    assert((k as int - q) * sal == sal) by (nonlinear_arith)
                        requires
                            k as int == q + 1,
                    ;
                }
                if m <= q {
                    assert((q - m) * sal >= 0) by (nonlinear_arith)
                        requires
                            m <= q,
                            sal > 0,
                    ;
                } else {
                    assert((m - q) * sal >= sal) by (nonlinear_arith)
                        requires
                            m > q,
                            sal > 0,
                    ;
                }
            } else if cand < 0 {
                // every index in range lies past the offset, nearest first
                assert((m - q) * sal >= (k as int - q) * sal) by (nonlinear_arith)
                    requires
                        m >= k as int,
                        sal > 0,
                ;
            } else {
                // every index in range lies short of the offset, nearest
                // last
                assert((q - m) * sal >= (q - k as int) * sal) by (nonlinear_arith)
                    requires
                        m <= k as int,
                        sal > 0,
                ;
            }
        }
    }
    Some(k)
}

} // verus!
