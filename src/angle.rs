//! Angles in microradians: wrapping, interpolation and cursor targets.
use vstd::prelude::*;
use vstd::arithmetic::div_mod::{
    lemma_div_is_ordered,
    lemma_div_is_ordered_by_denominator,
    lemma_div_multiples_vanish,
    lemma_fundamental_div_mod,
    lemma_mod_multiples_vanish,
};

verus! {

/// Half a turn, in microradians (rounded to the nearest unit).
pub const PI_URAD: i64 = 3_141_593;

/// A full turn, in microradians: exactly twice `PI_URAD`.
pub const TAU_URAD: i64 = 6_283_186;

/// Bound on the magnitude of every angle the controller stores (2^60);
/// it keeps the products of interpolation within `i128`.
pub const MAX_ANGLE: i64 = 0x1000_0000_0000_0000;

/// An angle that the controller may store.
pub open spec fn bounded(a: int) -> bool {
    -MAX_ANGLE <= a <= MAX_ANGLE
}

/// The representative of `a` modulo a full turn that lies in `(-PI_URAD, PI_URAD]`.
pub open spec fn wrap_spec(a: int) -> int {
    let r = a % (TAU_URAD as int);
    if r > PI_URAD {
        r - TAU_URAD
    } else {
        r
    }
}

/// Linear interpolation from `a` toward `b` by the fraction `e / d`, rounded down.
pub open spec fn lerp_spec(a: int, b: int, e: int, d: int) -> int {
    a + (b - a) * e / d
}

/// Every stored yaw lies in `(-PI_URAD, PI_URAD]`.
pub open spec fn canonical(a: int) -> bool {
    -PI_URAD < a <= PI_URAD
}

/// How far apart two directions are, going the short way round.
pub open spec fn circ_dist(a: int, b: int) -> int {
    let w = wrap_spec(b - a);
    if w < 0 {
        -w
    } else {
        w
    }
}

/// The yaw `a` turned toward `b` by the fraction `e / d` of the short way
/// round between them, wrapped.
pub open spec fn ease_yaw_spec(a: int, b: int, e: int, d: int) -> int {
    wrap_spec(a + lerp_spec(0, wrap_spec(b - a), e, d))
}

/// The angle, in microradians, of a cursor that stands `twice_offset / 2` pixels
/// from the window's centre, at `sensitivity` pixels per degree, rounded down.
pub open spec fn offset_angle(twice_offset: int, sensitivity: int) -> int {
    twice_offset * PI_URAD / (360 * sensitivity)
}

/// A look direction: yaw about the vertical axis, pitch about the horizontal axis.
#[derive(Clone, Copy, Debug, PartialEq, Eq, Structural)]
pub struct Orientation {
    pub yaw: i64,
    pub pitch: i64,
}

/// The direction that looks at a cursor at `(x, y)` in a `width` by `height` window.
pub open spec fn target_spec(x: int, y: int, width: int, height: int, sensitivity: int) -> Orientation {
    Orientation {
        yaw: offset_angle(2 * x - width, sensitivity) as i64,
        pitch: offset_angle(2 * y - height, sensitivity) as i64,
    }
}

/// Interpolating by nothing stays put; interpolating all the way arrives.
pub proof fn lemma_lerp_ends(a: int, b: int, d: int)
    requires
        d > 0,
    ensures
        lerp_spec(a, b, 0, d) == a,
        lerp_spec(a, b, d, d) == b,
{
    assert((b - a) * 0 == 0);
    lemma_div_multiples_vanish(b - a, d);
    assert((b - a) * d == d * (b - a)) by (nonlinear_arith);
}

/// Wrapping leaves a yaw of `(-PI_URAD, PI_URAD]` alone, and ignores a whole turn.
pub proof fn lemma_wrap_canonical(a: int)
    requires
        -PI_URAD < a <= PI_URAD,
    ensures
        wrap_spec(a) == a,
        wrap_spec(a + TAU_URAD) == a,
{
}

/// Wrapping takes off a whole number of turns.
pub proof fn lemma_wrap_turns(a: int) -> (k: int)
    ensures
        wrap_spec(a) == a + k * TAU_URAD,
{
    lemma_fundamental_div_mod(a, TAU_URAD as int);
    let q = a / (TAU_URAD as int);
    if a % (TAU_URAD as int) > PI_URAD {
        -q - 1
    } else {
        -q
    }
}

/// Whole turns make no difference to the wrapped angle.
pub proof fn lemma_wrap_shift(a: int, k: int)
    ensures
        wrap_spec(a + k * TAU_URAD) == wrap_spec(a),
{
    lemma_mod_multiples_vanish(k, a, TAU_URAD as int);
    assert(TAU_URAD * k + a == a + k * TAU_URAD);
}

/// Brings `a` into `(-PI_URAD, PI_URAD]` by whole turns.
pub fn wrap(a: i64) -> (r: i64)
    ensures
        r == wrap_spec(a as int),
        -PI_URAD < r <= PI_URAD,
        (a as int - r) % (TAU_URAD as int) == 0,
{
    let m = match a.checked_rem_euclid(TAU_URAD) {
        Some(m) => m,
        None => 0,
    };
    if m > PI_URAD {
        m - TAU_URAD
    } else {
        m
    }
}

/// Moves `a` toward `b` by the fraction `e / d` of the way, rounded down.
pub fn lerp(a: i64, b: i64, e: u64, d: u64) -> (r: i64)
    requires
        bounded(a as int),
        bounded(b as int),
        e <= d,
        d > 0,
    ensures
        r == lerp_spec(a as int, b as int, e as int, d as int),
        a <= b ==> a <= r <= b,
        b <= a ==> b <= r <= a,
        e == 0 ==> r == a,
        e == d ==> r == b,
{
    let diff: i128 = b as i128 - a as i128;
    proof {
        assert(-0x4000_0000_0000_0000int <= diff <= 0x4000_0000_0000_0000int);
        assert(-0x4000_0000_0000_0000int * 0x1_0000_0000_0000_0000int <= diff * e
            <= 0x4000_0000_0000_0000int * 0x1_0000_0000_0000_0000int) by (nonlinear_arith)
            requires
                -0x4000_0000_0000_0000int <= diff <= 0x4000_0000_0000_0000int,
                0 <= e < 0x1_0000_0000_0000_0000int,
        ;
    }
    let prod: i128 = diff * (e as i128);
    let q: i128 = match prod.checked_div_euclid(d as i128) {
        Some(q) => q,
        None => 0,
    };
    proof {
        let di = diff as int;
        let ei = e as int;
        let dd = d as int;
        if di >= 0 {
            assert(0 <= di * ei <= di * dd) by (nonlinear_arith)
                requires di >= 0, 0 <= ei <= dd;
            assert(0 <= (di * ei) / dd <= (di * dd) / dd) by (nonlinear_arith)
                requires 0 <= di * ei <= di * dd, dd > 0;
            assert((di * dd) / dd == di) by (nonlinear_arith)
                requires dd > 0;
        } else {
            assert(di * dd <= di * ei <= 0) by (nonlinear_arith)
                requires di < 0, 0 <= ei <= dd;
            assert((di * dd) / dd <= (di * ei) / dd <= 0) by (nonlinear_arith)
                requires di * dd <= di * ei <= 0, dd > 0;
            assert((di * dd) / dd == di) by (nonlinear_arith)
                requires dd > 0;
        }
        if ei == 0 {
            assert(di * ei == 0) by (nonlinear_arith) requires ei == 0;
        }
        if ei == dd {
            assert((di * ei) / dd == di) by (nonlinear_arith) requires ei == dd, dd > 0;
        }
    }
    (a as i128 + q) as i64
}

/// Easing the yaw the short way round stays wrapped, never moves away from the
/// target, stays put by nothing and arrives all the way.
pub proof fn lemma_ease_yaw(a: int, b: int, e: int, d: int)
    requires
        canonical(a),
        0 <= e <= d,
        d > 0,
    ensures
        canonical(ease_yaw_spec(a, b, e, d)),
        circ_dist(ease_yaw_spec(a, b, e, d), b) <= circ_dist(a, b),
        e == 0 ==> ease_yaw_spec(a, b, e, d) == a,
        e == d ==> ease_yaw_spec(a, b, e, d) == wrap_spec(b),
{
    let gap = wrap_spec(b - a);
    let q = lerp_spec(0, gap, e, d);
    let r = ease_yaw_spec(a, b, e, d);
    lerp_between(gap, e, d);
    let k1 = lemma_wrap_turns(b - a);
    let k2 = lemma_wrap_turns(a + q);
    // b - r is the remaining gap `gap - q` plus whole turns.
    assert(b - r == (gap - q) + (-k1 - k2) * TAU_URAD) by (nonlinear_arith)
        requires
            gap == (b - a) + k1 * TAU_URAD,
            r == (a + q) + k2 * TAU_URAD,
    ;
    lemma_wrap_shift(gap - q, -k1 - k2);
    lemma_wrap_canonical(gap - q);
    lemma_lerp_ends(0, gap, d);
    if e == 0 {
        lemma_wrap_canonical(a);
    }
    if e == d {
        assert(a + q == b + k1 * TAU_URAD);
        lemma_wrap_shift(b, k1);
    }
}

/// Moving from 0 toward `gap` by a fraction of the way stays between them.
proof fn lerp_between(gap: int, e: int, d: int)
    requires
        0 <= e <= d,
        d > 0,
    ensures
        gap >= 0 ==> 0 <= lerp_spec(0, gap, e, d) <= gap,
        gap < 0 ==> gap <= lerp_spec(0, gap, e, d) <= 0,
{
    if gap >= 0 {
        assert(0 <= gap * e <= gap * d) by (nonlinear_arith)
            requires gap >= 0, 0 <= e <= d;
        lemma_div_is_ordered(0, gap * e, d);
        lemma_div_is_ordered(gap * e, gap * d, d);
    } else {
        assert(gap * d <= gap * e <= 0) by (nonlinear_arith)
            requires gap < 0, 0 <= e <= d;
        lemma_div_is_ordered(gap * e, 0, d);
        lemma_div_is_ordered(gap * d, gap * e, d);
    }
    lemma_div_multiples_vanish(gap, d);
    assert(gap * d == d * gap) by (nonlinear_arith);
}

/// Turns yaw `a` toward `b` by the fraction `e / d` of the short way round;
/// the result is never farther from `b` than `a` was.
pub fn ease_yaw(a: i64, b: i64, e: u64, d: u64) -> (r: i64)
    requires
        canonical(a as int),
        bounded(b as int),
        e <= d,
        d > 0,
    ensures
        r == ease_yaw_spec(a as int, b as int, e as int, d as int),
        canonical(r as int),
        circ_dist(r as int, b as int) <= circ_dist(a as int, b as int),
        e == 0 ==> r == a,
        e == d ==> r == wrap_spec(b as int),
{
    let gap = wrap(b - a);
    let q = lerp(0, gap, e, d);
    proof {
        lemma_ease_yaw(a as int, b as int, e as int, d as int);
    }
    wrap(a + q)
}

/// The direction that looks at a cursor at `(x, y)` in a `width` by `height`
/// window, at `sensitivity` pixels per degree.
pub fn look_target(x: i32, y: i32, width: u32, height: u32, sensitivity: u32) -> (o: Orientation)
    requires
        sensitivity > 0,
    ensures
        o == target_spec(x as int, y as int, width as int, height as int, sensitivity as int),
        -0x8000_0000_0000int <= o.yaw <= 0x8000_0000_0000int,
        -0x8000_0000_0000int <= o.pitch <= 0x8000_0000_0000int,
{
    let yaw = scaled_offset(x, width, sensitivity);
    let pitch = scaled_offset(y, height, sensitivity);
    Orientation { yaw, pitch }
}

fn scaled_offset(pos: i32, size: u32, sensitivity: u32) -> (r: i64)
    requires
        sensitivity > 0,
    ensures
        r == offset_angle(2 * pos - size, sensitivity as int),
        -0x8000_0000_0000int <= r <= 0x8000_0000_0000int,
{
    let twice: i64 = 2 * (pos as i64) - (size as i64);
    let prod: i64 = twice * PI_URAD;
    let div: i64 = 360 * (sensitivity as i64);
    let r = match prod.checked_div_euclid(div) {
        Some(r) => r,
        None => 0,
    };
    proof {
        let p = prod as int;
        let dv = div as int;
        let k = 0x8000_0000_0000int;
        assert(-k * 360 <= p <= k * 360);
        lemma_div_is_ordered(p, k * 360, dv);
        lemma_div_is_ordered_by_denominator(k * 360, 360, dv);
        lemma_div_multiples_vanish(k, 360);
        assert(-k * dv <= -k * 360) by (nonlinear_arith)
            requires dv >= 360, k > 0;
        lemma_div_is_ordered(-k * dv, p, dv);
        lemma_div_multiples_vanish(-k, dv);
        assert(360 * k == k * 360 && dv * (-k) == -k * dv);
    }
    r
}

} // verus!
