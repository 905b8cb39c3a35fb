use vstd::prelude::*;

use crate::config::{MAX_MAGNITUDE, nonneg_within_magnitude};

verus! {

/// An axis-aligned rectangle: left edge `x`, top edge `y` (y grows
/// downward), width `w` and height `h`. A negative side makes it empty.
#[derive(Clone, Copy, Debug, PartialEq, Eq)]
pub struct Rect {
    pub x: i64,
    pub y: i64,
    pub w: i64,
    pub h: i64,
}

/// Distance from `c` to the closed interval `[lo, lo + len]`.
pub open spec fn gap_to_span(c: int, lo: int, len: int) -> int {
    if c < lo {
        lo - c
    } else if c > lo + len {
        c - (lo + len)
    } else {
        0
    }
}

/// The circle of radius `r` centred at `(cx, cy)` touches or overlaps the
/// rectangle: the rectangle is not empty and its point closest to the
/// centre lies at distance at most `r`.
pub open spec fn circle_meets_rect(cx: int, cy: int, r: int, rect: Rect) -> bool {
    let dx = gap_to_span(cx, rect.x as int, rect.w as int);
    let dy = gap_to_span(cy, rect.y as int, rect.h as int);
    &&& rect.w >= 0
    &&& rect.h >= 0
    &&& dx * dx + dy * dy <= r * r
}

pub open spec fn abs_int(v: int) -> int {
    if v < 0 {
        -v
    } else {
        v
    }
}

proof fn lemma_square_monotone(a: int, b: int)
    requires
        0 <= a,
        0 <= b,
    ensures
        a <= b <==> a * a <= b * b,
{
    if a <= b {
        assert(a * a <= b * b) by (nonlinear_arith)
            requires
                0 <= a <= b,
        ;
    } else {
        assert(b * b < a * a) by (nonlinear_arith)
            requires
                0 <= b < a,
        ;
    }
}

/// In doubled coordinates, the distance from the centre to the middle of a
/// span, less the span's length, is twice the distance to the span.
proof fn lemma_doubled_gap(c: int, lo: int, len: int)
    requires
        len >= 0,
    ensures
        abs_int(2 * c - (2 * lo + len)) <= len ==> gap_to_span(c, lo, len) == 0,
        abs_int(2 * c - (2 * lo + len)) > len ==> 2 * gap_to_span(c, lo, len) == abs_int(
            2 * c - (2 * lo + len),
        ) - len,
{
}

/// Whether the circle of radius `r` centred at `(cx, cy)` meets `rect`.
///
/// Works on the distances from the centre to the middle of the rectangle:
/// too far on either axis is a miss, within the rectangle's band on either
/// axis is a hit, and otherwise the nearest corner decides.
pub fn circle_hits_rect(cx: i64, cy: i64, r: i64, rect: Rect) -> (hit: bool)
    requires
        nonneg_within_magnitude(r),
    ensures
        hit == circle_meets_rect(cx as int, cy as int, r as int, rect),
{
    if rect.w < 0 || rect.h < 0 {
        return false;
    }
    let w = rect.w as i128;
    let h = rect.h as i128;
    let r2 = 2 * (r as i128);
    // Twice the distance from the centre to the middle of the rectangle.
    let mut dist_x = 2 * (cx as i128) - (2 * (rect.x as i128) + w);
    if dist_x < 0 {
        dist_x = -dist_x;
    }
    let mut dist_y = 2 * (cy as i128) - (2 * (rect.y as i128) + h);
    if dist_y < 0 {
        dist_y = -dist_y;
    }
    proof {
        lemma_doubled_gap(cx as int, rect.x as int, rect.w as int);
        lemma_doubled_gap(cy as int, rect.y as int, rect.h as int);
    }
    let ghost gx = gap_to_span(cx as int, rect.x as int, rect.w as int);
    let ghost gy = gap_to_span(cy as int, rect.y as int, rect.h as int);
    assert(dist_x == abs_int(2 * cx - (2 * rect.x + rect.w)));
    assert(dist_y == abs_int(2 * cy - (2 * rect.y + rect.h)));
    assert(gx >= 0 && gy >= 0);
    if dist_x > w + r2 {
        proof {
            lemma_square_monotone(gx, r as int);
            assert(gy * gy >= 0) by (nonlinear_arith);
        }
        return false;
    }
    if dist_y > h + r2 {
        proof {
            lemma_square_monotone(gy, r as int);
            assert(gx * gx >= 0) by (nonlinear_arith);
        }
        return false;
    }
    assert(gx <= r && gy <= r);
    if dist_x <= w {
        proof {
            assert(gx == 0);
            assert(gx * gx == 0) by (nonlinear_arith)
                requires
                    gx == 0,
            ;
            lemma_square_monotone(gy, r as int);
        }
        return true;
    }
    if dist_y <= h {
        proof {
            assert(gy == 0);
            assert(gy * gy == 0) by (nonlinear_arith)
                requires
                    gy == 0,
            ;
            lemma_square_monotone(gx, r as int);
        }
        return true;
    }
    let ex = dist_x - w;
    let ey = dist_y - h;
    proof {
        assert(ex * ex + ey * ey == 4 * (gx * gx + gy * gy)) by (nonlinear_arith)
            requires
                ex == 2 * gx,
                ey == 2 * gy,
        ;
        assert(r2 * r2 == 4 * (r * r)) by (nonlinear_arith)
            requires
                r2 == 2 * r,
        ;
        assert(0 <= ex * ex <= 0x10_0000_0000_0000_0000) by (nonlinear_arith)
            requires
                0 < ex <= r2 <= 2 * MAX_MAGNITUDE,
        ;
        assert(0 <= ey * ey <= 0x10_0000_0000_0000_0000) by (nonlinear_arith)
            requires
                0 < ey <= r2 <= 2 * MAX_MAGNITUDE,
        ;
        assert(0 <= r2 * r2 <= 0x10_0000_0000_0000_0000) by (nonlinear_arith)
            requires
                0 <= r2 <= 2 * MAX_MAGNITUDE,
        ;
    }
    ex * ex + ey * ey <= r2 * r2
}

/// Contact is inclusive: a circle whose centre lies at exactly its radius
/// from the nearest point of a rectangle (for instance diagonally off a
/// corner) meets it, and every strictly smaller circle about the same
/// centre misses it.
pub proof fn lemma_contact_is_inclusive(cx: int, cy: int, r: int, eps: int, rect: Rect)
    requires
        rect.w >= 0,
        rect.h >= 0,
        0 < eps <= r,
        ({
            let dx = gap_to_span(cx, rect.x as int, rect.w as int);
            let dy = gap_to_span(cy, rect.y as int, rect.h as int);
            dx * dx + dy * dy == r * r
        }),
    ensures
        circle_meets_rect(cx, cy, r, rect),
        !circle_meets_rect(cx, cy, r - eps, rect),
{
    assert((r - eps) * (r - eps) < r * r) by (nonlinear_arith)
        requires
            0 < eps <= r,
    ;
}

} // verus!
