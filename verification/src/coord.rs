//! Mapping physical window positions back to logical pixel coordinates.
//!
//! A physical position is first normalized against the surface extent and
//! re-centered, then pushed through the exact inverse of the scaling
//! transform, then re-centered into top-left-origin pixel coordinates and
//! floored. With the transform's scale factor `n / d`, the mapped pixel
//! column of a physical `px` works out to the exact rational
//! `((2*px - surface_w) * d + texture_w * n) / (2 * n)`, floored; rows are
//! analogous with the vertical axis flipped. Out-of-range results are handed
//! back signed so the caller may decide to clamp them.

use vstd::prelude::*;
use vstd::arithmetic::div_mod::{
    lemma_fundamental_div_mod, lemma_fundamental_div_mod_converse_div,
    lemma_mod_division_less_than_divisor,
};
use crate::transform::ScalingTransform;

verus! {

/// The pixel column that a physical window x-coordinate maps to, before any
/// bounds check: the floor of the exact inverse-transformed position.
pub open spec fn spec_window_to_pixel_x(t: ScalingTransform, px: int) -> int {
    ((2 * px - t.surface_width) * t.scale_den + t.texture_width * t.scale_num) / (2
        * t.scale_num)
}

/// The pixel row that a physical window y-coordinate maps to, before any
/// bounds check. The vertical axis is flipped: normalized device coordinates
/// grow upward while pixel rows grow downward.
pub open spec fn spec_window_to_pixel_y(t: ScalingTransform, py: int) -> int {
    ((t.surface_height - 2 * py) * t.scale_den + t.texture_height * t.scale_num) / (2
        * t.scale_num)
}

/// Whether a physical position maps inside the pixel grid.
pub open spec fn spec_window_pos_in_bounds(t: ScalingTransform, px: int, py: int) -> bool {
    &&& 0 <= spec_window_to_pixel_x(t, px) < t.texture_width
    &&& 0 <= spec_window_to_pixel_y(t, py) < t.texture_height
}

/// A signed coordinate clamped into `[0, extent - 1]`.
pub open spec fn spec_clamp(v: int, extent: int) -> int {
    if v < 0 {
        0
    } else if v >= extent {
        extent - 1
    } else {
        v
    }
}

/// Two fractions that are equal as rationals have the same floor.
pub proof fn lemma_floor_of_equal_fractions(a: int, b: int, c: int, d: int)
    requires
        b > 0,
        d > 0,
        a * d == c * b,
    ensures
        a / b == c / d,
{
    lemma_fundamental_div_mod(a, b);
    lemma_mod_division_less_than_divisor(a, b);
    let q = a / b;
    let r = a % b;
    let r2 = c - d * q;
    assert(r2 * b == r * d) by (nonlinear_arith)
        requires
            a == b * q + r,
            a * d == c * b,
            r2 == c - d * q,
    ;
    assert(0 <= r2 < d) by (nonlinear_arith)
        requires
            r2 * b == r * d,
            0 <= r < b,
            b > 0,
            d > 0,
    ;
    assert(c == q * d + r2) by (nonlinear_arith)
        requires
            r2 == c - d * q,
    ;
    lemma_fundamental_div_mod_converse_div(c, d, q, r2);
}

/// The mapping formula is exactly the inverse transform applied to the
/// normalized position: take the physical coordinate re-centered against the
/// surface and scaled into pixel units — `u = (px/sw - 1/2) * tw`, a
/// fraction over `2 * sw` — multiply it by the inverse matrix entry, add
/// back the half-texture re-centering, and floor the resulting exact
/// rational. The same holds on the y axis with the vertical flip.
pub proof fn lemma_window_map_applies_inverse(t: ScalingTransform, px: int, py: int)
    requires
        t.wf(),
    ensures
        spec_window_to_pixel_x(t, px) == ({
            let u_num = (2 * px - t.surface_width) * t.texture_width;
            let u_den = 2 * t.surface_width;
            let m = t.spec_inverse();
            (2 * (u_num * m.x_num) + t.texture_width * (u_den * m.x_den)) / (2 * (u_den
                * m.x_den))
        }),
        spec_window_to_pixel_y(t, py) == ({
            let v_num = (t.surface_height - 2 * py) * t.texture_height;
            let v_den = 2 * t.surface_height;
            let m = t.spec_inverse();
            (2 * (v_num * m.y_num) + t.texture_height * (v_den * m.y_den)) / (2 * (v_den
                * m.y_den))
        }),
{
    t.lemma_matrix_entries_positive();
    crate::transform::lemma_scale_range(
        t.texture_width as int,
        t.texture_height as int,
        t.surface_width as int,
        t.surface_height as int,
    );
    let tw = t.texture_width as int;
    let th = t.texture_height as int;
    let sw = t.surface_width as int;
    let sh = t.surface_height as int;
    let n = t.scale_num as int;
    let d = t.scale_den as int;
    let m = t.spec_inverse();
    assert(m.x_num == d * sw && m.x_den == n * tw && m.y_num == d * sh && m.y_den == n * th);
    // Both sides of each axis are the same fraction up to multiplying the
    // numerator and the denominator by the same positive factor.
    let ux = 2 * px - sw;
    let ax = ux * d + tw * n;
    let bx = 2 * n;
    let cx = 2 * ((ux * tw) * (d * sw)) + tw * ((2 * sw) * (n * tw));
    let ex = 2 * ((2 * sw) * (n * tw));
    let kx = (2 * sw) * tw;
    assert(cx == ax * kx && ex == bx * kx && kx >= 1) by (nonlinear_arith)
        requires
            ax == ux * d + tw * n,
            bx == 2 * n,
            cx == 2 * ((ux * tw) * (d * sw)) + tw * ((2 * sw) * (n * tw)),
            ex == 2 * ((2 * sw) * (n * tw)),
            kx == (2 * sw) * tw,
            sw >= 1,
            tw >= 1,
    ;
    assert(ax * ex == cx * bx && ex > 0) by (nonlinear_arith)
        requires
            cx == ax * kx,
            ex == bx * kx,
            bx >= 2,
            kx >= 1,
    ;
    lemma_floor_of_equal_fractions(ax, bx, cx, ex);
    let vy = sh - 2 * py;
    let ay = vy * d + th * n;
    let by = 2 * n;
    let cy = 2 * ((vy * th) * (d * sh)) + th * ((2 * sh) * (n * th));
    let ey = 2 * ((2 * sh) * (n * th));
    let ky = (2 * sh) * th;
    assert(cy == ay * ky && ey == by * ky && ky >= 1) by (nonlinear_arith)
        requires
            ay == vy * d + th * n,
            by == 2 * n,
            cy == 2 * ((vy * th) * (d * sh)) + th * ((2 * sh) * (n * th)),
            ey == 2 * ((2 * sh) * (n * th)),
            ky == (2 * sh) * th,
            sh >= 1,
            th >= 1,
    ;
    assert(ay * ey == cy * by && ey > 0) by (nonlinear_arith)
        requires
            cy == ay * ky,
            ey == by * ky,
            by >= 2,
            ky >= 1,
    ;
    lemma_floor_of_equal_fractions(ay, by, cy, ey);
}

/// Floor division of a signed value by a positive divisor: the quotient
/// rounded toward negative infinity, matching the mathematical `/`.
fn floor_div(a: i128, d: i128) -> (q: i128)
    requires
        1 <= d <= 0x10_0000_0000,
        -0x1_0000_0000_0000_0000_0000_0000_0000 <= a <= 0x1_0000_0000_0000_0000_0000_0000_0000,
    ensures
        q == a as int / d as int,
{
    if a >= 0 {
        let q0: u128 = (a as u128) / (d as u128);
        q0 as i128
    } else {
        let m: u128 = (-a) as u128;
        let dd: u128 = d as u128;
        let q0: u128 = (m + dd - 1) / dd;
        proof {
            let mi = m as int;
            let di = d as int;
            lemma_fundamental_div_mod(mi, di);
            lemma_mod_division_less_than_divisor(mi, di);
            let qq = mi / di;
            let rr = mi % di;
            if rr == 0 {
                assert(mi + di - 1 == qq * di + (di - 1)) by (nonlinear_arith)
                    requires
                        mi == di * qq + rr,
                        rr == 0,
                ;
                lemma_fundamental_div_mod_converse_div(mi + di - 1, di, qq, di - 1);
                assert(-mi == (-qq) * di + 0) by (nonlinear_arith)
                    requires
                        mi == di * qq + rr,
                        rr == 0,
                ;
                lemma_fundamental_div_mod_converse_div(-mi, di, -qq, 0);
            } else {
                assert(mi + di - 1 == (qq + 1) * di + (rr - 1)) by (nonlinear_arith)
                    requires
                        mi == di * qq + rr,
                ;
                lemma_fundamental_div_mod_converse_div(mi + di - 1, di, qq + 1, rr - 1);
                assert(-mi == (-qq - 1) * di + (di - rr)) by (nonlinear_arith)
                    requires
                        mi == di * qq + rr,
                ;
                lemma_fundamental_div_mod_converse_div(-mi, di, -qq - 1, di - rr);
            }
        }
        -((q0 as i128))
    }
}

/// Compute the exact mapped pixel coordinates of a physical position, as
/// signed machine integers wide enough never to overflow.
fn window_to_pixel_raw(t: &ScalingTransform, pos: (isize, isize)) -> (w: (i128, i128))
    requires
        t.wf(),
    ensures
        w.0 == spec_window_to_pixel_x(*t, pos.0 as int),
        w.1 == spec_window_to_pixel_y(*t, pos.1 as int),
{
    proof {
        crate::transform::lemma_scale_range(
            t.texture_width as int,
            t.texture_height as int,
            t.surface_width as int,
            t.surface_height as int,
        );
    }
    let n: i128 = t.scale_num as i128;
    let d: i128 = t.scale_den as i128;
    let px: i128 = pos.0 as i128;
    let py: i128 = pos.1 as i128;
    let sw: i128 = t.surface_width as i128;
    let sh: i128 = t.surface_height as i128;
    let tw: i128 = t.texture_width as i128;
    let th: i128 = t.texture_height as i128;
    proof {
        assert(-0x8000_0000_0000_0000_0000_0000_0000 <= (2 * px - sw) * d
            <= 0x8000_0000_0000_0000_0000_0000_0000 && 0 <= tw * n
            <= 0x1_0000_0000_0000_0000 && -0x8000_0000_0000_0000_0000_0000_0000 <= (sh - 2
            * py) * d <= 0x8000_0000_0000_0000_0000_0000_0000 && 0 <= th * n
            <= 0x1_0000_0000_0000_0000) by (nonlinear_arith)
            requires
                -0x8000_0000_0000_0000 <= px <= 0x8000_0000_0000_0000,
                -0x8000_0000_0000_0000 <= py <= 0x8000_0000_0000_0000,
                1 <= sw <= 0x1_0000_0000,
                1 <= sh <= 0x1_0000_0000,
                1 <= tw <= 0x1_0000_0000,
                1 <= th <= 0x1_0000_0000,
                1 <= n <= 0x1_0000_0000,
                1 <= d <= 0x1_0000_0000,
        ;
    }
    let ax: i128 = (2 * px - sw) * d + tw * n;
    let ay: i128 = (sh - 2 * py) * d + th * n;
    let wx: i128 = floor_div(ax, 2 * n);
    let wy: i128 = floor_div(ay, 2 * n);
    (wx, wy)
}

/// Whether the mapped pixel coordinates of a physical position fit in the
/// signed machine range used to report out-of-bounds results. This holds for
/// every position a window can deliver; only astronomically distant
/// positions under extreme downscaling fall outside.
pub fn window_pos_fits(t: &ScalingTransform, pos: (isize, isize)) -> (fits: bool)
    requires
        t.wf(),
    ensures
        fits == {
            &&& isize::MIN <= spec_window_to_pixel_x(*t, pos.0 as int) <= isize::MAX
            &&& isize::MIN <= spec_window_to_pixel_y(*t, pos.1 as int) <= isize::MAX
        },
{
    let (wx, wy): (i128, i128) = window_to_pixel_raw(t, pos);
    let lo: i128 = isize::MIN as i128;
    let hi: i128 = isize::MAX as i128;
    lo <= wx && wx <= hi && lo <= wy && wy <= hi
}

/// Map a physical window position to a pixel position. In-bounds results come
/// back as unsigned pixel coordinates; out-of-bounds results come back as the
/// signed out-of-range coordinates, for the caller to clamp or reject.
pub fn window_to_pixel(t: &ScalingTransform, pos: (isize, isize)) -> (r: Result<
    (usize, usize),
    (isize, isize),
>)
    requires
        t.wf(),
        isize::MIN <= spec_window_to_pixel_x(*t, pos.0 as int) <= isize::MAX,
        isize::MIN <= spec_window_to_pixel_y(*t, pos.1 as int) <= isize::MAX,
    ensures
        r == (if spec_window_pos_in_bounds(*t, pos.0 as int, pos.1 as int) {
            Ok::<(usize, usize), (isize, isize)>(
                (
                    spec_window_to_pixel_x(*t, pos.0 as int) as usize,
                    spec_window_to_pixel_y(*t, pos.1 as int) as usize,
                ),
            )
        } else {
            Err::<(usize, usize), (isize, isize)>(
                (
                    spec_window_to_pixel_x(*t, pos.0 as int) as isize,
                    spec_window_to_pixel_y(*t, pos.1 as int) as isize,
                ),
            )
        }),
{
    let (wx, wy): (i128, i128) = window_to_pixel_raw(t, pos);
    let tw: i128 = t.texture_width as i128;
    let th: i128 = t.texture_height as i128;
    if 0 <= wx && wx < tw && 0 <= wy && wy < th {
        Ok((wx as usize, wy as usize))
    } else {
        Err((wx as isize, wy as isize))
    }
}

/// Clamp one signed coordinate into `[0, extent - 1]`.
pub fn clamp_to_extent(v: isize, extent: u32) -> (r: usize)
    requires
        extent >= 1,
    ensures
        r == spec_clamp(v as int, extent as int),
{
    if v < 0 {
        0
    } else {
        let p: usize = v as usize;
        let e: usize = extent as usize;
        if p >= e {
            e - 1
        } else {
            p
        }
    }
}

/// Clamping is sound and complete as a recovery for the window mapping: any
/// mapped position clamps to a coordinate inside the pixel grid, and a
/// position that already maps in bounds is left exactly where it is.
pub proof fn lemma_clamp_recovers_window_map(t: ScalingTransform, px: int, py: int)
    requires
        t.wf(),
    ensures
        0 <= spec_clamp(spec_window_to_pixel_x(t, px), t.texture_width as int)
            < t.texture_width,
        0 <= spec_clamp(spec_window_to_pixel_y(t, py), t.texture_height as int)
            < t.texture_height,
        spec_window_pos_in_bounds(t, px, py) ==> spec_clamp(
            spec_window_to_pixel_x(t, px),
            t.texture_width as int,
        ) == spec_window_to_pixel_x(t, px) && spec_clamp(
            spec_window_to_pixel_y(t, py),
            t.texture_height as int,
        ) == spec_window_to_pixel_y(t, py),
{
}

/// Clamping an already-clamped coordinate changes nothing.
pub proof fn lemma_clamp_idempotent(v: int, extent: int)
    requires
        extent >= 1,
    ensures
        spec_clamp(spec_clamp(v, extent), extent) == spec_clamp(v, extent),
{
}

} // verus!
