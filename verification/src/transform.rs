//! The aspect-preserving scaling transform that places the logical pixel grid
//! onto the physical surface.
//!
//! The transform is an affine map with a diagonal scale and no translation:
//! the scaled image is centered implicitly by the normalized-coordinate fit.
//! The scale factor is the largest integer `s >= 1` such that the scaled
//! texture still fits inside the surface; when the surface is smaller than the
//! texture on some axis, the scale falls back to the exact rational ratio that
//! fits the image to the surface's limiting dimension.
//!
//! All quantities are exact rationals held as integer numerator/denominator
//! pairs, so the inverse below is the exact inverse of the forward map.

use vstd::prelude::*;
use vstd::arithmetic::div_mod::{lemma_div_is_ordered, lemma_fundamental_div_mod};
use vstd::arithmetic::mul::{lemma_mul_inequality, lemma_mul_upper_bound};

verus! {

/// True when some integer scale factor `s >= 1` fits the texture inside the
/// surface on both axes.
pub open spec fn integer_scale_fits(tw: int, th: int, sw: int, sh: int) -> bool {
    tw <= sw && th <= sh
}

/// Numerator of the chosen scale factor for texture extent `(tw, th)` and
/// surface extent `(sw, sh)`.
pub open spec fn spec_scale_num(tw: int, th: int, sw: int, sh: int) -> int {
    if integer_scale_fits(tw, th, sw, sh) {
        if sw / tw <= sh / th {
            sw / tw
        } else {
            sh / th
        }
    } else {
        if sw * th <= sh * tw {
            sw
        } else {
            sh
        }
    }
}

/// Denominator of the chosen scale factor: 1 in the integer case, the limiting
/// texture dimension in the fit-to-surface fallback.
pub open spec fn spec_scale_den(tw: int, th: int, sw: int, sh: int) -> int {
    if integer_scale_fits(tw, th, sw, sh) {
        1
    } else {
        if sw * th <= sh * tw {
            tw
        } else {
            th
        }
    }
}

/// The scaling transform between the logical pixel grid and the physical
/// surface, held exactly: `scale_num / scale_den` is the factor by which one
/// logical pixel is magnified on the surface.
#[derive(Debug, Clone, Copy, PartialEq, Eq, Structural)]
pub struct ScalingTransform {
    /// Logical texture width, in pixels.
    pub texture_width: u32,
    /// Logical texture height, in pixels.
    pub texture_height: u32,
    /// Physical surface width, in physical pixels.
    pub surface_width: u32,
    /// Physical surface height, in physical pixels.
    pub surface_height: u32,
    /// Numerator of the scale factor.
    pub scale_num: u64,
    /// Denominator of the scale factor.
    pub scale_den: u64,
}

/// The diagonal of the 4x4 affine matrix in normalized device coordinates:
/// the x and y scale entries as exact fractions. All off-diagonal entries of
/// the matrix are zero, the z and w entries are one, and the translation term
/// is zero.
#[derive(Debug, Clone, Copy, PartialEq, Eq, Structural)]
pub struct TransformMatrix {
    /// Numerator of the x-axis scale entry.
    pub x_num: u64,
    /// Denominator of the x-axis scale entry.
    pub x_den: u64,
    /// Numerator of the y-axis scale entry.
    pub y_num: u64,
    /// Denominator of the y-axis scale entry.
    pub y_den: u64,
}

/// The transform that `ScalingTransform::compute` yields for the given
/// texture and surface extents.
pub open spec fn spec_compute(tw: u32, th: u32, sw: u32, sh: u32) -> ScalingTransform {
    ScalingTransform {
        texture_width: tw,
        texture_height: th,
        surface_width: sw,
        surface_height: sh,
        scale_num: spec_scale_num(tw as int, th as int, sw as int, sh as int) as u64,
        scale_den: spec_scale_den(tw as int, th as int, sw as int, sh as int) as u64,
    }
}

/// The chosen scale factor lies in `[1, u32::MAX]` on both sides of the
/// fraction whenever the extents are positive `u32` values.
pub proof fn lemma_scale_range(tw: int, th: int, sw: int, sh: int)
    requires
        1 <= tw <= u32::MAX,
        1 <= th <= u32::MAX,
        1 <= sw <= u32::MAX,
        1 <= sh <= u32::MAX,
    ensures
        1 <= spec_scale_num(tw, th, sw, sh) <= u32::MAX,
        1 <= spec_scale_den(tw, th, sw, sh) <= u32::MAX,
{
    if integer_scale_fits(tw, th, sw, sh) {
        lemma_div_at_least_one(sw, tw);
        lemma_div_at_least_one(sh, th);
        lemma_div_le_self(sw, tw);
        lemma_div_le_self(sh, th);
    }
}

/// Dividing `a` by a positive `b` no greater than `a` yields at least 1.
proof fn lemma_div_at_least_one(a: int, b: int)
    requires
        0 < b <= a,
    ensures
        a / b >= 1,
{
    lemma_div_is_ordered(b, a, b);
    assert(b / b == 1) by {
        lemma_fundamental_div_mod(b, b);
        vstd::arithmetic::div_mod::lemma_basic_div(b % b, b);
    }
}

/// Dividing a non-negative `a` by a positive `b` yields at most `a`.
proof fn lemma_div_le_self(a: int, b: int)
    requires
        0 <= a,
        0 < b,
    ensures
        a / b <= a,
{
    lemma_div_is_ordered(a, a, b);
    vstd::arithmetic::div_mod::lemma_div_nonincreasing(a, b);
}

impl ScalingTransform {
    /// The transform is exactly what `compute` yields for its own extents,
    /// which are all positive.
    pub open spec fn wf(self) -> bool {
        &&& self.texture_width >= 1
        &&& self.texture_height >= 1
        &&& self.surface_width >= 1
        &&& self.surface_height >= 1
        &&& self == spec_compute(
            self.texture_width,
            self.texture_height,
            self.surface_width,
            self.surface_height,
        )
    }

    /// Compute the scaling transform for the given logical texture extent and
    /// physical surface extent.
    pub fn compute(
        texture_width: u32,
        texture_height: u32,
        surface_width: u32,
        surface_height: u32,
    ) -> (t: ScalingTransform)
        requires
            texture_width >= 1,
            texture_height >= 1,
            surface_width >= 1,
            surface_height >= 1,
        ensures
            t == spec_compute(texture_width, texture_height, surface_width, surface_height),
            t.wf(),
    {
        proof {
            lemma_scale_range(
                texture_width as int,
                texture_height as int,
                surface_width as int,
                surface_height as int,
            );
        }
        if texture_width <= surface_width && texture_height <= surface_height {
            let sx: u32 = surface_width / texture_width;
            let sy: u32 = surface_height / texture_height;
            let s: u32 = if sx <= sy {
                sx
            } else {
                sy
            };
            ScalingTransform {
                texture_width,
                texture_height,
                surface_width,
                surface_height,
                scale_num: s as u64,
                scale_den: 1u64,
            }
        } else {
            proof {
                lemma_mul_upper_bound(
                    surface_width as int,
                    u32::MAX as int,
                    texture_height as int,
                    u32::MAX as int,
                );
                lemma_mul_upper_bound(
                    surface_height as int,
                    u32::MAX as int,
                    texture_width as int,
                    u32::MAX as int,
                );
            }
            let cross_w: u64 = (surface_width as u64) * (texture_height as u64);
            let cross_h: u64 = (surface_height as u64) * (texture_width as u64);
            if cross_w <= cross_h {
                ScalingTransform {
                    texture_width,
                    texture_height,
                    surface_width,
                    surface_height,
                    scale_num: surface_width as u64,
                    scale_den: texture_width as u64,
                }
            } else {
                ScalingTransform {
                    texture_width,
                    texture_height,
                    surface_width,
                    surface_height,
                    scale_num: surface_height as u64,
                    scale_den: texture_height as u64,
                }
            }
        }
    }

    /// The diagonal entries of the forward matrix: the scaled texture extent
    /// over the surface extent, per axis.
    pub open spec fn spec_forward(self) -> TransformMatrix {
        TransformMatrix {
            x_num: (self.scale_num * self.texture_width) as u64,
            x_den: (self.scale_den * self.surface_width) as u64,
            y_num: (self.scale_num * self.texture_height) as u64,
            y_den: (self.scale_den * self.surface_height) as u64,
        }
    }

    /// The diagonal entries of the inverse matrix: each entry of the forward
    /// matrix with numerator and denominator swapped.
    pub open spec fn spec_inverse(self) -> TransformMatrix {
        TransformMatrix {
            x_num: (self.scale_den * self.surface_width) as u64,
            x_den: (self.scale_num * self.texture_width) as u64,
            y_num: (self.scale_den * self.surface_height) as u64,
            y_den: (self.scale_num * self.texture_height) as u64,
        }
    }

    /// Both matrices have entries whose numerators and denominators are
    /// positive and free of overflow in the products above.
    pub proof fn lemma_matrix_entries_positive(self)
        requires
            self.wf(),
        ensures
            1 <= self.scale_num * self.texture_width <= u64::MAX,
            1 <= self.scale_den * self.surface_width <= u64::MAX,
            1 <= self.scale_num * self.texture_height <= u64::MAX,
            1 <= self.scale_den * self.surface_height <= u64::MAX,
    {
        lemma_scale_range(
            self.texture_width as int,
            self.texture_height as int,
            self.surface_width as int,
            self.surface_height as int,
        );
        lemma_mul_upper_bound(
            self.scale_num as int,
            u32::MAX as int,
            self.texture_width as int,
            u32::MAX as int,
        );
        lemma_mul_upper_bound(
            self.scale_den as int,
            u32::MAX as int,
            self.surface_width as int,
            u32::MAX as int,
        );
        lemma_mul_upper_bound(
            self.scale_num as int,
            u32::MAX as int,
            self.texture_height as int,
            u32::MAX as int,
        );
        lemma_mul_upper_bound(
            self.scale_den as int,
            u32::MAX as int,
            self.surface_height as int,
            u32::MAX as int,
        );
        lemma_mul_inequality(1, self.scale_num as int, self.texture_width as int);
        lemma_mul_inequality(1, self.scale_den as int, self.surface_width as int);
        lemma_mul_inequality(1, self.scale_num as int, self.texture_height as int);
        lemma_mul_inequality(1, self.scale_den as int, self.surface_height as int);
    }

    /// The forward transform matrix.
    pub fn forward(&self) -> (m: TransformMatrix)
        requires
            self.wf(),
        ensures
            m == self.spec_forward(),
    {
        proof {
            self.lemma_matrix_entries_positive();
        }
        TransformMatrix {
            x_num: self.scale_num * (self.texture_width as u64),
            x_den: self.scale_den * (self.surface_width as u64),
            y_num: self.scale_num * (self.texture_height as u64),
            y_den: self.scale_den * (self.surface_height as u64),
        }
    }

    /// The inverse transform matrix, the exact matrix inverse of `forward`.
    pub fn inverse(&self) -> (m: TransformMatrix)
        requires
            self.wf(),
        ensures
            m == self.spec_inverse(),
    {
        proof {
            self.lemma_matrix_entries_positive();
        }
        TransformMatrix {
            x_num: self.scale_den * (self.surface_width as u64),
            x_den: self.scale_num * (self.texture_width as u64),
            y_num: self.scale_den * (self.surface_height as u64),
            y_den: self.scale_num * (self.texture_height as u64),
        }
    }
}

/// The scaled texture never exceeds the surface: on both axes, the scale
/// factor times the texture extent is at most the surface extent (compared as
/// exact rationals by cross-multiplication with the positive denominator).
pub proof fn lemma_scale_fits(t: ScalingTransform)
    requires
        t.wf(),
    ensures
        t.scale_num * t.texture_width <= t.scale_den * t.surface_width,
        t.scale_num * t.texture_height <= t.scale_den * t.surface_height,
{
    let tw = t.texture_width as int;
    let th = t.texture_height as int;
    let sw = t.surface_width as int;
    let sh = t.surface_height as int;
    lemma_scale_range(tw, th, sw, sh);
    let n = spec_scale_num(tw, th, sw, sh);
    let d = spec_scale_den(tw, th, sw, sh);
    if integer_scale_fits(tw, th, sw, sh) {
        lemma_fundamental_div_mod(sw, tw);
        lemma_fundamental_div_mod(sh, th);
        vstd::arithmetic::div_mod::lemma_mod_division_less_than_divisor(sw, tw);
        vstd::arithmetic::div_mod::lemma_mod_division_less_than_divisor(sh, th);
        vstd::arithmetic::mul::lemma_mul_nonnegative(tw, sw / tw);
        vstd::arithmetic::mul::lemma_mul_nonnegative(th, sh / th);
        lemma_mul_inequality(n, sw / tw, tw);
        lemma_mul_inequality(n, sh / th, th);
        assert((sw / tw) * tw == tw * (sw / tw)) by {
            vstd::arithmetic::mul::lemma_mul_is_commutative(sw / tw, tw);
        }
        assert((sh / th) * th == th * (sh / th)) by {
            vstd::arithmetic::mul::lemma_mul_is_commutative(sh / th, th);
        }
        assert(n * tw <= (sw / tw) * tw);
        assert(n * th <= (sh / th) * th);
        assert(n * tw <= sw);
        assert(n * th <= sh);
        assert(t.scale_num == n && t.scale_den == 1);
        assert(t.scale_num * t.texture_width == n * tw);
        assert(t.scale_num * t.texture_height == n * th);
        assert(t.scale_den * t.surface_width == sw);
        assert(t.scale_den * t.surface_height == sh);
    } else {
        if sw * th <= sh * tw {
            assert(sw * tw == tw * sw) by {
                vstd::arithmetic::mul::lemma_mul_is_commutative(sw, tw);
            }
            assert(sw * th <= tw * sh) by {
                vstd::arithmetic::mul::lemma_mul_is_commutative(sh, tw);
            }
        } else {
            assert(sh * th == th * sh) by {
                vstd::arithmetic::mul::lemma_mul_is_commutative(sh, th);
            }
            assert(sh * tw <= th * sw) by {
                vstd::arithmetic::mul::lemma_mul_is_commutative(sw, th);
                vstd::arithmetic::mul::lemma_mul_is_commutative(sh, tw);
            }
        }
    }
}

/// When an integer scale fits, the chosen factor is the largest such integer:
/// it is at least 1, its denominator is 1, and one more step of scaling would
/// overrun the surface on some axis.
pub proof fn lemma_scale_integer_maximal(t: ScalingTransform)
    requires
        t.wf(),
        integer_scale_fits(
            t.texture_width as int,
            t.texture_height as int,
            t.surface_width as int,
            t.surface_height as int,
        ),
    ensures
        t.scale_den == 1,
        t.scale_num >= 1,
        (t.scale_num + 1) * t.texture_width > t.surface_width || (t.scale_num + 1)
            * t.texture_height > t.surface_height,
{
    let tw = t.texture_width as int;
    let th = t.texture_height as int;
    let sw = t.surface_width as int;
    let sh = t.surface_height as int;
    lemma_scale_range(tw, th, sw, sh);
    let n = spec_scale_num(tw, th, sw, sh);
    if n == sw / tw {
        lemma_fundamental_div_mod(sw, tw);
        assert((n + 1) * tw == n * tw + tw) by {
            vstd::arithmetic::mul::lemma_mul_is_distributive_add_other_way(tw, n, 1);
            vstd::arithmetic::mul::lemma_mul_is_commutative(n + 1, tw);
            vstd::arithmetic::mul::lemma_mul_is_commutative(n, tw);
            vstd::arithmetic::mul::lemma_mul_basics(tw);
        }
        assert(n * tw == tw * n) by {
            vstd::arithmetic::mul::lemma_mul_is_commutative(n, tw);
        }
    } else {
        lemma_fundamental_div_mod(sh, th);
        assert((n + 1) * th == n * th + th) by {
            vstd::arithmetic::mul::lemma_mul_is_distributive_add_other_way(th, n, 1);
            vstd::arithmetic::mul::lemma_mul_is_commutative(n + 1, th);
            vstd::arithmetic::mul::lemma_mul_is_commutative(n, th);
            vstd::arithmetic::mul::lemma_mul_basics(th);
        }
        assert(n * th == th * n) by {
            vstd::arithmetic::mul::lemma_mul_is_commutative(n, th);
        }
    }
}

/// When no integer scale fits, the fallback scale is a strict downscale that
/// fills the surface's limiting dimension exactly.
pub proof fn lemma_scale_fallback_fills_limit(t: ScalingTransform)
    requires
        t.wf(),
        !integer_scale_fits(
            t.texture_width as int,
            t.texture_height as int,
            t.surface_width as int,
            t.surface_height as int,
        ),
    ensures
        t.scale_num < t.scale_den,
        t.scale_num * t.texture_width == t.scale_den * t.surface_width || t.scale_num
            * t.texture_height == t.scale_den * t.surface_height,
{
    let tw = t.texture_width as int;
    let th = t.texture_height as int;
    let sw = t.surface_width as int;
    let sh = t.surface_height as int;
    lemma_scale_range(tw, th, sw, sh);
    if sw * th <= sh * tw {
        assert(sw * tw == tw * sw) by {
            vstd::arithmetic::mul::lemma_mul_is_commutative(sw, tw);
        }
        if tw <= sw {
            // Then the height is the axis that does not fit; the width ratio
            // being the smaller one forces `sw < tw`, a contradiction.
            assert(false) by (nonlinear_arith)
                requires
                    sw * th <= sh * tw,
                    sh < th,
                    tw <= sw,
                    1 <= tw,
                    1 <= th,
            ;
        }
    } else {
        assert(sh * th == th * sh) by {
            vstd::arithmetic::mul::lemma_mul_is_commutative(sh, th);
        }
        if th <= sh {
            assert(false) by (nonlinear_arith)
                requires
                    sh * tw < sw * th,
                    sw < tw,
                    th <= sh,
                    1 <= tw,
                    1 <= th,
            ;
        }
    }
}

/// Numerator of the surface x-coordinate of the vertical pixel-grid line
/// `px`, over the common denominator `2 * scale_den`: the scaled image starts
/// at the left margin and advances by the scale factor per pixel.
pub open spec fn spec_surface_x_num(t: ScalingTransform, px: int) -> int {
    2 * t.scale_num * px + t.scale_den * t.surface_width - t.scale_num * t.texture_width
}

/// Numerator of the surface y-coordinate of the horizontal pixel-grid line
/// `py`, over the common denominator `2 * scale_den`.
pub open spec fn spec_surface_y_num(t: ScalingTransform, py: int) -> int {
    2 * t.scale_num * py + t.scale_den * t.surface_height - t.scale_num * t.texture_height
}

impl ScalingTransform {
    /// Map a corner of the logical pixel grid onto the physical surface,
    /// returning the exact surface position as two fractions
    /// `((x_num, x_den), (y_num, y_den))`. The image is centered: the corners
    /// of the grid land inset by equal margins on both sides of each axis.
    pub fn pixel_to_surface(&self, px: u32, py: u32) -> (r: ((u128, u128), (u128, u128)))
        requires
            self.wf(),
            px <= self.texture_width,
            py <= self.texture_height,
        ensures
            r.0.0 == spec_surface_x_num(*self, px as int),
            r.0.1 == 2 * self.scale_den,
            r.1.0 == spec_surface_y_num(*self, py as int),
            r.1.1 == 2 * self.scale_den,
    {
        proof {
            self.lemma_matrix_entries_positive();
            lemma_scale_fits(*self);
            lemma_scale_range(
                self.texture_width as int,
                self.texture_height as int,
                self.surface_width as int,
                self.surface_height as int,
            );
            let ni = self.scale_num as int;
            let di = self.scale_den as int;
            assert(0 <= 2 * ni * px && 0 <= 2 * ni * py && 2 * ni * px < 0x2_0000_0000_0000_0000
                && 2 * ni * py < 0x2_0000_0000_0000_0000) by (nonlinear_arith)
                requires
                    1 <= ni <= 0xffff_ffff,
                    0 <= px <= 0xffff_ffff,
                    0 <= py <= 0xffff_ffff,
            ;
        }
        let n = self.scale_num as u128;
        let d = self.scale_den as u128;
        let x_pos: u128 = 2 * n * (px as u128) + d * (self.surface_width as u128);
        let y_pos: u128 = 2 * n * (py as u128) + d * (self.surface_height as u128);
        let x_num: u128 = x_pos - n * (self.texture_width as u128);
        let y_num: u128 = y_pos - n * (self.texture_height as u128);
        ((x_num, 2 * d), (y_num, 2 * d))
    }
}

/// The corners of the pixel grid land inset by the centering margin: on each
/// axis, pixel line 0 maps to the margin and the last pixel line maps to the
/// surface extent minus the margin, where the margin is half of what the
/// scaled image leaves free (all over the denominator `2 * scale_den`).
pub proof fn lemma_corners_inset_by_margin(t: ScalingTransform)
    requires
        t.wf(),
    ensures
        spec_surface_x_num(t, 0) == t.scale_den * t.surface_width - t.scale_num
            * t.texture_width,
        spec_surface_x_num(t, t.texture_width as int) == 2 * t.scale_den * t.surface_width - (
        t.scale_den * t.surface_width - t.scale_num * t.texture_width),
        spec_surface_y_num(t, 0) == t.scale_den * t.surface_height - t.scale_num
            * t.texture_height,
        spec_surface_y_num(t, t.texture_height as int) == 2 * t.scale_den * t.surface_height - (
        t.scale_den * t.surface_height - t.scale_num * t.texture_height),
        spec_surface_x_num(t, 0) >= 0,
        spec_surface_y_num(t, 0) >= 0,
{
    lemma_scale_fits(t);
    assert(2 * t.scale_num * t.texture_width == t.scale_num * t.texture_width + t.scale_num
        * t.texture_width) by (nonlinear_arith);
    assert(2 * t.scale_num * t.texture_height == t.scale_num * t.texture_height + t.scale_num
        * t.texture_height) by (nonlinear_arith);
    assert(2 * t.scale_den * t.surface_width == t.scale_den * t.surface_width + t.scale_den
        * t.surface_width) by (nonlinear_arith);
    assert(2 * t.scale_den * t.surface_height == t.scale_den * t.surface_height + t.scale_den
        * t.surface_height) by (nonlinear_arith);
}

/// The entrywise product of two diagonal transform matrices, as exact
/// fractions: composing two diagonal affine maps multiplies their diagonal
/// entries.
pub open spec fn spec_compose(a: TransformMatrix, b: TransformMatrix) -> (int, int, int, int) {
    (a.x_num * b.x_num, a.x_den * b.x_den, a.y_num * b.y_num, a.y_den * b.y_den)
}

/// A fraction quadruple is the identity transform when both entries equal one
/// as rationals: numerator equals denominator, and neither is zero.
pub open spec fn spec_is_identity(m: (int, int, int, int)) -> bool {
    m.0 == m.1 && m.0 != 0 && m.2 == m.3 && m.2 != 0
}

/// The forward transform composed with its inverse is exactly the identity
/// transform: for every pair of positive texture and surface extents, each
/// diagonal entry of the product is the rational one.
pub proof fn lemma_forward_inverse_identity(t: ScalingTransform)
    requires
        t.wf(),
    ensures
        spec_is_identity(spec_compose(t.spec_forward(), t.spec_inverse())),
        spec_is_identity(spec_compose(t.spec_inverse(), t.spec_forward())),
{
    t.lemma_matrix_entries_positive();
    let f = t.spec_forward();
    let i = t.spec_inverse();
    assert(f.x_num == i.x_den && f.x_den == i.x_num && f.y_num == i.y_den && f.y_den
        == i.y_num);
    vstd::arithmetic::mul::lemma_mul_is_commutative(f.x_num as int, f.x_den as int);
    vstd::arithmetic::mul::lemma_mul_is_commutative(f.y_num as int, f.y_den as int);
    vstd::arithmetic::mul::lemma_mul_nonzero(f.x_num as int, f.x_den as int);
    vstd::arithmetic::mul::lemma_mul_nonzero(f.y_num as int, f.y_den as int);
}

} // verus!
