//! The perspective projection, as exact fractions.
//!
//! The projection uses a fixed field of view of sixty degrees and clip
//! planes at 0.1 and 1024 world units. Its x scale is the focal factor times
//! the viewport's aspect ratio (height over width), its y scale the focal
//! factor alone.

use vstd::prelude::*;

verus! {

/// The focal factor `1 / tan(fov / 2)` for a sixty-degree field of view
/// (the square root of three), as `FOCAL_NUM / FOCAL_DEN`.
pub const FOCAL_NUM: i64 = 1732051;

/// Denominator of the focal factor.
pub const FOCAL_DEN: i64 = 1000000;

/// The near clip distance, in tenths of a world unit.
pub const ZNEAR_TENTHS: i64 = 1;

/// The far clip distance, in tenths of a world unit.
pub const ZFAR_TENTHS: i64 = 10240;

/// The fraction `num / den`; every fraction made here has `den > 0`.
#[derive(Clone, Copy, Debug, PartialEq, Eq, Structural)]
pub struct Ratio {
    pub num: i64,
    pub den: i64,
}

/// Whether two fractions with positive denominators are the same number.
pub open spec fn same_value(a: Ratio, b: Ratio) -> bool {
    a.num * b.den == b.num * a.den
}

/// The four terms of a symmetric perspective matrix that are not constant.
#[derive(Clone, Copy, Debug, PartialEq, Eq, Structural)]
pub struct Perspective {
    /// Focal factor times aspect ratio.
    pub x_scale: Ratio,
    /// Focal factor.
    pub y_scale: Ratio,
    /// `(zfar + znear) / (zfar - znear)`.
    pub depth_scale: Ratio,
    /// `-(2 * zfar * znear) / (zfar - znear)`.
    pub depth_offset: Ratio,
}

/// The projection for a `width` by `height` viewport, `width > 0`.
pub open spec fn perspective_of(width: u32, height: u32) -> Perspective {
    Perspective {
        x_scale: Ratio { num: (FOCAL_NUM * height) as i64, den: (FOCAL_DEN * width) as i64 },
        y_scale: Ratio { num: FOCAL_NUM, den: FOCAL_DEN },
        depth_scale: Ratio {
            num: (ZFAR_TENTHS + ZNEAR_TENTHS) as i64,
            den: (ZFAR_TENTHS - ZNEAR_TENTHS) as i64,
        },
        depth_offset: Ratio {
            num: (-(2 * ZFAR_TENTHS * ZNEAR_TENTHS)) as i64,
            den: (10 * (ZFAR_TENTHS - ZNEAR_TENTHS)) as i64,
        },
    }
}

/// The projection for a viewport, or `None` where the width is zero and
/// the aspect ratio is undefined.
pub open spec fn projection_of(width: u32, height: u32) -> Option<Perspective> {
    if width > 0 {
        Some(perspective_of(width, height))
    } else {
        None
    }
}

/// Computes the projection for a `width` by `height` viewport.
pub fn perspective(width: u32, height: u32) -> (p: Option<Perspective>)
    ensures
        p == projection_of(width, height),
        p is Some <==> width > 0,
{
    if width == 0 {
        return None;
    }
    let h = height as i64;
    let w = width as i64;
    assert(FOCAL_NUM * h <= FOCAL_NUM * 0xffff_ffff) by (nonlinear_arith)
        requires
            0 <= h <= 0xffff_ffff,
    ;
    assert(FOCAL_DEN * w <= FOCAL_DEN * 0xffff_ffff) by (nonlinear_arith)
        requires
            0 <= w <= 0xffff_ffff,
    ;
    Some(
        Perspective {
            x_scale: Ratio { num: FOCAL_NUM * h, den: FOCAL_DEN * w },
            y_scale: Ratio { num: FOCAL_NUM, den: FOCAL_DEN },
            depth_scale: Ratio {
                num: ZFAR_TENTHS + ZNEAR_TENTHS,
                den: ZFAR_TENTHS - ZNEAR_TENTHS,
            },
            depth_offset: Ratio {
                num: -(2 * ZFAR_TENTHS * ZNEAR_TENTHS),
                den: 10 * (ZFAR_TENTHS - ZNEAR_TENTHS),
            },
        },
    )
}

/// The x scale is the y scale times the aspect ratio `height / width`: for a
/// square viewport the two are equal, and for a 1024 by 768 viewport the x
/// scale is three quarters of the y scale.
pub proof fn lemma_aspect_scaling(width: u32, height: u32)
    requires
        width > 0,
    ensures
        perspective_of(width, height).x_scale.den > 0,
        perspective_of(width, height).y_scale.den > 0,
        same_value(
            perspective_of(width, height).x_scale,
            Ratio {
                num: (perspective_of(width, height).y_scale.num * height) as i64,
                den: (perspective_of(width, height).y_scale.den * width) as i64,
            },
        ),
        width == height ==> same_value(
            perspective_of(width, height).x_scale,
            perspective_of(width, height).y_scale,
        ),
        width == 1024 && height == 768 ==> same_value(
            perspective_of(width, height).x_scale,
            Ratio { num: (3 * FOCAL_NUM) as i64, den: (4 * FOCAL_DEN) as i64 },
        ),
{
    let w = width as int;
    let h = height as int;
    assert(FOCAL_NUM * h <= FOCAL_NUM * 0xffff_ffff) by (nonlinear_arith)
        requires
            0 <= h <= 0xffff_ffff,
    ;
    assert(FOCAL_DEN * w <= FOCAL_DEN * 0xffff_ffff) by (nonlinear_arith)
        requires
            0 <= w <= 0xffff_ffff,
    ;
    assert(FOCAL_DEN * w > 0) by (nonlinear_arith)
        requires
            w > 0,
    ;
    assert(w == h ==> (FOCAL_NUM * h) * FOCAL_DEN == FOCAL_NUM * (FOCAL_DEN * w)) by (
    nonlinear_arith);
    if w == 1024 && h == 768 {
        assert((FOCAL_NUM * 768) * (4 * FOCAL_DEN) == (3 * FOCAL_NUM) * (FOCAL_DEN * 1024)) by (
        nonlinear_arith);
    }
}

} // verus!
