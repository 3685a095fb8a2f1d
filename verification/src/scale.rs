//! Aspect-preserving bounding-box scale policy.
//!
//! A thumbnail must fit in a square bounding box: the larger source dimension
//! maps to the box size and the smaller one is scaled by the same ratio,
//! rounding down. The still-image encoder refuses very small frames, so a hard
//! floor is applied to both output dimensions afterwards, even where that
//! distorts the aspect ratio of an extremely thin source.

use vstd::prelude::*;

verus! {

/// Side of the square bounding box that generated thumbnails fit in.
pub const SIZE: u32 = 48;

/// Smallest width or height the still-image encoder accepts.
pub const ENCODER_MINIMUM: u32 = 16;

/// The scaled dimensions before the encoder floor is applied: the larger
/// source dimension becomes `thumbnail_size`, the smaller one is scaled by
/// the same ratio, rounded down.
pub open spec fn spec_fitted(width: int, height: int, thumbnail_size: int) -> (int, int) {
    if width < height {
        (width * thumbnail_size / height, thumbnail_size)
    } else if width == height {
        (thumbnail_size, thumbnail_size)
    } else {
        (thumbnail_size, height * thumbnail_size / width)
    }
}

/// The output dimensions: the fitted dimensions with the encoder floor
/// applied to each independently.
pub open spec fn spec_actual_size(width: int, height: int, thumbnail_size: int) -> (int, int) {
    let fitted = spec_fitted(width, height, thumbnail_size);
    (
        if fitted.0 < ENCODER_MINIMUM { ENCODER_MINIMUM as int } else { fitted.0 },
        if fitted.1 < ENCODER_MINIMUM { ENCODER_MINIMUM as int } else { fitted.1 },
    )
}

/// A product of two values below a common bound stays below the bound's
/// square; used to keep the widened multiplications inside `u64`.
proof fn lemma_mul_bound(a: int, b: int, m: int)
    requires
        0 <= a <= m,
        0 <= b <= m,
    ensures
        0 <= a * b <= m * m,
{
    assert(0 <= a * b <= m * m) by (nonlinear_arith)
        requires 0 <= a <= m && 0 <= b <= m;
}

/// Scaling and then flooring never exceeds the larger of the box size and the
/// floor, so the result always fits in `u32`.
proof fn lemma_fitted_bounded(width: int, height: int, thumbnail_size: int)
    requires
        0 <= width,
        0 <= height,
        0 <= thumbnail_size,
    ensures
        spec_fitted(width, height, thumbnail_size).0 <= thumbnail_size,
        spec_fitted(width, height, thumbnail_size).1 <= thumbnail_size,
        0 <= spec_fitted(width, height, thumbnail_size).0,
        0 <= spec_fitted(width, height, thumbnail_size).1,
{
    if width < height {
        assert(width * thumbnail_size <= height * thumbnail_size) by (nonlinear_arith)
            requires 0 <= thumbnail_size && width <= height;
        assert(width * thumbnail_size / height <= height * thumbnail_size / height) by (nonlinear_arith)
            requires 0 < height && width * thumbnail_size <= height * thumbnail_size;
        assert(height * thumbnail_size / height == thumbnail_size) by (nonlinear_arith)
            requires 0 < height;
        assert(0 <= width * thumbnail_size) by (nonlinear_arith)
            requires 0 <= width && 0 <= thumbnail_size;
        assert(0 <= width * thumbnail_size / height) by (nonlinear_arith)
            requires 0 < height && 0 <= width * thumbnail_size;
    } else if width > height {
        assert(height * thumbnail_size <= width * thumbnail_size) by (nonlinear_arith)
            requires 0 <= thumbnail_size && height <= width;
        assert(height * thumbnail_size / width <= width * thumbnail_size / width) by (nonlinear_arith)
            requires 0 < width && height * thumbnail_size <= width * thumbnail_size;
        assert(width * thumbnail_size / width == thumbnail_size) by (nonlinear_arith)
            requires 0 < width;
        assert(0 <= height * thumbnail_size) by (nonlinear_arith)
            requires 0 <= height && 0 <= thumbnail_size;
        assert(0 <= height * thumbnail_size / width) by (nonlinear_arith)
            requires 0 < width && 0 <= height * thumbnail_size;
    }
}

/// Output dimensions for a thumbnail of a `width` by `height` source fitted
/// into a `thumbnail_size` bounding box, with the encoder floor applied.
///
/// Total: a zero dimension or a degenerate aspect ratio still yields a valid
/// (floored) output size.
pub fn calculate_actual_size(width: u32, height: u32, thumbnail_size: u32) -> (r: (u32, u32))
    ensures
        (r.0 as int, r.1 as int) == spec_actual_size(width as int, height as int, thumbnail_size as int),
        r.0 >= ENCODER_MINIMUM,
        r.1 >= ENCODER_MINIMUM,
{
    proof {
        lemma_fitted_bounded(width as int, height as int, thumbnail_size as int);
        lemma_mul_bound(width as int, thumbnail_size as int, u32::MAX as int);
        lemma_mul_bound(height as int, thumbnail_size as int, u32::MAX as int);
    }
    let fitted: (u32, u32) = if width < height {
        (((width as u64 * thumbnail_size as u64) / height as u64) as u32, thumbnail_size)
    } else if width == height {
        (thumbnail_size, thumbnail_size)
    } else {
        (thumbnail_size, ((height as u64 * thumbnail_size as u64) / width as u64) as u32)
    };
    let floored_width = if fitted.0 < ENCODER_MINIMUM { ENCODER_MINIMUM } else { fitted.0 };
    let floored_height = if fitted.1 < ENCODER_MINIMUM { ENCODER_MINIMUM } else { fitted.1 };
    (floored_width, floored_height)
}

/// The floor policy: whatever the source dimensions, neither output dimension
/// falls below the encoder minimum, even for sources with one dimension far
/// exceeding the other.
pub proof fn lemma_scale_floor(width: int, height: int, thumbnail_size: int)
    ensures
        spec_actual_size(width, height, thumbnail_size).0 >= ENCODER_MINIMUM,
        spec_actual_size(width, height, thumbnail_size).1 >= ENCODER_MINIMUM,
{
}

/// The bounding-box policy: the larger source dimension maps to the box size
/// itself, and a square source maps to a square thumbnail, before flooring.
pub proof fn lemma_scale_larger_dimension(width: int, height: int, thumbnail_size: int)
    requires
        0 <= width,
        0 <= height,
        0 <= thumbnail_size,
    ensures
        width > height ==> spec_fitted(width, height, thumbnail_size).0 == thumbnail_size,
        width < height ==> spec_fitted(width, height, thumbnail_size).1 == thumbnail_size,
        width == height ==> spec_fitted(width, height, thumbnail_size)
            == (thumbnail_size, thumbnail_size),
        spec_fitted(width, height, thumbnail_size).0 <= thumbnail_size,
        spec_fitted(width, height, thumbnail_size).1 <= thumbnail_size,
{
    lemma_fitted_bounded(width, height, thumbnail_size);
}

} // verus!
