//! Size checks of the textures the overlay renders into.

use vstd::prelude::*;

verus! {

/// How many texture pixels the colour picker renders per surface pixel.
pub const PICKER_RENDER_SCALE: u32 = 2;

/// The largest texture side the renderer accepts, whatever the device allows.
pub const MAX_TARGET_DIMENSION: u32 = 65535;

/// What a render target is for.
#[derive(Debug, Clone, Copy, PartialEq, Eq, Structural)]
pub enum RenderTarget {
    Annotation,
    Picker,
}

/// Why a render target cannot be made.
#[derive(Debug, Clone, Copy, PartialEq, Eq, Structural)]
pub enum TargetSizeError {
    /// A side is 0 or longer than `limit`.
    OutOfRange { target: RenderTarget, width: u32, height: u32, limit: u32 },
    /// The picker's scaled size of a `width` by `height` surface overflows.
    ScaleOverflow { width: u32, height: u32 },
}

/// The longest side a target may have on a device whose largest 2D texture
/// side is `device_limit`.
pub open spec fn target_limit(device_limit: u32) -> u32 {
    if device_limit < MAX_TARGET_DIMENSION {
        device_limit
    } else {
        MAX_TARGET_DIMENSION
    }
}

/// Whether a target of `width` by `height` fits a device whose largest 2D
/// texture side is `device_limit`.
pub open spec fn target_fits(device_limit: u32, width: u32, height: u32) -> bool {
    &&& 0 < width <= target_limit(device_limit)
    &&& 0 < height <= target_limit(device_limit)
}

/// A target's size as the renderer takes it, or why it does not fit.
pub fn checked_target_size(device_limit: u32, size: [u32; 2], target: RenderTarget) -> (res: Result<[u16; 2], TargetSizeError>)
    ensures
        target_fits(device_limit, size[0], size[1]) ==> (res matches Ok(sides) && sides[0] == size[0]
            && sides[1] == size[1]),
        !target_fits(device_limit, size[0], size[1]) ==> res == Err::<[u16; 2], TargetSizeError>(
            TargetSizeError::OutOfRange {
                target,
                width: size[0],
                height: size[1],
                limit: target_limit(device_limit),
            },
        ),
{
    let limit = if device_limit < MAX_TARGET_DIMENSION {
        device_limit
    } else {
        MAX_TARGET_DIMENSION
    };
    let width = size[0];
    let height = size[1];
    if width == 0 || width > limit || height == 0 || height > limit {
        return Err(TargetSizeError::OutOfRange { target, width, height, limit });
    }
    Ok([width as u16, height as u16])
}

/// The picker's target size for a `size` surface, rendered at
/// `PICKER_RENDER_SCALE` times its pixels, or why it does not fit.
pub fn checked_scene_size(device_limit: u32, size: [u32; 2]) -> (res: Result<[u16; 2], TargetSizeError>)
    ensures
        size[0] * PICKER_RENDER_SCALE > u32::MAX || size[1] * PICKER_RENDER_SCALE > u32::MAX
            ==> res == Err::<[u16; 2], TargetSizeError>(
            TargetSizeError::ScaleOverflow { width: size[0], height: size[1] },
        ),
        size[0] * PICKER_RENDER_SCALE <= u32::MAX && size[1] * PICKER_RENDER_SCALE <= u32::MAX ==> {
            let width = (size[0] * PICKER_RENDER_SCALE) as u32;
            let height = (size[1] * PICKER_RENDER_SCALE) as u32;
            &&& target_fits(device_limit, width, height) ==> (res matches Ok(sides) && sides[0]
                == width && sides[1] == height)
            &&& !target_fits(device_limit, width, height) ==> res == Err::<
                [u16; 2],
                TargetSizeError,
            >(
                TargetSizeError::OutOfRange {
                    target: RenderTarget::Picker,
                    width,
                    height,
                    limit: target_limit(device_limit),
                },
            )
        },
{
    let scaled_width = size[0].checked_mul(PICKER_RENDER_SCALE);
    let scaled_height = size[1].checked_mul(PICKER_RENDER_SCALE);
    match (scaled_width, scaled_height) {
        (Some(width), Some(height)) => checked_target_size(
            device_limit,
            [width, height],
            RenderTarget::Picker,
        ),
        _ => Err(TargetSizeError::ScaleOverflow { width: size[0], height: size[1] }),
    }
}

} // verus!
