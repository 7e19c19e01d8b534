//! The fit-and-crop engine: from the monitors and a source picture to the
//! picture that spans the whole desktop.

use vstd::prelude::*;
use crate::fit::{
    cover_plan, lemma_cover_plan_in_bounds, lemma_scaled_side_exact, plan_fit, FitPlan,
};
use crate::geometry::{bounding_box, enclosing_box, lemma_target_is_positive, MonitorInfo};
use crate::raster::{can_resize, Raster, RasterView};

verus! {

/// Why a picture could not be fitted.
#[derive(Clone, Copy, Debug, PartialEq, Eq, Structural)]
pub enum FitError {
    /// The source picture has no pixels.
    EmptySource,
    /// The target rectangle has no pixels.
    EmptyTarget,
    /// The target, the source or the scaled picture has a side that is too
    /// long to be resampled, or the scaled picture cannot be held in memory.
    TooLarge,
}

/// Why a source of the given size cannot be fitted over a target of the
/// given size; `None` where it can.
pub open spec fn fit_refusal(
    target_width: u32,
    target_height: u32,
    source_width: u32,
    source_height: u32,
) -> Option<FitError> {
    let plan = cover_plan(target_width, target_height, source_width, source_height);
    if source_width == 0 || source_height == 0 {
        Some(FitError::EmptySource)
    } else if target_width == 0 || target_height == 0 {
        Some(FitError::EmptyTarget)
    } else if !can_resize(
        source_width as int,
        source_height as int,
        plan.resized_width as int,
        plan.resized_height as int,
    ) {
        Some(FitError::TooLarge)
    } else {
        None
    }
}

/// Why a source of the given size cannot be fitted over the desktop of the
/// given monitors; `None` where it can.
pub open spec fn wallpaper_refusal(
    monitors: Seq<MonitorInfo>,
    source_width: u32,
    source_height: u32,
) -> Option<FitError> {
    let target = enclosing_box(monitors);
    if source_width == 0 || source_height == 0 {
        Some(FitError::EmptySource)
    } else if target.spec_target_width() > u32::MAX || target.spec_target_height() > u32::MAX {
        Some(FitError::TooLarge)
    } else {
        fit_refusal(
            target.spec_target_width() as u32,
            target.spec_target_height() as u32,
            source_width,
            source_height,
        )
    }
}

/// With at least one monitor, each showing at least one pixel, and a source
/// picture that has pixels, the only refusal left is that of size: the
/// desktop is never empty.
pub proof fn lemma_real_desktop_is_not_empty(
    monitors: Seq<MonitorInfo>,
    source_width: u32,
    source_height: u32,
)
    requires
        monitors.len() > 0,
        forall|i: int| 0 <= i < monitors.len() ==> (#[trigger] monitors[i]).wf(),
        source_width > 0,
        source_height > 0,
    ensures
        wallpaper_refusal(monitors, source_width, source_height) is None || wallpaper_refusal(
            monitors,
            source_width,
            source_height,
        ) == Some(FitError::TooLarge),
{
    lemma_target_is_positive(monitors);
}

/// `out` is what the plan makes of `source`: a picture of the target's size
/// that is the centred cut of some picture of the scaled size, which is the
/// source itself where the scaled size is the size of the source.
pub open spec fn follows_plan(out: RasterView, source: RasterView, plan: FitPlan) -> bool {
    &&& out.wf()
    &&& out.width == plan.target_width
    &&& out.height == plan.target_height
    &&& exists|scaled: RasterView|
        {
            &&& scaled.wf()
            &&& scaled.width == plan.resized_width
            &&& scaled.height == plan.resized_height
            &&& (scaled.width == source.width && scaled.height == source.height ==> scaled
                == source)
            &&& #[trigger] out.is_crop_of(scaled, plan.crop_x as int, plan.crop_y as int)
        }
}

/// Fits the picture over a target of `target_width` by `target_height`
/// pixels: scales it by the cover scale with a three-lobe Lanczos filter and
/// cuts the target's size out of the middle. The result has exactly the
/// target's size; a picture that already has it comes back unchanged.
pub fn fit_to_target(input_img: &Raster, target_width: u32, target_height: u32) -> (fitted: Result<
    Raster,
    FitError,
>)
    requires
        input_img.wf(),
    ensures
        match fitted {
            Ok(out) => {
                &&& fit_refusal(
                    target_width,
                    target_height,
                    input_img@.width as u32,
                    input_img@.height as u32,
                ) is None
                &&& follows_plan(
                    out@,
                    input_img@,
                    cover_plan(
                        target_width,
                        target_height,
                        input_img@.width as u32,
                        input_img@.height as u32,
                    ),
                )
                &&& (target_width == input_img@.width && target_height == input_img@.height
                    ==> out@ == input_img@)
            },
            Err(e) => fit_refusal(
                target_width,
                target_height,
                input_img@.width as u32,
                input_img@.height as u32,
            ) == Some(e),
        },
{
    let source_width: u32 = input_img.width();
    let source_height: u32 = input_img.height();
    if source_width == 0 || source_height == 0 {
        return Err(FitError::EmptySource);
    }
    if target_width == 0 || target_height == 0 {
        return Err(FitError::EmptyTarget);
    }
    let plan = plan_fit(target_width, target_height, source_width, source_height);
    proof {
        lemma_cover_plan_in_bounds(target_width, target_height, source_width, source_height);
        if target_width == source_width && target_height == source_height {
            lemma_scaled_side_exact(source_width, source_width);
            lemma_scaled_side_exact(source_width, source_height);
            assert(source_height * source_width == source_width * source_height)
                by (nonlinear_arith);
        }
    }
    if plan.resized_width > u32::MAX as u64 || plan.resized_height > u32::MAX as u64 {
        return Err(FitError::TooLarge);
    }
    let scaled = match input_img.resized(plan.resized_width as u32, plan.resized_height as u32) {
        Some(scaled) => scaled,
        None => {
            return Err(FitError::TooLarge);
        },
    };
    match scaled.crop_center(target_width, target_height) {
        Some(out) => {
            proof {
                assert(out@.is_crop_of(scaled@, plan.crop_x as int, plan.crop_y as int));
            }
            Ok(out)
        },
        // The scaled picture covers the target, so the cut always exists.
        None => Err(FitError::TooLarge),
    }
}

/// Crops the picture for the desktop of the given monitors: fits it over the
/// box that encloses them all. The result has exactly the size of that box;
/// a picture that already has it comes back unchanged.
pub fn crop_wallpaper_image(monitors: &[MonitorInfo], input_img: &Raster) -> (cropped: Result<
    Raster,
    FitError,
>)
    requires
        input_img.wf(),
    ensures
        match cropped {
            Ok(out) => {
                &&& wallpaper_refusal(
                    monitors@,
                    input_img@.width as u32,
                    input_img@.height as u32,
                ) is None
                &&& out@.width == enclosing_box(monitors@).spec_target_width()
                &&& out@.height == enclosing_box(monitors@).spec_target_height()
                &&& follows_plan(
                    out@,
                    input_img@,
                    cover_plan(
                        enclosing_box(monitors@).spec_target_width() as u32,
                        enclosing_box(monitors@).spec_target_height() as u32,
                        input_img@.width as u32,
                        input_img@.height as u32,
                    ),
                )
                &&& (out@.width == input_img@.width && out@.height == input_img@.height
                    ==> out@ == input_img@)
            },
            Err(e) => wallpaper_refusal(
                monitors@,
                input_img@.width as u32,
                input_img@.height as u32,
            ) == Some(e),
        },
{
    if input_img.width() == 0 || input_img.height() == 0 {
        return Err(FitError::EmptySource);
    }
    let target = bounding_box(monitors);
    let target_width: u64 = target.target_width();
    let target_height: u64 = target.target_height();
    if target_width > u32::MAX as u64 || target_height > u32::MAX as u64 {
        return Err(FitError::TooLarge);
    }
    fit_to_target(input_img, target_width as u32, target_height as u32)
}

} // verus!
