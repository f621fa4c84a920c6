//! The stepped zoom of the orbit camera: which zoom step and mode follow a
//! frame's zoom keys, and the distance a step stands for. Easing the camera
//! towards that distance is left to the renderer.
use vstd::prelude::*;

verus! {

/// Whether the camera orbits the player or looks through their eyes.
#[derive(Clone, Copy, Debug, PartialEq, Eq, Structural)]
pub enum CameraMode {
    Orbit,
    FirstPerson,
}

impl Default for CameraMode {
    fn default() -> (mode: CameraMode)
        ensures
            mode == CameraMode::Orbit,
    {
        CameraMode::Orbit
    }
}

/// Zoom step and mode after one frame: zooming out moves one step away, up
/// to `step_max`, and returns to orbit; zooming in moves one step closer, and
/// from step 0 switches to first person. Both keys apply, out first.
pub open spec fn zoom_spec(step: u32, step_max: u32, mode: CameraMode, zoom_out: bool, zoom_in: bool) -> (u32, CameraMode) {
    let (s1, m1) = if zoom_out {
        if step < step_max {
            ((step + 1) as u32, CameraMode::Orbit)
        } else {
            (step_max, mode)
        }
    } else {
        (step, mode)
    };
    if zoom_in {
        if s1 < 1 {
            (0u32, CameraMode::FirstPerson)
        } else {
            ((s1 - 1) as u32, m1)
        }
    } else {
        (s1, m1)
    }
}

/// Zoom step and mode after a frame in which the zoom keys were pressed as
/// `zoom_out` and `zoom_in`.
pub fn zoom_step(step: u32, step_max: u32, mode: CameraMode, zoom_out: bool, zoom_in: bool) -> (next: (u32, CameraMode))
    ensures
        next == zoom_spec(step, step_max, mode, zoom_out, zoom_in),
{
    let mut step = step;
    let mut mode = mode;
    if zoom_out {
        if step < step_max {
            step = step + 1;
            mode = CameraMode::Orbit;
        } else {
            step = step_max;
        }
    }
    if zoom_in {
        if step < 1 {
            step = 0;
            mode = CameraMode::FirstPerson;
        } else {
            step = step - 1;
        }
    }
    (step, mode)
}

/// The distance from the player that zoom step `step` stands for.
pub fn zoom_distance(step: u32, step_distance: u32) -> (distance: u64)
    ensures
        distance == step * step_distance,
{
    proof {
        assert(step * step_distance <= 0xffff_ffff * 0xffff_ffff) by (nonlinear_arith)
            requires
                step <= 0xffff_ffff,
                step_distance <= 0xffff_ffff,
        ;
    }
    step as u64 * step_distance as u64
}

} // verus!
