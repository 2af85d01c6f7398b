//! The orbit camera, as far as it is decided without arithmetic on angles:
//! which camera follows which object, and the pointer drag. Holding the drag
//! button locks and hides the pointer, and only while it is held does
//! pointer motion turn the camera.

use crate::lookup::{get_single, single_of, SingletonError};
use vstd::prelude::*;

verus! {

/// How a window confines the pointer.
#[derive(Clone, Copy, Debug, PartialEq, Eq, Structural)]
pub enum CursorGrabMode {
    /// The pointer moves freely.
    Free,
    /// The pointer stays inside the window.
    Confined,
    /// The pointer stays where it is.
    Locked,
}

/// What a window does with the pointer.
#[derive(Clone, Copy, Debug, PartialEq, Eq, Structural)]
pub struct CursorState {
    pub visible: bool,
    pub grab_mode: CursorGrabMode,
}

/// The drag state: whether pointer motion turns the camera.
#[derive(Clone, Copy, Debug, PartialEq, Eq, Structural)]
pub struct CameraControllerState {
    pub active: bool,
}

impl Default for CameraControllerState {
    /// Not dragging.
    fn default() -> (state: CameraControllerState)
        ensures
            !state.active,
    {
        CameraControllerState { active: false }
    }
}

/// Whether the camera is dragged after a frame. A press starts the drag and
/// a release ends it; of a press and a release in one frame the release
/// counts.
pub open spec fn dragging_after(active: bool, just_pressed: bool, just_released: bool) -> bool {
    if just_released {
        false
    } else if just_pressed {
        true
    } else {
        active
    }
}

/// What a frame asks of the window's pointer: hidden and locked when the
/// drag starts, visible and free when it ends, nothing otherwise.
pub open spec fn cursor_after(just_pressed: bool, just_released: bool) -> Option<CursorState> {
    if just_released {
        Some(CursorState { visible: true, grab_mode: CursorGrabMode::Free })
    } else if just_pressed {
        Some(CursorState { visible: false, grab_mode: CursorGrabMode::Locked })
    } else {
        None
    }
}

/// Takes the frame's press and release of the drag button, updates the drag
/// state and returns what to set the pointer of the one window to, if
/// anything. Without exactly one window the frame fails and the drag state
/// stays as it was.
pub fn camera_controller(
    state: &mut CameraControllerState,
    windows: &Vec<u64>,
    just_pressed: bool,
    just_released: bool,
) -> (r: Result<Option<CursorState>, SingletonError>)
    ensures
        r == match single_of(windows@) {
            Ok(_) => Ok(cursor_after(just_pressed, just_released)),
            Err(e) => Err(e),
        },
        final(state).active == if r is Ok {
            dragging_after(old(state).active, just_pressed, just_released)
        } else {
            old(state).active
        },
{
    match get_single(windows) {
        Ok(_) => {},
        Err(e) => {
            return Err(e);
        },
    }
    let mut cursor: Option<CursorState> = None;
    if just_pressed {
        cursor = Some(CursorState { visible: false, grab_mode: CursorGrabMode::Locked });
        state.active = true;
    }
    if just_released {
        cursor = Some(CursorState { visible: true, grab_mode: CursorGrabMode::Free });
        state.active = false;
    }
    Ok(cursor)
}

/// The camera to place and the object that it orbits, when there is exactly
/// one of each.
pub open spec fn orbit_of(cameras: Seq<u64>, focuses: Seq<u64>) -> Option<(u64, u64)> {
    match (single_of(cameras), single_of(focuses)) {
        (Ok(camera), Ok(focus)) => Some((camera, focus)),
        _ => None,
    }
}

/// Picks the camera to place and the object that it orbits. Without exactly
/// one camera and exactly one object in focus the frame's update is skipped,
/// and that is no error.
pub fn camera_transform_update(cameras: &Vec<u64>, focuses: &Vec<u64>) -> (orbit: Option<
    (u64, u64),
>)
    ensures
        orbit == orbit_of(cameras@, focuses@),
{
    match get_single(cameras) {
        Ok(camera) => match get_single(focuses) {
            Ok(focus) => Some((camera, focus)),
            Err(_) => None,
        },
        Err(_) => None,
    }
}

} // verus!
