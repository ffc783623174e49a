//! What the first-person look camera does to the cursor and to the transforms
//! it rotates.
//!
//! Only an active camera reads input and grabs the cursor, so several
//! controllers and cameras can coexist and be toggled by activating one camera
//! at a time.

use vstd::prelude::*;

verus! {

/// How the cursor is held.
#[derive(Clone, Copy, Debug, PartialEq, Eq, Structural)]
pub enum CursorGrab {
    /// The cursor moves freely.
    Unlocked,
    /// The cursor is locked to the window.
    Locked,
}

/// The cursor settings of the primary window.
#[derive(Clone, Copy, Debug, PartialEq, Eq, Structural)]
pub struct CursorState {
    pub grab: CursorGrab,
    pub visible: bool,
}

/// What the cursor policy reads of a look camera.
#[derive(Clone, Copy, Debug, PartialEq, Eq, Structural)]
pub struct CameraCursorStatus {
    /// Whether the camera is active.
    pub is_active: bool,
    /// Whether the camera asks for the cursor to stay visible and free.
    pub show_cursor: bool,
}

/// The cursor an active look camera asks for: locked and hidden, unless it
/// asks to show the cursor, in which case free and visible.
pub open spec fn cursor_for(show_cursor: bool) -> CursorState {
    if show_cursor {
        CursorState { grab: CursorGrab::Unlocked, visible: true }
    } else {
        CursorState { grab: CursorGrab::Locked, visible: false }
    }
}

/// Camera `i` is the one active camera of `cameras`: it is active and every
/// other camera is inactive.
pub open spec fn sole_active(cameras: Seq<CameraCursorStatus>, i: int) -> bool {
    &&& 0 <= i < cameras.len()
    &&& cameras[i].is_active
    &&& forall|j: int| 0 <= j < cameras.len() && j != i ==> !(#[trigger] cameras[j]).is_active
}

/// Decides the cursor for one frame.
///
/// `primary_window_found` says whether there is exactly one primary window;
/// `cameras` holds the status of every look camera. Several look cameras can
/// coexist and be toggled by activating one camera at a time: when exactly one
/// is active, it decides the cursor. Without a primary window, with no active
/// look camera, or with more than one active, the cursor is left alone
/// (`None`), so other camera controllers can manage it.
pub fn cursor_update(primary_window_found: bool, cameras: &Vec<CameraCursorStatus>) -> (update:
    Option<CursorState>)
    ensures
        update is Some <==> primary_window_found && exists|i: int| sole_active(cameras@, i),
        update is Some ==> exists|i: int|
            sole_active(cameras@, i) && update->0 == cursor_for(#[trigger] cameras@[i].show_cursor),
{
    if !primary_window_found {
        return None;
    }
    let mut found: Option<usize> = None;
    let mut n: usize = 0;
    while n < cameras.len()
        invariant
            primary_window_found,
            n <= cameras@.len(),
            found is None ==> forall|j: int| 0 <= j < n ==> !(#[trigger] cameras@[j]).is_active,
            found matches Some(k) ==> {
                &&& k < n
                &&& cameras@[k as int].is_active
                &&& forall|j: int| 0 <= j < n && j != k ==> !(#[trigger] cameras@[j]).is_active
            },
        decreases cameras@.len() - n,
    {
        if cameras[n].is_active {
            if let Some(k) = found {
                // A second active camera: no camera is the only active one.
                assert forall|i: int| !sole_active(cameras@, i) by {
                    if sole_active(cameras@, i) {
                        if i != k {
                            assert(!cameras@[k as int].is_active);
                        } else {
                            assert(!cameras@[n as int].is_active);
                        }
                    }
                }
                return None;
            }
            found = Some(n);
        }
        n = n + 1;
    }
    match found {
        Some(k) => {
            let status = cameras[k];
            let state = if !status.show_cursor {
                CursorState { grab: CursorGrab::Locked, visible: false }
            } else {
                CursorState { grab: CursorGrab::Unlocked, visible: true }
            };
            assert(sole_active(cameras@, k as int) && state == cursor_for(
                cameras@[k as int].show_cursor,
            ));
            Some(state)
        },
        None => {
            assert forall|i: int| !sole_active(cameras@, i) by {
                if sole_active(cameras@, i) {
                    assert(!cameras@[i].is_active);
                }
            }
            None
        },
    }
}

/// At most one camera is the only active one, so the camera that decides the
/// cursor is well defined, whatever the inactive cameras are and wherever
/// they stand.
pub proof fn sole_active_camera_is_unique(cameras: Seq<CameraCursorStatus>, i: int, k: int)
    requires
        sole_active(cameras, i),
        sole_active(cameras, k),
    ensures
        i == k,
{
    if i != k {
        assert(!cameras[k].is_active);
    }
}

/// A camera that is active while every other camera is inactive decides the
/// cursor; with two cameras active, none does.
pub proof fn active_camera_decides(cameras: Seq<CameraCursorStatus>, i: int, k: int)
    ensures
        0 <= i < cameras.len() && cameras[i].is_active && (forall|j: int|
            0 <= j < cameras.len() && j != i ==> !(#[trigger] cameras[j]).is_active) ==> sole_active(
            cameras,
            i,
        ),
        0 <= i < cameras.len() && 0 <= k < cameras.len() && i != k && cameras[i].is_active
            && cameras[k].is_active ==> forall|m: int| !sole_active(cameras, m),
        !(0 <= i < cameras.len() && cameras[i].is_active) ==> !sole_active(cameras, i),
{
    if 0 <= i < cameras.len() && 0 <= k < cameras.len() && i != k && cameras[i].is_active
        && cameras[k].is_active {
        assert forall|m: int| !sole_active(cameras, m) by {
            if sole_active(cameras, m) {
                if m != i {
                    assert(!cameras[i].is_active);
                } else {
                    assert(!cameras[k].is_active);
                }
            }
        }
    }
}

/// A parented camera pitches itself and yaws its parent; an unparented one
/// does both to itself.
pub proof fn routing_follows_parenting(has_parent: bool)
    ensures
        has_parent ==> routing_for(has_parent) == LookRouting::PitchCameraYawParent,
        !has_parent ==> routing_for(has_parent) == LookRouting::PitchAndYawCamera,
{
}

/// Whenever the look camera sets the cursor, it is hidden exactly when it is
/// locked: the cursor is never locked and visible, nor free and hidden.
pub proof fn cursor_hidden_iff_locked(show_cursor: bool)
    ensures
        cursor_for(show_cursor).visible <==> cursor_for(show_cursor).grab == CursorGrab::Unlocked,
        cursor_for(show_cursor).visible == show_cursor,
{
}

/// Which transforms a camera's mouse look rotates.
#[derive(Clone, Copy, Debug, PartialEq, Eq, Structural)]
pub enum LookRouting {
    /// Pitch turns the camera about its local `X` axis and yaw turns the
    /// parent body about `Y`, so the body turns with the view.
    PitchCameraYawParent,
    /// Pitch turns the camera about its own right axis, then yaw turns it
    /// about `Y`.
    PitchAndYawCamera,
}

/// The routing for a camera whose parent is `has_parent`.
pub open spec fn routing_for(has_parent: bool) -> LookRouting {
    if has_parent {
        LookRouting::PitchCameraYawParent
    } else {
        LookRouting::PitchAndYawCamera
    }
}

/// Decides what one camera does with this frame's mouse motion: nothing when
/// it is inactive, otherwise the routing that its parenting calls for.
pub fn look_routing(is_active: bool, has_parent: bool) -> (routing: Option<LookRouting>)
    ensures
        routing is None <==> !is_active,
        routing is Some ==> routing->0 == routing_for(has_parent),
{
    if !is_active {
        return None;
    }
    if has_parent {
        Some(LookRouting::PitchCameraYawParent)
    } else {
        Some(LookRouting::PitchAndYawCamera)
    }
}

} // verus!
