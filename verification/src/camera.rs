//! The mouse cursor and the camera lock.
use vstd::prelude::*;

verus! {

/// How the window shows and holds the mouse cursor.
#[derive(Clone, Copy, Debug, PartialEq, Eq, Structural)]
pub enum CursorMode {
    /// Shown; how it is held is left as it is (during a battle).
    ShownAsIs,
    /// Held in the window and hidden (the camera follows the mouse).
    Locked,
    /// Free and shown.
    Free,
}

/// The lock key flips whether the camera follows the mouse. During a battle the cursor is
/// shown; elsewhere a locked camera holds and hides the cursor, an unlocked one frees it.
pub fn toggle_cursor(lock_active: &mut bool, lock_key_pressed: bool, in_battle: bool) -> (r: CursorMode)
    ensures
        *final(lock_active) == (*old(lock_active) != lock_key_pressed),
        r == (if in_battle {
            CursorMode::ShownAsIs
        } else if *final(lock_active) {
            CursorMode::Locked
        } else {
            CursorMode::Free
        }),
{
    if lock_key_pressed {
        *lock_active = !*lock_active;
    }
    if in_battle {
        CursorMode::ShownAsIs
    } else if *lock_active {
        CursorMode::Locked
    } else {
        CursorMode::Free
    }
}

/// The camera follows the mouse while its lock is active, and when there is no camera.
pub fn cursor_lock_condition(camera_lock: Option<bool>) -> (r: bool)
    ensures
        r == match camera_lock {
            Some(lock) => lock,
            None => true,
        },
{
    match camera_lock {
        Some(lock) => lock,
        None => true,
    }
}

} // verus!
