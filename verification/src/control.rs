use vstd::prelude::*;

verus! {

/// What the game loop should do after looking at a window event.
#[derive(Clone, Copy, Debug, PartialEq, Eq, Structural)]
pub enum StateAction {
    /// Leave the state and shut the application down.
    Quit,
    /// Keep running unchanged.
    Continue,
}

/// Decision taken on a window event: the application quits exactly when the
/// window manager asked for the window to close or the Escape key went down;
/// every other event leaves the state running.
pub fn window_event_action(close_requested: bool, escape_pressed: bool) -> (a: StateAction)
    ensures
        a == StateAction::Quit <==> (close_requested || escape_pressed),
{
    if close_requested || escape_pressed {
        StateAction::Quit
    } else {
        StateAction::Continue
    }
}

/// Pixel position of the camera for a viewport of the given dimensions: the
/// camera sits over the centre of the viewport, halves rounded down. The
/// caller supplies the depth of its own convention when it places the entity.
pub fn camera_center(viewport_width: u32, viewport_height: u32) -> (c: (u32, u32))
    ensures
        c.0 == viewport_width / 2,
        c.1 == viewport_height / 2,
{
    (viewport_width / 2, viewport_height / 2)
}

} // verus!
