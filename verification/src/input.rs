use vstd::prelude::*;

verus! {

/// The keys the viewer reacts to.
#[derive(Debug, Clone, Copy, PartialEq, Eq, Structural)]
pub enum Key {
    Escape,
    F11,
    R,
    Left,
    Right,
    Space,
    Backspace,
    O,
    Other,
}

/// An input event, reduced to what the viewer reacts to.
#[derive(Debug, Clone, Copy, PartialEq, Eq, Structural)]
pub enum InputEvent {
    /// The window was closed.
    Quit,
    KeyDown(Key),
    /// The mouse moved by `(xrel, yrel)`, with the right button held or not.
    MouseMotion { right_button_held: bool, xrel: i32, yrel: i32 },
    /// The mouse wheel turned (by an amount the caller keeps).
    MouseWheel,
    Other,
}

/// The viewer's switches.
#[derive(Debug, Clone, Copy, PartialEq, Eq, Structural)]
pub struct ViewerState {
    pub should_quit: bool,
    pub auto_rotate: bool,
    pub recording: bool,
    pub show_overlay: bool,
}

/// What the caller has to do in answer to an event.
#[derive(Debug, Clone, Copy, PartialEq, Eq, Structural)]
pub enum Action {
    Nothing,
    ToggleFullscreen,
    StartRecording,
    StopRecording,
    /// Lower the rotation speed by half a degree per second.
    SlowRotation,
    /// Raise the rotation speed by half a degree per second.
    SpeedUpRotation,
    /// Put the camera back to the panorama's start.
    ResetCamera,
    /// Turn the camera by these mouse offsets.
    Look { x_offset: i64, y_offset: i64 },
    /// Zoom by the wheel's amount.
    Zoom,
}

/// The switches when the viewer starts: rotating, not recording, overlay off.
pub fn initial_state() -> (s: ViewerState)
    ensures
        s == (ViewerState { should_quit: false, auto_rotate: true, recording: false, show_overlay: false }),
{
    ViewerState { should_quit: false, auto_rotate: true, recording: false, show_overlay: false }
}

/// How the viewer answers an event: its new switches and the action to take.
/// Escape or closing the window quits; F11 toggles full screen; R starts or
/// stops recording; the left and right arrows slow down or speed up the
/// rotation; Space toggles the rotation; Backspace resets the camera; O toggles
/// the overlay; dragging with the right button turns the camera against the
/// drag; the wheel zooms.
pub open spec fn spec_handle_event(s: ViewerState, event: InputEvent) -> (ViewerState, Action) {
    match event {
        InputEvent::Quit | InputEvent::KeyDown(Key::Escape) => (
            ViewerState { should_quit: true, ..s },
            Action::Nothing,
        ),
        InputEvent::KeyDown(Key::F11) => (s, Action::ToggleFullscreen),
        InputEvent::KeyDown(Key::R) => if s.recording {
            (ViewerState { recording: false, ..s }, Action::StopRecording)
        } else {
            (ViewerState { recording: true, ..s }, Action::StartRecording)
        },
        InputEvent::KeyDown(Key::Left) => (s, Action::SlowRotation),
        InputEvent::KeyDown(Key::Right) => (s, Action::SpeedUpRotation),
        InputEvent::KeyDown(Key::Space) => (ViewerState { auto_rotate: !s.auto_rotate, ..s }, Action::Nothing),
        InputEvent::KeyDown(Key::Backspace) => (s, Action::ResetCamera),
        InputEvent::KeyDown(Key::O) => (ViewerState { show_overlay: !s.show_overlay, ..s }, Action::Nothing),
        InputEvent::MouseMotion { right_button_held, xrel, yrel } => if right_button_held {
            (s, Action::Look { x_offset: -(xrel as int) as i64, y_offset: -(yrel as int) as i64 })
        } else {
            (s, Action::Nothing)
        },
        InputEvent::MouseWheel => (s, Action::Zoom),
        InputEvent::KeyDown(Key::Other) | InputEvent::Other => (s, Action::Nothing),
    }
}

/// Updates the switches for an event and says what the caller has to do.
pub fn handle_event(state: &mut ViewerState, event: InputEvent) -> (action: Action)
    ensures
        (*final(state), action) == spec_handle_event(*old(state), event),
        event matches InputEvent::MouseMotion { right_button_held, xrel, yrel } ==> (right_button_held ==> (
        *final(state) == *old(state) && action == (Action::Look {
            x_offset: (-xrel) as i64,
            y_offset: (-yrel) as i64,
        }) && -xrel == (-xrel) as i64 && -yrel == (-yrel) as i64)),
{
    proof {
        lemma_event_effects(*old(state));
    }
    match event {
        InputEvent::Quit | InputEvent::KeyDown(Key::Escape) => {
            state.should_quit = true;
            Action::Nothing
        },
        InputEvent::KeyDown(Key::F11) => Action::ToggleFullscreen,
        InputEvent::KeyDown(Key::R) => {
            if state.recording {
                state.recording = false;
                Action::StopRecording
            } else {
                state.recording = true;
                Action::StartRecording
            }
        },
        InputEvent::KeyDown(Key::Left) => Action::SlowRotation,
        InputEvent::KeyDown(Key::Right) => Action::SpeedUpRotation,
        InputEvent::KeyDown(Key::Space) => {
            state.auto_rotate = !state.auto_rotate;
            Action::Nothing
        },
        InputEvent::KeyDown(Key::Backspace) => Action::ResetCamera,
        InputEvent::KeyDown(Key::O) => {
            state.show_overlay = !state.show_overlay;
            Action::Nothing
        },
        InputEvent::MouseMotion { right_button_held, xrel, yrel } => {
            if right_button_held {
                Action::Look { x_offset: -(xrel as i64), y_offset: -(yrel as i64) }
            } else {
                Action::Nothing
            }
        },
        InputEvent::MouseWheel => Action::Zoom,
        InputEvent::KeyDown(Key::Other) | InputEvent::Other => Action::Nothing,
    }
}

/// The window's full-screen mode.
#[derive(Debug, Clone, Copy, PartialEq, Eq, Structural)]
pub enum FullscreenMode {
    Off,
    True,
    Desktop,
}

/// The mode F11 switches to: a windowed viewer goes full screen on the desktop,
/// a full-screen one goes back to a window.
pub fn toggled_fullscreen(current: FullscreenMode) -> (next: FullscreenMode)
    ensures
        current == FullscreenMode::Off ==> next == FullscreenMode::Desktop,
        current != FullscreenMode::Off ==> next == FullscreenMode::Off,
{
    match current {
        FullscreenMode::Off => FullscreenMode::Desktop,
        _ => FullscreenMode::Off,
    }
}

/// Pressing R twice starts a recording and stops it again (or the other way
/// round), and pressing Space or O twice gives back the switches it started from;
/// once the viewer is to quit, no event takes that back.
pub proof fn lemma_toggles_undo(s: ViewerState)
    ensures
        spec_handle_event(spec_handle_event(s, InputEvent::KeyDown(Key::R)).0, InputEvent::KeyDown(Key::R)).0 == s,
        !s.recording ==> spec_handle_event(s, InputEvent::KeyDown(Key::R)).1 == Action::StartRecording
            && spec_handle_event(spec_handle_event(s, InputEvent::KeyDown(Key::R)).0, InputEvent::KeyDown(Key::R)).1
            == Action::StopRecording,
        spec_handle_event(spec_handle_event(s, InputEvent::KeyDown(Key::Space)).0, InputEvent::KeyDown(Key::Space)).0
            == s,
        spec_handle_event(spec_handle_event(s, InputEvent::KeyDown(Key::O)).0, InputEvent::KeyDown(Key::O)).0 == s,
        forall|e: InputEvent| s.should_quit ==> #[trigger] spec_handle_event(s, e).0.should_quit,
{
}


/// What every event does, whatever the switches: closing the window or Escape
/// sets the wish to quit and nothing else; R flips recording and starts or stops
/// it accordingly; Space flips the rotation, O the overlay; F11, the arrows,
/// Backspace and the wheel ask for their action and leave the switches alone;
/// a drag with the right button held turns the camera by the opposite of the
/// mouse motion, whether or not the panorama rotates, is recorded or overlaid;
/// a motion without it, and any other event, does nothing.
pub proof fn lemma_event_effects(s: ViewerState)
    ensures
        spec_handle_event(s, InputEvent::Quit) == (ViewerState {
            should_quit: true,
            auto_rotate: s.auto_rotate,
            recording: s.recording,
            show_overlay: s.show_overlay,
        }, Action::Nothing),
        spec_handle_event(s, InputEvent::KeyDown(Key::Escape)) == (ViewerState {
            should_quit: true,
            auto_rotate: s.auto_rotate,
            recording: s.recording,
            show_overlay: s.show_overlay,
        }, Action::Nothing),
        spec_handle_event(s, InputEvent::KeyDown(Key::R)) == (ViewerState {
            should_quit: s.should_quit,
            auto_rotate: s.auto_rotate,
            recording: !s.recording,
            show_overlay: s.show_overlay,
        }, if s.recording {
            Action::StopRecording
        } else {
            Action::StartRecording
        }),
        spec_handle_event(s, InputEvent::KeyDown(Key::Space)) == (ViewerState {
            should_quit: s.should_quit,
            auto_rotate: !s.auto_rotate,
            recording: s.recording,
            show_overlay: s.show_overlay,
        }, Action::Nothing),
        spec_handle_event(s, InputEvent::KeyDown(Key::O)) == (ViewerState {
            should_quit: s.should_quit,
            auto_rotate: s.auto_rotate,
            recording: s.recording,
            show_overlay: !s.show_overlay,
        }, Action::Nothing),
        spec_handle_event(s, InputEvent::KeyDown(Key::F11)) == (s, Action::ToggleFullscreen),
        spec_handle_event(s, InputEvent::KeyDown(Key::Left)) == (s, Action::SlowRotation),
        spec_handle_event(s, InputEvent::KeyDown(Key::Right)) == (s, Action::SpeedUpRotation),
        spec_handle_event(s, InputEvent::KeyDown(Key::Backspace)) == (s, Action::ResetCamera),
        spec_handle_event(s, InputEvent::MouseWheel) == (s, Action::Zoom),
        spec_handle_event(s, InputEvent::KeyDown(Key::Other)) == (s, Action::Nothing),
        spec_handle_event(s, InputEvent::Other) == (s, Action::Nothing),
        forall|xrel: i32, yrel: i32|
            #[trigger] spec_handle_event(s, InputEvent::MouseMotion { right_button_held: true, xrel, yrel }) == (
                s,
                Action::Look { x_offset: (-xrel) as i64, y_offset: (-yrel) as i64 },
            ) && -xrel == (-xrel) as i64 && -yrel == (-yrel) as i64,
        forall|xrel: i32, yrel: i32|
            #[trigger] spec_handle_event(s, InputEvent::MouseMotion { right_button_held: false, xrel, yrel }) == (
                s,
                Action::Nothing,
            ),
{
}

} // verus!
