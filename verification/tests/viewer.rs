use panorama::input::{
    handle_event, initial_state, toggled_fullscreen, Action, FullscreenMode, InputEvent, Key, ViewerState,
};
use panorama::movement::{CameraAxis, MoveDirection};
use panorama::recording::{decimal_text, ffmpeg_args, frame_buffer_len, frame_geometry, frame_sleep_nanos};
use panorama::ExpectErr;

#[test]
fn frame_sides_are_truncated_to_even() {
    let g = frame_geometry(1025, 768);
    assert_eq!((g.width, g.height), (1024, 768));
    let g = frame_geometry(1, 3);
    assert_eq!((g.width, g.height), (0, 2));
    assert_eq!(frame_buffer_len(frame_geometry(1024, 768)), 1024 * 768 * 3);
}

#[test]
fn decimal_text_matches_to_string() {
    for n in [0u32, 7, 10, 30, 99, 1234567890, u32::MAX] {
        assert_eq!(decimal_text(n), n.to_string());
    }
}

#[test]
fn ffmpeg_is_started_with_raw_rgb_input() {
    let args = ffmpeg_args(frame_geometry(1024, 768), 30, "output.mp4");
    let expected = [
        "-y", "-f", "rawvideo", "-pix_fmt", "rgb24", "-s", "1024x768", "-r", "30", "-i", "-", "-c:v",
        "libx264", "-preset", "slow", "-crf", "20", "-pix_fmt", "yuv420p", "-vf", "vflip", "-r", "30",
        "output.mp4",
    ];
    assert_eq!(args, expected);
}

#[test]
fn frame_pacing() {
    assert_eq!(frame_sleep_nanos(30), 33_333_333);
    assert_eq!(frame_sleep_nanos(1), 1_000_000_000);
}

#[test]
fn escape_and_close_quit() {
    for event in [InputEvent::Quit, InputEvent::KeyDown(Key::Escape)] {
        let mut s = initial_state();
        assert_eq!(handle_event(&mut s, event), Action::Nothing);
        assert!(s.should_quit);
        assert!(s.auto_rotate);
    }
}

#[test]
fn r_starts_then_stops_recording() {
    let mut s = initial_state();
    assert_eq!(handle_event(&mut s, InputEvent::KeyDown(Key::R)), Action::StartRecording);
    assert!(s.recording);
    assert_eq!(handle_event(&mut s, InputEvent::KeyDown(Key::R)), Action::StopRecording);
    assert_eq!(s, initial_state());
}

#[test]
fn space_and_o_twice_change_nothing() {
    for key in [Key::Space, Key::O] {
        let mut s = initial_state();
        handle_event(&mut s, InputEvent::KeyDown(key));
        assert_ne!(s, initial_state());
        handle_event(&mut s, InputEvent::KeyDown(key));
        assert_eq!(s, initial_state());
    }
    let mut s = initial_state();
    handle_event(&mut s, InputEvent::Quit);
    for event in [InputEvent::KeyDown(Key::R), InputEvent::KeyDown(Key::Space), InputEvent::MouseWheel] {
        handle_event(&mut s, event);
        assert!(s.should_quit);
    }
}

#[test]
fn keys_map_to_actions() {
    let mut s = initial_state();
    assert_eq!(handle_event(&mut s, InputEvent::KeyDown(Key::F11)), Action::ToggleFullscreen);
    assert_eq!(handle_event(&mut s, InputEvent::KeyDown(Key::Left)), Action::SlowRotation);
    assert_eq!(handle_event(&mut s, InputEvent::KeyDown(Key::Right)), Action::SpeedUpRotation);
    assert_eq!(handle_event(&mut s, InputEvent::KeyDown(Key::Backspace)), Action::ResetCamera);
    assert_eq!(handle_event(&mut s, InputEvent::MouseWheel), Action::Zoom);
    assert_eq!(handle_event(&mut s, InputEvent::KeyDown(Key::Other)), Action::Nothing);
    assert_eq!(handle_event(&mut s, InputEvent::Other), Action::Nothing);
    assert_eq!(s, initial_state());
    handle_event(&mut s, InputEvent::KeyDown(Key::Space));
    assert!(!s.auto_rotate);
    handle_event(&mut s, InputEvent::KeyDown(Key::O));
    assert!(s.show_overlay);
    assert_eq!(
        s,
        ViewerState { should_quit: false, auto_rotate: false, recording: false, show_overlay: true }
    );
}

#[test]
fn right_drag_looks_against_the_motion() {
    let mut s = initial_state();
    let drag = InputEvent::MouseMotion { right_button_held: true, xrel: 5, yrel: -3 };
    assert_eq!(handle_event(&mut s, drag), Action::Look { x_offset: -5, y_offset: 3 });
    let hover = InputEvent::MouseMotion { right_button_held: false, xrel: 5, yrel: -3 };
    assert_eq!(handle_event(&mut s, hover), Action::Nothing);
    let extreme = InputEvent::MouseMotion { right_button_held: true, xrel: i32::MIN, yrel: 0 };
    assert_eq!(
        handle_event(&mut s, extreme),
        Action::Look { x_offset: 2147483648, y_offset: 0 }
    );
}

#[test]
fn f11_toggles_between_window_and_desktop() {
    assert_eq!(toggled_fullscreen(FullscreenMode::Off), FullscreenMode::Desktop);
    assert_eq!(toggled_fullscreen(FullscreenMode::Desktop), FullscreenMode::Off);
    assert_eq!(toggled_fullscreen(FullscreenMode::True), FullscreenMode::Off);
}

#[test]
fn moves_follow_the_camera_basis() {
    assert_eq!(MoveDirection::Forward.axis(), (CameraAxis::Forward, 1));
    assert_eq!(MoveDirection::Backward.axis(), (CameraAxis::Forward, -1));
    assert_eq!(MoveDirection::Left.axis(), (CameraAxis::Right, -1));
    assert_eq!(MoveDirection::Right.axis(), (CameraAxis::Right, 1));
    assert_eq!(MoveDirection::Up.axis(), (CameraAxis::Up, 1));
    assert_eq!(MoveDirection::Down.axis(), (CameraAxis::Up, -1));
}

#[test]
fn expect_else_err_gives_the_success() {
    let r: Result<u32, String> = Ok(5);
    assert_eq!(r.expect_else_err(), 5);
}
