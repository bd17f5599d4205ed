use city_builder::camera::{camera_command, CameraKeys};
use city_builder::cli::{launch_plan, Args};

#[test]
fn pan_keys_combine() {
    let keys = CameraKeys { pan_up: true, pan_left: true, ..CameraKeys::default() };
    let c = camera_command(keys);
    assert_eq!((c.pan_right, c.pan_away), (-1, 1));
    assert!(!c.fast);
    let keys = CameraKeys {
        pan_up: true,
        pan_down: true,
        pan_right: true,
        shift_right: true,
        rotate_clockwise: true,
        ..CameraKeys::default()
    };
    let c = camera_command(keys);
    assert_eq!((c.pan_right, c.pan_away), (1, 0));
    assert!(c.fast);
    assert!(c.turn_clockwise);
    assert!(!c.turn_counter_clockwise);
}

#[test]
fn default_args() {
    let a = Args::default();
    assert_eq!((a.width, a.height), (1920, 1080));
    assert!(!a.diagnostics && !a.pretty && !a.show_fps);
    let p = launch_plan(&a);
    assert!(!p.diagnostics_plugins && !p.post_effects && !p.fps_overlay);
    assert_eq!((p.window_width, p.window_height), (1920, 1080));
}

#[test]
fn show_fps_turns_on_diagnostics() {
    let a = Args { show_fps: true, ..Args::default() };
    let p = launch_plan(&a);
    assert!(p.diagnostics_plugins && p.fps_overlay && !p.post_effects);
    let a = Args { diagnostics: true, pretty: true, width: 800, height: 600, ..Args::default() };
    let p = launch_plan(&a);
    assert!(p.diagnostics_plugins && !p.fps_overlay && p.post_effects);
    assert_eq!((p.window_width, p.window_height), (800, 600));
}
