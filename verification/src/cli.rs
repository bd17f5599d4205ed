//! Command-line options and what they switch on at launch.

use vstd::prelude::*;

verus! {

/// The command-line options.
#[derive(Clone, Copy, Debug, PartialEq, Eq, Structural)]
pub struct Args {
    /// Per-second logging of frame time, FPS and entity count.
    pub diagnostics: bool,
    /// Window width in pixels.
    pub width: u32,
    /// Window height in pixels.
    pub height: u32,
    /// Bloom and temporal anti-aliasing.
    pub pretty: bool,
    /// On-screen FPS, frame time and entity count.
    pub show_fps: bool,
}

impl Default for Args {
    /// The defaults: a 1920 x 1080 window, every switch off.
    fn default() -> (a: Self)
        ensures
            a == (Args { diagnostics: false, width: 1920, height: 1080, pretty: false, show_fps: false }),
    {
        Args { diagnostics: false, width: 1920, height: 1080, pretty: false, show_fps: false }
    }
}

/// What the application sets up at launch.
#[derive(Clone, Copy, Debug, PartialEq, Eq, Structural)]
pub struct LaunchPlan {
    /// Add the frame-time, entity-count and logging diagnostics plugins.
    pub diagnostics_plugins: bool,
    /// Add bloom and temporal anti-aliasing to the camera.
    pub post_effects: bool,
    /// Spawn and update the on-screen FPS overlay.
    pub fps_overlay: bool,
    /// Window size in pixels.
    pub window_width: u32,
    pub window_height: u32,
}

/// The launch set-up: the diagnostics plugins are needed for the log and for
/// the overlay, post effects follow `--pretty`, the overlay follows
/// `--show-fps`, and the window takes the requested size.
pub open spec fn launch_plan_spec(args: Args) -> LaunchPlan {
    LaunchPlan {
        diagnostics_plugins: args.diagnostics || args.show_fps,
        post_effects: args.pretty,
        fps_overlay: args.show_fps,
        window_width: args.width,
        window_height: args.height,
    }
}

/// Decides the launch set-up for the options.
pub fn launch_plan(args: &Args) -> (p: LaunchPlan)
    ensures
        p == launch_plan_spec(*args),
{
    LaunchPlan {
        diagnostics_plugins: args.diagnostics || args.show_fps,
        post_effects: args.pretty,
        fps_overlay: args.show_fps,
        window_width: args.width,
        window_height: args.height,
    }
}

/// The on-screen overlay reads the diagnostics store, so whenever it is shown
/// the diagnostics plugins are added.
pub proof fn law_overlay_has_diagnostics(args: Args)
    ensures
        launch_plan_spec(args).fps_overlay ==> launch_plan_spec(args).diagnostics_plugins,
{
}

/// Each switch acts on its own: the overlay follows `--show-fps` and the post
/// effects follow `--pretty`, whatever the other options; the diagnostics
/// plugins are added exactly when `--diagnostics` or `--show-fps` is given;
/// the window has the requested size.
pub proof fn law_switches_act_alone(args: Args, other: Args)
    ensures
        launch_plan_spec(args).fps_overlay == args.show_fps,
        launch_plan_spec(args).post_effects == args.pretty,
        launch_plan_spec(args).diagnostics_plugins <==> (args.diagnostics || args.show_fps),
        launch_plan_spec(args).window_width == args.width,
        launch_plan_spec(args).window_height == args.height,
        other.show_fps == args.show_fps ==> launch_plan_spec(other).fps_overlay == launch_plan_spec(
            args,
        ).fps_overlay,
        other.pretty == args.pretty ==> launch_plan_spec(other).post_effects == launch_plan_spec(
            args,
        ).post_effects,
{
}

} // verus!
