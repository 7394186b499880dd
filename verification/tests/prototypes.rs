//! The prototype glue types: voxel placement, world layout, the pan-orbit
//! camera's zoom rule, and the small configuration types.

use unistone::camera::{Camera, PanOrbitCamera, MAX_ZOOM, MIN_ZOOM};
use unistone::fixed::ONE;
use unistone::logger::{LogLevel, Logger};
use unistone::state::GameState;
use unistone::window::{PresentMode, WindowMode, WindowPlugin};
use unistone::world::{Kind, Voxel, World, VOXEL_SIZE};

#[test]
fn voxel_positions_scale_with_the_grid_index() {
    assert_eq!(Voxel::calc_position(3, 0), 3 * VOXEL_SIZE);
    assert_eq!(Voxel::calc_position(-2, 0), -2 * VOXEL_SIZE);
    assert_eq!(Voxel::calc_position(0, 4242), 4242, "index zero takes the default");
}

#[test]
fn voxel_basics_are_pinned() {
    assert_eq!(Voxel::basic_position(), (0, 32768, 0));
    let c = Voxel::basic_color();
    assert_eq!((c.r, c.g, c.b), (52429, 45875, 39322));
}

#[test]
fn random_colors_stay_in_their_band() {
    for e in [0u64, 1, 58981, 58982, u64::MAX] {
        let c = Voxel::random_color(e, e.wrapping_add(7), e.wrapping_mul(31));
        for v in [c.r, c.g, c.b] {
            assert!(6554 <= v && v < ONE, "component {v} out of [0.1, 1.0)");
        }
    }
}

#[test]
fn world_layout_has_one_cube_per_column_row_and_cell() {
    let w = World { size: 3, kind: Kind::Basic };
    let out = w.gen();
    assert_eq!(out.len(), 3 + 9 + 27);
    // First column: baseline cube at the origin.
    assert_eq!(out[0], (0, 0, 0));
    // Its first row hangs one voxel down by default.
    assert_eq!(out[1], (0, -VOXEL_SIZE, 0));
    // The row's first cell sits one voxel forward by default.
    assert_eq!(out[2], (0, -VOXEL_SIZE, VOXEL_SIZE));
    // The second column's baseline cube.
    let col1 = 1 + (1 + 3) * 3; // baseline + three rows of (row cube + 3 cells)
    assert_eq!(out[col1], (VOXEL_SIZE, 0, 0));
}

#[test]
fn empty_world_is_empty() {
    let w = World { size: 0, kind: Kind::Flat };
    assert_eq!(w.gen().len(), 0);
}

#[test]
fn camera_defaults_and_spawn_radius() {
    let d = PanOrbitCamera::default();
    assert_eq!(d.radius, 5 * ONE);
    assert_eq!(d.focus, (0, 0, 0));
    assert!(!d.upside_down);
    let s = Camera::spawn();
    // |(-2, 2.5, 5)| in fixed point.
    assert_eq!(s.radius, 389098);
    assert_eq!(s.focus, (0, 0, 0));
}

#[test]
fn zoom_applies_only_inside_the_window() {
    let mut c = PanOrbitCamera::default();
    let applied = Camera::zoom(&mut c, ONE);
    assert!(applied);
    assert_eq!(c.radius, 262145); // a fifth off the radius of 5
    assert!(MAX_ZOOM < c.radius && c.radius < MIN_ZOOM);

    // Scrolling out of the window leaves the radius alone.
    let mut far = PanOrbitCamera { radius: 14 * ONE, ..PanOrbitCamera::default() };
    let applied = Camera::zoom(&mut far, -ONE);
    assert!(!applied);
    assert_eq!(far.radius, 14 * ONE);

    // No scroll, no change.
    let mut idle = PanOrbitCamera::default();
    assert!(!Camera::zoom(&mut idle, 0));
    assert_eq!(idle.radius, 5 * ONE);
}

#[test]
fn game_starts_on_the_main_menu() {
    assert_eq!(GameState::default(), GameState::MainMenu);
}

#[test]
fn log_and_window_configuration_are_pinned() {
    assert_eq!(Logger::level(), LogLevel::Info);
    assert_eq!(Logger::filter(), "wgpu=error,bevy_render=info,libracity=trace");
    assert!(Logger::diagnostics());
    assert_eq!(WindowPlugin::title(), "Unistone");
    assert_eq!(WindowPlugin::present_mode(), PresentMode::Mailbox);
    assert_eq!(WindowPlugin::mode(), WindowMode::SizedFullscreen);
}
