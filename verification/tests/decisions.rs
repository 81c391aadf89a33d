//! The per-tick decisions: camera movement, event-loop policy, and the
//! surface configuration.

use wgpu_experiments::camera::{axis_dir, move_dirs, HeldKeys};
use wgpu_experiments::frame::{
    after_render, should_exit, should_refresh_title, FrameAction, SurfaceStatus,
};
use wgpu_experiments::surface::{choose_format_index, SurfaceConfig};

fn no_keys() -> HeldKeys {
    HeldKeys {
        key_w: false,
        key_s: false,
        key_a: false,
        key_d: false,
        key_q: false,
        key_e: false,
    }
}

#[test]
fn axis_dir_positive_key_wins() {
    assert_eq!(axis_dir(true, false), 1);
    assert_eq!(axis_dir(true, true), 1);
    assert_eq!(axis_dir(false, true), -1);
    assert_eq!(axis_dir(false, false), 0);
}

#[test]
fn forward_key_moves_z_forward() {
    let mut keys = no_keys();
    keys.key_w = true;
    let d = move_dirs(&keys);
    assert_eq!((d.x, d.y, d.z), (0, 0, 1));
}

#[test]
fn back_key_moves_z_back() {
    let mut keys = no_keys();
    keys.key_s = true;
    let d = move_dirs(&keys);
    assert_eq!((d.x, d.y, d.z), (0, 0, -1));
}

#[test]
fn strafe_keys_drive_x() {
    let mut keys = no_keys();
    keys.key_a = true;
    assert_eq!(move_dirs(&keys).x, 1);
    keys.key_a = false;
    keys.key_d = true;
    assert_eq!(move_dirs(&keys).x, -1);
}

#[test]
fn vertical_keys_drive_y() {
    let mut keys = no_keys();
    keys.key_q = true;
    assert_eq!(move_dirs(&keys).y, 1);
    keys.key_q = false;
    keys.key_e = true;
    assert_eq!(move_dirs(&keys).y, -1);
}

#[test]
fn opposed_keys_first_wins() {
    let mut keys = no_keys();
    keys.key_w = true;
    keys.key_s = true;
    keys.key_a = true;
    keys.key_d = true;
    keys.key_q = true;
    keys.key_e = true;
    let d = move_dirs(&keys);
    assert_eq!((d.x, d.y, d.z), (1, 1, 1));
}

#[test]
fn no_keys_no_motion() {
    let d = move_dirs(&no_keys());
    assert_eq!((d.x, d.y, d.z), (0, 0, 0));
}

#[test]
fn render_outcomes_map_to_actions() {
    assert_eq!(after_render(&SurfaceStatus::Acquired), FrameAction::Proceed);
    assert_eq!(after_render(&SurfaceStatus::Timeout), FrameAction::Skip);
    assert_eq!(after_render(&SurfaceStatus::Outdated), FrameAction::Skip);
    assert_eq!(after_render(&SurfaceStatus::Lost), FrameAction::Reconfigure);
    assert_eq!(after_render(&SurfaceStatus::OutOfMemory), FrameAction::Exit);
}

#[test]
fn exit_on_any_close_signal() {
    assert!(should_exit(true, false, false));
    assert!(should_exit(false, true, false));
    assert!(should_exit(false, false, true));
    assert!(!should_exit(false, false, false));
}

#[test]
fn title_refresh_needs_more_than_hundred_ms() {
    assert!(!should_refresh_title(0));
    assert!(!should_refresh_title(100));
    assert!(should_refresh_title(101));
}

#[test]
fn resize_to_zero_by_zero_is_ignored() {
    let mut cfg = SurfaceConfig::new(800, 600);
    assert!(!cfg.resize(0, 0));
    assert_eq!(cfg.size(), (800, 600));
}

#[test]
fn resize_with_one_zero_side_is_applied() {
    let mut cfg = SurfaceConfig::new(800, 600);
    assert!(cfg.resize(0, 5));
    assert_eq!(cfg.size(), (0, 5));
}

#[test]
fn resize_takes_the_new_size() {
    let mut cfg = SurfaceConfig::new(800, 600);
    assert!(cfg.resize(1024, 768));
    assert_eq!(cfg.size(), (1024, 768));
}

#[test]
fn first_srgb_format_wins() {
    assert_eq!(choose_format_index(&vec![false, true, false, true]), 1);
    assert_eq!(choose_format_index(&vec![true, false]), 0);
}

#[test]
fn without_srgb_the_first_format_stays() {
    assert_eq!(choose_format_index(&vec![false, false, false]), 0);
    assert_eq!(choose_format_index(&vec![false]), 0);
}
