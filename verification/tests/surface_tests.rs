use renderer_backend::surface::{choose_format_index, clamped_size, plan_surface_config};

#[test]
fn format_picks_first_srgb() {
    let flags = vec![false, true, true];
    assert_eq!(choose_format_index(&flags), 1);
}

#[test]
fn format_falls_back_to_first() {
    let flags = vec![false, false, false];
    assert_eq!(choose_format_index(&flags), 0);
}

#[test]
fn format_single_entry() {
    assert_eq!(choose_format_index(&vec![true]), 0);
    assert_eq!(choose_format_index(&vec![false]), 0);
}

#[test]
fn surface_config_fields() {
    let flags = vec![false, true];
    let c = plan_surface_config(640, 480, &flags);
    assert_eq!(c.width, 640);
    assert_eq!(c.height, 480);
    assert_eq!(c.format_index, 1);
    assert_eq!(c.present_mode_index, 0);
    assert_eq!(c.alpha_mode_index, 0);
    assert_eq!(c.desired_maximum_frame_latency, 2);
}

#[test]
fn resize_rejects_zero() {
    assert_eq!(clamped_size(0, 100, 4096), None);
    assert_eq!(clamped_size(100, 0, 4096), None);
    assert_eq!(clamped_size(0, 0, 4096), None);
}

#[test]
fn resize_clamps_to_hard_cap() {
    assert_eq!(clamped_size(5000, 9000, 10000), Some((5000, 8192)));
}

#[test]
fn resize_clamps_to_device_limit() {
    assert_eq!(clamped_size(5000, 9000, 4096), Some((4096, 4096)));
}

#[test]
fn resize_keeps_small_sizes() {
    assert_eq!(clamped_size(100, 200, 8192), Some((100, 200)));
}
