use cosmic_wallpaper::wayland::{OutputSize, WindowTable, DEFAULT_HEIGHT, DEFAULT_WIDTH, OCCLUSION_MS};

fn table() -> WindowTable<&'static str> {
    let mut t = WindowTable::new(false);
    t.new_output(1, 10, "left", 0);
    t.new_output(2, 20, "right", 0);
    t
}

#[test]
fn new_monitors_start_unconfigured_at_the_default_size() {
    let t = table();
    assert_eq!(t.windows.len(), 2);
    assert_eq!(t.configuration_serial, 2);
    let w = t.windows[0].state;
    assert_eq!((w.width, w.height, w.scale_factor), (DEFAULT_WIDTH, DEFAULT_HEIGHT, 1));
    assert!(!w.first_configure);
    // Unconfigured surfaces are not drawn to.
    assert!(t.is_frame_pending(0));
    assert!(!t.any_monitor_ready());
}

#[test]
fn configured_surface_gets_its_size_and_opaque_region() {
    let mut t = table();
    assert_eq!(t.configure(1, 2560, 1440), Some(Some((2560, 1440))));
    assert_eq!(t.configure(2, 0, 0), Some(Some((DEFAULT_WIDTH, DEFAULT_HEIGHT))));
    assert_eq!(t.configure(99, 10, 10), None);
    assert!(t.any_monitor_ready());
    assert!(t.scale_factor_changed(1, 2));
    assert!(!t.scale_factor_changed(99, 2));
    assert_eq!(
        t.outputs(),
        vec![OutputSize { width: 5120, height: 2880 }, OutputSize { width: DEFAULT_WIDTH, height: DEFAULT_HEIGHT }]
    );
    assert_eq!(t.update_opaque_regions(true), vec![None, None]);
    assert_eq!(t.update_opaque_regions(false), vec![Some((2560, 1440)), Some((DEFAULT_WIDTH, DEFAULT_HEIGHT))]);
}

#[test]
fn drawn_surface_waits_for_its_frame_callback() {
    let mut t = table();
    t.configure(1, 100, 100);
    assert!(!t.is_frame_pending(0));
    assert!(t.mark_frame_rendered(0, 1_000));
    assert!(t.is_frame_pending(0));
    assert!(!t.mark_frame_rendered(5, 1_000));
    assert!(t.frame_done(1));
    assert!(!t.is_frame_pending(0));
    assert!(!t.frame_done(42));
}

#[test]
fn wallpaper_is_occluded_when_every_callback_is_late() {
    let mut t = table();
    assert!(!t.is_occluded(0));
    t.configure(1, 100, 100);
    t.configure(2, 100, 100);
    t.mark_frame_rendered(0, 1_000);
    t.mark_frame_rendered(1, 1_000);
    assert!(!t.is_occluded(1_000 + OCCLUSION_MS));
    assert!(t.is_occluded(1_000 + OCCLUSION_MS + 1));
    t.frame_done(2);
    assert!(!t.is_occluded(5_000));
    // No surfaces at all: not occluded, and drawing is allowed.
    let empty: WindowTable<u8> = WindowTable::new(true);
    assert!(!empty.is_occluded(5_000));
    assert!(empty.any_monitor_ready());
}

#[test]
fn removed_monitors_are_retired_then_cleaned_up() {
    let mut t = table();
    t.output_destroyed(10);
    assert_eq!(t.windows.len(), 1);
    assert_eq!(t.windows[0].handles, "right");
    assert_eq!(t.dead_windows.len(), 1);
    assert_eq!(t.configuration_serial, 3);
    t.closed(2);
    assert_eq!(t.windows.len(), 0);
    assert_eq!(t.dead_windows.len(), 2);
    assert_eq!(t.configuration_serial, 4);
    t.cleanup_dead_windows();
    assert!(t.dead_windows.is_empty());
}
