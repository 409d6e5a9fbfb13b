use cosmic_wallpaper::config::{ArtShape, VisAlign, VisShape, WallpaperMode};
use cosmic_wallpaper::renderer::frame_params::{
    album_art_bg_mode, art_shape_code, art_visibility, clear_scene, custom_bg_mode,
    dock_art_active, has_audio_active, lyric_window_bounds, vis_align_code, vis_shape_code,
    visualiser_instance_count, VisualiserDocking,
};
use cosmic_wallpaper::state::SceneHint;

/// The renderer's audibility threshold on the peak waveform energy.
fn audible(energy: f32) -> bool {
    energy > 0.001
}

fn vis(shape: VisShape, dock_art: bool) -> VisualiserDocking {
    VisualiserDocking { shape, dock_art }
}

#[test]
fn has_audio_gating() {
    // Energy + a track: on.
    assert!(has_audio_active(audible(0.5), WallpaperMode::Auto, true));
    // Energy but no track to attribute it to: off.
    assert!(!has_audio_active(audible(0.5), WallpaperMode::Auto, false));
    // Below the visibility threshold: off.
    assert!(!has_audio_active(audible(0.0005), WallpaperMode::Auto, true));
    // Forced visualiser needs neither energy nor a track.
    assert!(has_audio_active(audible(0.0), WallpaperMode::AudioVisualiser, false));
    // Forced weather/art modes always suppress it.
    assert!(!has_audio_active(audible(0.5), WallpaperMode::Weather, true));
    assert!(!has_audio_active(audible(0.5), WallpaperMode::AlbumArt, true));
}

#[test]
fn dock_art_requires_circular_shape_audio_and_opt_in() {
    assert!(dock_art_active(true, &vis(VisShape::Circular, true)));
    // Theme opted out: the art keeps its own layout.
    assert!(!dock_art_active(true, &vis(VisShape::Circular, false)));
    // Docking is a circular-ring concept only.
    assert!(!dock_art_active(true, &vis(VisShape::Linear, true)));
    // Music paused: the art returns to its own layout.
    assert!(!dock_art_active(false, &vis(VisShape::Circular, true)));
}

#[test]
fn lyric_window_bounds_clamp_to_the_track() {
    // No lyrics: the canonical empty range.
    assert_eq!(lyric_window_bounds(0, None), (1, 0));
    // Start of the track: window can't reach line 0 (indices are 1-based).
    assert_eq!(lyric_window_bounds(0, Some(10)), (1, 2));
    // Mid-track: symmetric ±2 window.
    assert_eq!(lyric_window_bounds(5, Some(10)), (3, 7));
    // End of the track: clamped to the last line.
    assert_eq!(lyric_window_bounds(10, Some(10)), (8, 10));
    // Empty lyric list still yields an empty range, not a panic.
    assert_eq!(lyric_window_bounds(0, Some(0)), (1, 0));
}

#[test]
fn lyric_window_starts_at_line_one_up_to_line_three() {
    assert_eq!(lyric_window_bounds(3, Some(10)), (1, 5));
    assert_eq!(lyric_window_bounds(4, Some(10)), (2, 6));
    // Past the end (stale index): clamped, never beyond the track.
    assert_eq!(lyric_window_bounds(20, Some(10)), (18, 10));
}

#[test]
fn art_layers_follow_loaded_art_or_forced_mode() {
    let v = art_visibility(true, WallpaperMode::Auto, true, false, true);
    assert!(v.show_art_fg && !v.show_art_bg && v.show_color_bg);
    let none = art_visibility(false, WallpaperMode::Auto, true, true, true);
    assert!(!none.show_art_fg && !none.show_art_bg && !none.show_color_bg);
    let forced = art_visibility(false, WallpaperMode::AlbumArt, true, true, false);
    assert!(forced.show_art_fg && forced.show_art_bg && !forced.show_color_bg);
}

#[test]
fn clear_scene_is_transparent_or_follows_the_mode() {
    assert_eq!(clear_scene(true, WallpaperMode::AlbumArt, SceneHint::AlbumArt), None);
    assert_eq!(clear_scene(false, WallpaperMode::Weather, SceneHint::AlbumArt), Some(SceneHint::Ambient));
    assert_eq!(clear_scene(false, WallpaperMode::AlbumArt, SceneHint::Ambient), Some(SceneHint::AlbumArt));
    assert_eq!(
        clear_scene(false, WallpaperMode::AudioVisualiser, SceneHint::Ambient),
        Some(SceneHint::AudioVisualiser)
    );
    assert_eq!(clear_scene(false, WallpaperMode::Auto, SceneHint::AlbumArt), Some(SceneHint::AlbumArt));
}

#[test]
fn shader_codes_match_the_shaders() {
    assert_eq!(vis_shape_code(VisShape::Circular), 0);
    assert_eq!(vis_shape_code(VisShape::Linear), 1);
    assert_eq!(vis_shape_code(VisShape::Square), 2);
    assert_eq!(vis_align_code(VisAlign::Left), 0);
    assert_eq!(vis_align_code(VisAlign::Center), 1);
    assert_eq!(vis_align_code(VisAlign::Right), 2);
    assert_eq!(album_art_bg_mode(true, true), 3);
    assert_eq!(album_art_bg_mode(false, true), 2);
    assert_eq!(album_art_bg_mode(false, false), 0);
    assert_eq!(custom_bg_mode(true), 2);
    assert_eq!(custom_bg_mode(false), 0);
    assert_eq!(art_shape_code(ArtShape::Square, false), 0);
    assert_eq!(art_shape_code(ArtShape::Circular, false), 1);
    assert_eq!(art_shape_code(ArtShape::Square, true), 1);
}

#[test]
fn visualiser_instances_per_layout() {
    assert_eq!(visualiser_instance_count(true, VisShape::Circular, 64), 1);
    assert_eq!(visualiser_instance_count(false, VisShape::Linear, 64), 64);
    assert_eq!(visualiser_instance_count(false, VisShape::Circular, 64), 128);
    assert_eq!(visualiser_instance_count(false, VisShape::Square, 0), 0);
}
