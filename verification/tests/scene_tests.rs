use cosmic_wallpaper::renderer::scene::{
    assets_match_current, current_lyric_index, lyric_shift, ArtHold, LyricShift, RedrawGate,
    ART_GRACE_MS, STATIC_SCENE_HEARTBEAT_MS,
};
use cosmic_wallpaper::renderer::text::TrackLabel;
use cosmic_wallpaper::renderer::waveform::build_waveform_bin_ranges;

#[test]
fn first_frame_and_motion_are_drawn() {
    let mut gate = RedrawGate::new(0);
    // Nothing ready: nothing drawn, and nothing recorded as presented.
    assert!(!gate.frame(10, false, false, false));
    assert!(!gate.has_presented);
    // The first frame is drawn even in a still scene.
    assert!(gate.frame(20, false, false, true));
    assert_eq!(gate.last_present_ms, 20);
    assert!(gate.frame(30, false, true, true));
}

#[test]
fn still_scene_pauses_after_its_settle_frame() {
    let mut gate = RedrawGate::new(0);
    assert!(gate.frame(0, false, true, true));
    // Motion stops: one settle frame.
    assert!(gate.frame(16, false, false, true));
    // Then nothing until the heartbeat or a change.
    assert!(!gate.frame(32, false, false, true));
    assert!(!gate.frame(16 + STATIC_SCENE_HEARTBEAT_MS - 1, false, false, true));
    assert!(gate.frame(16 + STATIC_SCENE_HEARTBEAT_MS, false, false, true));
    assert!(gate.frame(16 + STATIC_SCENE_HEARTBEAT_MS + 1, true, false, true));
}

#[test]
fn lyric_index_counts_started_lines() {
    let starts = [1000u64, 5000, 9000];
    assert_eq!(current_lyric_index(&starts, 0, 0), 0);
    assert_eq!(current_lyric_index(&starts, 1000, 0), 1);
    assert_eq!(current_lyric_index(&starts, 4999, 1), 1);
    assert_eq!(current_lyric_index(&starts, 9500, 1), 3);
    // Seeking backwards is found again.
    assert_eq!(current_lyric_index(&starts, 500, 3), 0);
    // A stale index past the end is searched for.
    assert_eq!(current_lyric_index(&starts, 6000, 7), 2);
    assert_eq!(current_lyric_index(&[], 6000, 0), 0);
}

#[test]
fn lyric_moves_scroll_near_and_jump_far() {
    assert_eq!(lyric_shift(3, 3), None);
    assert_eq!(lyric_shift(3, 4), Some(LyricShift::Scroll(-1)));
    assert_eq!(lyric_shift(3, 5), Some(LyricShift::Scroll(-2)));
    assert_eq!(lyric_shift(5, 3), Some(LyricShift::Scroll(2)));
    assert_eq!(lyric_shift(0, 3), Some(LyricShift::Jump));
    assert_eq!(lyric_shift(9, 2), Some(LyricShift::Jump));
}

#[test]
fn old_art_is_held_while_the_new_art_loads() {
    let mut hold = ArtHold::new();
    hold.track_changed(true, 0);
    assert!(hold.has_album_art && hold.pending_deadline_ms.is_none());
    hold.track_changed(false, 1_000);
    assert!(hold.has_album_art);
    assert_eq!(hold.pending_deadline_ms, Some(1_000 + ART_GRACE_MS));
    assert!(!hold.deadline_passed(1_000 + ART_GRACE_MS - 1));
    assert!(hold.deadline_passed(1_000 + ART_GRACE_MS));
    hold.assets_loaded(true, 2_000);
    assert!(hold.has_album_art && hold.pending_deadline_ms.is_none());
}

#[test]
fn fetch_without_art_starts_the_fade_now() {
    let mut hold = ArtHold::new();
    hold.track_changed(true, 0);
    hold.track_changed(false, 1_000);
    hold.assets_loaded(false, 3_000);
    assert_eq!(hold.pending_deadline_ms, Some(3_000));
    assert!(hold.deadline_passed(3_000));
    hold.fade_finished();
    assert!(!hold.has_album_art && hold.pending_deadline_ms.is_none());
    // No wait running: an art-less fetch changes nothing.
    hold.assets_loaded(false, 4_000);
    assert!(hold.pending_deadline_ms.is_none());
    hold.track_changed(true, 5_000);
    hold.player_shut_down();
    assert!(!hold.has_album_art);
}

fn label(title: &str) -> TrackLabel {
    TrackLabel { title: title.to_string(), artist: "A".to_string(), album: "B".to_string() }
}

#[test]
fn late_assets_apply_only_to_the_current_track() {
    assert!(assets_match_current(&Some(label("One")), &label("One")));
    assert!(!assets_match_current(&Some(label("Two")), &label("One")));
    assert!(!assets_match_current(&None, &label("One")));
}

#[test]
fn waveform_bands_split_the_window() {
    assert_eq!(build_waveform_bin_ranges(4), vec![(0, 512), (512, 1024), (1024, 1536), (1536, 2048)]);
    assert_eq!(build_waveform_bin_ranges(3), vec![(0, 682), (682, 1365), (1365, 2048)]);
    assert!(build_waveform_bin_ranges(0).is_empty());
    let many = build_waveform_bin_ranges(4096);
    assert_eq!(many.len(), 4096);
    assert_eq!(many[0], (0, 0));
    assert_eq!(many[1], (0, 1));
    assert_eq!(many[4095], (2047, 2048));
}

fn single_precision_ranges(band_count: usize) -> Vec<(usize, usize)> {
    let chunk = 2048.0 / band_count as f32;
    (0..band_count)
        .map(|i| {
            let start = (i as f32 * chunk) as usize;
            let end = ((i + 1) as f32 * chunk) as usize;
            (start, end.min(2048))
        })
        .collect()
}

#[test]
fn waveform_bands_follow_single_precision_rounding() {
    // 41 bands: the last edge rounds to just under the window's end.
    let forty_one = build_waveform_bin_ranges(41);
    assert_eq!(forty_one[40], (1998, 2047));
    for band_count in 0..=5000usize {
        assert_eq!(build_waveform_bin_ranges(band_count), single_precision_ranges(band_count), "{band_count} bands");
    }
    for band_count in [8191usize, 10_007, 65_535, 65_537, 99_991, 131_071, 262_147] {
        assert_eq!(build_waveform_bin_ranges(band_count), single_precision_ranges(band_count), "{band_count} bands");
    }
}
