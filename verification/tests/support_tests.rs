use cosmic_wallpaper::canvas_cache::{cached_canvas, new_canvas_cache, remember_canvas};
use cosmic_wallpaper::frame_copy::copy_rows;
use cosmic_wallpaper::mpris::MetadataUpdate;
use cosmic_wallpaper::renderer::upload::{pad_rows_for_upload, padded_bytes_per_row};
use cosmic_wallpaper::utils::{first_existing, pick_binary, resolve_binary};

#[test]
fn rows_are_padded_to_256_bytes() {
    assert_eq!(padded_bytes_per_row(64), 256);
    assert_eq!(padded_bytes_per_row(65), 512);
    assert_eq!(padded_bytes_per_row(1), 256);
    assert_eq!(padded_bytes_per_row(0), 0);
}

#[test]
fn aligned_images_upload_as_they_are() {
    let mut pad = vec![9u8; 3];
    let data = vec![1u8; 64 * 4 * 2];
    assert_eq!(pad_rows_for_upload(&mut pad, &data, 64, 2), None);
    assert_eq!(pad, vec![9u8; 3]);
}

#[test]
fn unaligned_rows_are_copied_to_aligned_offsets() {
    let mut pad = Vec::new();
    // Two rows of one pixel.
    let data = vec![1u8, 2, 3, 4, 5, 6, 7, 8];
    assert_eq!(pad_rows_for_upload(&mut pad, &data, 1, 2), Some((256, 512)));
    assert_eq!(pad.len(), 512);
    assert_eq!(&pad[0..4], &[1, 2, 3, 4]);
    assert_eq!(&pad[256..260], &[5, 6, 7, 8]);
    assert!(pad[4..256].iter().all(|b| *b == 0));
    // The scratch buffer is reused, never shrunk.
    let mut big = vec![0u8; 1024];
    assert_eq!(pad_rows_for_upload(&mut big, &data, 1, 2), Some((256, 512)));
    assert_eq!(big.len(), 1024);
}

#[test]
fn strided_rows_copy_only_row_bytes() {
    let mut dst = vec![0u8; 6];
    let src = vec![1u8, 2, 9, 3, 4, 9];
    copy_rows(&mut dst, 3, &src, 3, 2, 2);
    assert_eq!(dst, vec![1, 2, 0, 3, 4, 0]);
}

fn spotify(id: &str) -> MetadataUpdate {
    MetadataUpdate::from_parts(Some("S".into()), None, None, None, Some(format!("spotify:track:{id}")))
}

#[test]
fn canvas_lookups_are_cached_per_track() {
    let mut cache = new_canvas_cache();
    // Unknown track: nothing to play yet, a fetch is needed.
    assert_eq!(cached_canvas(&mut cache, &spotify("a")), (None, true));
    remember_canvas(&mut cache, &spotify("a"), Some(Some("https://v/a.mp4".to_string())));
    assert_eq!(cached_canvas(&mut cache, &spotify("a")), (Some("https://v/a.mp4".to_string()), false));
    // A recorded miss is cached too.
    remember_canvas(&mut cache, &spotify("b"), Some(None));
    assert_eq!(cached_canvas(&mut cache, &spotify("b")), (None, false));
    // An id already cached keeps its entry.
    remember_canvas(&mut cache, &spotify("a"), Some(None));
    assert_eq!(cached_canvas(&mut cache, &spotify("a")), (Some("https://v/a.mp4".to_string()), false));
    // Tracks without a Spotify id have no canvas.
    let plain = MetadataUpdate::from_parts(Some("S".into()), None, None, None, None);
    assert_eq!(cached_canvas(&mut cache, &plain), (None, false));
}

#[test]
fn canvas_cache_keeps_fifty_tracks() {
    let mut cache = new_canvas_cache();
    for i in 0..51 {
        remember_canvas(&mut cache, &spotify(&format!("t{i}")), Some(None));
    }
    // The oldest entry was evicted.
    assert_eq!(cached_canvas(&mut cache, &spotify("t0")), (None, true));
    assert_eq!(cached_canvas(&mut cache, &spotify("t50")), (None, false));
}

#[test]
fn helper_binaries_come_from_trusted_directories() {
    match resolve_binary("sh") {
        Some(p) => assert!(p == "/usr/bin/sh" || p == "/bin/sh" || p == "/usr/local/bin/sh" || p == "/opt/homebrew/bin/sh"),
        None => {}
    }
    assert_eq!(resolve_binary("no-such-binary-anywhere-42"), None);
}

#[test]
fn the_first_trusted_directory_holding_the_binary_wins() {
    assert_eq!(first_existing(&[false, true, true, false]), Some(1));
    assert_eq!(first_existing(&[true, true, true, true]), Some(0));
    assert_eq!(first_existing(&[false, false, false, true]), Some(3));
    assert_eq!(first_existing(&[false; 4]), None);
    assert_eq!(pick_binary("ffmpeg", &[false, true, true, false]), Some("/bin/ffmpeg".to_string()));
    assert_eq!(pick_binary("ffmpeg", &[false, false, false, true]), Some("/opt/homebrew/bin/ffmpeg".to_string()));
    assert_eq!(pick_binary("ffmpeg", &[false; 4]), None);
}
