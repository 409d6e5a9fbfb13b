use cosmic_wallpaper::video::{
    copy_scaled_frame, get_frame_pool, pace_frame, packet_verdict, prepare_frame_buffer, scaled_video_size,
    select_decode_format, sws_colorspace, ColorSpace, OfferedFormat, PacketVerdict, SwsMatrix,
    FRAME_POOL_CAPACITY, MAX_HARDWARE_PACKET_ERRORS,
};

#[test]
fn scaled_video_size_downscales_to_cover_the_display() {
    // 4K video on a 1080p monitor: exactly half in both directions.
    assert_eq!(scaled_video_size((3840, 2160), Some((1920, 1080))), (1920, 1080));
    // Aspect ratio mismatch: scaled so the *larger* ratio still covers the
    // target (here height), keeping the video's own aspect.
    assert_eq!(scaled_video_size((3840, 1600), Some((1920, 1080))), (2592, 1080));
    // Portrait + landscape monitors combined (maxed independently).
    assert_eq!(scaled_video_size((3840, 2160), Some((1920, 1920))), (3414, 1920));
}

#[test]
fn scaled_video_size_never_upscales_or_guesses() {
    // Smaller than the display: left alone.
    assert_eq!(scaled_video_size((1280, 720), Some((1920, 1080))), (1280, 720));
    // Display size unknown or degenerate: source size.
    assert_eq!(scaled_video_size((3840, 2160), None), (3840, 2160));
    assert_eq!(scaled_video_size((3840, 2160), Some((0, 1080))), (3840, 2160));
    // Degenerate source doesn't divide by zero.
    assert_eq!(scaled_video_size((0, 0), Some((1920, 1080))), (0, 0));
}

#[test]
fn sws_colorspace_uses_the_tag_then_guesses_by_size() {
    assert_eq!(sws_colorspace(ColorSpace::Bt709, 480), SwsMatrix::Itu709);
    assert_eq!(sws_colorspace(ColorSpace::Smpte170m, 2160), SwsMatrix::Itu601);
    assert_eq!(sws_colorspace(ColorSpace::Bt2020Ncl, 2160), SwsMatrix::Bt2020);
    // Untagged: HD is almost always BT.709, SD BT.601.
    assert_eq!(sws_colorspace(ColorSpace::Unspecified, 1080), SwsMatrix::Itu709);
    assert_eq!(sws_colorspace(ColorSpace::Unspecified, 720), SwsMatrix::Itu709);
    assert_eq!(sws_colorspace(ColorSpace::Unspecified, 576), SwsMatrix::Itu601);
}

#[test]
fn sws_matrix_codes_are_swscale_constants() {
    assert_eq!(SwsMatrix::Itu709.code(), 1);
    assert_eq!(SwsMatrix::Fcc.code(), 4);
    assert_eq!(SwsMatrix::Itu601.code(), 5);
    assert_eq!(SwsMatrix::Smpte240m.code(), 7);
    assert_eq!(SwsMatrix::Bt2020.code(), 9);
    assert_eq!(sws_colorspace(ColorSpace::Fcc, 100), SwsMatrix::Fcc);
    assert_eq!(sws_colorspace(ColorSpace::Smpte240m, 100), SwsMatrix::Smpte240m);
    assert_eq!(sws_colorspace(ColorSpace::Other, 719), SwsMatrix::Itu601);
}

// Pixel formats as distinct numbers (their ffmpeg values do not matter here).
const VAAPI: i32 = 44;
const YUV420P: i32 = 0;
const CUDA: i32 = 117;
const NV12: i32 = 23;

fn hw(format: i32) -> OfferedFormat {
    OfferedFormat { format, hwaccel: true }
}

fn sw(format: i32) -> OfferedFormat {
    OfferedFormat { format, hwaccel: false }
}

#[test]
fn get_format_prefers_vaapi_then_software() {
    let offered = [hw(VAAPI), sw(YUV420P)];
    assert_eq!(select_decode_format(&offered, VAAPI), Some(VAAPI));

    // No VAAPI on offer (e.g. an unsupported profile): the first
    // software format, skipping other hardware formats.
    let offered = [hw(CUDA), sw(NV12), sw(YUV420P)];
    assert_eq!(select_decode_format(&offered, VAAPI), Some(NV12));
}

#[test]
fn get_format_with_only_other_hardware_has_no_choice() {
    assert_eq!(select_decode_format(&[hw(CUDA)], VAAPI), None);
    assert_eq!(select_decode_format(&[], VAAPI), None);
    // VAAPI later in the list still wins over an earlier software format.
    assert_eq!(select_decode_format(&[sw(NV12), hw(VAAPI)], VAAPI), Some(VAAPI));
}

#[test]
fn hardware_decoder_falls_back_after_repeated_rejections() {
    let mut errors = 0u32;
    for _ in 0..(MAX_HARDWARE_PACKET_ERRORS - 1) {
        let (e, v) = packet_verdict(errors, false, true);
        assert_eq!(v, PacketVerdict::Skip);
        errors = e;
    }
    assert_eq!(errors, MAX_HARDWARE_PACKET_ERRORS - 1);
    assert_eq!(packet_verdict(errors, false, true), (MAX_HARDWARE_PACKET_ERRORS, PacketVerdict::SwitchToSoftware));
    // An accepted packet resets the run; software rejections never count.
    assert_eq!(packet_verdict(5, true, true), (0, PacketVerdict::Decode));
    assert_eq!(packet_verdict(5, false, false), (5, PacketVerdict::Skip));
}

#[test]
fn dense_frame_is_copied_whole() {
    let data: Vec<u8> = (0..16u8).collect();
    let mut dst = vec![0u8; 16];
    copy_scaled_frame(&mut dst, &data, 8, 2, 16);
    assert_eq!(dst, data);
}

#[test]
fn padded_frame_rows_drop_the_padding() {
    // Two rows of one RGBA pixel, each padded to 8 bytes.
    let data = vec![1u8, 2, 3, 4, 9, 9, 9, 9, 5, 6, 7, 8, 9, 9, 9, 9];
    let mut dst = vec![0u8; 8];
    copy_scaled_frame(&mut dst, &data, 8, 1, 8);
    assert_eq!(dst, vec![1, 2, 3, 4, 5, 6, 7, 8]);
}

#[test]
fn frame_buffer_is_resized_or_fresh() {
    assert_eq!(prepare_frame_buffer(None, 3), vec![0, 0, 0]);
    assert_eq!(prepare_frame_buffer(Some(vec![7, 7, 7, 7, 7]), 2), vec![7, 7]);
    assert_eq!(prepare_frame_buffer(Some(vec![7]), 3), vec![7, 0, 0]);
}

#[test]
fn frame_pool_keeps_at_most_three_buffers() {
    let mut pool = get_frame_pool();
    assert_eq!(pool.len(), 0);
    for i in 0..FRAME_POOL_CAPACITY {
        assert!(pool.recycle(vec![i as u8; 4]));
    }
    assert!(!pool.recycle(vec![9u8; 4]));
    assert_eq!(pool.len(), FRAME_POOL_CAPACITY);
}

#[test]
fn frame_pool_hands_back_the_newest_buffer_first() {
    let mut pool = get_frame_pool();
    assert!(pool.recycle(vec![1u8, 1, 1]));
    assert!(pool.recycle(vec![2u8, 2, 2]));
    assert_eq!(pool.take_buffer(4), vec![2, 2, 2, 0]);
    assert_eq!(pool.take_buffer(2), vec![1, 1]);
    // Empty pool: a fresh zeroed buffer.
    assert_eq!(pool.take_buffer(3), vec![0, 0, 0]);
    assert_eq!(pool.len(), 0);
}

#[test]
fn frames_wait_for_their_timestamp_and_are_thinned_to_the_rate() {
    // 30 fps: frames at least 33_333 us apart.
    let p = pace_frame(100_000, 40_000, 0, 30);
    assert_eq!((p.sleep_us, p.send), (60_000, true));
    let p = pace_frame(120_000, 130_000, 100_000, 30);
    assert_eq!((p.sleep_us, p.send), (0, false));
    let p = pace_frame(133_333, 130_000, 100_000, 30);
    assert_eq!((p.sleep_us, p.send), (3_333, true));
    // A rate of 0 counts as one frame per second.
    assert!(!pace_frame(1_999_999, 0, 1_000_000, 0).send);
    assert!(pace_frame(2_000_000, 0, 1_000_000, 0).send);
}
