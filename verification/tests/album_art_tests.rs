use cosmic_wallpaper::album_art::{ArtDecodeError, RgbaFrame, ART_SIZE_LIMIT};
use cosmic_wallpaper::mpris::MprisWatcher;

fn png(width: u32, height: u32) -> Vec<u8> {
    let img = image::RgbaImage::from_pixel(width, height, image::Rgba([10, 20, 30, 255]));
    let mut bytes = std::io::Cursor::new(Vec::new());
    img.write_to(&mut bytes, image::ImageFormat::Png).unwrap();
    bytes.into_inner()
}

#[test]
fn art_is_decoded_to_rgba_pixels() {
    let f = MprisWatcher::decode_image_safely(&png(3, 2)).ok().unwrap();
    assert_eq!((f.width, f.height), (3, 2));
    assert_eq!(f.pixels.len(), 3 * 2 * 4);
    assert_eq!(&f.pixels[0..4], &[10, 20, 30, 255]);
}

#[test]
fn oversized_or_corrupt_art_is_refused() {
    assert!(matches!(MprisWatcher::decode_image_safely(&png(4097, 1)), Err(ArtDecodeError::Undecodable)));
    assert!(matches!(MprisWatcher::decode_image_safely(b"definitely not an image"), Err(ArtDecodeError::Undecodable)));
    assert!(MprisWatcher::decode_image_safely(&png(4096, 1)).is_ok());
}

#[test]
fn large_art_is_shrunk_to_fit_keeping_its_shape() {
    let kept = MprisWatcher::process_art(&png(2000, 10)).ok().unwrap();
    assert_eq!((kept.width, kept.height), (ART_SIZE_LIMIT, 5));
    assert_eq!(kept.pixels.len(), (kept.width * kept.height * 4) as usize);
    let kept = MprisWatcher::process_art(&png(640, 640)).ok().unwrap();
    assert_eq!((kept.width, kept.height), (640, 640));
    assert!(matches!(MprisWatcher::process_art(&png(4097, 10)), Err(ArtDecodeError::Undecodable)));
    assert!(matches!(MprisWatcher::process_art(b"no image here"), Err(ArtDecodeError::Undecodable)));
}

#[test]
fn deep_colour_art_is_shrunk_before_conversion() {
    let img = image::ImageBuffer::<image::Rgba<u16>, Vec<u16>>::from_fn(1500, 3, |x, y| {
        image::Rgba([(x * 43 + y * 7) as u16, (x * 91) as u16, 12_345, 65_535])
    });
    let dynamic = image::DynamicImage::ImageRgba16(img);
    let mut bytes = std::io::Cursor::new(Vec::new());
    dynamic.write_to(&mut bytes, image::ImageFormat::Png).unwrap();
    let expected = dynamic.thumbnail(ART_SIZE_LIMIT, ART_SIZE_LIMIT).into_rgba8();
    let kept = MprisWatcher::process_art(&bytes.into_inner()).ok().unwrap();
    assert_eq!((kept.width, kept.height), expected.dimensions());
    assert_eq!(kept.pixels, expected.into_raw());
}

#[test]
fn raw_frames_need_a_full_buffer() {
    assert!(RgbaFrame::from_raw(2, 2, vec![0; 16]).is_some());
    assert!(RgbaFrame::from_raw(2, 2, vec![0; 20]).is_some());
    assert!(RgbaFrame::from_raw(2, 2, vec![0; 15]).is_none());
    assert!(RgbaFrame::from_raw(0, 0, Vec::new()).is_some());
}
