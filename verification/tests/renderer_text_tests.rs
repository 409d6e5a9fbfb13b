use cosmic_wallpaper::renderer::glyph_atlas::{GlyphAtlas, GlyphPlacement, GLYPH_CACHE_HEIGHT, GLYPH_CACHE_WIDTH};
use cosmic_wallpaper::renderer::text::{hash_str, TextCacheKey, TrackLabel};
use cosmic_wallpaper::renderer::text_cache::{TextBufferCache, TEXT_CACHE_LIMIT};
use cosmic_wallpaper::renderer::upload::{grown_capacity, next_power_of_two};

#[test]
fn test_hash_str() {
    let hash1 = hash_str("hello world");
    let hash2 = hash_str("hello world");
    assert_eq!(hash1, hash2, "The same string should produce the same hash");

    let hash3 = hash_str("different string");
    assert_ne!(hash1, hash3, "Different strings should produce different hashes");

    let empty_hash = hash_str("");
    let empty_hash2 = hash_str("");
    assert_eq!(empty_hash, empty_hash2, "Empty strings should hash deterministically");
    assert_ne!(empty_hash, hash1, "Empty string hash should differ from non-empty string hash");
}

fn label(title: &str, artist: &str, album: &str) -> TrackLabel {
    TrackLabel { title: title.to_string(), artist: artist.to_string(), album: album.to_string() }
}

#[test]
fn track_line_shows_title_artist_and_album() {
    let l = label("Song", "Band", "Record");
    assert_eq!(l.display_text(), "Song — Band\nRecord");
    assert!(l.same_track(&label("Song", "Band", "Record")));
    assert!(!l.same_track(&label("Song", "Band", "Other")));
}

fn lyric(line: u32) -> TextCacheKey {
    TextCacheKey::Lyric { monitor: 0, line, hash: 7 }
}

#[test]
fn cached_buffer_is_handed_back_once() {
    let mut cache: TextBufferCache<&str> = TextBufferCache::new();
    cache.insert(lyric(1), "shaped one");
    cache.insert(TextCacheKey::Weather { monitor: 0, hash: 1 }, "weather");
    assert_eq!(cache.len(), 2);
    assert_eq!(cache.take_cached(&lyric(1)), Some("shaped one"));
    assert_eq!(cache.take_cached(&lyric(1)), None);
    assert_eq!(cache.len(), 1);
}

#[test]
fn inserting_under_a_held_key_replaces_the_buffer() {
    let mut cache: TextBufferCache<u32> = TextBufferCache::new();
    cache.insert(lyric(1), 10);
    cache.insert(lyric(1), 20);
    assert_eq!(cache.len(), 1);
    assert_eq!(cache.take_cached(&lyric(1)), Some(20));
}

#[test]
fn recycled_buffers_return_to_the_cache_in_order() {
    let mut cache: TextBufferCache<u32> = TextBufferCache::new();
    let track = TextCacheKey::TrackInfo { monitor: 1, hash: 3 };
    let mut drawn = vec![(lyric(1), 1), (track, 2), (lyric(1), 3)];
    cache.recycle_buffers(&mut drawn);
    assert!(drawn.is_empty());
    assert_eq!(cache.len(), 2);
    // The later buffer under the same key wins.
    assert_eq!(cache.take_cached(&lyric(1)), Some(3));
    assert_eq!(cache.take_cached(&track), Some(2));
}

#[test]
fn oversized_cache_is_dropped_wholesale() {
    let mut cache: TextBufferCache<u32> = TextBufferCache::new();
    for i in 0..(TEXT_CACHE_LIMIT as u32) {
        cache.insert(lyric(i), i);
    }
    cache.evict_stale_cache();
    assert_eq!(cache.len(), TEXT_CACHE_LIMIT);
    cache.insert(lyric(TEXT_CACHE_LIMIT as u32), 0);
    cache.evict_stale_cache();
    assert_eq!(cache.len(), 0);
    cache.insert(lyric(1), 1);
    cache.clear_cache();
    assert_eq!(cache.len(), 0);
}

#[test]
fn glyphs_pack_along_shelves() {
    let mut atlas = GlyphAtlas::new();
    assert_eq!(atlas.place(10, 20), GlyphPlacement::Placed { x: 0, y: 0, cleared: false });
    assert_eq!(atlas.place(5, 30), GlyphPlacement::Placed { x: 11, y: 0, cleared: false });
    assert_eq!((atlas.cursor_x(), atlas.cursor_y(), atlas.row_height()), (17, 0, 31));
    // Does not fit on the shelf: next shelf below the tallest glyph.
    assert_eq!(atlas.place(GLYPH_CACHE_WIDTH - 10, 8), GlyphPlacement::Placed { x: 0, y: 31, cleared: false });
}

#[test]
fn full_atlas_is_cleared_and_odd_glyphs_skipped() {
    let mut atlas = GlyphAtlas::new();
    assert_eq!(atlas.place(0, 5), GlyphPlacement::Empty);
    assert_eq!(atlas.place(GLYPH_CACHE_WIDTH + 1, 5), GlyphPlacement::TooLarge);
    assert_eq!(atlas.place(GLYPH_CACHE_WIDTH, GLYPH_CACHE_HEIGHT - 1), GlyphPlacement::Placed { x: 0, y: 0, cleared: false });
    assert_eq!(atlas.place(4, 4), GlyphPlacement::Placed { x: 0, y: 0, cleared: true });
    atlas.reset();
    assert_eq!((atlas.cursor_x(), atlas.cursor_y(), atlas.row_height()), (0, 0, 0));
}

#[test]
fn gpu_buffers_grow_to_powers_of_two() {
    assert_eq!(next_power_of_two(0), 1);
    assert_eq!(next_power_of_two(1), 1);
    assert_eq!(next_power_of_two(5), 8);
    assert_eq!(next_power_of_two(1024), 1024);
    assert_eq!(grown_capacity(16, 10), 16);
    assert_eq!(grown_capacity(16, 17), 32);
    assert_eq!(grown_capacity(0, 1000), 1024);
}
