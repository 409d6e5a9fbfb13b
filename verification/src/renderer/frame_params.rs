//! The integer and boolean side of the per-frame parameters: which layers
//! are visible, which scene picks the clear colour, the visible lyric
//! window, and the shader codes of the theme's choices.

use vstd::prelude::*;
use crate::config::{ArtShape, VisAlign, VisShape, WallpaperMode};
use crate::state::SceneHint;

verus! {

/// The part of the visualiser theme that decides whether it captures the
/// album art.
#[derive(Clone, Copy, Debug, PartialEq, Eq, Structural)]
pub struct VisualiserDocking {
    pub shape: VisShape,
    pub dock_art: bool,
}

/// Audio-reactive elements draw only while something is audible (or the
/// visualiser is forced on), never in the forced weather or art modes, and
/// (unless forced) only while a track exists to attribute the audio to.
pub open spec fn spec_has_audio_active(audible: bool, mode: WallpaperMode, has_track: bool) -> bool {
    let forced = mode == WallpaperMode::AudioVisualiser;
    (audible || forced) && mode != WallpaperMode::Weather && mode != WallpaperMode::AlbumArt && (
    has_track || forced)
}

/// Whether audio-reactive elements are drawn; `audible` is whether the
/// peak waveform energy is above the visibility threshold.
pub fn has_audio_active(audible: bool, mode: WallpaperMode, has_track: bool) -> (r: bool)
    ensures
        r == spec_has_audio_active(audible, mode, has_track),
{
    let forced = mode == WallpaperMode::AudioVisualiser;
    (audible || forced) && mode != WallpaperMode::Weather && mode != WallpaperMode::AlbumArt && (
    has_track || forced)
}

/// Circular visualisers capture the album art into their ring while audio
/// plays, unless the theme opts out with `dock_art = false`.
pub fn dock_art_active(has_audio: bool, vis: &VisualiserDocking) -> (r: bool)
    ensures
        r == (has_audio && vis.shape == VisShape::Circular && vis.dock_art),
{
    has_audio && vis.shape == VisShape::Circular && vis.dock_art
}

/// Inclusive 1-based bounds of the window of two lines either side of the
/// current lyric line; without lyrics the empty range `(1, 0)`.
pub open spec fn spec_lyric_window_bounds(current: usize, lyrics_len: Option<usize>) -> (usize, usize) {
    match lyrics_len {
        Some(len) => (
            (if current <= 3 { 1 } else { current - 2 }) as usize,
            (if current + 2 < len { current + 2 } else { len as int }) as usize,
        ),
        None => (1, 0),
    }
}

/// The visible lyric lines around the current one, clamped to the track.
pub fn lyric_window_bounds(current_lyric_idx: usize, lyrics_len: Option<usize>) -> (r: (usize, usize))
    ensures
        r == spec_lyric_window_bounds(current_lyric_idx, lyrics_len),
{
    match lyrics_len {
        Some(len) => {
            let start = if current_lyric_idx <= 3 { 1 } else { current_lyric_idx - 2 };
            let end = if current_lyric_idx < len && len - current_lyric_idx > 2 {
                current_lyric_idx + 2
            } else {
                len
            };
            (start, end)
        },
        None => (1, 0),
    }
}

/// The lyric window never reaches past either end of the track: it starts
/// at line 1 or later and ends at the last line or earlier, and it always
/// holds the current line when that line exists.
pub proof fn lyric_window_stays_in_the_track(current: usize, len: usize)
    ensures
        spec_lyric_window_bounds(current, Some(len)).0 >= 1,
        spec_lyric_window_bounds(current, Some(len)).1 <= len,
        1 <= current <= len ==> spec_lyric_window_bounds(current, Some(len)).0 <= current
            <= spec_lyric_window_bounds(current, Some(len)).1,
{
}

/// Which album-art layers are drawn: the art is the authority when its GPU
/// resources exist (or the mode forces art), and each layer has its own
/// opt-in.
#[derive(Clone, Copy, Debug, PartialEq, Eq, Structural)]
pub struct ArtVisibility {
    pub show_art_fg: bool,
    pub show_art_bg: bool,
    pub show_color_bg: bool,
}

/// Decides the album-art layers for this frame.
pub fn art_visibility(
    art_loaded: bool,
    mode: WallpaperMode,
    show_album_art: bool,
    album_art_background: bool,
    album_color_background: bool,
) -> (r: ArtVisibility)
    ensures
        r.show_art_fg == ((art_loaded || mode == WallpaperMode::AlbumArt) && show_album_art),
        r.show_art_bg == ((art_loaded || mode == WallpaperMode::AlbumArt) && album_art_background),
        r.show_color_bg == ((art_loaded || mode == WallpaperMode::AlbumArt) && album_color_background),
{
    let present = art_loaded || mode == WallpaperMode::AlbumArt;
    ArtVisibility {
        show_art_fg: present && show_album_art,
        show_art_bg: present && album_art_background,
        show_color_bg: present && album_color_background,
    }
}

/// The scene that picks the clear colour: none (transparent) with a
/// transparent background, the mode's own scene for forced modes, and the
/// automatic scene otherwise.
pub fn clear_scene(transparent_background: bool, mode: WallpaperMode, auto_scene: SceneHint) -> (r:
    Option<SceneHint>)
    ensures
        transparent_background ==> r.is_none(),
        !transparent_background ==> r == Some(
            match mode {
                WallpaperMode::Weather => SceneHint::Ambient,
                WallpaperMode::AlbumArt => SceneHint::AlbumArt,
                WallpaperMode::AudioVisualiser => SceneHint::AudioVisualiser,
                WallpaperMode::Auto => auto_scene,
            },
        ),
{
    if transparent_background {
        return None;
    }
    Some(
        match mode {
            WallpaperMode::Weather => SceneHint::Ambient,
            WallpaperMode::AlbumArt => SceneHint::AlbumArt,
            WallpaperMode::AudioVisualiser => SceneHint::AudioVisualiser,
            WallpaperMode::Auto => auto_scene,
        },
    )
}

/// The visualiser shader's shape code.
pub fn vis_shape_code(shape: VisShape) -> (r: u32)
    ensures
        r == match shape {
            VisShape::Circular => 0u32,
            VisShape::Linear => 1u32,
            VisShape::Square => 2u32,
        },
{
    match shape {
        VisShape::Circular => 0,
        VisShape::Linear => 1,
        VisShape::Square => 2,
    }
}

/// The visualiser shader's alignment code.
pub fn vis_align_code(align: VisAlign) -> (r: u32)
    ensures
        r == match align {
            VisAlign::Left => 0u32,
            VisAlign::Center => 1u32,
            VisAlign::Right => 2u32,
        },
{
    match align {
        VisAlign::Left => 0,
        VisAlign::Center => 1,
        VisAlign::Right => 2,
    }
}

/// The album-art shader's background mode: 3 flat palette colour, 2 sharp
/// art (blur off), 0 frosted glass.
pub fn album_art_bg_mode(show_color_bg: bool, disable_blur: bool) -> (r: u32)
    ensures
        r == if show_color_bg { 3u32 } else if disable_blur { 2u32 } else { 0u32 },
{
    if show_color_bg {
        3
    } else if disable_blur {
        2
    } else {
        0
    }
}

/// The custom background's shader mode: 2 sharp (blur off), 0 frosted.
pub fn custom_bg_mode(disable_blur: bool) -> (r: u32)
    ensures
        r == if disable_blur { 2u32 } else { 0u32 },
{
    if disable_blur {
        2
    } else {
        0
    }
}

/// The foreground art's shape code: 1 circular, 0 square; while the art is
/// docked into a circular visualiser it is always circular.
pub fn art_shape_code(shape: ArtShape, docked: bool) -> (r: u32)
    ensures
        r == if docked || shape == ArtShape::Circular { 1u32 } else { 0u32 },
{
    if docked || shape == ArtShape::Circular {
        1
    } else {
        0
    }
}

/// How many visualiser instances are drawn: one waveform strip, one bar per
/// band for a linear layout, two per band (mirrored) otherwise. The band
/// count is taken modulo 2^32, as the shader's instance count is a `u32`.
pub fn visualiser_instance_count(is_waveform: bool, shape: VisShape, bands: usize) -> (r: u32)
    requires
        !is_waveform && shape != VisShape::Linear ==> (bands as u32) <= u32::MAX / 2,
    ensures
        r == if is_waveform {
            1u32
        } else if shape == VisShape::Linear {
            bands as u32
        } else {
            ((bands as u32) * 2) as u32
        },
{
    if is_waveform {
        1
    } else if shape == VisShape::Linear {
        #[verifier::truncate]
        (bands as u32)
    } else {
        let b = #[verifier::truncate] (bands as u32);
        b * 2
    }
}

/// With the visualiser forced on, audio-reactive elements are always drawn,
/// audible or silent, with a track or without; in the forced weather and
/// album-art modes never; otherwise only while something is audible and a
/// track is loaded.
pub proof fn forced_visualiser_is_always_active(audible: bool, has_track: bool)
    ensures
        spec_has_audio_active(audible, WallpaperMode::AudioVisualiser, has_track),
        !spec_has_audio_active(audible, WallpaperMode::Weather, has_track),
        !spec_has_audio_active(audible, WallpaperMode::AlbumArt, has_track),
        spec_has_audio_active(audible, WallpaperMode::Auto, has_track) == (audible && has_track),
{
}

} // verus!
