//! The renderer's decisions: glyph-atlas packing, the shaped-text cache,
//! per-frame layer and shader choices, when to redraw at all, lyric
//! tracking, holding album art while new art loads, surface configuration,
//! waveform bands, and padding uploads to the GPU's row alignment.

pub mod frame_params;
pub mod glyph_atlas;
pub mod text;
pub mod text_cache;
pub mod upload;
pub mod scene;
pub mod surface;
pub mod waveform;
