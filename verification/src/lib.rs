//! Verified core of a Wayland live-wallpaper engine: the address guard and
//! URL checks for untrusted metadata, album-art decoding limits, the
//! media-player and weather decision logic, the video decoder's sizing,
//! pacing and buffer handling, per-monitor surface book-keeping, and the
//! renderer's caches, redraw pausing and integer layout rules.

pub mod net_guard;
pub mod utils;
pub mod weather;
pub mod renderer;
pub mod text;
pub mod mpris;
pub mod web;
pub mod frame_copy;
pub mod video;
pub mod config;
pub mod state;
pub mod wayland;
pub mod canvas_cache;
pub mod album_art;
