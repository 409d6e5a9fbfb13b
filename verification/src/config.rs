//! The configuration and theme choices the library's decisions read.

use vstd::prelude::*;

verus! {

/// What the wallpaper shows.
#[derive(Clone, Copy, Debug, PartialEq, Eq, Structural)]
pub enum WallpaperMode {
    /// Whatever fits the moment: album art, the visualiser, or the sky.
    Auto,
    /// Always the weather sky.
    Weather,
    /// Always the album art.
    AlbumArt,
    /// Always the audio visualiser.
    AudioVisualiser,
}

/// Shape of the audio visualiser.
#[derive(Clone, Copy, Debug, PartialEq, Eq, Structural)]
pub enum VisShape {
    Circular,
    Linear,
    Square,
}

/// Alignment of the audio visualiser.
#[derive(Clone, Copy, Debug, PartialEq, Eq, Structural)]
pub enum VisAlign {
    Left,
    Center,
    Right,
}

/// Shape of the foreground album art.
#[derive(Clone, Copy, Debug, PartialEq, Eq, Structural)]
pub enum ArtShape {
    Square,
    Circular,
}

} // verus!
