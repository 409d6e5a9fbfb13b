//! The kind of scene the wallpaper is showing.

use vstd::prelude::*;

verus! {

/// The scene the wallpaper is showing, which picks the clear colour.
#[derive(Clone, Copy, Debug, PartialEq, Eq, Structural)]
pub enum SceneHint {
    AlbumArt,
    AudioVisualiser,
    Ambient,
}

/// The automatic scene: album art when there is some, the visualiser when
/// the audio is energetic (mean band energy above 0.05, judged by the
/// caller), the ambient sky otherwise.
pub open spec fn spec_scene_description(has_album_art: bool, energetic: bool) -> SceneHint {
    if has_album_art {
        SceneHint::AlbumArt
    } else if energetic {
        SceneHint::AudioVisualiser
    } else {
        SceneHint::Ambient
    }
}

/// Classifies the current scene; album art takes precedence over audio.
pub fn scene_description(has_album_art: bool, energetic: bool) -> (r: SceneHint)
    ensures
        r == spec_scene_description(has_album_art, energetic),
{
    if has_album_art {
        SceneHint::AlbumArt
    } else if energetic {
        SceneHint::AudioVisualiser
    } else {
        SceneHint::Ambient
    }
}

} // verus!
