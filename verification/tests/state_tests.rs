use cosmic_wallpaper::state::{scene_description, SceneHint};

/// Mean band energy above this counts as energetic audio.
fn energetic(bands: &[f32]) -> bool {
    let mean = bands.iter().sum::<f32>() / bands.len() as f32;
    mean > 0.05
}

#[test]
fn state_test_scene_description() {
    // Default empty state should be Ambient
    assert_eq!(scene_description(false, energetic(&[0.0; 64])), SceneHint::Ambient);
    // With significant audio energy, it should switch to AudioVisualiser
    assert_eq!(scene_description(false, energetic(&[1.0; 64])), SceneHint::AudioVisualiser);
    // Track with album art should take highest precedence over everything
    assert_eq!(scene_description(true, energetic(&[1.0; 64])), SceneHint::AlbumArt);
}

#[test]
fn state_test_scene_description_edge_cases() {
    // Edge case 1: empty audio bands array (division by zero -> NaN)
    assert_eq!(scene_description(false, energetic(&[])), SceneHint::Ambient);
    // Edge case 2: exact boundary condition for audio energy (0.05)
    assert_eq!(scene_description(false, energetic(&[0.05; 64])), SceneHint::Ambient);
    // Edge case 3: slightly above boundary
    assert_eq!(scene_description(false, energetic(&[0.05001; 64])), SceneHint::AudioVisualiser);
}

#[test]
fn tests_test_scene_description() {
    // Default empty state should be Ambient
    assert_eq!(scene_description(false, 0.0f32 > 0.05), SceneHint::Ambient);
    // With significant audio energy, it should switch to AudioVisualiser
    assert_eq!(scene_description(false, 1.0f32 > 0.05), SceneHint::AudioVisualiser);
    // Track with album art should take highest precedence over everything
    assert_eq!(scene_description(true, 1.0f32 > 0.05), SceneHint::AlbumArt);
}

#[test]
fn tests_test_scene_description_edge_cases() {
    // Edge case 1: zero energy
    assert_eq!(scene_description(false, 0.0f32 > 0.05), SceneHint::Ambient);
    // Edge case 2: exact boundary condition for audio energy (0.05)
    assert_eq!(scene_description(false, 0.05f32 > 0.05), SceneHint::Ambient);
    // Edge case 3: slightly above boundary
    assert_eq!(scene_description(false, 0.05001f32 > 0.05), SceneHint::AudioVisualiser);
}
