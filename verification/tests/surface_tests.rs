use cosmic_wallpaper::renderer::surface::{
    preferred_alpha_mode, preferred_format, preferred_present_mode, surface_extent, AlphaMode,
    PresentMode,
};

#[test]
fn srgb_format_is_preferred() {
    assert_eq!(preferred_format(&[false, true, true]), 1);
    assert_eq!(preferred_format(&[true]), 0);
    assert_eq!(preferred_format(&[false, false]), 0);
}

#[test]
fn premultiplied_alpha_then_postmultiplied_then_first() {
    assert_eq!(preferred_alpha_mode(&[AlphaMode::Opaque, AlphaMode::PreMultiplied]), AlphaMode::PreMultiplied);
    assert_eq!(preferred_alpha_mode(&[AlphaMode::PostMultiplied, AlphaMode::Opaque]), AlphaMode::PostMultiplied);
    assert_eq!(preferred_alpha_mode(&[AlphaMode::Inherit, AlphaMode::Opaque]), AlphaMode::Inherit);
}

#[test]
fn mailbox_then_relaxed_fifo_then_first() {
    assert_eq!(preferred_present_mode(&[PresentMode::Fifo, PresentMode::Mailbox]), PresentMode::Mailbox);
    assert_eq!(preferred_present_mode(&[PresentMode::Fifo, PresentMode::FifoRelaxed]), PresentMode::FifoRelaxed);
    assert_eq!(preferred_present_mode(&[PresentMode::Fifo]), PresentMode::Fifo);
}

#[test]
fn surfaces_are_never_empty() {
    assert_eq!(surface_extent(0, 0), (1, 1));
    assert_eq!(surface_extent(2560, 1440), (2560, 1440));
}
