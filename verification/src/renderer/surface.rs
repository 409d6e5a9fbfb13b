//! Configuring a monitor's drawing surface from what the GPU offers for it:
//! an sRGB format when there is one, premultiplied alpha so that a
//! transparent wallpaper blends, and the lowest-latency present mode.

use vstd::prelude::*;

verus! {

/// How a surface's alpha is composited (the modes a GPU surface may offer).
#[derive(Clone, Copy, Debug, PartialEq, Eq, Structural)]
pub enum AlphaMode {
    Auto,
    Opaque,
    PreMultiplied,
    PostMultiplied,
    Inherit,
}

/// How frames are handed to the display (the modes a GPU surface may offer).
#[derive(Clone, Copy, Debug, PartialEq, Eq, Structural)]
pub enum PresentMode {
    AutoVsync,
    AutoNoVsync,
    Fifo,
    FifoRelaxed,
    Immediate,
    Mailbox,
}

/// The index of the first sRGB format among those offered (`srgb[i]`
/// tells whether format `i` is sRGB), or of the first format when none is.
pub fn preferred_format(srgb: &[bool]) -> (r: usize)
    requires
        srgb@.len() > 0,
    ensures
        r < srgb@.len(),
        (exists|i: int| 0 <= i < srgb@.len() && srgb@[i]) ==> srgb@[r as int] && forall|j: int|
            0 <= j < r ==> !srgb@[j],
        (forall|i: int| 0 <= i < srgb@.len() ==> !srgb@[i]) ==> r == 0,
{
    let mut i: usize = 0;
    while i < srgb.len()
        invariant
            i <= srgb@.len(),
            forall|j: int| 0 <= j < i ==> !srgb@[j],
        decreases srgb@.len() - i,
    {
        if srgb[i] {
            return i;
        }
        i = i + 1;
    }
    0
}

/// Whether `modes` offers `m`.
pub open spec fn offers<T>(modes: Seq<T>, m: T) -> bool {
    exists|i: int| 0 <= i < modes.len() && modes[i] == m
}

fn contains_alpha(modes: &[AlphaMode], m: AlphaMode) -> (r: bool)
    ensures
        r == offers(modes@, m),
{
    let mut i: usize = 0;
    while i < modes.len()
        invariant
            i <= modes@.len(),
            forall|j: int| 0 <= j < i ==> modes@[j] != m,
        decreases modes@.len() - i,
    {
        if modes[i] == m {
            return true;
        }
        i = i + 1;
    }
    false
}

fn contains_present(modes: &[PresentMode], m: PresentMode) -> (r: bool)
    ensures
        r == offers(modes@, m),
{
    let mut i: usize = 0;
    while i < modes.len()
        invariant
            i <= modes@.len(),
            forall|j: int| 0 <= j < i ==> modes@[j] != m,
        decreases modes@.len() - i,
    {
        if modes[i] == m {
            return true;
        }
        i = i + 1;
    }
    false
}

/// Premultiplied alpha when offered, else postmultiplied, else the first
/// mode offered.
pub fn preferred_alpha_mode(modes: &[AlphaMode]) -> (r: AlphaMode)
    requires
        modes@.len() > 0,
    ensures
        r == if offers(modes@, AlphaMode::PreMultiplied) {
            AlphaMode::PreMultiplied
        } else if offers(modes@, AlphaMode::PostMultiplied) {
            AlphaMode::PostMultiplied
        } else {
            modes@[0]
        },
{
    if contains_alpha(modes, AlphaMode::PreMultiplied) {
        AlphaMode::PreMultiplied
    } else if contains_alpha(modes, AlphaMode::PostMultiplied) {
        AlphaMode::PostMultiplied
    } else {
        modes[0]
    }
}

/// Mailbox when offered, else relaxed FIFO, else the first mode offered.
pub fn preferred_present_mode(modes: &[PresentMode]) -> (r: PresentMode)
    requires
        modes@.len() > 0,
    ensures
        r == if offers(modes@, PresentMode::Mailbox) {
            PresentMode::Mailbox
        } else if offers(modes@, PresentMode::FifoRelaxed) {
            PresentMode::FifoRelaxed
        } else {
            modes@[0]
        },
{
    if contains_present(modes, PresentMode::Mailbox) {
        PresentMode::Mailbox
    } else if contains_present(modes, PresentMode::FifoRelaxed) {
        PresentMode::FifoRelaxed
    } else {
        modes[0]
    }
}

/// A surface is never configured with a zero side.
pub fn surface_extent(width: u32, height: u32) -> (r: (u32, u32))
    ensures
        r.0 == (if width < 1 { 1 } else { width }),
        r.1 == (if height < 1 { 1 } else { height }),
{
    (if width < 1 { 1 } else { width }, if height < 1 { 1 } else { height })
}

} // verus!
