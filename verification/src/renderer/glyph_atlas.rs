//! Shelf packing of rasterised glyphs into the glyph-cache texture.
//!
//! Glyphs are placed left to right along a shelf with one pixel of padding;
//! a glyph that does not fit the shelf's remaining width opens a new shelf
//! below the tallest glyph of the current one, and a glyph that does not fit
//! below the last shelf clears the whole atlas and starts again at the top.

use vstd::prelude::*;

verus! {

/// Width of the glyph-cache texture, in pixels.
pub const GLYPH_CACHE_WIDTH: u32 = 2048;

/// Height of the glyph-cache texture, in pixels.
pub const GLYPH_CACHE_HEIGHT: u32 = 2048;

/// A rectangle of the atlas occupied by one glyph.
pub struct AtlasRect {
    pub x: int,
    pub y: int,
    pub w: int,
    pub h: int,
}

/// The rectangle lies inside the atlas and is not empty.
pub open spec fn rect_in_atlas(r: AtlasRect) -> bool {
    &&& 0 <= r.x && 0 <= r.y && 0 < r.w && 0 < r.h
    &&& r.x + r.w <= GLYPH_CACHE_WIDTH
    &&& r.y + r.h <= GLYPH_CACHE_HEIGHT
}

/// The two rectangles share no pixel.
pub open spec fn rects_disjoint(a: AtlasRect, b: AtlasRect) -> bool {
    ||| a.x + a.w <= b.x
    ||| b.x + b.w <= a.x
    ||| a.y + a.h <= b.y
    ||| b.y + b.h <= a.y
}

/// Where a glyph of the given size ended up.
#[derive(Clone, Copy, Debug, PartialEq, Eq, Structural)]
pub enum GlyphPlacement {
    /// The glyph has no pixels; nothing is stored.
    Empty,
    /// The glyph is larger than the whole atlas and cannot be cached.
    TooLarge,
    /// The glyph occupies `(x, y)` onwards; `cleared` says that the atlas
    /// was full and every earlier glyph was evicted to make room.
    Placed { x: u32, y: u32, cleared: bool },
}

/// The packing cursor of the glyph-cache texture, and (as ghost state) the
/// rectangles handed out since the atlas was last cleared.
pub struct GlyphAtlas {
    cache_x: u32,
    cache_y: u32,
    cache_row_height: u32,
    placed: Ghost<Seq<AtlasRect>>,
}

impl GlyphAtlas {
    /// Left edge of the next glyph on the current shelf.
    pub closed spec fn spec_cursor_x(&self) -> int {
        self.cache_x as int
    }

    /// Top edge of the current shelf.
    pub closed spec fn spec_cursor_y(&self) -> int {
        self.cache_y as int
    }

    /// Height of the current shelf, padding included.
    pub closed spec fn spec_row_height(&self) -> int {
        self.cache_row_height as int
    }

    /// The glyph rectangles handed out since the last clear, oldest first.
    pub closed spec fn spec_placed(&self) -> Seq<AtlasRect> {
        self.placed@
    }

    /// The packing invariant: the cursor stays within the texture, every
    /// handed-out rectangle lies inside the atlas, and each lies either on a
    /// finished shelf (ending above the current one) or on the current
    /// shelf left of the cursor.
    pub closed spec fn wf(&self) -> bool {
        &&& self.cache_x <= GLYPH_CACHE_WIDTH + 1
        &&& self.cache_y <= GLYPH_CACHE_HEIGHT
        &&& self.cache_row_height <= GLYPH_CACHE_HEIGHT + 1
        &&& forall|i: int|
            0 <= i < self.placed@.len() ==> {
                let r = #[trigger] self.placed@[i];
                &&& rect_in_atlas(r)
                &&& (r.y + r.h < self.cache_y || (r.y == self.cache_y && r.x + r.w
                    < self.cache_x && r.h < self.cache_row_height))
            }
        &&& forall|i: int, j: int|
            0 <= i < j < self.placed@.len() ==> rects_disjoint(
                #[trigger] self.placed@[i],
                #[trigger] self.placed@[j],
            )
    }

    /// An empty atlas with the cursor at the top-left corner.
    pub fn new() -> (r: GlyphAtlas)
        ensures
            r.wf(),
            r.spec_cursor_x() == 0 && r.spec_cursor_y() == 0 && r.spec_row_height() == 0,
            r.spec_placed() == Seq::<AtlasRect>::empty(),
    {
        GlyphAtlas { cache_x: 0, cache_y: 0, cache_row_height: 0, placed: Ghost(Seq::empty()) }
    }

    /// Forgets every placed glyph and moves the cursor back to the top-left
    /// corner (done on every track change, with the glyph cache itself).
    pub fn reset(&mut self)
        ensures
            final(self).wf(),
            final(self).spec_cursor_x() == 0 && final(self).spec_cursor_y() == 0
                && final(self).spec_row_height() == 0,
            final(self).spec_placed() == Seq::<AtlasRect>::empty(),
    {
        self.cache_x = 0;
        self.cache_y = 0;
        self.cache_row_height = 0;
        self.placed = Ghost(Seq::empty());
    }

    /// Left edge of the next glyph on the current shelf.
    pub fn cursor_x(&self) -> (r: u32)
        ensures
            r == self.spec_cursor_x(),
    {
        self.cache_x
    }

    /// Top edge of the current shelf.
    pub fn cursor_y(&self) -> (r: u32)
        ensures
            r == self.spec_cursor_y(),
    {
        self.cache_y
    }

    /// Height of the current shelf, one pixel of padding included.
    pub fn row_height(&self) -> (r: u32)
        ensures
            r == self.spec_row_height(),
    {
        self.cache_row_height
    }

    /// Finds room for a `width` x `height` glyph. A glyph that does not fit
    /// on the current shelf goes to the start of a new shelf; one that does
    /// not fit below the last shelf clears the atlas first. The new glyph
    /// never overlaps any glyph still in the atlas.
    pub fn place(&mut self, width: u32, height: u32) -> (r: GlyphPlacement)
        requires
            old(self).wf(),
        ensures
            final(self).wf(),
            (width == 0 || height == 0) ==> r == GlyphPlacement::Empty && *final(self) == *old(
                self,
            ),
            (width > 0 && height > 0 && (width > GLYPH_CACHE_WIDTH || height
                > GLYPH_CACHE_HEIGHT)) ==> r == GlyphPlacement::TooLarge && *final(self) == *old(
                self,
            ),
            (width > 0 && height > 0 && width <= GLYPH_CACHE_WIDTH && height
                <= GLYPH_CACHE_HEIGHT) ==> {
                let wraps = old(self).spec_cursor_x() + width > GLYPH_CACHE_WIDTH;
                let shelf_y = if wraps {
                    old(self).spec_cursor_y() + old(self).spec_row_height()
                } else {
                    old(self).spec_cursor_y()
                };
                let clears = shelf_y + height > GLYPH_CACHE_HEIGHT;
                let x = if wraps || clears { 0 } else { old(self).spec_cursor_x() };
                let y = if clears { 0 } else { shelf_y };
                let row = if wraps || clears { 0 } else { old(self).spec_row_height() };
                let rect = AtlasRect { x, y, w: width as int, h: height as int };
                &&& r == (GlyphPlacement::Placed { x: x as u32, y: y as u32, cleared: clears })
                &&& final(self).spec_cursor_x() == x + width + 1
                &&& final(self).spec_cursor_y() == y
                &&& final(self).spec_row_height() == if row > height + 1 {
                    row
                } else {
                    height + 1
                }
                &&& final(self).spec_placed() == if clears {
                    seq![rect]
                } else {
                    old(self).spec_placed().push(rect)
                }
                &&& rect_in_atlas(rect)
                &&& forall|i: int|
                    0 <= i < final(self).spec_placed().len() - 1 ==> rects_disjoint(
                        #[trigger] final(self).spec_placed()[i],
                        rect,
                    )
            },
    {
        if width == 0 || height == 0 {
            return GlyphPlacement::Empty;
        }
        if width > GLYPH_CACHE_WIDTH || height > GLYPH_CACHE_HEIGHT {
            return GlyphPlacement::TooLarge;
        }
        let ghost old_placed = self.placed@;
        let ghost old_y = self.cache_y;
        let ghost old_row = self.cache_row_height;
        if self.cache_x + width > GLYPH_CACHE_WIDTH {
            self.cache_x = 0;
            self.cache_y = self.cache_y + self.cache_row_height;
            self.cache_row_height = 0;
            proof {
                assert forall|i: int| 0 <= i < old_placed.len() implies {
                    let r = #[trigger] old_placed[i];
                    r.y + r.h < self.cache_y
                } by {
                    let r = old_placed[i];
                    assert(r.y + r.h < old_y || (r.y == old_y && r.h < old_row));
                }
            }
        }
        let mut cleared = false;
        if self.cache_y + height > GLYPH_CACHE_HEIGHT {
            self.cache_x = 0;
            self.cache_y = 0;
            self.cache_row_height = 0;
            self.placed = Ghost(Seq::empty());
            cleared = true;
        }
        let x = self.cache_x;
        let y = self.cache_y;
        let ghost rect = AtlasRect { x: x as int, y: y as int, w: width as int, h: height as int };
        let ghost before = self.placed@;
        proof {
            assert forall|i: int| 0 <= i < before.len() implies rects_disjoint(
                #[trigger] before[i],
                rect,
            ) by {
                let r = before[i];
                assert(r.y + r.h < y || (r.y == y && r.x + r.w < x));
            }
        }
        self.cache_x = self.cache_x + width + 1;
        if self.cache_row_height < height + 1 {
            self.cache_row_height = height + 1;
        }
        self.placed = Ghost(before.push(rect));
        proof {
            assert forall|i: int| 0 <= i < self.placed@.len() implies {
                let r = #[trigger] self.placed@[i];
                &&& rect_in_atlas(r)
                &&& (r.y + r.h < self.cache_y || (r.y == self.cache_y && r.x + r.w
                    < self.cache_x && r.h < self.cache_row_height))
            } by {
                if i < before.len() {
                    assert(self.placed@[i] == before[i]);
                }
            }
            assert forall|i: int| 0 <= i < self.placed@.len() - 1 implies rects_disjoint(
                #[trigger] self.placed@[i],
                rect,
            ) by {
                assert(self.placed@[i] == before[i]);
            }
            assert forall|i: int, j: int| 0 <= i < j < self.placed@.len() implies rects_disjoint(
                #[trigger] self.placed@[i],
                #[trigger] self.placed@[j],
            ) by {
                assert(self.placed@[i] == before[i]);
                if j < before.len() {
                    assert(self.placed@[j] == before[j]);
                } else {
                    assert(self.placed@[j] == rect);
                }
            }
            if cleared {
                assert(self.placed@ =~= seq![rect]);
            }
        }
        GlyphPlacement::Placed { x, y, cleared }
    }
}

/// Law: the glyphs held by a well-formed atlas lie inside the texture and
/// no two of them overlap.
pub proof fn placed_glyphs_never_overlap(atlas: &GlyphAtlas)
    requires
        atlas.wf(),
    ensures
        forall|i: int|
            0 <= i < atlas.spec_placed().len() ==> rect_in_atlas(#[trigger] atlas.spec_placed()[i]),
        forall|i: int, j: int|
            0 <= i < j < atlas.spec_placed().len() ==> rects_disjoint(
                #[trigger] atlas.spec_placed()[i],
                #[trigger] atlas.spec_placed()[j],
            ),
{
}

} // verus!
