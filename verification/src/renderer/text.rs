//! Text the renderer draws: the cache keys of shaped text, the hash that
//! identifies a text's content, and the track line.

use std::hash::{Hash, Hasher};
use vstd::prelude::*;

verus! {

/// Identifies one shaped text buffer in the reuse cache.
#[derive(Clone, Copy, Debug, PartialEq, Eq, Hash, Structural)]
pub enum TextCacheKey {
    Lyric { monitor: u32, line: u32, hash: u64 },
    TrackInfo { monitor: u32, hash: u64 },
    Weather { monitor: u32, hash: u64 },
}

/// What `rustc_hash::FxHasher` yields for a string hashed with `Hash`.
pub uninterp spec fn fx_str_hash(text: Seq<char>) -> u64;

/// Hashes `s` with `rustc_hash::FxHasher` (through `str`'s `Hash` impl).
/// The contract claims that the hash is a function of the text alone: the
/// hasher has no seed, so equal texts hash equally in every process.
#[verifier::external_body]
fn fx_hash_of(s: &str) -> (h: u64)
    ensures
        h == fx_str_hash(s@),
{
    let mut hasher = rustc_hash::FxHasher::default();
    s.hash(&mut hasher);
    hasher.finish()
}

/// Fast non-cryptographic hash of a text, used to key shaped-text caches
/// (collision resistance is not needed there).
pub fn hash_str(s: &str) -> (r: u64)
    ensures
        r == fx_str_hash(s@),
{
    fx_hash_of(s)
}

/// Title, artist and album of a track.
pub struct TrackLabel {
    pub title: String,
    pub artist: String,
    pub album: String,
}

/// The track line as drawn: `<title> — <artist>` over `<album>`.
pub open spec fn spec_track_display_text(title: Seq<char>, artist: Seq<char>, album: Seq<char>) -> Seq<char> {
    title + " — "@ + artist + "\n"@ + album
}

impl TrackLabel {
    /// The text of the track-info block.
    pub fn display_text(&self) -> (r: String)
        ensures
            r@ == spec_track_display_text(self.title@, self.artist@, self.album@),
    {
        let mut t = self.title.clone();
        t.append(" — ");
        t.append(self.artist.as_str());
        t.append("\n");
        t.append(self.album.as_str());
        t
    }

    /// Whether late-arriving assets labelled `other` belong to this track
    /// (the track may have changed while they were being fetched).
    pub fn same_track(&self, other: &TrackLabel) -> (r: bool)
        ensures
            r == (self.title@ == other.title@ && self.artist@ == other.artist@ && self.album@
                == other.album@),
    {
        self.title.eq(&other.title) && self.artist.eq(&other.artist) && self.album.eq(&other.album)
    }
}

} // verus!
