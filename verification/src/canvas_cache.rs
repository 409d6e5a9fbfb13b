//! The cache of Spotify canvas video URLs, kept in an `lru::LruCache`, and
//! the watcher's use of it when a track starts and when a fetch returns.

use vstd::prelude::*;
use crate::mpris::{opt_view, spec_spotify_track_id, MetadataUpdate};

verus! {

broadcast use vstd::string::group_string_axioms;

#[verifier::external_type_specification]
#[verifier::external_body]
#[verifier::reject_recursive_types(K)]
#[verifier::reject_recursive_types(V)]
#[verifier::reject_recursive_types(S)]
pub struct ExLruCache<K, V, S>(lru::LruCache<K, V, S>);

#[verifier::external_type_specification]
#[verifier::external_body]
pub struct ExFxBuildHasher(rustc_hash::FxBuildHasher);

/// Canvas URLs by bare Spotify track id; `None` records that the track has
/// no canvas.
pub type CanvasCache = lru::LruCache<String, Option<String>, rustc_hash::FxBuildHasher>;

/// The entries of a canvas cache.
pub uninterp spec fn canvas_entries(cache: CanvasCache) -> Map<Seq<char>, Option<Seq<char>>>;

/// The capacity a canvas cache was made with.
pub uninterp spec fn canvas_capacity(cache: CanvasCache) -> nat;

/// A canvas cache holds at most its capacity, which is positive.
pub open spec fn canvas_cache_wf(cache: CanvasCache) -> bool {
    &&& canvas_entries(cache).dom().finite()
    &&& canvas_entries(cache).dom().len() <= canvas_capacity(cache)
    &&& canvas_capacity(cache) > 0
}

/// `LruCache::with_hasher(cap, FxBuildHasher)`: an empty cache holding at
/// most `cap` entries.
#[verifier::external_body]
fn lru_with_capacity(cap: usize) -> (r: CanvasCache)
    requires
        cap > 0,
    ensures
        canvas_entries(r).dom() == Set::<Seq<char>>::empty(),
        canvas_capacity(r) == cap,
{
    lru::LruCache::with_hasher(std::num::NonZeroUsize::new(cap).unwrap(), rustc_hash::FxBuildHasher)
}

/// `LruCache::get`: the entry for `key` (cloned), if present. The entry is
/// marked most recently used; the entries themselves do not change.
#[verifier::external_body]
fn lru_get(cache: &mut CanvasCache, key: &str) -> (r: Option<Option<String>>)
    ensures
        canvas_entries(*final(cache)) == canvas_entries(*old(cache)),
        canvas_capacity(*final(cache)) == canvas_capacity(*old(cache)),
        match r {
            Some(v) => canvas_entries(*old(cache)).dom().contains(key@) && opt_view(v)
                == canvas_entries(*old(cache))[key@],
            None => !canvas_entries(*old(cache)).dom().contains(key@),
        },
{
    cache.get(key).cloned()
}

/// `LruCache::contains`: whether `key` has an entry (without touching its
/// recency).
#[verifier::external_body]
fn lru_contains(cache: &CanvasCache, key: &str) -> (r: bool)
    ensures
        r == canvas_entries(*cache).dom().contains(key@),
{
    cache.contains(key)
}

/// `LruCache::put`: `key` now maps to `value`. Other entries keep their
/// values; when `key` is new and the cache is full, exactly one other entry
/// (the least recently used) is evicted.
#[verifier::external_body]
fn lru_put(cache: &mut CanvasCache, key: String, value: Option<String>)
    requires
        canvas_cache_wf(*old(cache)),
    ensures
        canvas_cache_wf(*final(cache)),
        canvas_capacity(*final(cache)) == canvas_capacity(*old(cache)),
        canvas_entries(*final(cache)).dom().contains(key@),
        canvas_entries(*final(cache))[key@] == opt_view(value),
        forall|k: Seq<char>|
            k != key@ && #[trigger] canvas_entries(*final(cache)).dom().contains(k) ==> canvas_entries(
                *old(cache),
            ).dom().contains(k) && canvas_entries(*final(cache))[k] == canvas_entries(*old(cache))[k],
        (canvas_entries(*old(cache)).dom().contains(key@) || canvas_entries(*old(cache)).dom().len()
            < canvas_capacity(*old(cache))) ==> canvas_entries(*final(cache)).dom() == canvas_entries(
            *old(cache),
        ).dom().insert(key@),
        !(canvas_entries(*old(cache)).dom().contains(key@) || canvas_entries(*old(cache)).dom().len()
            < canvas_capacity(*old(cache))) ==> exists|victim: Seq<char>|
            #[trigger] canvas_entries(*old(cache)).dom().contains(victim) && canvas_entries(
                *final(cache),
            ).dom() == canvas_entries(*old(cache)).dom().remove(victim).insert(key@),
{
    cache.put(key, value);
}

/// A canvas cache of the watcher's size (50 tracks).
pub fn new_canvas_cache() -> (r: CanvasCache)
    ensures
        canvas_cache_wf(r),
        canvas_entries(r).dom() == Set::<Seq<char>>::empty(),
        canvas_capacity(r) == 50,
{
    let r = lru_with_capacity(50);
    proof {
        assert(canvas_entries(r).dom() =~= Set::<Seq<char>>::empty());
    }
    r
}

/// The fast stage of a track change for the canvas: a cached URL is used at
/// once (and nothing is fetched); a track without a Spotify id has no
/// canvas; an uncached Spotify track has no canvas yet and needs a fetch.
/// Returns the URL to play now and whether a fetch is needed.
pub fn cached_canvas(cache: &mut CanvasCache, meta: &MetadataUpdate) -> (r: (Option<String>, bool))
    ensures
        canvas_entries(*final(cache)) == canvas_entries(*old(cache)),
        canvas_capacity(*final(cache)) == canvas_capacity(*old(cache)),
        match spec_spotify_track_id(meta@) {
            None => r.0.is_none() && !r.1,
            Some(id) => if canvas_entries(*old(cache)).dom().contains(id) {
                opt_view(r.0) == canvas_entries(*old(cache))[id] && !r.1
            } else {
                r.0.is_none() && r.1
            },
        },
{
    match meta.spotify_track_id() {
        None => (None, false),
        Some(id) => match lru_get(cache, id.as_str()) {
            Some(cached) => (cached, false),
            None => (None, true),
        },
    }
}

/// Records the result of a canvas fetch for `meta`'s track (`fetched`:
/// `None` when no fetch was made, `Some(None)` when the track has no
/// canvas). An id already cached keeps its entry; a new one is added, every
/// other entry keeps its value, and when the cache is full exactly one other
/// entry is evicted to make room.
pub fn remember_canvas(cache: &mut CanvasCache, meta: &MetadataUpdate, fetched: Option<Option<String>>)
    requires
        canvas_cache_wf(*old(cache)),
    ensures
        canvas_cache_wf(*final(cache)),
        canvas_capacity(*final(cache)) == canvas_capacity(*old(cache)),
        match (fetched, spec_spotify_track_id(meta@)) {
            (Some(url), Some(id)) => if canvas_entries(*old(cache)).dom().contains(id) {
                canvas_entries(*final(cache)) == canvas_entries(*old(cache))
            } else {
                &&& canvas_entries(*final(cache)).dom().contains(id)
                &&& canvas_entries(*final(cache))[id] == opt_view(url)
                &&& forall|k: Seq<char>|
                    k != id && #[trigger] canvas_entries(*final(cache)).dom().contains(k)
                        ==> canvas_entries(*old(cache)).dom().contains(k) && canvas_entries(
                        *final(cache),
                    )[k] == canvas_entries(*old(cache))[k]
                &&& canvas_entries(*old(cache)).dom().len() < canvas_capacity(*old(cache))
                    ==> canvas_entries(*final(cache)).dom() == canvas_entries(
                    *old(cache),
                ).dom().insert(id)
                &&& canvas_entries(*old(cache)).dom().len() >= canvas_capacity(*old(cache))
                    ==> exists|victim: Seq<char>|
                    #[trigger] canvas_entries(*old(cache)).dom().contains(victim)
                        && canvas_entries(*final(cache)).dom() == canvas_entries(
                        *old(cache),
                    ).dom().remove(victim).insert(id)
            },
            _ => canvas_entries(*final(cache)) == canvas_entries(*old(cache)),
        },
{
    if let Some(url) = fetched {
        if let Some(id) = meta.spotify_track_id() {
            if !lru_contains(cache, id.as_str()) {
                lru_put(cache, id, url);
            }
        }
    }
}

} // verus!
