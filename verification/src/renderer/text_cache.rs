//! The reuse cache of shaped text buffers. Shaping text is expensive, so a
//! buffer drawn this frame is kept under its `TextCacheKey` and handed back
//! when the same text is drawn again; the whole cache is dropped when it
//! grows past a limit or when fonts or lyrics change. `B` is the shaped
//! buffer type.

use vstd::prelude::*;
use crate::renderer::text::TextCacheKey;

verus! {

/// Above this many entries the cache is dropped wholesale.
pub const TEXT_CACHE_LIMIT: usize = 500;

/// The entries hold each key at most once.
pub open spec fn keys_unique<B>(s: Seq<(TextCacheKey, B)>) -> bool {
    forall|i: int, j: int| 0 <= i < j < s.len() ==> #[trigger] s[i].0 != #[trigger] s[j].0
}

/// Whether some entry has key `k`.
pub open spec fn has_key<B>(s: Seq<(TextCacheKey, B)>, k: TextCacheKey) -> bool {
    exists|i: int| 0 <= i < s.len() && #[trigger] s[i].0 == k
}

/// The entries as a map from key to buffer.
pub open spec fn entries_map<B>(s: Seq<(TextCacheKey, B)>) -> Map<TextCacheKey, B> {
    Map::new(
        |k: TextCacheKey| has_key(s, k),
        |k: TextCacheKey| s[choose|i: int| 0 <= i < s.len() && #[trigger] s[i].0 == k].1,
    )
}

proof fn lemma_lookup<B>(s: Seq<(TextCacheKey, B)>, i: int)
    requires
        keys_unique(s),
        0 <= i < s.len(),
    ensures
        entries_map(s).contains_key(s[i].0),
        entries_map(s)[s[i].0] == s[i].1,
{
    let k = s[i].0;
    assert(has_key(s, k));
    let j = choose|j: int| 0 <= j < s.len() && #[trigger] s[j].0 == k;
    if j != i {
        if j < i {
            assert(s[j].0 != s[i].0);
        } else {
            assert(s[i].0 != s[j].0);
        }
    }
}

proof fn lemma_push_new<B>(s: Seq<(TextCacheKey, B)>, k: TextCacheKey, b: B)
    requires
        keys_unique(s),
        !has_key(s, k),
    ensures
        keys_unique(s.push((k, b))),
        entries_map(s.push((k, b))) =~= entries_map(s).insert(k, b),
{
    let t = s.push((k, b));
    assert forall|i: int, j: int| 0 <= i < j < t.len() implies #[trigger] t[i].0 != #[trigger] t[j].0 by {
        if j == s.len() {
            if t[i].0 == k {
                assert(s[i].0 == k);
            }
        } else {
            assert(s[i].0 != s[j].0);
        }
    }
    assert forall|k2: TextCacheKey| #[trigger] entries_map(t).contains_key(k2) <==> entries_map(s).insert(k, b).contains_key(k2) by {
        if has_key(s, k2) {
            let i = choose|i: int| 0 <= i < s.len() && #[trigger] s[i].0 == k2;
            assert(t[i].0 == k2);
        }
        if k2 == k {
            assert(t[s.len() as int].0 == k2);
        }
        if has_key(t, k2) && k2 != k {
            let i = choose|i: int| 0 <= i < t.len() && #[trigger] t[i].0 == k2;
            assert(i < s.len());
            assert(s[i].0 == k2);
        }
    }
    assert forall|k2: TextCacheKey| #[trigger] entries_map(t).contains_key(k2) implies entries_map(t)[k2] == entries_map(s).insert(k, b)[k2] by {
        let i = choose|i: int| 0 <= i < t.len() && #[trigger] t[i].0 == k2;
        lemma_lookup(t, i);
        if i < s.len() {
            assert(s[i] == t[i]);
            lemma_lookup(s, i);
        }
    }
}

proof fn lemma_replace<B>(s: Seq<(TextCacheKey, B)>, i: int, b: B)
    requires
        keys_unique(s),
        0 <= i < s.len(),
    ensures
        keys_unique(s.update(i, (s[i].0, b))),
        entries_map(s.update(i, (s[i].0, b))) =~= entries_map(s).insert(s[i].0, b),
{
    let k = s[i].0;
    let t = s.update(i, (k, b));
    assert forall|x: int, y: int| 0 <= x < y < t.len() implies #[trigger] t[x].0 != #[trigger] t[y].0 by {
        assert(s[x].0 != s[y].0);
    }
    lemma_lookup(s, i);
    assert forall|k2: TextCacheKey| #[trigger] entries_map(t).contains_key(k2) <==> entries_map(s).insert(k, b).contains_key(k2) by {
        if has_key(s, k2) {
            let j = choose|j: int| 0 <= j < s.len() && #[trigger] s[j].0 == k2;
            assert(t[j].0 == k2);
        }
        if has_key(t, k2) {
            let j = choose|j: int| 0 <= j < t.len() && #[trigger] t[j].0 == k2;
            assert(s[j].0 == k2);
        }
    }
    assert forall|k2: TextCacheKey| #[trigger] entries_map(t).contains_key(k2) implies entries_map(t)[k2] == entries_map(s).insert(k, b)[k2] by {
        let j = choose|j: int| 0 <= j < t.len() && #[trigger] t[j].0 == k2;
        lemma_lookup(t, j);
        if j != i {
            lemma_lookup(s, j);
        }
    }
}

proof fn lemma_remove<B>(s: Seq<(TextCacheKey, B)>, i: int)
    requires
        keys_unique(s),
        0 <= i < s.len(),
    ensures
        keys_unique(s.remove(i)),
        entries_map(s.remove(i)) =~= entries_map(s).remove(s[i].0),
{
    let k = s[i].0;
    let t = s.remove(i);
    assert forall|x: int, y: int| 0 <= x < y < t.len() implies #[trigger] t[x].0 != #[trigger] t[y].0 by {
        let sx = if x < i { x } else { x + 1 };
        let sy = if y < i { y } else { y + 1 };
        assert(t[x] == s[sx]);
        assert(t[y] == s[sy]);
        assert(s[sx].0 != s[sy].0);
    }
    assert forall|k2: TextCacheKey| #[trigger] entries_map(t).contains_key(k2) <==> entries_map(s).remove(k).contains_key(k2) by {
        if has_key(s, k2) && k2 != k {
            let j = choose|j: int| 0 <= j < s.len() && #[trigger] s[j].0 == k2;
            assert(j != i);
            let tj = if j < i { j } else { j - 1 };
            assert(t[tj] == s[j]);
        }
        if has_key(t, k2) {
            let j = choose|j: int| 0 <= j < t.len() && #[trigger] t[j].0 == k2;
            let sj = if j < i { j } else { j + 1 };
            assert(t[j] == s[sj]);
            assert(sj != i);
            if sj < i {
                assert(s[sj].0 != s[i].0);
            } else {
                assert(s[i].0 != s[sj].0);
            }
        }
    }
    assert forall|k2: TextCacheKey| #[trigger] entries_map(t).contains_key(k2) implies entries_map(t)[k2] == entries_map(s).remove(k)[k2] by {
        let j = choose|j: int| 0 <= j < t.len() && #[trigger] t[j].0 == k2;
        lemma_lookup(t, j);
        let sj = if j < i { j } else { j + 1 };
        assert(t[j] == s[sj]);
        lemma_lookup(s, sj);
    }
}

proof fn lemma_len<B>(s: Seq<(TextCacheKey, B)>)
    requires
        keys_unique(s),
    ensures
        entries_map(s).dom().len() == s.len(),
        entries_map(s).dom().finite(),
{
    let keys = s.map_values(|p: (TextCacheKey, B)| p.0);
    assert(keys.no_duplicates()) by {
        assert forall|i: int, j: int| 0 <= i < keys.len() && 0 <= j < keys.len() && i != j implies keys[i] != keys[j] by {
            if i < j {
                assert(s[i].0 != s[j].0);
            } else {
                assert(s[j].0 != s[i].0);
            }
        }
    }
    keys.unique_seq_to_set();
    assert forall|k: TextCacheKey| #[trigger] entries_map(s).dom().contains(k) <==> keys.to_set().contains(k) by {
        if has_key(s, k) {
            let i = choose|i: int| 0 <= i < s.len() && #[trigger] s[i].0 == k;
            assert(keys[i] == k);
        }
        if keys.to_set().contains(k) {
            let i = choose|i: int| 0 <= i < keys.len() && keys[i] == k;
            assert(s[i].0 == k);
        }
    }
    assert(entries_map(s).dom() =~= keys.to_set());
}

/// Shaped buffers by the text they show.
pub struct TextBufferCache<B> {
    entries: Vec<(TextCacheKey, B)>,
}

impl<B> View for TextBufferCache<B> {
    type V = Map<TextCacheKey, B>;

    closed spec fn view(&self) -> Map<TextCacheKey, B> {
        entries_map(self.entries@)
    }
}

impl<B> TextBufferCache<B> {
    /// Each key is held at most once.
    pub closed spec fn wf(&self) -> bool {
        keys_unique(self.entries@)
    }

    /// An empty cache.
    pub fn new() -> (r: TextBufferCache<B>)
        ensures
            r.wf(),
            r@ == Map::<TextCacheKey, B>::empty(),
    {
        let r = TextBufferCache { entries: Vec::new() };
        assert(r@ =~= Map::<TextCacheKey, B>::empty());
        r
    }

    /// Number of cached buffers.
    pub fn len(&self) -> (n: usize)
        requires
            self.wf(),
        ensures
            n == self@.dom().len(),
    {
        proof {
            lemma_len(self.entries@);
        }
        self.entries.len()
    }

    fn position(&self, key: &TextCacheKey) -> (r: Option<usize>)
        requires
            self.wf(),
        ensures
            match r {
                Some(i) => i < self.entries@.len() && self.entries@[i as int].0 == *key,
                None => !has_key(self.entries@, *key),
            },
    {
        let mut i: usize = 0;
        while i < self.entries.len()
            invariant
                i <= self.entries@.len(),
                forall|j: int| 0 <= j < i ==> #[trigger] self.entries@[j].0 != *key,
            decreases self.entries@.len() - i,
        {
            if self.entries[i].0 == *key {
                return Some(i);
            }
            i = i + 1;
        }
        None
    }

    /// Removes and returns the buffer cached under `key`, if any.
    pub fn take_cached(&mut self, key: &TextCacheKey) -> (r: Option<B>)
        requires
            old(self).wf(),
        ensures
            final(self).wf(),
            r == (if old(self)@.contains_key(*key) {
                Some(old(self)@[*key])
            } else {
                None::<B>
            }),
            final(self)@ == old(self)@.remove(*key),
    {
        match self.position(key) {
            Some(i) => {
                proof {
                    lemma_lookup(self.entries@, i as int);
                    lemma_remove(self.entries@, i as int);
                }
                let (_, b) = self.entries.remove(i);
                Some(b)
            },
            None => {
                assert(self@ =~= old(self)@.remove(*key));
                None
            },
        }
    }

    /// Caches `buffer` under `key`, replacing any buffer cached there.
    pub fn insert(&mut self, key: TextCacheKey, buffer: B)
        requires
            old(self).wf(),
        ensures
            final(self).wf(),
            final(self)@ == old(self)@.insert(key, buffer),
    {
        match self.position(&key) {
            Some(i) => {
                proof {
                    lemma_replace(self.entries@, i as int, buffer);
                }
                self.entries.set(i, (key, buffer));
            },
            None => {
                proof {
                    lemma_push_new(self.entries@, key, buffer);
                }
                self.entries.push((key, buffer));
            },
        }
    }

    /// Drops every cached buffer (fonts or lyrics changed).
    pub fn clear_cache(&mut self)
        ensures
            final(self).wf(),
            final(self)@ == Map::<TextCacheKey, B>::empty(),
    {
        self.entries.clear();
        assert(self@ =~= Map::<TextCacheKey, B>::empty());
    }

    /// Bounds memory on setups left running for days: past
    /// `TEXT_CACHE_LIMIT` entries the whole cache is dropped.
    pub fn evict_stale_cache(&mut self)
        requires
            old(self).wf(),
        ensures
            final(self).wf(),
            old(self)@.dom().len() > TEXT_CACHE_LIMIT ==> final(self)@ == Map::<
                TextCacheKey,
                B,
            >::empty(),
            old(self)@.dom().len() <= TEXT_CACHE_LIMIT ==> final(self)@ == old(self)@,
            final(self)@.dom().len() <= TEXT_CACHE_LIMIT,
    {
        proof {
            lemma_len(self.entries@);
        }
        if self.entries.len() > TEXT_CACHE_LIMIT {
            self.clear_cache();
        }
        proof {
            lemma_len(self.entries@);
        }
    }

    /// Returns the buffers drawn this frame to the cache, in order (a later
    /// buffer under the same key replaces an earlier one), leaving `drawn`
    /// empty.
    pub fn recycle_buffers(&mut self, drawn: &mut Vec<(TextCacheKey, B)>)
        requires
            old(self).wf(),
        ensures
            final(self).wf(),
            final(self)@ == inserted_all(old(self)@, old(drawn)@),
            final(drawn)@.len() == 0,
    {
        let mut reversed: Vec<(TextCacheKey, B)> = Vec::new();
        while drawn.len() > 0
            invariant
                drawn@ + reversed@.reverse() == old(drawn)@,
            decreases drawn@.len(),
        {
            let ghost d = drawn@;
            let ghost r = reversed@;
            let item = drawn.pop().unwrap();
            reversed.push(item);
            proof {
                assert(reversed@.reverse() =~= seq![item] + r.reverse());
                assert(drawn@ + reversed@.reverse() =~= d + r.reverse());
            }
        }
        assert(reversed@.reverse() =~= old(drawn)@);
        let ghost total = reversed@.len();
        while reversed.len() > 0
            invariant
                self.wf(),
                reversed@.len() <= total,
                total == old(drawn)@.len(),
                reversed@.reverse() =~= old(drawn)@.subrange(total - reversed@.len(), total as int),
                self@ == inserted_all(old(self)@, old(drawn)@.subrange(0, total - reversed@.len())),
            decreases reversed@.len(),
        {
            let ghost r = reversed@;
            let (key, buffer) = reversed.pop().unwrap();
            let ghost done = (total - r.len()) as int;
            proof {
                assert(old(drawn)@[done] == r.last()) by {
                    assert(r.reverse()[0] == r.last());
                }
                assert(old(drawn)@.subrange(0, done + 1).drop_last() =~= old(drawn)@.subrange(0, done));
                assert(reversed@.reverse() =~= old(drawn)@.subrange(done + 1, total as int)) by {
                    assert forall|j: int| 0 <= j < reversed@.len() implies reversed@.reverse()[j] == old(drawn)@.subrange(done + 1, total as int)[j] by {
                        assert(r.reverse()[j + 1] == old(drawn)@.subrange(done, total as int)[j + 1]);
                    }
                }
            }
            self.insert(key, buffer);
        }
        assert(old(drawn)@.subrange(0, total as int) =~= old(drawn)@);
    }
}

/// `m` after inserting each `(key, buffer)` of `s` in order.
pub open spec fn inserted_all<B>(m: Map<TextCacheKey, B>, s: Seq<(TextCacheKey, B)>) -> Map<TextCacheKey, B>
    decreases s.len(),
{
    if s.len() == 0 {
        m
    } else {
        inserted_all(m, s.drop_last()).insert(s.last().0, s.last().1)
    }
}

/// A buffer cached under a key is the one handed back for that key, and
/// handing it back removes it.
pub proof fn cached_buffer_is_handed_back<B>(m: Map<TextCacheKey, B>, key: TextCacheKey, buffer: B)
    ensures
        m.insert(key, buffer).contains_key(key),
        m.insert(key, buffer)[key] == buffer,
        !m.insert(key, buffer).remove(key).contains_key(key),
{
}

/// Recycling the buffers drawn this frame makes the last one drawn under
/// each key the one cached for it, and keeps every other cached buffer.
pub proof fn recycled_buffers_are_cached<B>(m: Map<TextCacheKey, B>, drawn: Seq<(TextCacheKey, B)>, k: TextCacheKey)
    ensures
        (exists|i: int| 0 <= i < drawn.len() && drawn[i].0 == k) ==> inserted_all(m, drawn).contains_key(k),
        (forall|i: int| 0 <= i < drawn.len() ==> drawn[i].0 != k) ==> inserted_all(m, drawn).contains_key(k)
            == m.contains_key(k) && (m.contains_key(k) ==> inserted_all(m, drawn)[k] == m[k]),
        drawn.len() > 0 ==> inserted_all(m, drawn)[drawn.last().0] == drawn.last().1,
    decreases drawn.len(),
{
    if drawn.len() > 0 {
        recycled_buffers_are_cached(m, drawn.drop_last(), k);
        if exists|i: int| 0 <= i < drawn.len() && drawn[i].0 == k {
            if drawn.last().0 != k {
                let i = choose|i: int| 0 <= i < drawn.len() && drawn[i].0 == k;
                assert(i < drawn.len() - 1);
                assert(drawn.drop_last()[i].0 == k);
            }
        }
        if forall|i: int| 0 <= i < drawn.len() ==> drawn[i].0 != k {
            assert forall|i: int| 0 <= i < drawn.drop_last().len() implies drawn.drop_last()[i].0 != k by {
                assert(drawn[i].0 != k);
            }
            assert(drawn[drawn.len() - 1].0 != k);
        }
    }
}

} // verus!
