//! The keyed diff cache: the last full item read for each identifier, and the
//! change set between it and a fresh listing of the remote store.
use vstd::prelude::*;
use crate::keyed::{
    has_key, keys_unique, lemma_map_of_at, lemma_map_of_contains, lemma_map_of_remove,
    lemma_push_unique, map_of, position_of,
};

verus! {

/// Last-modified instant reported by the remote store: whole seconds since the
/// epoch and the nanoseconds within that second.
#[derive(Debug, Clone, Copy, PartialEq, Eq, Structural)]
pub struct Timestamp {
    pub seconds: i64,
    pub subsec_nanos: u32,
}

impl Timestamp {
    /// `self` is strictly later than `other`.
    pub open spec fn later_than(self, other: Timestamp) -> bool {
        self.seconds > other.seconds || (self.seconds == other.seconds && self.subsec_nanos
            > other.subsec_nanos)
    }

    pub fn is_later_than(&self, other: &Timestamp) -> (r: bool)
        ensures
            r == self.later_than(*other),
    {
        self.seconds > other.seconds || (self.seconds == other.seconds && self.subsec_nanos
            > other.subsec_nanos)
    }
}

/// How a cached identifier differs from the remote listing.
#[derive(Debug, Clone, Copy, PartialEq, Eq, Structural)]
pub enum CacheChange {
    /// Listed remotely, not cached.
    Created,
    /// Cached, and listed remotely with a strictly later timestamp.
    Updated,
    /// Cached, no longer listed remotely.
    Deleted,
}

/// A full remote item together with its last-modified timestamp.
#[derive(Debug, Clone, PartialEq)]
pub struct Cached<V> {
    pub last_updated: Timestamp,
    pub item: V,
}

/// The timestamps of a cache's entries.
pub open spec fn stamps<V>(m: Map<Seq<char>, Cached<V>>) -> Map<Seq<char>, Timestamp> {
    Map::new(|k: Seq<char>| m.contains_key(k), |k: Seq<char>| m[k].last_updated)
}

/// Identifier `k` needs action: it is known to exactly one side, or the remote
/// timestamp is strictly later than the cached one.
pub open spec fn differs(c: Map<Seq<char>, Timestamp>, r: Map<Seq<char>, Timestamp>, k: Seq<char>) -> bool {
    (c.contains_key(k) && !r.contains_key(k)) || (!c.contains_key(k) && r.contains_key(k)) || (
    c.contains_key(k) && r.contains_key(k) && r[k].later_than(c[k]))
}

/// The kind of change for an identifier that differs.
pub open spec fn change_kind(c: Map<Seq<char>, Timestamp>, r: Map<Seq<char>, Timestamp>, k: Seq<char>) -> CacheChange {
    if !r.contains_key(k) {
        CacheChange::Deleted
    } else if !c.contains_key(k) {
        CacheChange::Created
    } else {
        CacheChange::Updated
    }
}

/// The change set between cached timestamps `c` and listed timestamps `r`.
pub open spec fn diff(c: Map<Seq<char>, Timestamp>, r: Map<Seq<char>, Timestamp>) -> Map<Seq<char>, CacheChange> {
    Map::new(|k: Seq<char>| differs(c, r, k), |k: Seq<char>| change_kind(c, r, k))
}

/// A cache map after storing, in order, the successfully read items of `s`.
pub open spec fn stored<V, E>(m: Map<Seq<char>, Cached<V>>, s: Seq<(String, Result<Cached<V>, E>)>) -> Map<Seq<char>, Cached<V>>
    decreases s.len(),
{
    if s.len() == 0 {
        m
    } else {
        let prev = stored(m, s.drop_last());
        match s.last().1 {
            Ok(item) => prev.insert(s.last().0@, item),
            Err(_) => prev,
        }
    }
}

/// The diff holds exactly the identifiers known to one side only, and those
/// known to both whose listed timestamp is strictly later than the cached one.
pub proof fn lemma_diff_minimality(c: Map<Seq<char>, Timestamp>, r: Map<Seq<char>, Timestamp>, k: Seq<char>)
    ensures
        diff(c, r).contains_key(k) <==> (c.contains_key(k) != r.contains_key(k) || (c.contains_key(k)
            && r.contains_key(k) && r[k].later_than(c[k]))),
{
}

proof fn lemma_stored<V, E>(m: Map<Seq<char>, Cached<V>>, s: Seq<(String, Result<Cached<V>, E>)>, k: Seq<char>)
    requires
        forall|i: int| 0 <= i < s.len() ==> (#[trigger] s[i]).1 is Ok,
    ensures
        stored(m, s).contains_key(k) <==> (m.contains_key(k) || has_key(s, k)),
        !has_key(s, k) && m.contains_key(k) ==> stored(m, s)[k] == m[k],
        has_key(s, k) ==> exists|i: int| 0 <= i < s.len() && #[trigger] s[i].0@ == k
            && stored(m, s)[k] == s[i].1->Ok_0,
    decreases s.len(),
{
    if s.len() > 0 {
        let p = s.drop_last();
        assert forall|i: int| 0 <= i < p.len() implies (#[trigger] p[i]).1 is Ok by {
            assert(p[i] == s[i]);
        }
        lemma_stored(m, p, k);
        assert(s.last() == s[s.len() - 1]);
        if has_key(p, k) {
            let i = choose|i: int| 0 <= i < p.len() && #[trigger] p[i].0@ == k && stored(m, p)[k] == p[i].1->Ok_0;
            assert(p[i] == s[i]);
        }
        if has_key(s, k) && s.last().0@ != k {
            let i = choose|i: int| 0 <= i < s.len() && #[trigger] s[i].0@ == k;
            assert(p[i] == s[i]);
        }
        if has_key(p, k) {
            let i = choose|i: int| 0 <= i < p.len() && #[trigger] p[i].0@ == k;
            assert(p[i] == s[i]);
        }
        if s.last().0@ == k {
            assert(s[s.len() - 1].0@ == k);
        }
    }
}

/// A refresh is idempotent: once `begin_refresh` has dropped the entries
/// that are no longer listed and every identifier it returned has been read
/// and stored with the timestamp the listing gave, a second diff against the
/// same listing is empty.
pub proof fn lemma_refresh_is_idempotent<V, E>(
    before: Map<Seq<char>, Cached<V>>,
    listed: Map<Seq<char>, Timestamp>,
    to_read: Map<Seq<char>, CacheChange>,
    reads: Seq<(String, Result<Cached<V>, E>)>,
)
    requires
        to_read == Map::new(
            |k: Seq<char>| diff(stamps(before), listed).contains_key(k) && diff(stamps(before), listed)[k]
                != CacheChange::Deleted,
            |k: Seq<char>| diff(stamps(before), listed)[k],
        ),
        forall|i: int| 0 <= i < reads.len() ==> (#[trigger] reads[i]).1 is Ok && to_read.contains_key(reads[i].0@)
            && reads[i].1->Ok_0.last_updated == listed[reads[i].0@],
        forall|k: Seq<char>| #[trigger] to_read.contains_key(k) ==> has_key(reads, k),
    ensures
        diff(stamps(stored(before.restrict(listed.dom()), reads)), listed) == Map::<Seq<char>, CacheChange>::empty(),
{
    let m = before.restrict(listed.dom());
    let after = stamps(stored(m, reads));
    assert forall|k: Seq<char>| !#[trigger] differs(after, listed, k) by {
        lemma_stored(m, reads, k);
        if has_key(reads, k) {
            let i = choose|i: int| 0 <= i < reads.len() && #[trigger] reads[i].0@ == k && stored(m, reads)[k]
                == reads[i].1->Ok_0;
            assert(to_read.contains_key(k));
            assert(listed.contains_key(k));
        } else if listed.contains_key(k) {
            assert(!to_read.contains_key(k));
            assert(before.contains_key(k));
        }
    }
    assert(diff(after, listed) =~= Map::<Seq<char>, CacheChange>::empty());
}

/// In-memory cache from identifier to the last full item read for it.
#[derive(Debug)]
pub struct DiffCache<V> {
    entries: Vec<(String, Cached<V>)>,
}

impl<V> DiffCache<V> {
    /// The cache as a map from identifier text to entry.
    pub closed spec fn view(&self) -> Map<Seq<char>, Cached<V>> {
        map_of(self.entries@)
    }

    /// No two entries share an identifier.
    pub closed spec fn wf(&self) -> bool {
        keys_unique(self.entries@)
    }

    /// An empty cache.
    pub fn new() -> (r: Self)
        ensures
            r.wf(),
            r@ == Map::<Seq<char>, Cached<V>>::empty(),
    {
        let r = DiffCache { entries: Vec::new() };
        assert(r@ =~= Map::<Seq<char>, Cached<V>>::empty());
        r
    }

    /// The cached pairs of identifier and entry, in no particular order.
    pub fn entries(&self) -> (r: &Vec<(String, Cached<V>)>)
        requires
            self.wf(),
        ensures
            keys_unique(r@),
            map_of(r@) == self@,
    {
        &self.entries
    }

    /// Number of cached identifiers.
    pub fn len(&self) -> (r: usize)
        requires
            self.wf(),
        ensures
            r == self@.len(),
    {
        proof {
            self.lemma_len();
        }
        self.entries.len()
    }

    proof fn lemma_len(&self)
        requires
            self.wf(),
        ensures
            self@.dom().finite(),
            self@.len() == self.entries@.len(),
        decreases self.entries@.len(),
    {
        lemma_len_of(self.entries@);
    }

    /// The entry cached for `key`, if any.
    pub fn get(&self, key: &String) -> (r: Option<&Cached<V>>)
        requires
            self.wf(),
        ensures
            r.is_some() == self@.contains_key(key@),
            r.is_some() ==> *r.unwrap() == self@[key@],
    {
        proof {
            lemma_map_of_contains(self.entries@, key@);
        }
        match position_of(&self.entries, key) {
            Some(i) => {
                proof {
                    lemma_map_of_at(self.entries@, i as int);
                }
                Some(&self.entries[i].1)
            },
            None => None,
        }
    }

    /// Stores `value` for `key`, returning the entry it replaces.
    pub fn put(&mut self, key: String, value: Cached<V>) -> (r: Option<Cached<V>>)
        requires
            old(self).wf(),
        ensures
            final(self).wf(),
            final(self)@ == old(self)@.insert(key@, value),
            r.is_some() == old(self)@.contains_key(key@),
            r.is_some() ==> r.unwrap() == old(self)@[key@],
    {
        proof {
            lemma_map_of_contains(self.entries@, key@);
        }
        match position_of(&self.entries, &key) {
            Some(i) => {
                proof {
                    lemma_map_of_at(self.entries@, i as int);
                    lemma_map_of_remove(self.entries@, i as int);
                }
                let ghost before = self.entries@;
                let removed = self.entries.remove(i);
                proof {
                    lemma_map_of_contains(self.entries@, key@);
                    lemma_push_unique(self.entries@, (key, value));
                    assert(map_of(before).remove(key@).insert(key@, value) =~= map_of(
                        before,
                    ).insert(key@, value));
                }
                self.entries.push((key, value));
                Some(removed.1)
            },
            None => {
                proof {
                    lemma_push_unique(self.entries@, (key, value));
                }
                self.entries.push((key, value));
                None
            },
        }
    }

    /// The change set between this cache and a remote listing of identifiers
    /// with their last-modified timestamps: an entry for exactly the
    /// identifiers that differ, and no other.
    pub fn get_pending_updates(&self, listed: &Vec<(String, Timestamp)>) -> (r: Vec<(String, CacheChange)>)
        requires
            self.wf(),
            keys_unique(listed@),
        ensures
            keys_unique(r@),
            map_of(r@) == diff(stamps(self@), map_of(listed@)),
    {
        let ghost c = stamps(self@);
        let ghost rm = map_of(listed@);
        let ghost es = self.entries@;
        let mut out: Vec<(String, CacheChange)> = Vec::new();
        let mut i: usize = 0;
        while i < self.entries.len()
            invariant
                es == self.entries@,
                c == stamps(self@),
                rm == map_of(listed@),
                keys_unique(es),
                i <= es.len(),
                keys_unique(out@),
                forall|m: int| 0 <= m < out@.len() ==> has_key(es.subrange(0, i as int), #[trigger] out@[m].0@),
                map_of(out@) == Map::new(
                    |k: Seq<char>| has_key(es.subrange(0, i as int), k) && !rm.contains_key(k),
                    |k: Seq<char>| CacheChange::Deleted,
                ),
            decreases es.len() - i,
        {
            let key = &self.entries[i].0;
            proof {
                lemma_map_of_contains(listed@, key@);
            }
            let found = position_of(listed, key);
            let ghost pre = es.subrange(0, i as int);
            let ghost post = es.subrange(0, i + 1);
            proof {
                assert forall|k: Seq<char>| has_key(post, k) <==> (has_key(pre, k) || k == es[i as int].0@) by {
                    if has_key(post, k) {
                        let j = choose|j: int| 0 <= j < post.len() && #[trigger] post[j].0@ == k;
                        if j < i {
                            assert(pre[j] == post[j]);
                        }
                    }
                    if has_key(pre, k) {
                        let j = choose|j: int| 0 <= j < pre.len() && #[trigger] pre[j].0@ == k;
                        assert(pre[j] == post[j]);
                    }
                    if k == es[i as int].0@ {
                        assert(post[i as int] == es[i as int]);
                    }
                }
                assert(!has_key(pre, es[i as int].0@)) by {
                    if has_key(pre, es[i as int].0@) {
                        let j = choose|j: int| 0 <= j < pre.len() && #[trigger] pre[j].0@ == es[i as int].0@;
                        assert(pre[j] == es[j]);
                    }
                }
            }
            if found.is_none() {
                proof {
                    assert(!has_key(out@, key@)) by {
                        if has_key(out@, key@) {
                            let m = choose|m: int| 0 <= m < out@.len() && #[trigger] out@[m].0@ == key@;
                            assert(has_key(pre, out@[m].0@));
                        }
                    }
                }
                let owned = key.clone();
                proof {
                    lemma_push_unique(out@, (owned, CacheChange::Deleted));
                }
                let ghost old_out = out@;
                out.push((owned, CacheChange::Deleted));
                proof {
                    assert forall|m: int| 0 <= m < out@.len() implies has_key(post, #[trigger] out@[m].0@) by {
                        if m < old_out.len() {
                            assert(out@[m] == old_out[m]);
                        }
                    }
                }
            } else {
                proof {
                    assert forall|m: int| 0 <= m < out@.len() implies has_key(post, #[trigger] out@[m].0@) by {
                        assert(has_key(pre, out@[m].0@));
                    }
                }
            }
            i = i + 1;
            proof {
                assert(map_of(out@) =~= Map::new(
                    |k: Seq<char>| has_key(es.subrange(0, i as int), k) && !rm.contains_key(k),
                    |k: Seq<char>| CacheChange::Deleted,
                ));
            }
        }
        proof {
            assert(es.subrange(0, es.len() as int) =~= es);
        }
        let ghost deleted = map_of(out@);
        let ghost ls = listed@;
        proof {
            assert forall|m: int| 0 <= m < out@.len() implies #[trigger] deleted.contains_key(out@[m].0@) by {
                lemma_map_of_contains(out@, out@[m].0@);
            }
        }
        let mut j: usize = 0;
        while j < listed.len()
            invariant
                es == self.entries@,
                ls == listed@,
                c == stamps(self@),
                rm == map_of(listed@),
                keys_unique(es),
                keys_unique(ls),
                j <= ls.len(),
                keys_unique(out@),
                deleted == Map::new(
                    |k: Seq<char>| has_key(es, k) && !rm.contains_key(k),
                    |k: Seq<char>| CacheChange::Deleted,
                ),
                forall|m: int| 0 <= m < out@.len() ==> #[trigger] deleted.contains_key(out@[m].0@)
                    || has_key(ls.subrange(0, j as int), out@[m].0@),
                map_of(out@) == Map::new(
                    |k: Seq<char>| deleted.contains_key(k) || (has_key(ls.subrange(0, j as int), k) && differs(c, rm, k)),
                    |k: Seq<char>| change_kind(c, rm, k),
                ),
            decreases ls.len() - j,
        {
            let key = &listed[j].0;
            let stamp = &listed[j].1;
            let ghost pre = ls.subrange(0, j as int);
            let ghost post = ls.subrange(0, j + 1);
            proof {
                lemma_map_of_at(ls, j as int);
                lemma_map_of_contains(es, key@);
                assert forall|k: Seq<char>| has_key(post, k) <==> (has_key(pre, k) || k == ls[j as int].0@) by {
                    if has_key(post, k) {
                        let q = choose|q: int| 0 <= q < post.len() && #[trigger] post[q].0@ == k;
                        if q < j {
                            assert(pre[q] == post[q]);
                        }
                    }
                    if has_key(pre, k) {
                        let q = choose|q: int| 0 <= q < pre.len() && #[trigger] pre[q].0@ == k;
                        assert(pre[q] == post[q]);
                    }
                    if k == ls[j as int].0@ {
                        assert(post[j as int] == ls[j as int]);
                    }
                }
                assert(!has_key(pre, ls[j as int].0@)) by {
                    if has_key(pre, ls[j as int].0@) {
                        let q = choose|q: int| 0 <= q < pre.len() && #[trigger] pre[q].0@ == ls[j as int].0@;
                        assert(pre[q] == ls[q]);
                    }
                }
                assert(!has_key(out@, key@)) by {
                    if has_key(out@, key@) {
                        let m = choose|m: int| 0 <= m < out@.len() && #[trigger] out@[m].0@ == key@;
                        assert(deleted.contains_key(out@[m].0@) || has_key(pre, out@[m].0@));
                    }
                }
            }
            let ghost old_out = out@;
            let change: Option<CacheChange> = match position_of(&self.entries, key) {
                None => Some(CacheChange::Created),
                Some(idx) => {
                    proof {
                        lemma_map_of_at(es, idx as int);
                    }
                    if stamp.is_later_than(&self.entries[idx].1.last_updated) {
                        Some(CacheChange::Updated)
                    } else {
                        None
                    }
                },
            };
            match change {
                Some(kind) => {
                    let owned = key.clone();
                    proof {
                        lemma_push_unique(out@, (owned, kind));
                    }
                    out.push((owned, kind));
                },
                None => {},
            }
            proof {
                assert forall|m: int| 0 <= m < out@.len() implies #[trigger] deleted.contains_key(out@[m].0@)
                    || has_key(post, out@[m].0@) by {
                    if m < old_out.len() {
                        assert(out@[m] == old_out[m]);
                    }
                }
            }
            j = j + 1;
            proof {
                assert(map_of(out@) =~= Map::new(
                    |k: Seq<char>| deleted.contains_key(k) || (has_key(ls.subrange(0, j as int), k) && differs(c, rm, k)),
                    |k: Seq<char>| change_kind(c, rm, k),
                ));
            }
        }
        proof {
            assert(ls.subrange(0, ls.len() as int) =~= ls);
            assert forall|k: Seq<char>| #[trigger] map_of(out@).contains_key(k) <==> differs(c, rm, k) by {
                lemma_map_of_contains(es, k);
                lemma_map_of_contains(ls, k);
            }
            assert(map_of(out@) =~= diff(c, rm));
        }
        out
    }

    /// First half of a refresh against a remote listing: drops every entry
    /// that is no longer listed, and returns the identifiers that must be read
    /// in full (created or updated remotely), with their kind of change.
    pub fn begin_refresh(&mut self, listed: &Vec<(String, Timestamp)>) -> (r: Vec<(String, CacheChange)>)
        requires
            old(self).wf(),
            keys_unique(listed@),
        ensures
            final(self).wf(),
            final(self)@ == old(self)@.restrict(map_of(listed@).dom()),
            keys_unique(r@),
            map_of(r@) == Map::new(
                |k: Seq<char>| diff(stamps(old(self)@), map_of(listed@)).contains_key(k)
                    && diff(stamps(old(self)@), map_of(listed@))[k] != CacheChange::Deleted,
                |k: Seq<char>| diff(stamps(old(self)@), map_of(listed@))[k],
            ),
    {
        let ghost start = self@;
        let ghost d = diff(stamps(self@), map_of(listed@));
        let changes = self.get_pending_updates(listed);
        let ghost cs = changes@;
        let mut out: Vec<(String, CacheChange)> = Vec::new();
        let mut i: usize = 0;
        while i < changes.len()
            invariant
                cs == changes@,
                keys_unique(cs),
                map_of(cs) == d,
                i <= cs.len(),
                self.wf(),
                self@ == Map::new(
                    |k: Seq<char>| start.contains_key(k) && !(has_key(cs.subrange(0, i as int), k) && d[k] == CacheChange::Deleted),
                    |k: Seq<char>| start[k],
                ),
                keys_unique(out@),
                forall|m: int| 0 <= m < out@.len() ==> has_key(cs.subrange(0, i as int), #[trigger] out@[m].0@),
                map_of(out@) == Map::new(
                    |k: Seq<char>| has_key(cs.subrange(0, i as int), k) && d[k] != CacheChange::Deleted,
                    |k: Seq<char>| d[k],
                ),
            decreases cs.len() - i,
        {
            let ghost pre = cs.subrange(0, i as int);
            let ghost post = cs.subrange(0, i + 1);
            let key = &changes[i].0;
            proof {
                lemma_map_of_at(cs, i as int);
                assert forall|k: Seq<char>| has_key(post, k) <==> (has_key(pre, k) || k == cs[i as int].0@) by {
                    if has_key(post, k) {
                        let j = choose|j: int| 0 <= j < post.len() && #[trigger] post[j].0@ == k;
                        if j < i {
                            assert(pre[j] == post[j]);
                        }
                    }
                    if has_key(pre, k) {
                        let j = choose|j: int| 0 <= j < pre.len() && #[trigger] pre[j].0@ == k;
                        assert(pre[j] == post[j]);
                    }
                    if k == cs[i as int].0@ {
                        assert(post[i as int] == cs[i as int]);
                    }
                }
                assert(!has_key(pre, cs[i as int].0@)) by {
                    if has_key(pre, cs[i as int].0@) {
                        let j = choose|j: int| 0 <= j < pre.len() && #[trigger] pre[j].0@ == cs[i as int].0@;
                        assert(pre[j] == cs[j]);
                    }
                }
            }
            let ghost old_out = out@;
            if changes[i].1 == CacheChange::Deleted {
                let _ = self.remove(key);
            } else {
                let owned = key.clone();
                proof {
                    assert(!has_key(out@, owned@)) by {
                        if has_key(out@, owned@) {
                            let m = choose|m: int| 0 <= m < out@.len() && #[trigger] out@[m].0@ == owned@;
                            assert(has_key(pre, out@[m].0@));
                        }
                    }
                    lemma_push_unique(out@, (owned, changes[i as int].1));
                }
                out.push((owned, changes[i].1));
            }
            proof {
                assert forall|m: int| 0 <= m < out@.len() implies has_key(post, #[trigger] out@[m].0@) by {
                    if m < old_out.len() {
                        assert(out@[m] == old_out[m]);
                    }
                }
            }
            i = i + 1;
            proof {
                assert(self@ =~= Map::new(
                    |k: Seq<char>| start.contains_key(k) && !(has_key(cs.subrange(0, i as int), k) && d[k] == CacheChange::Deleted),
                    |k: Seq<char>| start[k],
                ));
                assert(map_of(out@) =~= Map::new(
                    |k: Seq<char>| has_key(cs.subrange(0, i as int), k) && d[k] != CacheChange::Deleted,
                    |k: Seq<char>| d[k],
                ));
            }
        }
        proof {
            assert(cs.subrange(0, cs.len() as int) =~= cs);
            assert forall|k: Seq<char>| #[trigger] self@.contains_key(k) <==> start.restrict(map_of(listed@).dom()).contains_key(k) by {
                lemma_map_of_contains(cs, k);
            }
            assert(self@ =~= start.restrict(map_of(listed@).dom()));
            assert forall|k: Seq<char>| #[trigger] map_of(out@).contains_key(k) <==> (d.contains_key(k) && d[k] != CacheChange::Deleted) by {
                lemma_map_of_contains(cs, k);
            }
            assert(map_of(out@) =~= Map::new(
                |k: Seq<char>| d.contains_key(k) && d[k] != CacheChange::Deleted,
                |k: Seq<char>| d[k],
            ));
        }
        out
    }

    /// Second half of a refresh: stores the full items read for the
    /// identifiers that `begin_refresh` returned, in order, and stops at the
    /// first failed read, returning its error. Items stored before that
    /// failure stay in the cache.
    pub fn store_reads<E>(&mut self, reads: Vec<(String, Result<Cached<V>, E>)>) -> (r: Result<(), E>)
        requires
            old(self).wf(),
        ensures
            final(self).wf(),
            r.is_ok() == (forall|i: int| 0 <= i < reads@.len() ==> (#[trigger] reads@[i]).1.is_ok()),
            r.is_ok() ==> final(self)@ == stored(old(self)@, reads@),
            r.is_err() ==> exists|i: int|
                0 <= i < reads@.len() && reads@[i].1 == Err::<Cached<V>, E>(r->Err_0)
                && (forall|j: int| 0 <= j < i ==> (#[trigger] reads@[j]).1.is_ok())
                && final(self)@ == stored(old(self)@, reads@.subrange(0, i)),
    {
        let ghost start = self@;
        let ghost all = reads@;
        let mut rest = reads;
        let ghost mut i: int = 0;
        while rest.len() > 0
            invariant
                self.wf(),
                all == reads@,
                start == old(self)@,
                0 <= i <= all.len(),
                rest@ == all.subrange(i, all.len() as int),
                forall|j: int| 0 <= j < i ==> (#[trigger] all[j]).1.is_ok(),
                self@ == stored(start, all.subrange(0, i)),
            decreases rest@.len(),
        {
            let ghost before = all.subrange(0, i);
            let (key, res) = rest.remove(0);
            proof {
                assert(i < all.len());
                assert(all[i] == (key, res));
            }
            match res {
                Ok(item) => {
                    self.put(key, item);
                    proof {
                        let after = all.subrange(0, i + 1);
                        assert(after.drop_last() =~= before);
                        assert(after.last() == all[i]);
                        i = i + 1;
                    }
                },
                Err(e) => {
                    proof {
                        assert(all[i].1 == Err::<Cached<V>, E>(e));
                        assert(!all[i].1.is_ok());
                    }
                    return Err(e);
                },
            }
        }
        proof {
            assert(all.subrange(0, i) =~= all);
        }
        Ok(())
    }

    /// Drops the entry for `key`, returning it.
    pub fn remove(&mut self, key: &String) -> (r: Option<Cached<V>>)
        requires
            old(self).wf(),
        ensures
            final(self).wf(),
            final(self)@ == old(self)@.remove(key@),
            r.is_some() == old(self)@.contains_key(key@),
            r.is_some() ==> r.unwrap() == old(self)@[key@],
    {
        proof {
            lemma_map_of_contains(self.entries@, key@);
        }
        match position_of(&self.entries, key) {
            Some(i) => {
                proof {
                    lemma_map_of_at(self.entries@, i as int);
                    lemma_map_of_remove(self.entries@, i as int);
                }
                let removed = self.entries.remove(i);
                Some(removed.1)
            },
            None => {
                assert(self@.remove(key@) =~= self@);
                None
            },
        }
    }
}

/// A sequence with unique identifiers stands for a map of as many entries.
pub proof fn lemma_len_of<T>(s: Seq<(String, T)>)
    requires
        keys_unique(s),
    ensures
        map_of(s).dom().finite(),
        map_of(s).len() == s.len(),
    decreases s.len(),
{
    if s.len() > 0 {
        let p = s.drop_last();
        assert(keys_unique(p)) by {
            assert forall|a: int, b: int|
                0 <= a < p.len() && 0 <= b < p.len() && a != b implies #[trigger] p[a].0@
                != #[trigger] p[b].0@ by {
                assert(p[a] == s[a] && p[b] == s[b]);
            }
        }
        lemma_len_of(p);
        lemma_map_of_contains(p, s.last().0@);
        if has_key(p, s.last().0@) {
            let i = choose|i: int| 0 <= i < p.len() && #[trigger] p[i].0@ == s.last().0@;
            assert(p[i] == s[i]);
            assert(s[i].0@ == s[s.len() - 1].0@);
        }
    }
}

} // verus!
