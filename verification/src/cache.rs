//! Bounded, fast, local tier of the session store.
//!
//! The cache holds at most `capacity` records, keyed by their session
//! identifier, newest at the back; storing into a full cache evicts the
//! oldest record.  It is never authoritative: a miss only sends the caller
//! to the durable tier.

use vstd::prelude::*;

use crate::session_record::{SessionRecord, SessionRecordView};

verus! {

/// Position of the first record with identifier `id`.
pub open spec fn spec_pos_by_id(s: Seq<SessionRecordView>, id: Seq<char>) -> Option<int>
    decreases s.len(),
{
    if s.len() == 0 {
        None
    } else if s[0].id == id {
        Some(0int)
    } else {
        match spec_pos_by_id(s.drop_first(), id) {
            Some(i) => Some(i + 1),
            None => None,
        }
    }
}

/// The record stored under `id`, if any.
pub open spec fn spec_cache_find(s: Seq<SessionRecordView>, id: Seq<char>) -> Option<
    SessionRecordView,
> {
    match spec_pos_by_id(s, id) {
        Some(i) => Some(s[i]),
        None => None,
    }
}

/// The cache without the record stored under `id`.
pub open spec fn spec_cache_delete(s: Seq<SessionRecordView>, id: Seq<char>) -> Seq<
    SessionRecordView,
> {
    match spec_pos_by_id(s, id) {
        Some(i) => s.remove(i),
        None => s,
    }
}

/// The cache after storing `v`: any record under the same identifier is
/// replaced, the oldest record is evicted if the cache would overflow, and
/// `v` arrives at the back.
pub open spec fn spec_cache_save(
    s: Seq<SessionRecordView>,
    cap: int,
    v: SessionRecordView,
) -> Seq<SessionRecordView> {
    let s1 = spec_cache_delete(s, v.id);
    let s2 = if s1.len() + 1 > cap {
        s1.skip(s1.len() + 1 - cap)
    } else {
        s1
    };
    s2.push(v)
}

pub proof fn lemma_pos_by_id_props(s: Seq<SessionRecordView>, id: Seq<char>)
    ensures
        match spec_pos_by_id(s, id) {
            Some(i) => 0 <= i < s.len() && s[i].id == id && (forall|j: int|
                0 <= j < i ==> s[j].id != id),
            None => forall|j: int| 0 <= j < s.len() ==> s[j].id != id,
        },
    decreases s.len(),
{
    if s.len() > 0 && s[0].id != id {
        lemma_pos_by_id_props(s.drop_first(), id);
        let t = s.drop_first();
        match spec_pos_by_id(t, id) {
            Some(i) => {
                assert(s[i + 1] == t[i]);
                assert forall|j: int| 0 <= j < i + 1 implies s[j].id != id by {
                    if j > 0 {
                        assert(t[j - 1] == s[j]);
                    }
                }
            },
            None => {
                assert forall|j: int| 0 <= j < s.len() implies s[j].id != id by {
                    if j > 0 {
                        assert(t[j - 1] == s[j]);
                    }
                }
            },
        }
    }
}

/// The first match determines the position.
pub proof fn lemma_pos_by_id_first_match(s: Seq<SessionRecordView>, id: Seq<char>, i: int)
    requires
        0 <= i < s.len(),
        s[i].id == id,
        forall|j: int| 0 <= j < i ==> s[j].id != id,
    ensures
        spec_pos_by_id(s, id) == Some(i),
    decreases s.len(),
{
    if i > 0 {
        lemma_pos_by_id_first_match(s.drop_first(), id, i - 1);
    }
}

pub proof fn lemma_pos_by_id_absent(s: Seq<SessionRecordView>, id: Seq<char>)
    requires
        forall|j: int| 0 <= j < s.len() ==> s[j].id != id,
    ensures
        spec_pos_by_id(s, id) is None,
    decreases s.len(),
{
    if s.len() > 0 {
        lemma_pos_by_id_absent(s.drop_first(), id);
    }
}

/// The bounded local cache tier.
#[derive(Debug)]
pub struct SessionCache {
    entries: Vec<SessionRecord>,
    capacity: usize,
}

impl View for SessionCache {
    type V = Seq<SessionRecordView>;

    closed spec fn view(&self) -> Seq<SessionRecordView> {
        Seq::new(self.entries@.len(), |i: int| self.entries@[i]@)
    }
}

impl SessionCache {
    pub closed spec fn spec_capacity(&self) -> int {
        self.capacity as int
    }

    /// Structural invariant: a positive bound, respected, and at most one
    /// record per identifier.
    pub open spec fn wf(&self) -> bool {
        &&& 1 <= self.spec_capacity()
        &&& self@.len() <= self.spec_capacity()
        &&& forall|i: int, j: int|
            0 <= i < j < self@.len() ==> (#[trigger] self@[i].id) != (#[trigger] self@[j].id)
    }

    /// An empty cache holding at most `capacity` records.
    pub fn new(capacity: usize) -> (r: SessionCache)
        requires
            capacity >= 1,
        ensures
            r.wf(),
            r@ == Seq::<SessionRecordView>::empty(),
            r.spec_capacity() == capacity as int,
    {
        let r = SessionCache { entries: Vec::new(), capacity };
        assert(r@ =~= Seq::<SessionRecordView>::empty());
        r
    }

    fn find_pos(&self, id: &String) -> (r: Option<usize>)
        ensures
            match r {
                Some(i) => spec_pos_by_id(self@, id@) == Some(i as int),
                None => spec_pos_by_id(self@, id@) is None,
            },
    {
        let mut i: usize = 0;
        while i < self.entries.len()
            invariant
                i <= self@.len(),
                self@.len() == self.entries@.len(),
                forall|j: int| 0 <= j < i ==> self@[j].id != id@,
        decreases self@.len() - i,
        {
            if self.entries[i].id == *id {
                proof {
                    lemma_pos_by_id_first_match(self@, id@, i as int);
                }
                return Some(i);
            }
            i = i + 1;
        }
        proof {
            lemma_pos_by_id_absent(self@, id@);
        }
        None
    }

    /// The cached record under `id`, if one is present; never an error.
    pub fn load(&self, id: &String) -> (r: Option<SessionRecord>)
        ensures
            match r {
                Some(rec) => spec_cache_find(self@, id@) == Some(rec@),
                None => spec_cache_find(self@, id@) is None,
            },
    {
        match self.find_pos(id) {
            Some(i) => {
                proof {
                    lemma_pos_by_id_props(self@, id@);
                }
                Some(self.entries[i].duplicate())
            },
            None => None,
        }
    }

    /// Stores `rec` under its identifier, evicting the oldest record if the
    /// cache is full.
    pub fn save(&mut self, rec: &SessionRecord)
        requires
            old(self).wf(),
        ensures
            final(self).wf(),
            final(self)@ == spec_cache_save(old(self)@, old(self).spec_capacity(), rec@),
            final(self).spec_capacity() == old(self).spec_capacity(),
    {
        proof {
            lemma_pos_by_id_props(self@, rec.id@);
        }
        let ghost s0 = self@;
        match self.find_pos(&rec.id) {
            Some(i) => {
                self.entries.remove(i);
                assert(self@ =~= spec_cache_delete(s0, rec@.id));
            },
            None => {
                assert(self@ =~= spec_cache_delete(s0, rec@.id));
            },
        }
        let ghost s1 = self@;
        if self.entries.len() == self.capacity {
            self.entries.remove(0);
            assert(self@ =~= s1.skip(s1.len() + 1 - self.spec_capacity()));
        }
        let ghost s2 = self@;
        self.entries.push(rec.duplicate());
        assert(self@ =~= s2.push(rec@));
        assert(self@ == spec_cache_save(s0, old(self).spec_capacity(), rec@));
        proof {
            lemma_wf_after_save(s0, old(self).spec_capacity(), rec@);
        }
    }

    /// Stores a record opened under a fresh identifier; same effect as
    /// `save`.
    pub fn create(&mut self, rec: &SessionRecord)
        requires
            old(self).wf(),
        ensures
            final(self).wf(),
            final(self)@ == spec_cache_save(old(self)@, old(self).spec_capacity(), rec@),
            final(self).spec_capacity() == old(self).spec_capacity(),
    {
        self.save(rec);
    }

    /// Removes the record under `id`, if one is present.
    pub fn delete(&mut self, id: &String)
        requires
            old(self).wf(),
        ensures
            final(self).wf(),
            final(self)@ == spec_cache_delete(old(self)@, id@),
            final(self).spec_capacity() == old(self).spec_capacity(),
    {
        proof {
            lemma_pos_by_id_props(self@, id@);
        }
        let ghost s0 = self@;
        match self.find_pos(id) {
            Some(i) => {
                self.entries.remove(i);
                assert(self@ =~= spec_cache_delete(s0, id@));
            },
            None => {
                assert(self@ =~= spec_cache_delete(s0, id@));
            },
        }
    }
}

/// Uniqueness survives a delete.
pub proof fn lemma_wf_after_delete(s: Seq<SessionRecordView>, id: Seq<char>)
    requires
        forall|i: int, j: int|
            0 <= i < j < s.len() ==> (#[trigger] s[i].id) != (#[trigger] s[j].id),
    ensures
        ({
            let t = spec_cache_delete(s, id);
            &&& t.len() <= s.len()
            &&& forall|i: int, j: int|
                0 <= i < j < t.len() ==> (#[trigger] t[i].id) != (#[trigger] t[j].id)
        }),
{
    lemma_pos_by_id_props(s, id);
    let t = spec_cache_delete(s, id);
    match spec_pos_by_id(s, id) {
        Some(p) => {
            assert(forall|k: int| 0 <= k < t.len() ==> t[k] == (if k < p {
                s[k]
            } else {
                s[k + 1]
            }));
        },
        None => {},
    }
}

/// Uniqueness and the bound survive a store.
pub proof fn lemma_wf_after_save(s: Seq<SessionRecordView>, cap: int, v: SessionRecordView)
    requires
        1 <= cap,
        s.len() <= cap,
        forall|i: int, j: int|
            0 <= i < j < s.len() ==> (#[trigger] s[i].id) != (#[trigger] s[j].id),
    ensures
        spec_cache_save(s, cap, v).len() <= cap,
        forall|i: int, j: int|
            0 <= i < j < spec_cache_save(s, cap, v).len() ==> (#[trigger] spec_cache_save(
                s,
                cap,
                v,
            )[i].id) != (#[trigger] spec_cache_save(s, cap, v)[j].id),
{
    lemma_pos_by_id_props(s, v.id);
    let s1 = spec_cache_delete(s, v.id);
    assert(forall|k: int| 0 <= k < s1.len() ==> #[trigger] s1[k].id != v.id) by {
        match spec_pos_by_id(s, v.id) {
            Some(p) => {
                assert(forall|k: int| 0 <= k < s1.len() ==> s1[k] == (if k < p {
                    s[k]
                } else {
                    s[k + 1]
                }));
            },
            None => {},
        }
    }
    let s2 = if s1.len() + 1 > cap {
        s1.skip(s1.len() + 1 - cap)
    } else {
        s1
    };
    assert(forall|i: int, j: int|
        0 <= i < j < s2.len() ==> (#[trigger] s2[i].id) != (#[trigger] s2[j].id));
    assert(forall|k: int| 0 <= k < s2.len() ==> #[trigger] s2[k].id != v.id);
}

/// A record just stored is found under its identifier.
pub proof fn lemma_cache_find_after_save(s: Seq<SessionRecordView>, cap: int, v: SessionRecordView)
    requires
        1 <= cap,
        forall|i: int, j: int|
            0 <= i < j < s.len() ==> (#[trigger] s[i].id) != (#[trigger] s[j].id),
    ensures
        spec_cache_find(spec_cache_save(s, cap, v), v.id) == Some(v),
{
    lemma_pos_by_id_props(s, v.id);
    let s1 = spec_cache_delete(s, v.id);
    assert(forall|k: int| 0 <= k < s1.len() ==> #[trigger] s1[k].id != v.id) by {
        match spec_pos_by_id(s, v.id) {
            Some(p) => {
                assert(forall|k: int| 0 <= k < s1.len() ==> s1[k] == (if k < p {
                    s[k]
                } else {
                    s[k + 1]
                }));
            },
            None => {},
        }
    }
    let s2 = if s1.len() + 1 > cap {
        s1.skip(s1.len() + 1 - cap)
    } else {
        s1
    };
    assert(forall|k: int| 0 <= k < s2.len() ==> #[trigger] s2[k].id != v.id);
    lemma_find_push_absent(s2, v);
}

/// Appending a record whose identifier is absent makes it findable.
proof fn lemma_find_push_absent(s: Seq<SessionRecordView>, v: SessionRecordView)
    requires
        forall|k: int| 0 <= k < s.len() ==> (#[trigger] s[k].id) != v.id,
    ensures
        spec_cache_find(s.push(v), v.id) == Some(v),
    decreases s.len(),
{
    if s.len() == 0 {
        assert(s.push(v)[0] == v);
    } else {
        assert(s[0].id != v.id);
        assert(s.push(v)[0] == s[0]);
        let t = s.drop_first();
        assert forall|k: int| 0 <= k < t.len() implies (#[trigger] t[k].id) != v.id by {
            assert(t[k] == s[k + 1]);
        }
        lemma_find_push_absent(t, v);
        assert(s.push(v).drop_first() =~= t.push(v));
        match spec_pos_by_id(t.push(v), v.id) {
            Some(p) => {
                lemma_pos_by_id_props(t.push(v), v.id);
                assert(spec_pos_by_id(s.push(v), v.id) == Some(p + 1));
                assert(s.push(v)[p + 1] == s.push(v).drop_first()[p]);
            },
            None => {
                assert(false);
            },
        }
    }
}

/// A record just deleted is no longer found.
pub proof fn lemma_cache_find_after_delete(s: Seq<SessionRecordView>, id: Seq<char>)
    requires
        forall|i: int, j: int|
            0 <= i < j < s.len() ==> (#[trigger] s[i].id) != (#[trigger] s[j].id),
    ensures
        spec_cache_find(spec_cache_delete(s, id), id) is None,
{
    lemma_pos_by_id_props(s, id);
    let s1 = spec_cache_delete(s, id);
    assert(forall|k: int| 0 <= k < s1.len() ==> #[trigger] s1[k].id != id) by {
        match spec_pos_by_id(s, id) {
            Some(p) => {
                assert(forall|k: int| 0 <= k < s1.len() ==> s1[k] == (if k < p {
                    s[k]
                } else {
                    s[k + 1]
                }));
            },
            None => {},
        }
    }
    lemma_pos_by_id_absent(s1, id);
}

} // verus!
