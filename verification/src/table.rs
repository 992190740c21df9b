//! Authoritative durable tier: one row per session in the `sessions` table.
//!
//! A row is created by the identity provider at sign-in time, keyed only by
//! the provider's own session identifier (`sb_id`); the first application
//! write links it to the application's session identifier (`app_id`).  The
//! table structure here is the verified model of that store; moving rows
//! over a network transport is the embedding's concern, not the library's.

use vstd::prelude::*;

use crate::strutil::copy_chars;

verus! {

/// One durable session row.
#[derive(Debug)]
pub struct SessionRow {
    /// The provider's internal session identifier, embedded as a token claim.
    pub sb_id: Option<String>,
    /// The application's session identifier; absent until the first write.
    pub app_id: Option<String>,
    /// The serialized identity payload; absent on a provider placeholder row.
    pub data: Option<Vec<char>>,
    /// When the row was last rewritten by a session store `save`.
    pub refreshed_at: Option<i64>,
    /// Absolute expiry timestamp of the session.
    pub expiry_date: Option<i64>,
}

/// Mathematical value of a `SessionRow`.
pub struct SessionRowView {
    pub sb_id: Option<Seq<char>>,
    pub app_id: Option<Seq<char>>,
    pub data: Option<Seq<char>>,
    pub refreshed_at: Option<int>,
    pub expiry_date: Option<int>,
}

impl View for SessionRow {
    type V = SessionRowView;

    open spec fn view(&self) -> SessionRowView {
        SessionRowView {
            sb_id: match self.sb_id {
                Some(s) => Some(s@),
                None => None,
            },
            app_id: match self.app_id {
                Some(s) => Some(s@),
                None => None,
            },
            data: match self.data {
                Some(d) => Some(d@),
                None => None,
            },
            refreshed_at: match self.refreshed_at {
                Some(t) => Some(t as int),
                None => None,
            },
            expiry_date: match self.expiry_date {
                Some(t) => Some(t as int),
                None => None,
            },
        }
    }
}

impl SessionRow {
    /// An exact copy; every field keeps its value.
    pub fn duplicate(&self) -> (r: SessionRow)
        ensures
            r@ == self@,
    {
        SessionRow {
            sb_id: match &self.sb_id {
                Some(s) => Some(s.clone()),
                None => None,
            },
            app_id: match &self.app_id {
                Some(s) => Some(s.clone()),
                None => None,
            },
            data: match &self.data {
                Some(d) => Some(copy_chars(d)),
                None => None,
            },
            refreshed_at: self.refreshed_at,
            expiry_date: self.expiry_date,
        }
    }
}

/// Position of the first row linked to application identifier `id`.
pub open spec fn spec_pos_by_app(s: Seq<SessionRowView>, id: Seq<char>) -> Option<int>
    decreases s.len(),
{
    if s.len() == 0 {
        None
    } else if s[0].app_id == Some(id) {
        Some(0int)
    } else {
        match spec_pos_by_app(s.drop_first(), id) {
            Some(i) => Some(i + 1),
            None => None,
        }
    }
}

/// Position of the first row carrying provider identifier `sb`.
pub open spec fn spec_pos_by_sb(s: Seq<SessionRowView>, sb: Seq<char>) -> Option<int>
    decreases s.len(),
{
    if s.len() == 0 {
        None
    } else if s[0].sb_id == Some(sb) {
        Some(0int)
    } else {
        match spec_pos_by_sb(s.drop_first(), sb) {
            Some(i) => Some(i + 1),
            None => None,
        }
    }
}

/// The row linked to application identifier `id`, if any.
pub open spec fn spec_table_get_by_app(s: Seq<SessionRowView>, id: Seq<char>) -> Option<
    SessionRowView,
> {
    match spec_pos_by_app(s, id) {
        Some(i) => Some(s[i]),
        None => None,
    }
}

/// The row carrying provider identifier `sb`, if any.
pub open spec fn spec_table_get_by_sb(s: Seq<SessionRowView>, sb: Seq<char>) -> Option<
    SessionRowView,
> {
    match spec_pos_by_sb(s, sb) {
        Some(i) => Some(s[i]),
        None => None,
    }
}

/// The table after an upsert keyed by application identifier: the linked
/// row's payload, expiry and refresh stamp are rewritten in place, or a new
/// row is inserted when none is linked.
pub open spec fn spec_table_upsert(
    s: Seq<SessionRowView>,
    id: Seq<char>,
    data: Seq<char>,
    expiry: int,
    now: int,
) -> Seq<SessionRowView> {
    match spec_pos_by_app(s, id) {
        Some(i) => s.update(
            i,
            SessionRowView {
                sb_id: s[i].sb_id,
                app_id: s[i].app_id,
                data: Some(data),
                refreshed_at: Some(now),
                expiry_date: Some(expiry),
            },
        ),
        None => s.push(
            SessionRowView {
                sb_id: None,
                app_id: Some(id),
                data: Some(data),
                refreshed_at: Some(now),
                expiry_date: Some(expiry),
            },
        ),
    }
}

/// The table without the row linked to `id`.
pub open spec fn spec_table_delete(s: Seq<SessionRowView>, id: Seq<char>) -> Seq<SessionRowView> {
    match spec_pos_by_app(s, id) {
        Some(i) => s.remove(i),
        None => s,
    }
}

/// The table after a first write links the provider's row `sb` to the
/// application identifier `id`; when no row carries `sb`, a fresh row is
/// inserted instead.
pub open spec fn spec_table_link(
    s: Seq<SessionRowView>,
    sb: Seq<char>,
    id: Seq<char>,
    data: Seq<char>,
    expiry: int,
) -> Seq<SessionRowView> {
    match spec_pos_by_sb(s, sb) {
        Some(i) => s.update(
            i,
            SessionRowView {
                sb_id: s[i].sb_id,
                app_id: Some(id),
                data: Some(data),
                refreshed_at: s[i].refreshed_at,
                expiry_date: Some(expiry),
            },
        ),
        None => s.push(
            SessionRowView {
                sb_id: Some(sb),
                app_id: Some(id),
                data: Some(data),
                refreshed_at: None,
                expiry_date: Some(expiry),
            },
        ),
    }
}

/// The table after the provider pre-inserts its placeholder row at sign-in.
pub open spec fn spec_table_provider_insert(
    s: Seq<SessionRowView>,
    sb: Seq<char>,
    expiry: Option<int>,
) -> Seq<SessionRowView> {
    s.push(
        SessionRowView {
            sb_id: Some(sb),
            app_id: None,
            data: None,
            refreshed_at: None,
            expiry_date: expiry,
        },
    )
}

pub proof fn lemma_pos_by_app_props(s: Seq<SessionRowView>, id: Seq<char>)
    ensures
        match spec_pos_by_app(s, id) {
            Some(i) => 0 <= i < s.len() && s[i].app_id == Some(id) && (forall|j: int|
                0 <= j < i ==> s[j].app_id != Some(id)),
            None => forall|j: int| 0 <= j < s.len() ==> s[j].app_id != Some(id),
        },
    decreases s.len(),
{
    if s.len() > 0 && s[0].app_id != Some(id) {
        lemma_pos_by_app_props(s.drop_first(), id);
        let t = s.drop_first();
        match spec_pos_by_app(t, id) {
            Some(i) => {
                assert(s[i + 1] == t[i]);
                assert forall|j: int| 0 <= j < i + 1 implies s[j].app_id != Some(id) by {
                    if j > 0 {
                        assert(t[j - 1] == s[j]);
                    }
                }
            },
            None => {
                assert forall|j: int| 0 <= j < s.len() implies s[j].app_id != Some(id) by {
                    if j > 0 {
                        assert(t[j - 1] == s[j]);
                    }
                }
            },
        }
    }
}

pub proof fn lemma_pos_by_sb_props(s: Seq<SessionRowView>, sb: Seq<char>)
    ensures
        match spec_pos_by_sb(s, sb) {
            Some(i) => 0 <= i < s.len() && s[i].sb_id == Some(sb) && (forall|j: int|
                0 <= j < i ==> s[j].sb_id != Some(sb)),
            None => forall|j: int| 0 <= j < s.len() ==> s[j].sb_id != Some(sb),
        },
    decreases s.len(),
{
    if s.len() > 0 && s[0].sb_id != Some(sb) {
        lemma_pos_by_sb_props(s.drop_first(), sb);
        let t = s.drop_first();
        match spec_pos_by_sb(t, sb) {
            Some(i) => {
                assert(s[i + 1] == t[i]);
                assert forall|j: int| 0 <= j < i + 1 implies s[j].sb_id != Some(sb) by {
                    if j > 0 {
                        assert(t[j - 1] == s[j]);
                    }
                }
            },
            None => {
                assert forall|j: int| 0 <= j < s.len() implies s[j].sb_id != Some(sb) by {
                    if j > 0 {
                        assert(t[j - 1] == s[j]);
                    }
                }
            },
        }
    }
}

pub proof fn lemma_pos_by_app_first_match(s: Seq<SessionRowView>, id: Seq<char>, i: int)
    requires
        0 <= i < s.len(),
        s[i].app_id == Some(id),
        forall|j: int| 0 <= j < i ==> s[j].app_id != Some(id),
    ensures
        spec_pos_by_app(s, id) == Some(i),
    decreases s.len(),
{
    if i > 0 {
        lemma_pos_by_app_first_match(s.drop_first(), id, i - 1);
    }
}

pub proof fn lemma_pos_by_app_absent(s: Seq<SessionRowView>, id: Seq<char>)
    requires
        forall|j: int| 0 <= j < s.len() ==> s[j].app_id != Some(id),
    ensures
        spec_pos_by_app(s, id) is None,
    decreases s.len(),
{
    if s.len() > 0 {
        lemma_pos_by_app_absent(s.drop_first(), id);
    }
}

pub proof fn lemma_pos_by_sb_first_match(s: Seq<SessionRowView>, sb: Seq<char>, i: int)
    requires
        0 <= i < s.len(),
        s[i].sb_id == Some(sb),
        forall|j: int| 0 <= j < i ==> s[j].sb_id != Some(sb),
    ensures
        spec_pos_by_sb(s, sb) == Some(i),
    decreases s.len(),
{
    if i > 0 {
        lemma_pos_by_sb_first_match(s.drop_first(), sb, i - 1);
    }
}

pub proof fn lemma_pos_by_sb_absent(s: Seq<SessionRowView>, sb: Seq<char>)
    requires
        forall|j: int| 0 <= j < s.len() ==> s[j].sb_id != Some(sb),
    ensures
        spec_pos_by_sb(s, sb) is None,
    decreases s.len(),
{
    if s.len() > 0 {
        lemma_pos_by_sb_absent(s.drop_first(), sb);
    }
}

/// The authoritative durable tier.
#[derive(Debug)]
pub struct SessionTable {
    rows: Vec<SessionRow>,
}

impl View for SessionTable {
    type V = Seq<SessionRowView>;

    closed spec fn view(&self) -> Seq<SessionRowView> {
        Seq::new(self.rows@.len(), |i: int| self.rows@[i]@)
    }
}

impl SessionTable {
    /// Structural invariant: at most one row per linked application
    /// identifier, at most one row per provider identifier.
    pub open spec fn wf(&self) -> bool {
        &&& forall|i: int, j: int|
            0 <= i < j < self@.len() && (#[trigger] self@[i].app_id) is Some ==> self@[i].app_id
                != (#[trigger] self@[j].app_id)
        &&& forall|i: int, j: int|
            0 <= i < j < self@.len() && (#[trigger] self@[i].sb_id) is Some ==> self@[i].sb_id
                != (#[trigger] self@[j].sb_id)
    }

    /// An empty table.
    pub fn new() -> (r: SessionTable)
        ensures
            r.wf(),
            r@ == Seq::<SessionRowView>::empty(),
    {
        let r = SessionTable { rows: Vec::new() };
        assert(r@ =~= Seq::<SessionRowView>::empty());
        r
    }

    /// How many rows the table holds.
    pub fn row_count(&self) -> (n: usize)
        ensures
            n as nat == self@.len(),
    {
        self.rows.len()
    }

    fn find_pos_by_app(&self, id: &String) -> (r: Option<usize>)
        ensures
            match r {
                Some(i) => spec_pos_by_app(self@, id@) == Some(i as int),
                None => spec_pos_by_app(self@, id@) is None,
            },
    {
        let mut i: usize = 0;
        while i < self.rows.len()
            invariant
                i <= self@.len(),
                self@.len() == self.rows@.len(),
                forall|j: int| 0 <= j < i ==> self@[j].app_id != Some(id@),
            decreases self@.len() - i,
        {
            let matches_id = match &self.rows[i].app_id {
                Some(a) => *a == *id,
                None => false,
            };
            if matches_id {
                proof {
                    lemma_pos_by_app_first_match(self@, id@, i as int);
                }
                return Some(i);
            }
            i = i + 1;
        }
        proof {
            lemma_pos_by_app_absent(self@, id@);
        }
        None
    }

    fn find_pos_by_sb(&self, sb: &String) -> (r: Option<usize>)
        ensures
            match r {
                Some(i) => spec_pos_by_sb(self@, sb@) == Some(i as int),
                None => spec_pos_by_sb(self@, sb@) is None,
            },
    {
        let mut i: usize = 0;
        while i < self.rows.len()
            invariant
                i <= self@.len(),
                self@.len() == self.rows@.len(),
                forall|j: int| 0 <= j < i ==> self@[j].sb_id != Some(sb@),
            decreases self@.len() - i,
        {
            let matches_sb = match &self.rows[i].sb_id {
                Some(a) => *a == *sb,
                None => false,
            };
            if matches_sb {
                proof {
                    lemma_pos_by_sb_first_match(self@, sb@, i as int);
                }
                return Some(i);
            }
            i = i + 1;
        }
        proof {
            lemma_pos_by_sb_absent(self@, sb@);
        }
        None
    }

    /// The row linked to `id`; absence is a normal outcome, not an error.
    pub fn get_by_app(&self, id: &String) -> (r: Option<SessionRow>)
        ensures
            match r {
                Some(row) => spec_table_get_by_app(self@, id@) == Some(row@),
                None => spec_table_get_by_app(self@, id@) is None,
            },
    {
        match self.find_pos_by_app(id) {
            Some(i) => {
                proof {
                    lemma_pos_by_app_props(self@, id@);
                }
                Some(self.rows[i].duplicate())
            },
            None => None,
        }
    }

    /// The row carrying provider identifier `sb`.
    pub fn get_by_sb(&self, sb: &String) -> (r: Option<SessionRow>)
        ensures
            match r {
                Some(row) => spec_table_get_by_sb(self@, sb@) == Some(row@),
                None => spec_table_get_by_sb(self@, sb@) is None,
            },
    {
        match self.find_pos_by_sb(sb) {
            Some(i) => {
                proof {
                    lemma_pos_by_sb_props(self@, sb@);
                }
                Some(self.rows[i].duplicate())
            },
            None => None,
        }
    }

    /// Rewrites the payload, expiry and refresh stamp of the row linked to
    /// `id`, inserting the row if none is linked yet.
    pub fn upsert_by_app(&mut self, id: &String, data: &Vec<char>, expiry: i64, now: i64)
        requires
            old(self).wf(),
        ensures
            final(self).wf(),
            final(self)@ == spec_table_upsert(old(self)@, id@, data@, expiry as int, now as int),
    {
        let ghost s0 = self@;
        proof {
            lemma_pos_by_app_props(s0, id@);
        }
        match self.find_pos_by_app(id) {
            Some(i) => {
                let sb_id = match &self.rows[i].sb_id {
                    Some(s) => Some(s.clone()),
                    None => None,
                };
                let app_id = match &self.rows[i].app_id {
                    Some(s) => Some(s.clone()),
                    None => None,
                };
                let row = SessionRow {
                    sb_id,
                    app_id,
                    data: Some(copy_chars(data)),
                    refreshed_at: Some(now),
                    expiry_date: Some(expiry),
                };
                self.rows.set(i, row);
                assert(self@ =~= spec_table_upsert(s0, id@, data@, expiry as int, now as int));
            },
            None => {
                self.rows.push(
                    SessionRow {
                        sb_id: None,
                        app_id: Some(id.clone()),
                        data: Some(copy_chars(data)),
                        refreshed_at: Some(now),
                        expiry_date: Some(expiry),
                    },
                );
                assert(self@ =~= spec_table_upsert(s0, id@, data@, expiry as int, now as int));
            },
        }
        proof {
            lemma_wf_after_upsert(s0, id@, data@, expiry as int, now as int);
        }
    }

    /// Removes the row linked to `id`, if any.
    pub fn delete_by_app(&mut self, id: &String)
        requires
            old(self).wf(),
        ensures
            final(self).wf(),
            final(self)@ == spec_table_delete(old(self)@, id@),
    {
        let ghost s0 = self@;
        proof {
            lemma_pos_by_app_props(s0, id@);
        }
        match self.find_pos_by_app(id) {
            Some(i) => {
                self.rows.remove(i);
                assert(self@ =~= spec_table_delete(s0, id@));
            },
            None => {
                assert(self@ =~= spec_table_delete(s0, id@));
            },
        }
        proof {
            lemma_wf_after_delete(s0, id@);
        }
    }

    /// First application write of a new session: links the provider's
    /// pre-inserted row to `id` in place, or inserts a fresh row when no row
    /// carries `sb`.
    pub fn link_by_sb(&mut self, sb: &String, id: &String, data: &Vec<char>, expiry: i64)
        requires
            old(self).wf(),
            spec_pos_by_app(old(self)@, id@) is None,
        ensures
            final(self).wf(),
            final(self)@ == spec_table_link(old(self)@, sb@, id@, data@, expiry as int),
    {
        let ghost s0 = self@;
        proof {
            lemma_pos_by_sb_props(s0, sb@);
            lemma_pos_by_app_props(s0, id@);
        }
        match self.find_pos_by_sb(sb) {
            Some(i) => {
                let sb_id = match &self.rows[i].sb_id {
                    Some(s) => Some(s.clone()),
                    None => None,
                };
                let row = SessionRow {
                    sb_id,
                    app_id: Some(id.clone()),
                    data: Some(copy_chars(data)),
                    refreshed_at: self.rows[i].refreshed_at,
                    expiry_date: Some(expiry),
                };
                self.rows.set(i, row);
                assert(self@ =~= spec_table_link(s0, sb@, id@, data@, expiry as int));
            },
            None => {
                self.rows.push(
                    SessionRow {
                        sb_id: Some(sb.clone()),
                        app_id: Some(id.clone()),
                        data: Some(copy_chars(data)),
                        refreshed_at: None,
                        expiry_date: Some(expiry),
                    },
                );
                assert(self@ =~= spec_table_link(s0, sb@, id@, data@, expiry as int));
            },
        }
        proof {
            lemma_wf_after_link(s0, sb@, id@, data@, expiry as int);
        }
    }

    /// Models the provider's own trigger inserting a placeholder row for a
    /// new provider session at sign-in time.
    pub fn provider_insert(&mut self, sb: &String, expiry: Option<i64>)
        requires
            old(self).wf(),
            spec_pos_by_sb(old(self)@, sb@) is None,
        ensures
            final(self).wf(),
            final(self)@ == spec_table_provider_insert(
                old(self)@,
                sb@,
                match expiry {
                    Some(t) => Some(t as int),
                    None => None,
                },
            ),
    {
        let ghost s0 = self@;
        proof {
            lemma_pos_by_sb_props(s0, sb@);
        }
        self.rows.push(
            SessionRow {
                sb_id: Some(sb.clone()),
                app_id: None,
                data: None,
                refreshed_at: None,
                expiry_date: expiry,
            },
        );
        assert(self@ =~= spec_table_provider_insert(
            s0,
            sb@,
            match expiry {
                Some(t) => Some(t as int),
                None => None,
            },
        ));
    }
}

/// After an upsert, the row linked to `id` holds exactly the written
/// payload, expiry and stamp.
pub proof fn lemma_table_get_after_upsert(
    s: Seq<SessionRowView>,
    id: Seq<char>,
    data: Seq<char>,
    expiry: int,
    now: int,
)
    requires
        forall|i: int, j: int|
            0 <= i < j < s.len() && (#[trigger] s[i].app_id) is Some ==> s[i].app_id
                != (#[trigger] s[j].app_id),
    ensures
        ({
            let t = spec_table_upsert(s, id, data, expiry, now);
            spec_table_get_by_app(t, id) matches Some(row) && row.app_id == Some(id) && row.data
                == Some(data) && row.expiry_date == Some(expiry) && row.refreshed_at == Some(now)
        }),
{
    lemma_pos_by_app_props(s, id);
    let t = spec_table_upsert(s, id, data, expiry, now);
    match spec_pos_by_app(s, id) {
        Some(i) => {
            lemma_pos_by_app_first_match(t, id, i);
        },
        None => {
            lemma_pos_by_app_first_match(t, id, s.len() as int);
        },
    }
}

/// After a delete, no row is linked to `id`.
pub proof fn lemma_table_get_after_delete(s: Seq<SessionRowView>, id: Seq<char>)
    requires
        forall|i: int, j: int|
            0 <= i < j < s.len() && (#[trigger] s[i].app_id) is Some ==> s[i].app_id
                != (#[trigger] s[j].app_id),
    ensures
        spec_table_get_by_app(spec_table_delete(s, id), id) is None,
{
    lemma_pos_by_app_props(s, id);
    let t = spec_table_delete(s, id);
    match spec_pos_by_app(s, id) {
        Some(p) => {
            assert(forall|k: int| 0 <= k < t.len() ==> t[k] == (if k < p {
                s[k]
            } else {
                s[k + 1]
            }));
            assert forall|k: int| 0 <= k < t.len() implies (#[trigger] t[k].app_id) != Some(
                id,
            ) by {
                if k < p {
                } else {
                    assert(t[k] == s[k + 1]);
                }
            }
            lemma_pos_by_app_absent(t, id);
        },
        None => {
            lemma_pos_by_app_absent(t, id);
        },
    }
}

/// A link against a pre-existing provider row rewrites that row in place —
/// the table keeps its size and the row now carries the application
/// identifier and payload; only without such a row does the table grow by
/// the one fallback insert.
pub proof fn lemma_table_link_in_place(
    s: Seq<SessionRowView>,
    sb: Seq<char>,
    id: Seq<char>,
    data: Seq<char>,
    expiry: int,
)
    requires
        forall|i: int, j: int|
            0 <= i < j < s.len() && (#[trigger] s[i].sb_id) is Some ==> s[i].sb_id
                != (#[trigger] s[j].sb_id),
    ensures
        ({
            let t = spec_table_link(s, sb, id, data, expiry);
            &&& spec_pos_by_sb(s, sb) is Some ==> t.len() == s.len()
            &&& spec_pos_by_sb(s, sb) is None ==> t.len() == s.len() + 1
            &&& spec_table_get_by_sb(t, sb) matches Some(row) && row.app_id == Some(id)
                && row.data == Some(data) && row.expiry_date == Some(expiry)
        }),
{
    lemma_pos_by_sb_props(s, sb);
    let t = spec_table_link(s, sb, id, data, expiry);
    match spec_pos_by_sb(s, sb) {
        Some(i) => {
            lemma_pos_by_sb_first_match(t, sb, i);
        },
        None => {
            lemma_pos_by_sb_first_match(t, sb, s.len() as int);
        },
    }
}

proof fn lemma_wf_after_upsert(s: Seq<SessionRowView>, id: Seq<char>, data: Seq<char>, expiry: int, now: int)
    requires
        forall|i: int, j: int|
            0 <= i < j < s.len() && (#[trigger] s[i].app_id) is Some ==> s[i].app_id
                != (#[trigger] s[j].app_id),
        forall|i: int, j: int|
            0 <= i < j < s.len() && (#[trigger] s[i].sb_id) is Some ==> s[i].sb_id
                != (#[trigger] s[j].sb_id),
    ensures
        ({
            let t = spec_table_upsert(s, id, data, expiry, now);
            &&& forall|i: int, j: int|
                0 <= i < j < t.len() && (#[trigger] t[i].app_id) is Some ==> t[i].app_id
                    != (#[trigger] t[j].app_id)
            &&& forall|i: int, j: int|
                0 <= i < j < t.len() && (#[trigger] t[i].sb_id) is Some ==> t[i].sb_id
                    != (#[trigger] t[j].sb_id)
        }),
{
    lemma_pos_by_app_props(s, id);
}

proof fn lemma_wf_after_delete(s: Seq<SessionRowView>, id: Seq<char>)
    requires
        forall|i: int, j: int|
            0 <= i < j < s.len() && (#[trigger] s[i].app_id) is Some ==> s[i].app_id
                != (#[trigger] s[j].app_id),
        forall|i: int, j: int|
            0 <= i < j < s.len() && (#[trigger] s[i].sb_id) is Some ==> s[i].sb_id
                != (#[trigger] s[j].sb_id),
    ensures
        ({
            let t = spec_table_delete(s, id);
            &&& forall|i: int, j: int|
                0 <= i < j < t.len() && (#[trigger] t[i].app_id) is Some ==> t[i].app_id
                    != (#[trigger] t[j].app_id)
            &&& forall|i: int, j: int|
                0 <= i < j < t.len() && (#[trigger] t[i].sb_id) is Some ==> t[i].sb_id
                    != (#[trigger] t[j].sb_id)
        }),
{
    lemma_pos_by_app_props(s, id);
}

proof fn lemma_wf_after_link(s: Seq<SessionRowView>, sb: Seq<char>, id: Seq<char>, data: Seq<char>, expiry: int)
    requires
        forall|i: int, j: int|
            0 <= i < j < s.len() && (#[trigger] s[i].app_id) is Some ==> s[i].app_id
                != (#[trigger] s[j].app_id),
        forall|i: int, j: int|
            0 <= i < j < s.len() && (#[trigger] s[i].sb_id) is Some ==> s[i].sb_id
                != (#[trigger] s[j].sb_id),
        spec_pos_by_app(s, id) is None,
    ensures
        ({
            let t = spec_table_link(s, sb, id, data, expiry);
            &&& forall|i: int, j: int|
                0 <= i < j < t.len() && (#[trigger] t[i].app_id) is Some ==> t[i].app_id
                    != (#[trigger] t[j].app_id)
            &&& forall|i: int, j: int|
                0 <= i < j < t.len() && (#[trigger] t[i].sb_id) is Some ==> t[i].sb_id
                    != (#[trigger] t[j].sb_id)
        }),
{
    lemma_pos_by_sb_props(s, sb);
    lemma_pos_by_app_props(s, id);
}

} // verus!
