//! The query persistence store: a deduplicating map from opaque query
//! strings to stable short identifiers, with get-or-create semantics against
//! a monotonically assigned identifier. A query string is unique in the
//! store: asking again for a string that is already present returns the
//! existing identifier and never creates a duplicate record — the semantics
//! the metadata database enforces with a unique column and an
//! insert-or-ignore primitive, so that even two racing creations of the same
//! novel string end with a single identifier. Records are created lazily on
//! first request and never updated or deleted.

use vstd::prelude::*;

verus! {

/// One persisted query: its stable identifier, the query string itself, and
/// the timestamp of its creation.
pub struct QueryRecord {
    pub id: u64,
    pub querystring: String,
    pub created: String,
}

/// The deduplicating store: all records, plus the identifier the next novel
/// query string will receive.
pub struct QueryStore {
    pub records: Vec<QueryRecord>,
    pub next_id: u64,
}

/// Store invariant: every assigned identifier is below the next one to be
/// assigned, and both query strings and identifiers are unique across
/// records.
pub open spec fn store_wf(recs: Seq<QueryRecord>, next_id: u64) -> bool {
    &&& forall|k: int| 0 <= k < recs.len() ==> #[trigger] recs[k].id < next_id
    &&& forall|k1: int, k2: int|
        0 <= k1 < recs.len() && 0 <= k2 < recs.len() && k1 != k2 ==> #[trigger] recs[k1].querystring@
            != #[trigger] recs[k2].querystring@ && recs[k1].id != recs[k2].id
}

/// Whether some record holds the query string `q`.
pub open spec fn contains_string(recs: Seq<QueryRecord>, q: Seq<char>) -> bool {
    exists|k: int| 0 <= k < recs.len() && #[trigger] recs[k].querystring@ == q
}

/// The identifier of the record holding `q` (unique under the invariant).
pub open spec fn id_for(recs: Seq<QueryRecord>, q: Seq<char>) -> u64 {
    recs[choose|k: int| 0 <= k < recs.len() && #[trigger] recs[k].querystring@ == q].id
}

/// The identifier get-or-create returns for `q`: the existing one where `q`
/// is already stored, the next free one otherwise.
pub open spec fn goc_result(recs: Seq<QueryRecord>, next_id: u64, q: Seq<char>) -> u64 {
    if contains_string(recs, q) {
        id_for(recs, q)
    } else {
        next_id
    }
}

/// The records after get-or-create of `qs`: unchanged where `qs` is already
/// stored, extended by one fresh record otherwise.
pub open spec fn goc_records(
    recs: Seq<QueryRecord>,
    next_id: u64,
    qs: String,
    created: String,
) -> Seq<QueryRecord> {
    if contains_string(recs, qs@) {
        recs
    } else {
        recs.push(QueryRecord { id: next_id, querystring: qs, created })
    }
}

/// The next free identifier after get-or-create of `q`: advanced only when a
/// record was actually created.
pub open spec fn goc_next(recs: Seq<QueryRecord>, next_id: u64, q: Seq<char>) -> u64 {
    if contains_string(recs, q) {
        next_id
    } else {
        (next_id + 1) as u64
    }
}

impl QueryStore {
    /// The store's invariant, over its records and its identifier counter.
    pub open spec fn wf(self) -> bool {
        store_wf(self.records@, self.next_id)
    }

    /// A fresh, empty store. Identifiers are assigned from 1 up, as the
    /// metadata database's auto-increment column does.
    pub fn new() -> (r: QueryStore)
        ensures
            r.records@.len() == 0,
            r.next_id == 1,
            r.wf(),
    {
        QueryStore { records: Vec::new(), next_id: 1 }
    }

    /// The index of the record holding `qs`, if one does.
    fn find_index_by_string(&self, qs: &String) -> (r: Option<usize>)
        ensures
            (r matches Some(k) ==> k < self.records@.len() && self.records@[k as int].querystring@
                == qs@),
            r is None ==> !contains_string(self.records@, qs@),
    {
        let mut i: usize = 0;
        while i < self.records.len()
            invariant
                i <= self.records@.len(),
                forall|k: int| 0 <= k < i ==> #[trigger] self.records@[k].querystring@ != qs@,
            decreases self.records@.len() - i,
        {
            if self.records[i].querystring == *qs {
                return Some(i);
            }
            i = i + 1;
        }
        None
    }

    /// A point lookup by identifier: the query string of the record carrying
    /// `id` — unique under the invariant — or nothing where no record does.
    pub fn lookup(&self, id: u64) -> (r: Option<String>)
        ensures
            r is Some <==> exists|k: int|
                0 <= k < self.records@.len() && #[trigger] self.records@[k].id == id,
            (r matches Some(s) ==> exists|k: int|
                0 <= k < self.records@.len() && #[trigger] self.records@[k].id == id && s@
                    == self.records@[k].querystring@),
    {
        let mut i: usize = 0;
        while i < self.records.len()
            invariant
                i <= self.records@.len(),
                forall|k: int| 0 <= k < i ==> #[trigger] self.records@[k].id != id,
            decreases self.records@.len() - i,
        {
            if self.records[i].id == id {
                return Some(self.records[i].querystring.clone());
            }
            i = i + 1;
        }
        None
    }

    /// Get-or-create: returns the identifier already mapped to `querystring`
    /// where one exists — leaving the store untouched — and otherwise
    /// records `querystring` with the creation timestamp `created` under the
    /// next free identifier.
    pub fn get_or_create(&mut self, querystring: &String, created: String) -> (r: u64)
        requires
            old(self).wf(),
            old(self).next_id < u64::MAX,
        ensures
            final(self).wf(),
            r == goc_result(old(self).records@, old(self).next_id, querystring@),
            final(self).records@ == goc_records(
                old(self).records@,
                old(self).next_id,
                *querystring,
                created,
            ),
            final(self).next_id == goc_next(old(self).records@, old(self).next_id, querystring@),
    {
        match self.find_index_by_string(querystring) {
            Some(k) => {
                proof {
                    let recs = self.records@;
                    let q = querystring@;
                    let kc = choose|j: int|
                        0 <= j < recs.len() && #[trigger] recs[j].querystring@ == q;
                    assert(recs[kc].querystring@ == q);
                    assert(kc == k as int);
                }
                self.records[k].id
            },
            None => {
                let id = self.next_id;
                let record = QueryRecord {
                    id,
                    querystring: querystring.clone(),
                    created,
                };
                self.records.push(record);
                self.next_id = self.next_id + 1;
                id
            },
        }
    }
}

/// Well-formedness and read-back after one get-or-create: the invariant is
/// preserved, the string is stored afterwards, and its stored identifier is
/// exactly the one the call returned.
pub proof fn lemma_goc_preserves(recs: Seq<QueryRecord>, next_id: u64, qs: String, created: String)
    requires
        store_wf(recs, next_id),
        next_id < u64::MAX,
    ensures
        store_wf(goc_records(recs, next_id, qs, created), goc_next(recs, next_id, qs@)),
        contains_string(goc_records(recs, next_id, qs, created), qs@),
        id_for(goc_records(recs, next_id, qs, created), qs@) == goc_result(recs, next_id, qs@),
{
    let recs1 = goc_records(recs, next_id, qs, created);
    if contains_string(recs, qs@) {
    } else {
        assert(recs1[recs.len() as int].querystring@ == qs@);
        assert(contains_string(recs1, qs@));
        let kc = choose|k: int| 0 <= k < recs1.len() && #[trigger] recs1[k].querystring@ == qs@;
        if kc != recs.len() as int {
            assert(recs[kc].querystring@ == qs@);
            assert(false);
        }
        assert(forall|k: int| 0 <= k < recs.len() ==> recs1[k] == #[trigger] recs[k]);
    }
}

/// Law: get-or-create called twice with the same string returns the same
/// identifier both times, and the second call leaves the store exactly as
/// the first left it. This is also the storage-model face of race safety:
/// of two racing creations of the same novel string, the one serialized
/// second finds the record the first created — its insert is ignored — so
/// the two calls never produce two distinct identifiers for one string.
pub proof fn lemma_get_or_create_repeat(
    recs: Seq<QueryRecord>,
    next_id: u64,
    qs: String,
    c1: String,
    c2: String,
)
    requires
        store_wf(recs, next_id),
        next_id < u64::MAX,
    ensures
        ({
            let recs1 = goc_records(recs, next_id, qs, c1);
            let n1 = goc_next(recs, next_id, qs@);
            &&& goc_result(recs1, n1, qs@) == goc_result(recs, next_id, qs@)
            &&& goc_records(recs1, n1, qs, c2) == recs1
            &&& goc_next(recs1, n1, qs@) == n1
        }),
{
    lemma_goc_preserves(recs, next_id, qs, c1);
}

/// Law: get-or-create called with two different strings returns two
/// different identifiers, in whichever order the calls run.
pub proof fn lemma_get_or_create_distinct(
    recs: Seq<QueryRecord>,
    next_id: u64,
    q1: String,
    q2: String,
    c1: String,
)
    requires
        store_wf(recs, next_id),
        next_id < u64::MAX,
        q1@ != q2@,
    ensures
        goc_result(
            goc_records(recs, next_id, q1, c1),
            goc_next(recs, next_id, q1@),
            q2@,
        ) != goc_result(recs, next_id, q1@),
{
    lemma_goc_preserves(recs, next_id, q1, c1);
    let recs1 = goc_records(recs, next_id, q1, c1);
    let n1 = goc_next(recs, next_id, q1@);
    let r1 = goc_result(recs, next_id, q1@);
    let r2 = goc_result(recs1, n1, q2@);
    assert(contains_string(recs1, q1@));
    let k1 = choose|k: int| 0 <= k < recs1.len() && #[trigger] recs1[k].querystring@ == q1@;
    assert(id_for(recs1, q1@) == recs1[k1].id);
    if contains_string(recs1, q2@) {
        let k2 = choose|k: int| 0 <= k < recs1.len() && #[trigger] recs1[k].querystring@ == q2@;
        assert(r2 == recs1[k2].id);
        assert(k1 != k2);
        assert(store_wf(recs1, n1));
        assert(id_for(recs1, q1@) == r1) by {
            lemma_goc_preserves(recs, next_id, q1, c1);
        }
        assert(recs1[k1].id != recs1[k2].id);
    } else {
        assert(r2 == n1);
        assert(recs1[k1].id < n1);
        assert(r1 == recs1[k1].id) by {
            lemma_goc_preserves(recs, next_id, q1, c1);
        }
    }
}

} // verus!
