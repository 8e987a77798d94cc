//! An in-memory job store.
//!
//! An explicit, constructor-injected store object for callers who want the
//! job lifecycle without a durable backend — a reference backend, and a
//! convenient substrate for test doubles. It keeps an append-only log of
//! record snapshots; what it amounts to is the map from each identity to
//! its most recent snapshot, so a later save replaces an earlier one, and a
//! load resolves to the most recent snapshot, never to an arbitrary one.

use crate::{JobId, JobInfo, StorageError};
use vstd::prelude::*;

verus! {

/// The map a log of saved snapshots amounts to: each entry replaces any
/// earlier entry for the same identity.
pub open spec fn map_of<Output, Error, Metadata, Status>(
    entries: Seq<(JobId, JobInfo<Output, Error, Metadata, Status>)>,
) -> Map<JobId, JobInfo<Output, Error, Metadata, Status>>
    decreases entries.len(),
{
    if entries.len() == 0 {
        Map::empty()
    } else {
        map_of(entries.drop_last()).insert(entries.last().0, entries.last().1)
    }
}

/// An in-memory backend: an append-only log of record snapshots, viewed as
/// the map from identity to most recent snapshot.
pub struct MemoryStore<Output, Error, Metadata, Status> {
    entries: Vec<(JobId, JobInfo<Output, Error, Metadata, Status>)>,
}

impl<Output, Error, Metadata, Status> View for MemoryStore<Output, Error, Metadata, Status> {
    type V = Map<JobId, JobInfo<Output, Error, Metadata, Status>>;

    closed spec fn view(&self) -> Self::V {
        map_of(self.entries@)
    }
}

impl<Output, Error, Metadata, Status> MemoryStore<Output, Error, Metadata, Status> {
    /// An empty store: no identity has a record yet.
    pub fn new() -> (r: Self)
        ensures
            r@ == Map::<JobId, JobInfo<Output, Error, Metadata, Status>>::empty(),
    {
        MemoryStore { entries: Vec::new() }
    }

    /// Persist `info` as the new authoritative snapshot for `info.id`,
    /// replacing any earlier one. A save in memory cannot fail.
    pub fn save(&mut self, info: JobInfo<Output, Error, Metadata, Status>)
        ensures
            final(self)@ == crate::store_after_save(old(self)@, info),
    {
        self.entries.push((info.id, info));
        proof {
            assert(self.entries@.drop_last() =~= old(self).entries@);
        }
    }

    /// Retrieve the most recent snapshot for `id`; fails with
    /// [`StorageError::NotFound`] exactly when no save ever wrote `id`.
    pub fn load(&self, id: JobId) -> (r: Result<
        &JobInfo<Output, Error, Metadata, Status>,
        StorageError,
    >)
        ensures
            self@.contains_key(id) ==> (r matches Ok(rec) && *rec == self@[id]),
            !self@.contains_key(id) ==> (r matches Err(e) && e == StorageError::NotFound),
    {
        let n = self.entries.len();
        let mut i = n;
        while i > 0
            invariant
                i <= n,
                n == self.entries.len(),
                forall|j: int| i <= j < n ==> self.entries@[j].0 != id,
            decreases i,
        {
            i = i - 1;
            if self.entries[i].0 == id {
                proof {
                    lemma_map_of_last_match(self.entries@, id, i as int);
                }
                return Ok(&self.entries[i].1);
            }
        }
        proof {
            lemma_map_of_no_match(self.entries@, id);
        }
        Err(StorageError::NotFound)
    }
}

proof fn lemma_map_of_last_match<Output, Error, Metadata, Status>(
    entries: Seq<(JobId, JobInfo<Output, Error, Metadata, Status>)>,
    id: JobId,
    i: int,
)
    requires
        0 <= i < entries.len(),
        entries[i].0 == id,
        forall|j: int| i < j < entries.len() ==> entries[j].0 != id,
    ensures
        map_of(entries).contains_key(id),
        map_of(entries)[id] == entries[i].1,
    decreases entries.len(),
{
    if i < entries.len() - 1 {
        lemma_map_of_last_match(entries.drop_last(), id, i);
    }
}

proof fn lemma_map_of_no_match<Output, Error, Metadata, Status>(
    entries: Seq<(JobId, JobInfo<Output, Error, Metadata, Status>)>,
    id: JobId,
)
    requires
        forall|j: int| 0 <= j < entries.len() ==> entries[j].0 != id,
    ensures
        !map_of(entries).contains_key(id),
    decreases entries.len(),
{
    if entries.len() > 0 {
        lemma_map_of_no_match(entries.drop_last(), id);
    }
}

} // verus!
