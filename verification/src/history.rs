//! Resolution of append-only job histories.
//!
//! Some backends persist a job's lifecycle additively: every save appends a
//! row marked with a monotonic sequence number — a relational table keyed
//! by identity plus a timestamp column, say — instead of overwriting one
//! snapshot in place. Such a backend must resolve a load to the most recent
//! row for the identity, never to an arbitrary one. [`find_latest`] is that
//! resolution.

use crate::JobId;
use vstd::prelude::*;

verus! {

/// One row of an append-only history: which job it belongs to, and a
/// monotonic marker saying how recent it is.
#[derive(Clone, Copy, Debug, PartialEq, Eq, Structural)]
pub struct LogEntry {
    /// The identity the row was saved under.
    pub id: JobId,
    /// Monotonic sequence marker: a greater value is a more recent save.
    pub seq: u64,
}

/// Find the most recent row for `target`: the index of the row with the
/// greatest sequence marker among those carrying `target`, the later row
/// winning a tie between equal markers. Returns `None` exactly when no row
/// carries `target`.
pub fn find_latest(entries: &Vec<LogEntry>, target: JobId) -> (r: Option<usize>)
    ensures
        r matches Some(i) ==> {
            &&& i < entries.len()
            &&& entries@[i as int].id == target
            &&& forall|j: int|
                0 <= j < entries@.len() && entries@[j].id == target ==> entries@[j].seq
                    <= entries@[i as int].seq
            &&& forall|j: int|
                i < j < entries@.len() && entries@[j].id == target ==> entries@[j].seq
                    < entries@[i as int].seq
        },
        r is None ==> forall|j: int| 0 <= j < entries@.len() ==> entries@[j].id != target,
{
    let mut best: Option<usize> = None;
    let n = entries.len();
    let mut k: usize = 0;
    while k < n
        invariant
            k <= n,
            n == entries.len(),
            best matches Some(b) ==> {
                &&& b < k
                &&& entries@[b as int].id == target
                &&& forall|j: int|
                    0 <= j < k && entries@[j].id == target ==> entries@[j].seq
                        <= entries@[b as int].seq
                &&& forall|j: int|
                    b < j < k && entries@[j].id == target ==> entries@[j].seq
                        < entries@[b as int].seq
            },
            best is None ==> forall|j: int| 0 <= j < k ==> entries@[j].id != target,
        decreases n - k,
    {
        if entries[k].id == target {
            match best {
                None => {
                    best = Some(k);
                },
                Some(b) => {
                    if entries[k].seq >= entries[b].seq {
                        best = Some(k);
                    }
                },
            }
        }
        k = k + 1;
    }
    best
}

} // verus!
