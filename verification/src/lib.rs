//! Persistent tracking of long-running jobs.
//!
//! A job is a unit of work whose status and eventual outcome are saved to a
//! storage backend, so that any caller holding the job's identity can find
//! out later — possibly from another process — whether and how it finished.
//!
//! The crate provides the job record and its status machine, the storage
//! contract a backend must satisfy ([`Job`]), and the bookkeeping steps of
//! the submission engine and the completion waiter.

pub use self::fs_job::FSJob;

pub mod fs_job;
pub mod history;
pub mod memory;

use vstd::prelude::*;

verus! {

/// Status of a job.
///
/// `Started` is the initial value, `Finished` the terminal one; a job may
/// report its own intermediate progress through `StatusValue`, whose payload
/// type is chosen by the caller.
#[derive(Clone, Debug, PartialEq)]
pub enum StatusType<T> {
    Started,
    StatusValue(T),
    Finished,
}

impl<T> StatusType<T> {
    /// A terminal status never changes again.
    pub open spec fn is_terminal(self) -> bool {
        self is Finished
    }

    /// Position of a status in the lifecycle: statuses may only move forward.
    pub open spec fn stage(self) -> int {
        match self {
            StatusType::Started => 0,
            StatusType::StatusValue(_) => 1,
            StatusType::Finished => 2,
        }
    }

    /// True exactly on the terminal status.
    pub fn is_finished(&self) -> (r: bool)
        ensures
            r == self.is_terminal(),
    {
        matches!(self, StatusType::Finished)
    }
}

/// The unique identity of a job: a 128-bit value drawn at random when the
/// job is submitted, and the key under which its record is stored.
#[derive(Clone, Copy, Debug, PartialEq, Eq, Hash, Structural)]
pub struct JobId {
    pub value: u128,
}

/// Relies on `uuid::Uuid::new_v4` for a freshly generated random version-4
/// identifier; `as_u128` only converts it to its 128-bit value. The result
/// is random, so nothing is promised of it.
#[verifier::external_body]
fn random_identity() -> u128 {
    uuid::Uuid::new_v4().as_u128()
}

impl JobId {
    /// Draw a fresh random identity.
    pub fn fresh() -> Self {
        JobId { value: random_identity() }
    }

    /// Build an identity from a known 128-bit value.
    pub fn from_value(value: u128) -> (r: Self)
        ensures
            r.value == value,
    {
        JobId { value }
    }
}

/// Why a storage backend could not save or load a job record.
#[derive(Clone, Debug, PartialEq)]
pub enum StorageError {
    /// No record exists for the requested identity.
    NotFound,
    /// The backend's medium failed.
    IOFailure(String),
    /// A record could not be encoded or decoded.
    SerializationFailure(String),
}

/// The record kept for a job: its identity, its current status, its outcome
/// once it has one, and whatever metadata the caller attached at submission.
///
/// The field `result` is `None` exactly while the job has not reached the
/// terminal status; on completion the proper branch of `Result` is stored
/// and never cleared.
#[derive(Clone, Debug)]
pub struct JobInfo<Output, Error, Metadata, Status> {
    /// The unique identity of the job, set once at creation.
    pub id: JobId,
    /// Job status (see [`StatusType`]).
    pub status: StatusType<Status>,
    /// Outcome of the job (`None` while there is no outcome).
    pub result: Option<Result<Output, Error>>,
    /// Metadata attached by the caller at submission time.
    pub metadata: Option<Metadata>,
}

impl<Output, Error, Metadata, Status> JobInfo<Output, Error, Metadata, Status> {
    /// A record carries an outcome exactly from the terminal status on.
    pub open spec fn wf(self) -> bool {
        self.result is Some <==> self.status is Finished
    }

    /// The record a submission writes first: initial status, no outcome.
    pub open spec fn initial_record(id: JobId, metadata: Option<Metadata>) -> Self {
        JobInfo { id, status: StatusType::Started, result: None, metadata }
    }

    /// The record the engine writes once the work has completed: the same
    /// identity and metadata, the terminal status, and the outcome verbatim.
    pub open spec fn finished_record(self, outcome: Result<Output, Error>) -> Self {
        JobInfo {
            id: self.id,
            status: StatusType::Finished,
            result: Some(outcome),
            metadata: self.metadata,
        }
    }

    /// The record a running job writes to report intermediate progress:
    /// only the status changes, to the caller-defined value.
    pub open spec fn progress_record(self, payload: Status) -> Self {
        JobInfo {
            id: self.id,
            status: StatusType::StatusValue(payload),
            result: self.result,
            metadata: self.metadata,
        }
    }

    /// Create new information for a job: a fresh identity, the initial
    /// status, and no outcome or metadata yet.
    pub fn new() -> (r: Self)
        ensures
            r == Self::initial_record(r.id, None),
    {
        JobInfo { id: JobId::fresh(), status: StatusType::Started, result: None, metadata: None }
    }

    /// Move the record to the terminal status, attaching the work's outcome.
    pub fn finish(self, outcome: Result<Output, Error>) -> (r: Self)
        requires
            !self.status.is_terminal(),
        ensures
            r == self.finished_record(outcome),
    {
        JobInfo {
            id: self.id,
            status: StatusType::Finished,
            result: Some(outcome),
            metadata: self.metadata,
        }
    }

    /// Record intermediate, caller-defined progress.
    pub fn set_status(self, payload: Status) -> (r: Self)
        requires
            !self.status.is_terminal(),
        ensures
            r == self.progress_record(payload),
    {
        JobInfo {
            id: self.id,
            status: StatusType::StatusValue(payload),
            result: self.result,
            metadata: self.metadata,
        }
    }
}

impl<Output, Error, Metadata, Status> Default for JobInfo<Output, Error, Metadata, Status> {
    /// Same as [`JobInfo::new`].
    fn default() -> (r: Self)
        ensures
            r == Self::initial_record(r.id, None),
    {
        Self::new()
    }
}

/// Convenience alias for using [`JobInfo`] together with the associated
/// types from [`Job`].
pub type Info<T> = JobInfo<
    <T as Job>::Output,
    <T as Job>::Error,
    <T as Job>::Metadata,
    <T as Job>::Status,
>;

/// The storage contract a backend must satisfy.
///
/// A backend durably keeps one authoritative record per job identity. It may
/// be called from many concurrent jobs' bookkeeping at once, so it must be
/// safely shareable; all shared mutable state lives behind it.
pub trait Job: Clone + Send + Sync + Sized + 'static {
    type Output: Clone + Send + 'static;
    type Error: Clone + Send + 'static;
    type Metadata: Clone + Send + 'static;
    type Status: PartialEq + Clone + Send + 'static;

    /// Durably persist `info`, keyed by `info.id`, as the new authoritative
    /// snapshot for that identity. Called once per state transition; a later
    /// save for the same identity replaces the earlier one.
    fn save(&self, info: &Info<Self>) -> Result<(), StorageError>;

    /// Retrieve the most recently saved record for `id`. Fails with
    /// [`StorageError::NotFound`] when no record for `id` exists.
    fn load(&self, id: JobId) -> (r: Result<Info<Self>, StorageError>)
        ensures
            r matches Ok(rec) ==> rec.id == id,
    ;
}

/// The synchronous half of a submission: build the initial record carrying
/// the caller's metadata and persist it. If the save fails, the submission
/// fails as a whole and no work may be scheduled, so there is no partially
/// started job. On success the returned record is the one that was saved;
/// the caller schedules the work and later hands the record to
/// [`finish_job`].
pub fn start_job<J: Job>(job: &J, metadata: J::Metadata) -> (r: Result<Info<J>, StorageError>)
    ensures
        r matches Ok(rec) ==> {
            &&& rec == Info::<J>::initial_record(rec.id, Some(metadata))
            &&& !rec.status.is_terminal()
            &&& rec.result is None
            &&& rec.wf()
        },
{
    let mut info: Info<J> = JobInfo::new();
    info.metadata = Some(metadata);
    match job.save(&info) {
        Ok(()) => Ok(info),
        Err(e) => Err(e),
    }
}

/// The completion write of the engine: move the record to the terminal
/// status with the work's outcome and persist it. An error here has no
/// caller waiting for it any more; whoever runs the engine must surface it
/// through an observable side channel rather than drop it, since the job
/// would otherwise stay non-terminal forever.
pub fn finish_job<J: Job>(
    job: &J,
    info: Info<J>,
    outcome: Result<J::Output, J::Error>,
) -> (r: Result<Info<J>, StorageError>)
    requires
        !info.status.is_terminal(),
    ensures
        r matches Ok(rec) ==> {
            &&& rec == info.finished_record(outcome)
            &&& rec.status.is_terminal()
            &&& rec.result == Some(outcome)
            &&& rec.metadata == info.metadata
            &&& rec.wf()
        },
{
    let done = info.finish(outcome);
    match job.save(&done) {
        Ok(()) => Ok(done),
        Err(e) => Err(e),
    }
}

/// The decision of one waiter round, taken on what the load handed back: a
/// terminal record is handed out, a non-terminal one asks for another poll,
/// and a backend error — NotFound included — is passed through unchanged,
/// never retried or masked.
pub fn wait_decision<J: Job>(loaded: Result<Info<J>, StorageError>) -> (r: Result<
    Option<Info<J>>,
    StorageError,
>)
    ensures
        loaded matches Ok(rec) ==> if rec.status.is_terminal() {
            r == Ok::<Option<Info<J>>, StorageError>(Some(rec))
        } else {
            r == Ok::<Option<Info<J>>, StorageError>(None)
        },
        loaded matches Err(e) ==> r == Err::<Option<Info<J>>, StorageError>(e),
{
    match loaded {
        Ok(rec) => if rec.status.is_finished() {
            Ok(Some(rec))
        } else {
            Ok(None)
        },
        Err(e) => Err(e),
    }
}

/// One round of the completion waiter: load the record and decide by
/// [`wait_decision`], which pins what comes back for every value the load
/// can hand it. A record handed out here is terminal and the requested
/// one; a waiter that only returns such records never returns a
/// non-terminal record.
pub fn wait_step<J: Job>(job: &J, id: JobId) -> (r: Result<Option<Info<J>>, StorageError>)
    ensures
        r matches Ok(Some(rec)) ==> rec.status.is_terminal() && rec.id == id,
{
    wait_decision::<J>(job.load(id))
}

/// Acceptance check for a backend that decodes its records from a stored
/// form: the port hands out the record for the requested identity, so a
/// decoded record carrying another identity is a corrupt entry and is
/// reported as a decode failure, never returned.
pub fn check_loaded_identity<Output, Error, Metadata, Status>(
    rec: JobInfo<Output, Error, Metadata, Status>,
    id: JobId,
) -> (r: Result<JobInfo<Output, Error, Metadata, Status>, StorageError>)
    ensures
        rec.id == id ==> r == Ok::<JobInfo<Output, Error, Metadata, Status>, StorageError>(rec),
        rec.id != id ==> (r matches Err(e) && e is SerializationFailure),
{
    if rec.id == id {
        Ok(rec)
    } else {
        Err(StorageError::SerializationFailure(
            "loaded record carries another identity".to_owned(),
        ))
    }
}

/// What a backend's state amounts to in the contracts: a map from identity
/// to the authoritative record. A save stores the new snapshot for its
/// identity, replacing the earlier one.
pub open spec fn store_after_save<Output, Error, Metadata, Status>(
    store: Map<JobId, JobInfo<Output, Error, Metadata, Status>>,
    rec: JobInfo<Output, Error, Metadata, Status>,
) -> Map<JobId, JobInfo<Output, Error, Metadata, Status>> {
    store.insert(rec.id, rec)
}

/// What a load observes: the authoritative record for the identity, or
/// [`StorageError::NotFound`] when no save has ever written it.
pub open spec fn loaded_record<Output, Error, Metadata, Status>(
    store: Map<JobId, JobInfo<Output, Error, Metadata, Status>>,
    id: JobId,
) -> Result<JobInfo<Output, Error, Metadata, Status>, StorageError> {
    if store.contains_key(id) {
        Ok(store[id])
    } else {
        Err(StorageError::NotFound)
    }
}

/// After the submission save, a load of the new identity yields the record
/// in the initial, non-terminal status, with no outcome yet and with exactly
/// the metadata the caller attached.
pub proof fn lemma_submitted_job_is_pending<Output, Error, Metadata, Status>(
    store: Map<JobId, JobInfo<Output, Error, Metadata, Status>>,
    id: JobId,
    metadata: Option<Metadata>,
)
    ensures
        ({
            let rec = JobInfo::<Output, Error, Metadata, Status>::initial_record(id, metadata);
            let after = store_after_save(store, rec);
            &&& loaded_record(after, id) == Ok::<_, StorageError>(rec)
            &&& !rec.status.is_terminal()
            &&& rec.result is None
            &&& rec.metadata == metadata
            &&& rec.wf()
        }),
{
}

/// After the completion save, a load of the identity yields the terminal
/// status and exactly the work's outcome — a failure is stored as verbatim
/// as a success, so a terminal status never implies success — with the
/// identity and metadata untouched.
pub proof fn lemma_completed_job_is_terminal<Output, Error, Metadata, Status>(
    store: Map<JobId, JobInfo<Output, Error, Metadata, Status>>,
    rec: JobInfo<Output, Error, Metadata, Status>,
    outcome: Result<Output, Error>,
)
    ensures
        ({
            let done = rec.finished_record(outcome);
            let after = store_after_save(store, done);
            &&& loaded_record(after, rec.id) == Ok::<_, StorageError>(done)
            &&& done.status.is_terminal()
            &&& done.result == Some(outcome)
            &&& done.id == rec.id
            &&& done.metadata == rec.metadata
            &&& done.wf()
        }),
{
}

/// A load of an identity that no save has ever written fails with the
/// NotFound error, and with no other.
pub proof fn lemma_unknown_identity_not_found<Output, Error, Metadata, Status>(
    store: Map<JobId, JobInfo<Output, Error, Metadata, Status>>,
    id: JobId,
)
    requires
        !store.contains_key(id),
    ensures
        loaded_record(store, id) == Err::<JobInfo<Output, Error, Metadata, Status>, StorageError>(
            StorageError::NotFound,
        ),
{
}

/// The engine's bookkeeping never rewrites a record's identity or metadata:
/// both the progress write and the terminal write carry them over unchanged.
pub proof fn lemma_identity_and_metadata_kept<Output, Error, Metadata, Status>(
    rec: JobInfo<Output, Error, Metadata, Status>,
    outcome: Result<Output, Error>,
    payload: Status,
)
    ensures
        rec.finished_record(outcome).id == rec.id,
        rec.finished_record(outcome).metadata == rec.metadata,
        rec.progress_record(payload).id == rec.id,
        rec.progress_record(payload).metadata == rec.metadata,
{
}

/// Statuses only move forward: from a non-terminal record, a progress write
/// and the terminal write never decrease the lifecycle stage, and the
/// initial record sits at the lowest stage.
pub proof fn lemma_status_monotonic<Output, Error, Metadata, Status>(
    rec: JobInfo<Output, Error, Metadata, Status>,
    outcome: Result<Output, Error>,
    payload: Status,
    id: JobId,
    metadata: Option<Metadata>,
)
    requires
        !rec.status.is_terminal(),
    ensures
        rec.status.stage() <= rec.finished_record(outcome).status.stage(),
        rec.status.stage() <= rec.progress_record(payload).status.stage(),
        JobInfo::<Output, Error, Metadata, Status>::initial_record(id, metadata).status.stage()
            == 0,
{
}

/// Saves under distinct identities never interfere: what a load observes of
/// one job is unchanged by a save of another.
pub proof fn lemma_distinct_jobs_independent<Output, Error, Metadata, Status>(
    store: Map<JobId, JobInfo<Output, Error, Metadata, Status>>,
    rec: JobInfo<Output, Error, Metadata, Status>,
    other: JobId,
)
    requires
        rec.id != other,
    ensures
        loaded_record(store_after_save(store, rec), other) == loaded_record(store, other),
{
}

} // verus!
