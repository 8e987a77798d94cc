//! Configuration of a filesystem-backed job store.
//!
//! A filesystem backend keeps each job's record in its own file under a
//! configured directory, named by the canonical string form of the job's
//! identity and holding a serialized snapshot of the record; a save
//! overwrites the file, a load reads it whole. Reading and writing those
//! files is input and output, which lives with the embedding program; this
//! module holds the configuration such a backend is created from.

use std::marker::PhantomData;
use std::path::PathBuf;
use vstd::prelude::*;

verus! {

/// `std::path::PathBuf`, declared so that it can stand in fields and
/// signatures. The library only carries such a value; nothing is assumed
/// of it.
#[verifier::external_type_specification]
#[verifier::external_body]
pub struct ExPathBuf(PathBuf);

/// Relies on `std::path::PathBuf::clone`: the clone of a path is a copy
/// holding the same path. Used by the `Clone` of [`FSJob`].
pub assume_specification[ <PathBuf as Clone>::clone ](v: &PathBuf) -> (r: PathBuf)
    ensures
        r == *v,
;

/// Configuration of a filesystem-backed job store: one file per job, kept
/// under `job_directory`.
pub struct FSJob<Output, Error, Metadata, Status> {
    job_directory: PathBuf,
    output_type: PhantomData<Output>,
    error_type: PhantomData<Error>,
    metadata_type: PhantomData<Metadata>,
    status_type: PhantomData<Status>,
}

impl<Output, Error, Metadata, Status> FSJob<Output, Error, Metadata, Status> {
    /// The directory each job's file is kept under.
    pub closed spec fn directory_spec(&self) -> PathBuf {
        self.job_directory
    }

    /// Create a new [`FSJob`].
    ///
    /// The argument indicates a directory where to save the files for each
    /// job.
    pub fn new(job_directory: PathBuf) -> (r: Self)
        ensures
            r.directory_spec() == job_directory,
    {
        FSJob {
            job_directory,
            output_type: PhantomData,
            error_type: PhantomData,
            metadata_type: PhantomData,
            status_type: PhantomData,
        }
    }

    /// The directory the store was created with.
    pub fn directory(&self) -> (r: &PathBuf)
        ensures
            *r == self.directory_spec(),
    {
        &self.job_directory
    }
}

impl<Output, Error, Metadata, Status> Clone for FSJob<Output, Error, Metadata, Status> {
    /// The clone keeps the directory.
    fn clone(&self) -> (r: Self)
        ensures
            r.directory_spec() == self.directory_spec(),
    {
        FSJob {
            job_directory: self.job_directory.clone(),
            output_type: PhantomData,
            error_type: PhantomData,
            metadata_type: PhantomData,
            status_type: PhantomData,
        }
    }
}

} // verus!
