//! The compute pool: its size, and how the end of a task is reported.
//!
//! Inference is CPU-bound and runs on a fixed pool of threads, away from
//! the reactor that serves connections. Each task reports through a
//! single-use channel. A task that panics reports an error like any other;
//! a task that never reports, because its thread died, is seen by the
//! receiver as a closed channel.

use crate::errors::{failure_message, ExpectPgErrExt, PgError};
use vstd::prelude::*;
use vstd::string::StringExecFns;

verus! {

/// The thread count that asks the pool to choose its size by itself.
pub const AUTOMATIC: usize = 0;

/// The number of threads of the compute pool for a machine whose available
/// parallelism is `parallelism`, or `None` where it cannot be determined:
/// one less than the parallelism, but at least one; `AUTOMATIC` where it
/// is unknown.
pub open spec fn pool_size(parallelism: Option<usize>) -> usize {
    match parallelism {
        None => AUTOMATIC,
        Some(cpus) => if cpus <= 1 {
            1
        } else {
            (cpus - 1) as usize
        },
    }
}

/// Computes the number of threads to ask the compute pool for.
pub fn num_threads(parallelism: Option<usize>) -> (threads: usize)
    ensures
        threads == pool_size(parallelism),
{
    match parallelism {
        None => AUTOMATIC,
        Some(cpus) => if cpus <= 1 {
            1
        } else {
            cpus - 1
        },
    }
}

/// The thread pool of the `rayon` crate.
#[verifier::external_type_specification]
#[verifier::external_body]
pub struct ExThreadPool(rayon::ThreadPool);

/// The error with which `rayon` refuses to build a pool.
#[verifier::external_type_specification]
#[verifier::external_body]
pub struct ExThreadPoolBuildError(rayon::ThreadPoolBuildError);

/// Builds a pool with `rayon::ThreadPoolBuilder::build`, after setting the
/// number of threads with `num_threads`. Nothing is claimed of the outcome:
/// whether the threads can be started is up to the machine.
#[verifier::external_body]
fn build_thread_pool(threads: usize) -> Result<rayon::ThreadPool, rayon::ThreadPoolBuildError> {
    rayon::ThreadPoolBuilder::new().num_threads(threads).build()
}

/// The text of a build error, as its `Display` gives it. Nothing is claimed
/// of the text.
#[verifier::external_body]
fn build_error_text(error: &rayon::ThreadPoolBuildError) -> String {
    error.to_string()
}

/// A compute pool: the threads, and the number that was asked for.
pub struct ComputePool {
    pool: rayon::ThreadPool,
    threads: usize,
}

impl ComputePool {
    /// The number of threads that the pool was asked to have.
    pub closed spec fn requested(&self) -> usize {
        self.threads
    }

    /// The threads of the pool.
    pub closed spec fn workers(&self) -> rayon::ThreadPool {
        self.pool
    }

    /// Makes the compute pool out of what the attempt to build its threads
    /// gave: the threads, or the machine's reason for refusing them. A
    /// refusal becomes an error for the host that says what failed and
    /// gives that reason.
    pub fn from_build(built: Result<rayon::ThreadPool, String>, threads: usize) -> (r: Result<
        ComputePool,
        PgError,
    >)
        ensures
            match built {
                Ok(pool) => r is Ok && r->Ok_0.requested() == threads && r->Ok_0.workers() == pool,
                Err(cause) => r is Err && r->Err_0.message@ == failure_message(
                    "Couldn't build thread pool"@,
                    cause@,
                ),
            },
    {
        match built.expect_or_pg_err("Couldn't build thread pool") {
            Ok(pool) => Ok(ComputePool { pool, threads }),
            Err(error) => Err(error),
        }
    }

    /// Builds the compute pool for a machine with the given available
    /// parallelism. The pool is asked for `pool_size(parallelism)` threads.
    /// Whether the machine grants them is not known beforehand; where it
    /// refuses, the error is the one that `from_build` makes of its reason.
    pub fn new(parallelism: Option<usize>) -> (r: Result<ComputePool, PgError>)
        ensures
            r matches Ok(pool) ==> pool.requested() == pool_size(parallelism),
            r matches Err(error) ==> exists|cause: Seq<char>|
                error.message@ == #[trigger] failure_message("Couldn't build thread pool"@, cause),
    {
        let threads = num_threads(parallelism);
        let built: Result<rayon::ThreadPool, String> = match build_thread_pool(threads) {
            Ok(pool) => Ok(pool),
            Err(error) => Err(build_error_text(&error)),
        };
        let ghost cause = if built is Err {
            built->Err_0@
        } else {
            Seq::<char>::empty()
        };
        let r = ComputePool::from_build(built, threads);
        assert(r is Err ==> r->Err_0.message@ == failure_message(
            "Couldn't build thread pool"@,
            cause,
        ));
        r
    }

    /// The number of threads that the pool was asked to have.
    pub fn threads(&self) -> (threads: usize)
        ensures
            threads == self.requested(),
    {
        self.threads
    }

    /// The threads, for whoever submits work.
    pub fn thread_pool(&self) -> (pool: &rayon::ThreadPool)
        ensures
            *pool == self.workers(),
    {
        &self.pool
    }
}

/// Why a computation gave no result.
#[derive(Debug, PartialEq, Eq)]
pub enum ComputeError {
    /// The inference call returned an error.
    Failed(String),
    /// The inference call panicked.
    Panicked(String),
    /// The inference call returned, but with no result where one was due.
    Empty,
}

impl ComputeError {
    /// The text that describes the failure.
    pub open spec fn message_of(self) -> Seq<char> {
        match self {
            ComputeError::Failed(cause) => cause@,
            ComputeError::Panicked(cause) => "Inference panicked: "@ + cause@,
            ComputeError::Empty => "Empty result vector"@,
        }
    }

    /// Describes the failure.
    pub fn message(&self) -> (text: String)
        ensures
            text@ == self.message_of(),
    {
        match self {
            ComputeError::Failed(cause) => cause.clone(),
            ComputeError::Panicked(cause) => String::from_str("Inference panicked: ").concat(
                cause.as_str(),
            ),
            ComputeError::Empty => String::from_str("Empty result vector"),
        }
    }
}

/// The task's thread ended before the task reported: nothing was computed
/// and nothing will be.
#[derive(Clone, Copy, Debug, PartialEq, Eq, Structural)]
pub struct ChannelError;

/// How a unit of work ended on its thread.
pub enum TaskEnd<T> {
    /// The inference call returned a value.
    Returned(T),
    /// The inference call returned an error, with this text.
    Refused(String),
    /// The inference call panicked, and the panic was caught; this is its
    /// message.
    Panicked(String),
}

/// What a task sends through its completion channel.
pub open spec fn report_of<T>(end: TaskEnd<T>) -> Result<T, ComputeError> {
    match end {
        TaskEnd::Returned(value) => Ok(value),
        TaskEnd::Refused(cause) => Err(ComputeError::Failed(cause)),
        TaskEnd::Panicked(cause) => Err(ComputeError::Panicked(cause)),
    }
}

/// Turns the end of a unit of work into what the task sends through its
/// completion channel. A panic becomes an error value here, on the task's
/// own thread, and goes no further.
pub fn report<T>(end: TaskEnd<T>) -> (sent: Result<T, ComputeError>)
    ensures
        sent == report_of(end),
{
    match end {
        TaskEnd::Returned(value) => Ok(value),
        TaskEnd::Refused(cause) => Err(ComputeError::Failed(cause)),
        TaskEnd::Panicked(cause) => Err(ComputeError::Panicked(cause)),
    }
}

} // verus!
