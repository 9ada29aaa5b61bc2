//! The inference service: what is replied to a request.
//!
//! A request needs the model, then one task on the compute pool. Either
//! step can fail. The service turns whatever came back into one reply or
//! one error; it never answers with a default.

use crate::errors::{failure_message, PgError};
use crate::loader::{lemma_failure_is_final, Access, LoadError, LoaderEvent, ModelLoader};
use crate::pool::{pool_size, report_of, ChannelError, ComputeError, ComputePool, TaskEnd};
use crate::rerank::{one_result_per_passage, rerank_scores, scores_in_input_order, Reranking};
use crate::scalar::Scalar;
use vstd::prelude::*;
use vstd::string::StringExecFns;

verus! {

/// A request for the embedding of one text.
#[derive(Debug, PartialEq, Eq)]
pub struct EmbeddingRequest {
    pub text: String,
}

/// The embedding of the text of a request.
#[derive(Debug, PartialEq, Eq)]
pub struct EmbeddingReply {
    pub embedding: Vec<Scalar>,
}

/// A request for the relevance of passages to a query.
#[derive(Debug, PartialEq, Eq)]
pub struct RerankingRequest {
    pub query: String,
    pub passages: Vec<String>,
}

/// The scores of the passages of a request, in the order of the passages.
#[derive(Debug, PartialEq, Eq)]
pub struct RerankingReply {
    pub scores: Vec<Scalar>,
}

/// Why a request was not answered.
#[derive(Debug, PartialEq, Eq)]
pub enum ServiceError {
    /// The model could not be loaded.
    Load(LoadError),
    /// The computation failed or panicked.
    Compute(ComputeError),
    /// The task's thread died before the task reported.
    Channel(ChannelError),
}

/// What came back for a request.
pub enum Outcome<T> {
    /// The model was not to be had; no task was submitted.
    Unloaded(LoadError),
    /// A task was submitted, and its channel closed without a report.
    Lost,
    /// A task was submitted, and this is its report.
    Reported(Result<T, ComputeError>),
}

impl ServiceError {
    /// The text that describes the error, where `crashed` is the service's
    /// text for a task whose thread died.
    pub open spec fn message_of(self, crashed: Seq<char>) -> Seq<char> {
        match self {
            ServiceError::Load(error) => error.message_of(),
            ServiceError::Compute(error) => error.message_of(),
            ServiceError::Channel(_) => crashed,
        }
    }

    /// Describes the error, with `crashed` as the text for a task whose
    /// thread died.
    pub fn message(&self, crashed: &str) -> (text: String)
        ensures
            text@ == self.message_of(crashed@),
    {
        match self {
            ServiceError::Load(error) => error.message(),
            ServiceError::Compute(error) => error.message(),
            ServiceError::Channel(_) => String::from_str(crashed),
        }
    }
}

/// The error of a request that got no value, if it got none.
pub open spec fn error_of<T>(outcome: Outcome<T>) -> Option<ServiceError> {
    match outcome {
        Outcome::Unloaded(error) => Some(ServiceError::Load(error)),
        Outcome::Lost => Some(ServiceError::Channel(ChannelError)),
        Outcome::Reported(Err(error)) => Some(ServiceError::Compute(error)),
        Outcome::Reported(Ok(_)) => None,
    }
}

/// Splits what came back into the computed value and the error.
fn settle<T>(outcome: Outcome<T>) -> (r: Result<T, ServiceError>)
    ensures
        match outcome {
            Outcome::Reported(Ok(value)) => r == Ok::<T, ServiceError>(value),
            _ => error_of(outcome) is Some && r == Err::<T, ServiceError>(error_of(outcome)->0),
        },
{
    match outcome {
        Outcome::Unloaded(error) => Err(ServiceError::Load(error)),
        Outcome::Lost => Err(ServiceError::Channel(ChannelError)),
        Outcome::Reported(Err(error)) => Err(ServiceError::Compute(error)),
        Outcome::Reported(Ok(value)) => Ok(value),
    }
}

/// The service that computes embeddings, with its compute pool.
pub struct EmbeddingGeneratorStruct {
    thread_pool: ComputePool,
}

/// The reply to an embedding request for which `outcome` came back: the
/// first of the computed vectors, and an error where there is none.
pub open spec fn embedding_reply_of(outcome: Outcome<Vec<Vec<Scalar>>>) -> Result<
    Seq<Scalar>,
    ServiceError,
> {
    match outcome {
        Outcome::Reported(Ok(vectors)) => if vectors@.len() > 0 {
            Ok(vectors@[0]@)
        } else {
            Err(ServiceError::Compute(ComputeError::Empty))
        },
        _ => Err(error_of(outcome)->0),
    }
}

impl EmbeddingGeneratorStruct {
    /// The compute pool of the service.
    pub closed spec fn compute_pool(&self) -> ComputePool {
        self.thread_pool
    }

    /// The number of threads that the service's compute pool was asked to
    /// have.
    pub open spec fn pool_threads(&self) -> usize {
        self.compute_pool().requested()
    }

    /// The text for a task whose thread died.
    pub open spec fn crashed() -> Seq<char> {
        "Embedding process crashed"@
    }

    /// The service for a machine with the given available parallelism: its
    /// compute pool is built with `pool_size(parallelism)` threads. Where
    /// the machine refuses the pool there is no service, and the error for
    /// the host says so.
    pub fn new(parallelism: Option<usize>) -> (r: Result<Self, PgError>)
        ensures
            r matches Ok(service) ==> service.pool_threads() == pool_size(parallelism),
            r matches Err(error) ==> exists|cause: Seq<char>|
                error.message@ == #[trigger] failure_message("Couldn't build thread pool"@, cause),
    {
        match ComputePool::new(parallelism) {
            Ok(thread_pool) => Ok(Self::with_pool(thread_pool)),
            Err(error) => Err(error),
        }
    }

    /// The service that computes on `thread_pool`.
    pub fn with_pool(thread_pool: ComputePool) -> (service: Self)
        ensures
            service.compute_pool() == thread_pool,
    {
        EmbeddingGeneratorStruct { thread_pool }
    }

    /// The compute pool, for whoever submits the work of a request.
    pub fn thread_pool(&self) -> (pool: &ComputePool)
        ensures
            *pool == self.compute_pool(),
    {
        &self.thread_pool
    }

    /// Replies to one request, given what came back for it: the embedding
    /// that was computed for the text, unchanged, or the error. A
    /// computation that returns no vector at all is an error.
    pub fn get_embedding(&self, outcome: Outcome<Vec<Vec<Scalar>>>) -> (r: Result<
        EmbeddingReply,
        ServiceError,
    >)
        ensures
            match embedding_reply_of(outcome) {
                Ok(embedding) => r is Ok && r->Ok_0.embedding@ == embedding,
                Err(error) => r == Err::<EmbeddingReply, ServiceError>(error),
            },
    {
        match settle(outcome) {
            Err(error) => Err(error),
            Ok(vectors) => {
                let mut vectors = vectors;
                if vectors.len() > 0 {
                    let embedding = vectors.swap_remove(0);
                    Ok(EmbeddingReply { embedding })
                } else {
                    Err(ServiceError::Compute(ComputeError::Empty))
                }
            },
        }
    }

    /// The text of `error` as this service reports it.
    pub fn status(&self, error: &ServiceError) -> (text: String)
        ensures
            text@ == error.message_of(Self::crashed()),
    {
        error.message("Embedding process crashed")
    }
}

/// The service that reranks passages, with its compute pool.
pub struct RerankerStruct {
    thread_pool: ComputePool,
}

/// Whether a computation that was asked about `passages` passages and came
/// back with `results` came back empty-handed.
pub open spec fn came_back_empty(passages: nat, results: Seq<Reranking>) -> bool {
    passages > 0 && results.len() == 0
}

impl RerankerStruct {
    /// The compute pool of the service.
    pub closed spec fn compute_pool(&self) -> ComputePool {
        self.thread_pool
    }

    /// The number of threads that the service's compute pool was asked to
    /// have.
    pub open spec fn pool_threads(&self) -> usize {
        self.compute_pool().requested()
    }

    /// The text for a task whose thread died.
    pub open spec fn crashed() -> Seq<char> {
        "Reranking process crashed"@
    }

    /// The service for a machine with the given available parallelism: its
    /// compute pool is built with `pool_size(parallelism)` threads. Where
    /// the machine refuses the pool there is no service, and the error for
    /// the host says so.
    pub fn new(parallelism: Option<usize>) -> (r: Result<Self, PgError>)
        ensures
            r matches Ok(service) ==> service.pool_threads() == pool_size(parallelism),
            r matches Err(error) ==> exists|cause: Seq<char>|
                error.message@ == #[trigger] failure_message("Couldn't build thread pool"@, cause),
    {
        match ComputePool::new(parallelism) {
            Ok(thread_pool) => Ok(Self::with_pool(thread_pool)),
            Err(error) => Err(error),
        }
    }

    /// The service that computes on `thread_pool`.
    pub fn with_pool(thread_pool: ComputePool) -> (service: Self)
        ensures
            service.compute_pool() == thread_pool,
    {
        RerankerStruct { thread_pool }
    }

    /// The compute pool, for whoever submits the work of a request.
    pub fn thread_pool(&self) -> (pool: &ComputePool)
        ensures
            *pool == self.compute_pool(),
    {
        &self.thread_pool
    }

    /// Replies to one request, given what came back for it: the scores of
    /// the results in the order of the request's passages, or the error. No
    /// result at all for a request that has passages is an error.
    pub fn rerank(&self, request: &RerankingRequest, outcome: Outcome<Vec<Reranking>>) -> (r:
        Result<RerankingReply, ServiceError>)
        ensures
            match outcome {
                Outcome::Reported(Ok(results)) => if came_back_empty(
                    request.passages@.len(),
                    results@,
                ) {
                    r == Err::<RerankingReply, ServiceError>(
                        ServiceError::Compute(ComputeError::Empty),
                    )
                } else {
                    &&& r is Ok
                    &&& r->Ok_0.scores@ == scores_in_input_order(results@)
                    &&& r->Ok_0.scores@.len() == results@.len()
                    &&& one_result_per_passage(results@) ==> forall|k: int|
                        0 <= k < results@.len() ==> r->Ok_0.scores@[(
                        #[trigger] results@[k]).index as int] == results@[k].score
                },
                _ => error_of(outcome) is Some && r == Err::<RerankingReply, ServiceError>(
                    error_of(outcome)->0,
                ),
            },
    {
        match settle(outcome) {
            Err(error) => Err(error),
            Ok(results) => {
                if request.passages.len() > 0 && results.len() == 0 {
                    Err(ServiceError::Compute(ComputeError::Empty))
                } else {
                    Ok(RerankingReply { scores: rerank_scores(&results) })
                }
            },
        }
    }

    /// The text of `error` as this service reports it.
    pub fn status(&self, error: &ServiceError) -> (text: String)
        ensures
            text@ == error.message_of(Self::crashed()),
    {
        error.message("Reranking process crashed")
    }
}

/// Crash isolation. A panic inside the task of one request is the error of
/// that request, a compute error that carries the panic's message, and of
/// no other: the loader is not touched by it, so the next caller is given
/// the same handle without a new load, and a task that returns is answered
/// with what it computed. A task whose thread died is told apart from one
/// that panicked.
pub proof fn lemma_crash_is_contained<H, T>(
    loader: ModelLoader<H>,
    panic_text: String,
    vectors: Vec<Vec<Scalar>>,
)
    requires
        loader is Ready,
        vectors@.len() > 0,
    ensures
        error_of(Outcome::Reported(report_of(TaskEnd::<T>::Panicked(panic_text)))) == Some(
            ServiceError::Compute(ComputeError::Panicked(panic_text)),
        ),
        error_of(Outcome::<T>::Lost) == Some(ServiceError::Channel(ChannelError)),
        loader.answer() == Access::Settled,
        loader.after_asking() == loader,
        loader.outcome() is Some && loader.outcome()->0 is Ok,
        embedding_reply_of(Outcome::Reported(report_of(TaskEnd::Returned(vectors)))) == Ok::<
            Seq<Scalar>,
            ServiceError,
        >(vectors@[0]@),
{
}

/// A failed load fails every request. Once the load of the model has
/// failed, be it because the source of the artifact answered without
/// success or for any other reason, every request that asks for the model
/// finds that failure, whatever happened to the loader in between, and is
/// answered with it: the worker serves nothing until it is restarted with
/// a loader that is empty again.
pub proof fn lemma_failed_load_fails_every_request<H, T>(
    error: LoadError,
    events: Seq<LoaderEvent<H>>,
)
    ensures
        ({
            let failed = ModelLoader::<H>::Loading.after_load(Err(error));
            &&& failed.after_all(events).answer() == Access::Settled
            &&& failed.after_all(events).outcome() == Some(Err::<H, LoadError>(error))
        }),
        error_of(Outcome::<T>::Unloaded(error)) == Some(ServiceError::Load(error)),
        embedding_reply_of(Outcome::Unloaded(error)) == Err::<Seq<Scalar>, ServiceError>(
            ServiceError::Load(error),
        ),
{
    lemma_failure_is_final(ModelLoader::<H>::Loading, error, events);
}

/// The reply follows the model. For two computations that each returned
/// some vector, the replies carry equal embeddings exactly if the first
/// vectors are equal, and each embedding has the length of the vector that
/// was computed: what the model gives twice alike is replied twice alike,
/// what it tells apart stays apart, and no component is added or lost.
pub proof fn lemma_reply_follows_model(first: Vec<Vec<Scalar>>, second: Vec<Vec<Scalar>>)
    requires
        first@.len() > 0,
        second@.len() > 0,
    ensures
        embedding_reply_of(Outcome::Reported(Ok(first))) is Ok,
        embedding_reply_of(Outcome::Reported(Ok(first)))->Ok_0.len() == first@[0]@.len(),
        embedding_reply_of(Outcome::Reported(Ok(first))) == embedding_reply_of(
            Outcome::Reported(Ok(second)),
        ) <==> first@[0]@ == second@[0]@,
{
}

} // verus!
