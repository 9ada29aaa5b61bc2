//! Out-of-process inference for text embedding and passage reranking.
//!
//! A worker process hosts one model and serves requests on a local
//! rendezvous endpoint; callers connect once per call. This crate holds the
//! rules of that arrangement, each with its proof:
//!
//! - `endpoint`: how the endpoint is named;
//! - `supervisor`: what the launching process records and when it restarts
//!   the worker;
//! - `server`: the states of the worker server, from binding to shutdown;
//! - `loader`: how the model is loaded once, and what a failed load means;
//! - `pool`: the size of the compute pool and the report of a task;
//! - `service`: what is replied to a request;
//! - `rerank`: the return of results to the order of the request;
//! - `client`: the one exchange of a call;
//! - `local`: inference inside the caller's own process;
//! - `document`, `chunk`, `api`: rules around getting text out of
//!   documents, splitting it, and calling the services of model providers;
//! - `scalar`, `errors`: the numbers of a model as bit patterns, and the
//!   errors for the host.
//!
//! Apart from building the threads of the compute pool, nothing here
//! touches the outside world: whoever binds the socket, fetches the model
//! or runs a task reports what happened and is told what to do next.

pub mod api;
pub mod chunk;
pub mod client;
pub mod document;
pub mod endpoint;
pub mod errors;
pub mod loader;
pub mod local;
pub mod pool;
pub mod rerank;
pub mod scalar;
pub mod server;
pub mod service;
pub mod supervisor;
