//! Lazy, once-only loading of the model.
//!
//! The model is loaded on the first request that needs it. Requests may
//! arrive together, and loading is slow and may fail; the loader decides
//! which caller loads, which ones wait, and what every caller sees
//! afterwards. Policy: the outcome of the first load that completes stands
//! for the life of the process. A failure is kept just as a success is, and
//! is handed to every later caller; only a restart of the worker tries
//! again.

use crate::endpoint::{decimal, decimal_string};
use vstd::prelude::*;
use vstd::string::StringExecFns;

verus! {

/// Why the model could not be loaded.
#[derive(Debug, PartialEq, Eq)]
pub enum LoadError {
    /// The artifact could not be fetched: the transport failed.
    Transport(String),
    /// The artifact's source answered with a status other than success.
    Status(u16),
    /// Reading the artifact failed locally.
    Io(String),
    /// The artifact could not be parsed.
    Malformed(String),
    /// The model could not be constructed from the artifact.
    Construction(String),
}

impl Clone for LoadError {
    fn clone(&self) -> (r: Self)
        ensures
            r == *self,
    {
        match self {
            LoadError::Transport(text) => LoadError::Transport(text.clone()),
            LoadError::Status(code) => LoadError::Status(*code),
            LoadError::Io(text) => LoadError::Io(text.clone()),
            LoadError::Malformed(text) => LoadError::Malformed(text.clone()),
            LoadError::Construction(text) => LoadError::Construction(text.clone()),
        }
    }
}

impl LoadError {
    /// The text that describes the failure.
    pub open spec fn message_of(self) -> Seq<char> {
        match self {
            LoadError::Transport(text) => "Couldn't fetch model: "@ + text@,
            LoadError::Status(code) => "Couldn't fetch model: status "@ + decimal(code as int),
            LoadError::Io(text) => "Couldn't read model: "@ + text@,
            LoadError::Malformed(text) => "Couldn't parse model: "@ + text@,
            LoadError::Construction(text) => "Couldn't construct model: "@ + text@,
        }
    }

    /// Describes the failure.
    pub fn message(&self) -> (text: String)
        ensures
            text@ == self.message_of(),
    {
        match self {
            LoadError::Transport(cause) => String::from_str("Couldn't fetch model: ").concat(
                cause.as_str(),
            ),
            LoadError::Status(code) => {
                let number = decimal_string(*code as i64);
                String::from_str("Couldn't fetch model: status ").concat(number.as_str())
            },
            LoadError::Io(cause) => String::from_str("Couldn't read model: ").concat(
                cause.as_str(),
            ),
            LoadError::Malformed(cause) => String::from_str("Couldn't parse model: ").concat(
                cause.as_str(),
            ),
            LoadError::Construction(cause) => String::from_str(
                "Couldn't construct model: ",
            ).concat(cause.as_str()),
        }
    }
}

/// Whether `status` reports success: the codes from 200 to 299.
pub open spec fn is_success(status: u16) -> bool {
    200 <= status <= 299
}

/// The bytes of a model artifact as they arrive from a remote source.
pub struct ArtifactFetch {
    bytes: Vec<u8>,
}

impl View for ArtifactFetch {
    type V = Seq<u8>;

    /// The bytes received so far, in order of arrival.
    closed spec fn view(&self) -> Seq<u8> {
        self.bytes@
    }
}

impl ArtifactFetch {
    /// Starts receiving the body of a response with the given status. A
    /// status other than success is an error, and nothing is received.
    /// `expected_size` is the size the artifact is known to have; it only
    /// sizes the buffer.
    pub fn begin(status: u16, expected_size: usize) -> (r: Result<ArtifactFetch, LoadError>)
        ensures
            is_success(status) ==> r is Ok && r->Ok_0@ == Seq::<u8>::empty(),
            !is_success(status) ==> r == Err::<ArtifactFetch, LoadError>(LoadError::Status(status)),
    {
        if 200 <= status && status <= 299 {
            Ok(ArtifactFetch { bytes: Vec::with_capacity(expected_size) })
        } else {
            Err(LoadError::Status(status))
        }
    }

    /// Takes the next piece of the body. A piece is added behind what was
    /// received before; a failure of the transport ends the fetch with an
    /// error and adds nothing.
    pub fn accept(&mut self, chunk: Result<Vec<u8>, String>) -> (r: Result<(), LoadError>)
        ensures
            match chunk {
                Ok(bytes) => r is Ok && final(self)@ == old(self)@ + bytes@,
                Err(cause) => final(self)@ == old(self)@ && r == Err::<(), LoadError>(
                    LoadError::Transport(cause),
                ),
            },
    {
        match chunk {
            Ok(mut bytes) => {
                self.bytes.append(&mut bytes);
                Ok(())
            },
            Err(cause) => Err(LoadError::Transport(cause)),
        }
    }

    /// The artifact, once the body has ended: all pieces in order.
    pub fn finish(self) -> (artifact: Vec<u8>)
        ensures
            artifact@ == self@,
    {
        self.bytes
    }
}

/// The loader of a model whose handle has type `H`.
#[derive(Debug)]
pub enum ModelLoader<H> {
    /// No caller has asked for the model yet.
    Empty,
    /// One caller is loading the model.
    Loading,
    /// The model is loaded; this is its only handle.
    Ready(H),
    /// Loading failed.
    Failed(LoadError),
}

/// How long a caller that waits for a load sleeps before it asks again, in
/// milliseconds.
pub const LOAD_POLL_MILLIS: u64 = 20;

/// What a caller that asked for the model does next.
#[derive(Clone, Copy, Debug, PartialEq, Eq, Structural)]
pub enum Access {
    /// Load the model, then report the outcome with `finish_load`.
    Load,
    /// Another caller is loading: sleep for `millis` milliseconds, then ask
    /// again.
    Wait { millis: u64 },
    /// The outcome is known: read it with `get`.
    Settled,
}

/// What happens to a loader: a caller asks for the model, or the caller
/// that was told to load reports how that went.
pub enum LoaderEvent<H> {
    /// A caller asked for the model.
    Asked,
    /// The load ended: with the handle of the model, or with a failure.
    Loaded(Result<H, LoadError>),
}

impl<H> ModelLoader<H> {
    /// Whether the outcome of loading is known.
    pub open spec fn settled(self) -> bool {
        self is Ready || self is Failed
    }

    /// What a caller that asks now is told.
    pub open spec fn answer(self) -> Access {
        match self {
            ModelLoader::Empty => Access::Load,
            ModelLoader::Loading => Access::Wait { millis: LOAD_POLL_MILLIS },
            ModelLoader::Ready(_) => Access::Settled,
            ModelLoader::Failed(_) => Access::Settled,
        }
    }

    /// The loader after a caller has asked.
    pub open spec fn after_asking(self) -> Self {
        match self {
            ModelLoader::Empty => ModelLoader::Loading,
            other => other,
        }
    }

    /// The loader after a load has been reported.
    pub open spec fn after_load(self, outcome: Result<H, LoadError>) -> Self {
        match self {
            ModelLoader::Loading => match outcome {
                Ok(handle) => ModelLoader::Ready(handle),
                Err(error) => ModelLoader::Failed(error),
            },
            other => other,
        }
    }

    /// What every caller sees once loading is settled: the handle, or the
    /// failure; nothing before that.
    pub open spec fn outcome(self) -> Option<Result<H, LoadError>> {
        match self {
            ModelLoader::Ready(handle) => Some(Ok(handle)),
            ModelLoader::Failed(error) => Some(Err(error)),
            _ => None,
        }
    }

    /// A loader that has not been asked yet.
    pub fn new() -> (loader: Self)
        ensures
            loader == ModelLoader::<H>::Empty,
    {
        ModelLoader::Empty
    }

    /// Tells a caller that needs the model what to do. The first caller is
    /// told to load; callers that arrive while it loads are told to wait;
    /// once the outcome is known every caller is told to read it.
    pub fn get_or_initialize(&mut self) -> (access: Access)
        ensures
            access == old(self).answer(),
            *final(self) == old(self).after_asking(),
    {
        match self {
            ModelLoader::Empty => {
                *self = ModelLoader::Loading;
                Access::Load
            },
            ModelLoader::Loading => Access::Wait { millis: LOAD_POLL_MILLIS },
            ModelLoader::Ready(_) => Access::Settled,
            ModelLoader::Failed(_) => Access::Settled,
        }
    }

    /// Records how the load went. It counts only while a load is under
    /// way: an outcome that is already known is never replaced.
    pub fn finish_load(&mut self, outcome: Result<H, LoadError>)
        ensures
            *final(self) == old(self).after_load(outcome),
    {
        match self {
            ModelLoader::Loading => {
                match outcome {
                    Ok(handle) => {
                        *self = ModelLoader::Ready(handle);
                    },
                    Err(error) => {
                        *self = ModelLoader::Failed(error);
                    },
                }
            },
            _ => {},
        }
    }

    /// The outcome of loading, if it is known: the handle, or the failure
    /// that every caller is given.
    pub fn get(&self) -> (r: Option<Result<&H, LoadError>>)
        ensures
            match *self {
                ModelLoader::Ready(handle) => r == Some(Ok::<&H, LoadError>(&handle)),
                ModelLoader::Failed(error) => r == Some(Err::<&H, LoadError>(error)),
                _ => r is None,
            },
    {
        match self {
            ModelLoader::Ready(handle) => Some(Ok(handle)),
            ModelLoader::Failed(error) => Some(Err(error.clone())),
            _ => None,
        }
    }
}

impl<H> ModelLoader<H> {
    /// The loader after one event.
    pub open spec fn after(self, event: LoaderEvent<H>) -> Self {
        match event {
            LoaderEvent::Asked => self.after_asking(),
            LoaderEvent::Loaded(outcome) => self.after_load(outcome),
        }
    }

    /// The loader after a sequence of events, first to last.
    pub open spec fn after_all(self, events: Seq<LoaderEvent<H>>) -> Self
        decreases events.len(),
    {
        if events.len() == 0 {
            self
        } else {
            self.after_all(events.drop_last()).after(events.last())
        }
    }

    /// How many callers are told to load in the course of `events`.
    pub open spec fn loads_begun(self, events: Seq<LoaderEvent<H>>) -> nat
        decreases events.len(),
    {
        if events.len() == 0 {
            0
        } else {
            let earlier = events.drop_last();
            let told_to_load = events.last() is Asked && self.after_all(earlier).answer()
                == Access::Load;
            self.loads_begun(earlier) + if told_to_load {
                1nat
            } else {
                0nat
            }
        }
    }
}

/// No duplicate loads. However callers and load reports interleave, at most
/// one caller is ever told to load, and none if a load was begun before.
pub proof fn lemma_at_most_one_load<H>(start: ModelLoader<H>, events: Seq<LoaderEvent<H>>)
    ensures
        start.loads_begun(events) <= 1,
        !(start is Empty) ==> start.loads_begun(events) == 0,
        start.after_all(events) is Empty ==> start.loads_begun(events) == 0 && start is Empty,
    decreases events.len(),
{
    if events.len() > 0 {
        lemma_at_most_one_load(start, events.drop_last());
    }
}

/// The outcome stands. Once loading is settled nothing changes the loader:
/// the handle stays the one handle, and a failure stays the failure.
pub proof fn lemma_outcome_stands<H>(start: ModelLoader<H>, events: Seq<LoaderEvent<H>>)
    requires
        start.settled(),
    ensures
        start.after_all(events) == start,
    decreases events.len(),
{
    if events.len() > 0 {
        lemma_outcome_stands(start, events.drop_last());
    }
}

/// A failed load is final. After a load has failed, every caller is told
/// that the outcome is known, and that outcome is the same failure, whatever
/// happened in between: no request is served until the worker restarts.
pub proof fn lemma_failure_is_final<H>(
    start: ModelLoader<H>,
    error: LoadError,
    events: Seq<LoaderEvent<H>>,
)
    requires
        start is Loading,
    ensures
        start.after_load(Err(error)).after_all(events).answer() == Access::Settled,
        start.after_load(Err(error)).after_all(events).outcome() == Some(
            Err::<H, LoadError>(error),
        ),
{
    lemma_outcome_stands(start.after_load(Err(error)), events);
}

/// A loaded model is final. After a load has succeeded, every caller finds
/// the handle of that load, whatever happened in between.
pub proof fn lemma_handle_is_final<H>(
    start: ModelLoader<H>,
    handle: H,
    events: Seq<LoaderEvent<H>>,
)
    requires
        start is Loading,
    ensures
        start.after_load(Ok(handle)).after_all(events).answer() == Access::Settled,
        start.after_load(Ok(handle)).after_all(events).outcome() == Some(
            Ok::<H, LoadError>(handle),
        ),
{
    lemma_outcome_stands(start.after_load(Ok(handle)), events);
}

} // verus!
