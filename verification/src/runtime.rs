//! The runtime: what is decided around the engine's work.
//!
//! The engine runs the JavaScript; it is not part of this library. A runtime
//! here holds what the decisions need: the registry of callables and the two
//! snapshot flags. Each operation comes in two steps. The first says whether
//! the operation may go ahead, and with what the engine is to be called:
//! a `Request`. The second takes what the engine gave back and says what the
//! host is told.

use crate::error::{Error, ErrorModel, JsError, JsException};
use crate::registry::{
    all_ops, declarations, declared_all, ops_map, CallableRegistry, Extension, ExtensionDecl,
};
use crate::specifier::{parse_url, specifier_from, url_parse_outcome};
use vstd::prelude::*;

verus! {

/// The options of a runtime. `M` is the module loader, `C` a callable.
pub struct RuntimeOptions<C, M> {
    pub module_loader: Option<M>,
    pub extensions: Vec<Extension<C>>,
    /// Whether the runtime is made to be snapshotted.
    pub will_snapshot: bool,
    /// A snapshot to start from.
    pub startup_snapshot: Option<Vec<u8>>,
}

impl<C, M> RuntimeOptions<C, M> {
    /// No loader, no extensions, no snapshot to take or to start from.
    pub fn new() -> (options: RuntimeOptions<C, M>)
        ensures
            options.module_loader is None,
            options.extensions@.len() == 0,
            !options.will_snapshot,
            options.startup_snapshot is None,
    {
        RuntimeOptions {
            module_loader: None,
            extensions: Vec::new(),
            will_snapshot: false,
            startup_snapshot: None,
        }
    }
}

/// What the engine is started with.
pub struct EngineOptions<M> {
    pub module_loader: Option<M>,
    pub extensions: Vec<ExtensionDecl>,
    pub will_snapshot: bool,
    pub startup_snapshot: Option<Vec<u8>>,
}

/// A call that the engine is to serve.
#[derive(Clone, Debug, PartialEq, Eq)]
pub enum Request {
    /// Run a script in the current context.
    ExecuteScript { name: String, source: String },
    /// Record the module at `url` as the main one; where `code` is given,
    /// take it as the module's source and do not ask the loader for it.
    LoadMainModule { url: String, code: Option<String> },
    /// Begin to evaluate the module, then drive the event loop until both the
    /// evaluation and the loop have settled.
    ModEvaluate { id: i32 },
    /// Drive the event loop until no work remains.
    RunEventLoop,
    /// Take the snapshot.
    Snapshot,
    /// Load and evaluate the main module at `url`.
    ExecuteMainModule { url: String },
}

/// The model of a `Request`.
pub enum RequestModel {
    ExecuteScript { name: Seq<char>, source: Seq<char> },
    LoadMainModule { url: Seq<char>, code: Option<Seq<char>> },
    ModEvaluate { id: int },
    RunEventLoop,
    Snapshot,
    ExecuteMainModule { url: Seq<char> },
}

impl View for Request {
    type V = RequestModel;

    open spec fn view(&self) -> RequestModel {
        match self {
            Request::ExecuteScript { name, source } => RequestModel::ExecuteScript {
                name: name@,
                source: source@,
            },
            Request::LoadMainModule { url, code } => RequestModel::LoadMainModule {
                url: url@,
                code: match code {
                    Some(code) => Some(code@),
                    None => None,
                },
            },
            Request::ModEvaluate { id } => RequestModel::ModEvaluate { id: *id as int },
            Request::RunEventLoop => RequestModel::RunEventLoop,
            Request::Snapshot => RequestModel::Snapshot,
            Request::ExecuteMainModule { url } => RequestModel::ExecuteMainModule { url: url@ },
        }
    }
}

/// The model of what the first step of an operation returns.
pub open spec fn admission(r: Result<Request, Error>) -> Result<RequestModel, ErrorModel> {
    match r {
        Ok(request) => Ok(request@),
        Err(e) => Err(e@),
    }
}

/// How the engine failed.
#[derive(Clone, Debug, PartialEq, Eq)]
pub enum EngineError {
    /// JavaScript threw.
    Thrown(JsError),
    /// Anything else; the text is the engine's.
    Other(String),
}

impl EngineError {
    /// The error that the host is told: the exception of the error where
    /// JavaScript threw, the engine's text else.
    pub open spec fn reported(self) -> ErrorModel {
        match self {
            EngineError::Thrown(error) => ErrorModel::JsError(error.exception()),
            EngineError::Other(text) => ErrorModel::Engine(text@),
        }
    }

    /// The error that the host is told.
    pub fn report(self) -> (e: Error)
        ensures
            e@ == self.reported(),
    {
        match self {
            EngineError::Thrown(error) => Error::JsError(JsException::from(error)),
            EngineError::Other(text) => Error::Engine(text),
        }
    }
}

/// What the host is told of a script that the engine ran: the text of its
/// value, or the error.
pub fn script_result(outcome: Result<String, EngineError>) -> (r: Result<String, Error>)
    ensures
        outcome matches Ok(text) ==> r is Ok && r->Ok_0@ == text@,
        outcome matches Err(e) ==> r is Err && r->Err_0@ == e.reported(),
{
    match outcome {
        Ok(text) => Ok(text),
        Err(e) => Err(e.report()),
    }
}

/// What the host is told of an operation that returns nothing or a module
/// id: what the engine gave, or its text as an error.
pub fn engine_result<T>(outcome: Result<T, String>) -> (r: Result<T, Error>)
    ensures
        outcome matches Ok(value) ==> r == Ok::<T, Error>(value),
        outcome matches Err(text) ==> r is Err && r->Err_0@ == ErrorModel::Engine(text@),
{
    match outcome {
        Ok(value) => Ok(value),
        Err(text) => Err(Error::Engine(text)),
    }
}

/// What the host is told of the evaluation of a module: the first failure,
/// that of the event loop before that of the evaluation; success where both
/// succeeded.
pub fn evaluation_result(event_loop: Result<(), String>, evaluation: Result<(), String>) -> (r:
    Result<(), Error>)
    ensures
        event_loop matches Err(text) ==> r is Err && r->Err_0@ == ErrorModel::Engine(text@),
        event_loop is Ok ==> (evaluation matches Err(text) ==> r is Err && r->Err_0@
            == ErrorModel::Engine(text@)),
        event_loop is Ok && evaluation is Ok ==> r is Ok,
{
    match event_loop {
        Err(text) => Err(Error::Engine(text)),
        Ok(_) => engine_result(evaluation),
    }
}

/// The request to load the main module, given what the URL parser made of
/// its specifier: the request with the URL and the code as it was given, or
/// `BadSpecifier` with the parser's reason.
pub fn main_module_request(parsed: Result<String, String>, code: Option<String>) -> (r: Result<
    Request,
    Error,
>)
    ensures
        parsed matches Ok(url) ==> admission(r) == Ok::<RequestModel, ErrorModel>(
            RequestModel::LoadMainModule {
                url: url@,
                code: match code {
                    Some(code) => Some(code@),
                    None => None,
                },
            },
        ),
        parsed matches Err(reason) ==> admission(r) == Err::<RequestModel, ErrorModel>(
            ErrorModel::BadSpecifier(reason@),
        ),
{
    match specifier_from(parsed) {
        Ok(url) => Ok(Request::LoadMainModule { url, code }),
        Err(e) => Err(e),
    }
}

/// A runtime.
#[verifier::reject_recursive_types(C)]
pub struct JsRuntime<C> {
    pub registry: CallableRegistry<C>,
    pub will_snapshot: bool,
    pub has_snapshotted: bool,
}

impl<C> JsRuntime<C> {
    /// Whether the flags agree: only a runtime that was made to be
    /// snapshotted has been snapshotted.
    pub open spec fn wf(self) -> bool {
        self.has_snapshotted ==> self.will_snapshot
    }

    /// Whether scripts and modules may run: nothing has been snapshotted.
    pub open spec fn admits_code(self) -> bool {
        !self.has_snapshotted
    }

    /// Whether a snapshot may be taken: the runtime was made for one.
    pub open spec fn admits_snapshot(self) -> bool {
        self.will_snapshot
    }

    /// The runtime after its snapshot was taken.
    pub open spec fn snapshotted(self) -> JsRuntime<C> {
        JsRuntime { registry: self.registry, will_snapshot: self.will_snapshot, has_snapshotted: true }
    }

    /// Makes a runtime of its options: the registry holds the ops of all the
    /// extensions, and nothing is snapshotted yet. Beside the runtime stands
    /// what the engine is started with: the loader, the declaration of each
    /// extension in their order, and the snapshot settings as they were
    /// given.
    pub fn new<M>(options: RuntimeOptions<C, M>) -> (made: (JsRuntime<C>, EngineOptions<M>))
        ensures
            made.0.registry@ == ops_map(all_ops(options.extensions@)),
            made.0.will_snapshot == options.will_snapshot,
            made.0.admits_code(),
            made.0.wf(),
            made.1.module_loader == options.module_loader,
            made.1.will_snapshot == options.will_snapshot,
            made.1.startup_snapshot == options.startup_snapshot,
            declared_all(options.extensions@, made.1.extensions@),
    {
        let decls = declarations(&options.extensions);
        let RuntimeOptions { module_loader, extensions, will_snapshot, startup_snapshot } = options;
        let runtime = JsRuntime {
            registry: CallableRegistry::new(extensions),
            will_snapshot,
            has_snapshotted: false,
        };
        let engine = EngineOptions { module_loader, extensions: decls, will_snapshot, startup_snapshot };
        (runtime, engine)
    }

    /// The first step of running a script: `Snapshotted` where the runtime
    /// has been snapshotted, else the request for the engine.
    pub fn execute_script(&self, name: &str, source: &str) -> (r: Result<Request, Error>)
        ensures
            !self.admits_code() ==> admission(r) == Err::<RequestModel, ErrorModel>(
                ErrorModel::Snapshotted,
            ),
            self.admits_code() ==> admission(r) == Ok::<RequestModel, ErrorModel>(
                RequestModel::ExecuteScript { name: name@, source: source@ },
            ),
    {
        if self.has_snapshotted {
            Err(Error::Snapshotted)
        } else {
            Ok(Request::ExecuteScript { name: name.to_owned(), source: source.to_owned() })
        }
    }

    /// The first step of loading the main module: `Snapshotted` where the
    /// runtime has been snapshotted; else `BadSpecifier` where the specifier
    /// is no valid URL; else the request for the engine, with the URL that the
    /// specifier parses to and the code as it was given.
    pub fn load_main_module(&self, specifier: &str, code: Option<String>) -> (r: Result<
        Request,
        Error,
    >)
        ensures
            !self.admits_code() ==> admission(r) == Err::<RequestModel, ErrorModel>(
                ErrorModel::Snapshotted,
            ),
            self.admits_code() ==> admission(r) == match url_parse_outcome(specifier@) {
                Ok(url) => Ok(
                    RequestModel::LoadMainModule {
                        url,
                        code: match code {
                            Some(code) => Some(code@),
                            None => None,
                        },
                    },
                ),
                Err(reason) => Err(ErrorModel::BadSpecifier(reason)),
            },
    {
        if self.has_snapshotted {
            return Err(Error::Snapshotted);
        }
        main_module_request(parse_url(specifier), code)
    }

    /// The first step of evaluating a module: `Snapshotted` where the runtime
    /// has been snapshotted, else the request for the engine.
    pub fn mod_evaluate(&self, id: i32) -> (r: Result<Request, Error>)
        ensures
            !self.admits_code() ==> admission(r) == Err::<RequestModel, ErrorModel>(
                ErrorModel::Snapshotted,
            ),
            self.admits_code() ==> admission(r) == Ok::<RequestModel, ErrorModel>(
                RequestModel::ModEvaluate { id: id as int },
            ),
    {
        if self.has_snapshotted {
            Err(Error::Snapshotted)
        } else {
            Ok(Request::ModEvaluate { id })
        }
    }

    /// The first step of driving the event loop. It neither runs a script nor
    /// touches a module, so it is open in every state.
    pub fn run_event_loop(&self) -> (request: Request)
        ensures
            request@ == RequestModel::RunEventLoop,
    {
        Request::RunEventLoop
    }

    /// The first step of taking the snapshot: `NoSnapshotFlag` where the
    /// runtime was not made to be snapshotted, and then nothing changes;
    /// else the request for the engine, and from now on the runtime counts
    /// as snapshotted.
    pub fn snapshot(&mut self) -> (r: Result<Request, Error>)
        ensures
            !old(self).admits_snapshot() ==> admission(r) == Err::<RequestModel, ErrorModel>(
                ErrorModel::NoSnapshotFlag,
            ) && *final(self) == *old(self),
            old(self).admits_snapshot() ==> admission(r) == Ok::<RequestModel, ErrorModel>(
                RequestModel::Snapshot,
            ) && *final(self) == old(self).snapshotted(),
    {
        if !self.will_snapshot {
            Err(Error::NoSnapshotFlag)
        } else {
            self.has_snapshotted = true;
            Ok(Request::Snapshot)
        }
    }
}

/// Once the snapshot is taken, no script and no module runs, whatever else
/// is done with the runtime; and the flags still agree.
pub proof fn lemma_snapshot_closes<C>(runtime: JsRuntime<C>)
    requires
        runtime.admits_snapshot(),
    ensures
        !runtime.snapshotted().admits_code(),
        !runtime.snapshotted().snapshotted().admits_code(),
        runtime.snapshotted().wf(),
{
}

/// A runtime that was not made to be snapshotted, and whose flags agree,
/// admits scripts and modules for good: no snapshot is ever admitted.
pub proof fn lemma_unflagged_stays_open<C>(runtime: JsRuntime<C>)
    requires
        runtime.wf(),
        !runtime.admits_snapshot(),
    ensures
        runtime.admits_code(),
{
}

} // verus!
