//! The main worker: a runtime with the web platform, a main module,
//! permissions and bootstrap metadata.

use crate::error::{Error, ErrorModel};
use crate::registry::{
    all_ops, declarations, declared_all, ops_map, CallableRegistry, Extension, ExtensionDecl,
};
use crate::runtime::{Request, RequestModel};
use crate::specifier::{parse_url, url_parse_outcome};
use vstd::prelude::*;

verus! {

/// The metadata that JavaScript sees as the runtime's own.
#[derive(Clone, Debug, PartialEq, Eq)]
pub struct BootstrapOptions {
    /// The arguments of the program.
    pub args: Vec<String>,
    pub cpu_count: usize,
    pub debug_flag: bool,
    pub enable_testing_features: bool,
    /// The location of the program, as the text of a URL.
    pub location: Option<String>,
    pub no_color: bool,
    pub is_tty: bool,
    pub runtime_version: String,
    pub ts_version: String,
    pub unstable: bool,
    pub user_agent: String,
}

impl BootstrapOptions {
    /// The metadata of a program without arguments and without a location,
    /// on one processor, with every flag off.
    pub fn new() -> (options: BootstrapOptions)
        ensures
            options.args@.len() == 0,
            options.cpu_count == 1,
            !options.debug_flag,
            !options.enable_testing_features,
            options.location is None,
            !options.no_color,
            !options.is_tty,
            options.runtime_version@ == "x"@,
            options.ts_version@ == "x"@,
            !options.unstable,
            options.user_agent@ == "hello_runtime"@,
    {
        BootstrapOptions {
            args: Vec::new(),
            cpu_count: 1,
            debug_flag: false,
            enable_testing_features: false,
            location: None,
            no_color: false,
            is_tty: false,
            runtime_version: "x".to_owned(),
            ts_version: "x".to_owned(),
            unstable: false,
            user_agent: "hello_runtime".to_owned(),
        }
    }

    /// The location as JavaScript sees it: the URL that the text parses to;
    /// none where no text is given, and none where the text is no URL.
    pub open spec fn location_seen(self) -> Option<Seq<char>> {
        match self.location {
            Some(text) => match url_parse_outcome(text@) {
                Ok(url) => Some(url),
                Err(_) => None,
            },
            None => None,
        }
    }

    /// The location as JavaScript sees it.
    pub fn location_url(&self) -> (url: Option<String>)
        ensures
            url is Some <==> self.location_seen() is Some,
            url matches Some(u) ==> self.location_seen() == Some(u@),
    {
        match &self.location {
            Some(text) => location_from(parse_url(text.as_str())),
            None => None,
        }
    }
}

/// The location as JavaScript sees it, given what the URL parser made of its
/// text: the URL, or none where the text is no URL.
pub fn location_from(parsed: Result<String, String>) -> (url: Option<String>)
    ensures
        parsed matches Ok(u) ==> url is Some && url->Some_0@ == u@,
        parsed is Err ==> url is None,
{
    match parsed {
        Ok(url) => Some(url),
        Err(_) => None,
    }
}

/// The permissions as the host states them. For each kind of access: none
/// denies it, an empty list allows all of it, a list allows what it names.
#[derive(Clone, Debug, PartialEq, Eq)]
pub struct PermissionsOptions {
    pub allow_env: Option<Vec<String>>,
    pub allow_hrtime: bool,
    pub allow_net: Option<Vec<String>>,
    pub allow_ffi: Option<Vec<String>>,
    pub allow_read: Option<Vec<String>>,
    pub allow_run: Option<Vec<String>>,
    pub allow_write: Option<Vec<String>>,
}

/// What is granted of one kind of access.
#[derive(Clone, Debug, PartialEq, Eq)]
pub enum Grant {
    Deny,
    AllowAll,
    AllowList(Vec<String>),
}

/// The permissions of a worker. It never prompts.
#[derive(Clone, Debug, PartialEq, Eq)]
pub struct Permissions {
    pub env: Grant,
    pub hrtime: bool,
    pub net: Grant,
    pub ffi: Grant,
    pub read: Grant,
    pub run: Grant,
    pub write: Grant,
    pub prompt: bool,
}

/// The texts of a list.
pub open spec fn texts(list: Seq<String>) -> Seq<Seq<char>> {
    list.map_values(|s: String| s@)
}

/// Whether `grant` is what the statement `stated` grants.
pub open spec fn grants(stated: Option<Vec<String>>, grant: Grant) -> bool {
    match stated {
        None => grant is Deny,
        Some(list) => if list@.len() == 0 {
            grant is AllowAll
        } else {
            grant matches Grant::AllowList(names) && texts(names@) == texts(list@)
        },
    }
}

/// What a statement grants.
pub fn grant_of(stated: &Option<Vec<String>>) -> (grant: Grant)
    ensures
        grants(*stated, grant),
{
    match stated {
        None => Grant::Deny,
        Some(list) => {
            if list.len() == 0 {
                Grant::AllowAll
            } else {
                let mut names: Vec<String> = Vec::new();
                let mut i: usize = 0;
                while i < list.len()
                    invariant
                        i <= list.len(),
                        names@.len() == i,
                        forall|j: int| 0 <= j < i ==> (#[trigger] names@[j])@ == list@[j]@,
                    decreases list.len() - i,
                {
                    names.push(list[i].clone());
                    i = i + 1;
                }
                assert(texts(names@) =~= texts(list@));
                Grant::AllowList(names)
            }
        },
    }
}

impl PermissionsOptions {
    /// Everything denied.
    pub fn new() -> (options: PermissionsOptions)
        ensures
            options.allow_env is None,
            !options.allow_hrtime,
            options.allow_net is None,
            options.allow_ffi is None,
            options.allow_read is None,
            options.allow_run is None,
            options.allow_write is None,
    {
        PermissionsOptions {
            allow_env: None,
            allow_hrtime: false,
            allow_net: None,
            allow_ffi: None,
            allow_read: None,
            allow_run: None,
            allow_write: None,
        }
    }

    /// The permissions that these statements make.
    pub fn permissions(&self) -> (p: Permissions)
        ensures
            grants(self.allow_env, p.env),
            p.hrtime == self.allow_hrtime,
            grants(self.allow_net, p.net),
            grants(self.allow_ffi, p.ffi),
            grants(self.allow_read, p.read),
            grants(self.allow_run, p.run),
            grants(self.allow_write, p.write),
            !p.prompt,
    {
        Permissions {
            env: grant_of(&self.allow_env),
            hrtime: self.allow_hrtime,
            net: grant_of(&self.allow_net),
            ffi: grant_of(&self.allow_ffi),
            read: grant_of(&self.allow_read),
            run: grant_of(&self.allow_run),
            write: grant_of(&self.allow_write),
            prompt: false,
        }
    }
}

/// The options of a main worker. `M` is the module loader, `C` a callable.
pub struct WorkerOptions<C, M> {
    pub bootstrap: BootstrapOptions,
    pub extensions: Vec<Extension<C>>,
    pub module_loader: M,
}

impl<C, M> WorkerOptions<C, M> {
    pub fn new(bootstrap: BootstrapOptions, extensions: Vec<Extension<C>>, module_loader: M) -> (options:
        WorkerOptions<C, M>)
        ensures
            options.bootstrap == bootstrap,
            options.extensions == extensions,
            options.module_loader == module_loader,
    {
        WorkerOptions { bootstrap, extensions, module_loader }
    }
}

/// What the engine of a worker is started with.
pub struct WorkerEngineOptions<M> {
    pub bootstrap: BootstrapOptions,
    /// The location as JavaScript sees it.
    pub location: Option<String>,
    pub extensions: Vec<ExtensionDecl>,
    pub module_loader: M,
}

/// A main worker: it holds the URL of its main module and the registry of
/// its callables.
#[verifier::reject_recursive_types(C)]
pub struct MainWorker<C> {
    pub main_module: String,
    pub registry: CallableRegistry<C>,
}

impl<C> MainWorker<C> {
    /// Whether `made` is the worker of these options for the main module at
    /// `url`, with what its engine is started with: the registry holds the ops
    /// of all the extensions; the engine gets the bootstrap metadata and the
    /// loader as they were given, the location as JavaScript sees it, and the
    /// declaration of each extension in their order.
    pub open spec fn made_of<M>(
        made: (MainWorker<C>, WorkerEngineOptions<M>),
        url: Seq<char>,
        options: WorkerOptions<C, M>,
    ) -> bool {
        &&& made.0.main_module@ == url
        &&& made.0.registry@ == ops_map(all_ops(options.extensions@))
        &&& made.1.bootstrap == options.bootstrap
        &&& made.1.location is Some <==> options.bootstrap.location_seen() is Some
        &&& made.1.location matches Some(location) ==> options.bootstrap.location_seen() == Some(
            location@,
        )
        &&& made.1.module_loader == options.module_loader
        &&& declared_all(options.extensions@, made.1.extensions@)
    }

    /// Makes a worker, given what resolving the path of its main module
    /// gave, the URL or the reason why there is none, and whether the
    /// permissions could be normalised: `BadSpecifier` with the reason where
    /// the main module has no URL; else `BadPermission` where the permissions
    /// could not be normalised; else the worker for the URL.
    pub fn new<M>(
        main_module: Result<String, String>,
        permissions_normalised: bool,
        options: WorkerOptions<C, M>,
    ) -> (r: Result<(MainWorker<C>, WorkerEngineOptions<M>), Error>)
        ensures
            match main_module {
                Ok(url) => if permissions_normalised {
                    r is Ok && Self::made_of(r->Ok_0, url@, options)
                } else {
                    r is Err && r->Err_0@ == ErrorModel::BadPermission
                },
                Err(reason) => r is Err && r->Err_0@ == ErrorModel::BadSpecifier(reason@),
            },
    {
        let url = match main_module {
            Ok(url) => url,
            Err(reason) => {
                return Err(Error::BadSpecifier(reason));
            },
        };
        if !permissions_normalised {
            return Err(Error::BadPermission);
        }
        let decls = declarations(&options.extensions);
        let location = options.bootstrap.location_url();
        let WorkerOptions { bootstrap, extensions, module_loader } = options;
        let worker = MainWorker { main_module: url, registry: CallableRegistry::new(extensions) };
        let engine = WorkerEngineOptions { bootstrap, location, extensions: decls, module_loader };
        Ok((worker, engine))
    }

    /// The request to load and evaluate the main module.
    pub fn execute_main_module(&self) -> (request: Request)
        ensures
            request@ == (RequestModel::ExecuteMainModule { url: self.main_module@ }),
    {
        Request::ExecuteMainModule { url: self.main_module.clone() }
    }

    /// The request to drive the event loop.
    pub fn run_event_loop(&self) -> (request: Request)
        ensures
            request@ == RequestModel::RunEventLoop,
    {
        Request::RunEventLoop
    }

    /// The request to run a script. A worker takes no snapshot, so it runs
    /// scripts in every state.
    pub fn execute_script(&self, name: &str, source: &str) -> (request: Request)
        ensures
            request@ == (RequestModel::ExecuteScript { name: name@, source: source@ }),
    {
        Request::ExecuteScript { name: name.to_owned(), source: source.to_owned() }
    }
}

} // verus!
