//! The module loader shim: it adapts a loader written in the host language to
//! what the engine asks of a loader.
//!
//! The host's loader is a pair of callables. `resolve` takes a specifier, the
//! referrer and whether the module is the main one, and returns a host value
//! that should be a URL string. `load` takes a module URL and returns a module
//! source. Either returns nothing where the host raised.

use crate::error::{Error, ErrorModel};
use crate::specifier::{checked_text, parse_url, url_parse_outcome};
use crate::value::HostValue;
use vstd::prelude::*;
use vstd::string::*;
use vstd::utf8::encode_utf8;

verus! {

/// What the host's loader returns for a module.
#[derive(Clone, Debug, PartialEq, Eq)]
pub struct ModuleSource {
    pub code: String,
    /// `javascript` or `json`.
    pub module_type: String,
    /// The URL as the importer asked for it.
    pub module_url_specified: String,
    /// The URL after redirects.
    pub module_url_found: String,
}

impl ModuleSource {
    pub fn new(
        code: String,
        module_type: String,
        module_url_specified: String,
        module_url_found: String,
    ) -> (source: ModuleSource)
        ensures
            source.code == code,
            source.module_type == module_type,
            source.module_url_specified == module_url_specified,
            source.module_url_found == module_url_found,
    {
        ModuleSource { code, module_type, module_url_specified, module_url_found }
    }
}

/// The kind of a module.
#[derive(Clone, Copy, Debug, PartialEq, Eq, Structural)]
pub enum ModuleType {
    JavaScript,
    Json,
}

/// A module as the engine takes it.
#[derive(Clone, Debug, PartialEq, Eq)]
pub struct LoadedModule {
    /// The code, encoded as UTF-8 without a byte order mark.
    pub code: Vec<u8>,
    pub module_type: ModuleType,
    pub module_url_specified: String,
    pub module_url_found: String,
}

/// What the host's `load` answered.
#[derive(Debug, PartialEq, Eq)]
pub enum LoadReply {
    /// A module source.
    Source(ModuleSource),
    /// A value that is no module source.
    Other(HostValue),
}

/// The message of the error for a `resolve` that gave no string.
pub open spec fn no_string_message() -> Seq<char> {
    "resolve did not return a valid string"@
}

/// The message of the error for a `load` that failed.
pub open spec fn load_failed_message() -> Seq<char> {
    "Error calling load() function on ModuleLoader"@
}

/// The message of the error for a `load` that gave no module source.
pub open spec fn no_source_message() -> Seq<char> {
    "Error converting return value of load() to ModuleSource"@
}

/// What the shim makes of the answer of the host's `resolve`: the URL that the
/// returned string parses to; `LoaderError` where the host raised or returned
/// no string, and where the string is no URL.
pub open spec fn resolved(reply: Option<HostValue>) -> Result<Seq<char>, ErrorModel> {
    match reply {
        Some(HostValue::String(text)) => match url_parse_outcome(text@) {
            Ok(url) => Ok(url),
            Err(reason) => Err(ErrorModel::LoaderError(reason)),
        },
        _ => Err(ErrorModel::LoaderError(no_string_message())),
    }
}

/// The kind of a module whose source names the type `module_type`: JSON where
/// that is exactly `json`, JavaScript else.
pub open spec fn module_type_of(module_type: Seq<char>) -> ModuleType {
    if module_type == "json"@ {
        ModuleType::Json
    } else {
        ModuleType::JavaScript
    }
}

/// Whether `module` is the module that the engine takes for `source`.
pub open spec fn loaded_from(module: LoadedModule, source: ModuleSource) -> bool {
    &&& module.code@ == encode_utf8(source.code@)
    &&& module.module_type == module_type_of(source.module_type@)
    &&& module.module_url_specified@ == source.module_url_specified@
    &&& module.module_url_found@ == source.module_url_found@
}

/// Whether `r` is what the shim makes of the answer `reply` of the host's
/// `load`: the module of the source; `LoaderError` where the host raised or
/// returned no module source.
pub open spec fn loaded(reply: Option<LoadReply>, r: Result<LoadedModule, Error>) -> bool {
    match reply {
        Some(LoadReply::Source(source)) => r is Ok && loaded_from(r->Ok_0, source),
        Some(LoadReply::Other(_)) => r is Err && r->Err_0@ == ErrorModel::LoaderError(
            no_source_message(),
        ),
        None => r is Err && r->Err_0@ == ErrorModel::LoaderError(load_failed_message()),
    }
}

/// What the shim makes of what the URL parser made of the string that the
/// host's `resolve` returned: the URL, or `LoaderError` with the parser's
/// reason.
pub fn resolved_url(parsed: Result<String, String>) -> (r: Result<String, Error>)
    ensures
        parsed matches Ok(url) ==> r is Ok && r->Ok_0@ == url@,
        parsed matches Err(reason) ==> r is Err && r->Err_0@ == ErrorModel::LoaderError(reason@),
{
    match parsed {
        Ok(url) => Ok(url),
        Err(reason) => Err(Error::LoaderError(reason)),
    }
}

/// What the shim makes of the answer of the host's `resolve`.
pub fn resolve_reply(reply: Option<HostValue>) -> (r: Result<String, Error>)
    ensures
        checked_text(r) == resolved(reply),
{
    match reply {
        Some(HostValue::String(text)) => resolved_url(parse_url(text.as_str())),
        _ => Err(Error::LoaderError("resolve did not return a valid string".to_owned())),
    }
}

/// What the shim makes of the answer of the host's `load`.
pub fn load_reply(reply: Option<LoadReply>) -> (r: Result<LoadedModule, Error>)
    ensures
        loaded(reply, r),
{
    match reply {
        Some(LoadReply::Source(source)) => {
            let module_type = if source.module_type == "json".to_owned() {
                ModuleType::Json
            } else {
                ModuleType::JavaScript
            };
            Ok(
                LoadedModule {
                    code: source.code.as_str().as_bytes_vec(),
                    module_type,
                    module_url_specified: source.module_url_specified,
                    module_url_found: source.module_url_found,
                },
            )
        },
        Some(LoadReply::Other(_)) => Err(
            Error::LoaderError("Error converting return value of load() to ModuleSource".to_owned()),
        ),
        None => Err(Error::LoaderError("Error calling load() function on ModuleLoader".to_owned())),
    }
}

/// The shim around a loader of the host: `resolver` and `fetcher` make the
/// calls and return the host's answers.
pub struct ModuleLoader<R, L> {
    pub resolver: R,
    pub fetcher: L,
}

impl<R, L> ModuleLoader<R, L> where
    R: Fn(&str, &str, bool) -> Option<HostValue>,
    L: Fn(&str) -> Option<LoadReply>,
 {
    pub fn new(resolver: R, fetcher: L) -> (loader: ModuleLoader<R, L>)
        ensures
            loader.resolver == resolver,
            loader.fetcher == fetcher,
    {
        ModuleLoader { resolver, fetcher }
    }

    /// Resolves a specifier: asks the host once, with the three arguments as
    /// they are, and makes of its answer what `resolved` says.
    pub fn resolve(&self, specifier: &str, referrer: &str, is_main: bool) -> (r: Result<
        String,
        Error,
    >)
        requires
            forall|s: &str, f: &str, m: bool| call_requires(self.resolver, (s, f, m)),
        ensures
            exists|reply: Option<HostValue>|
                call_ensures(self.resolver, (specifier, referrer, is_main), reply) && checked_text(r)
                    == resolved(reply),
    {
        let reply = (self.resolver)(specifier, referrer, is_main);
        let ghost answer = reply;
        let r = resolve_reply(reply);
        proof {
            assert(call_ensures(self.resolver, (specifier, referrer, is_main), answer));
        }
        r
    }

    /// Loads a module: asks the host once for the module at `module_url`, and
    /// makes of its answer what `loaded` says.
    pub fn load(&self, module_url: &str) -> (r: Result<LoadedModule, Error>)
        requires
            forall|u: &str| call_requires(self.fetcher, (u,)),
        ensures
            exists|reply: Option<LoadReply>|
                call_ensures(self.fetcher, (module_url,), reply) && loaded(reply, r),
    {
        let reply = (self.fetcher)(module_url);
        let ghost answer = reply;
        let r = load_reply(reply);
        proof {
            assert(call_ensures(self.fetcher, (module_url,), answer));
        }
        r
    }
}

/// A `resolve` that returns no string fails with a `LoaderError`, and so
/// does one that raised; and whatever `resolve` returns, the shim fails with
/// no other error than a `LoaderError`.
pub proof fn lemma_resolve_fails_as_loader_error(reply: Option<HostValue>)
    ensures
        !(reply matches Some(HostValue::String(_))) ==> resolved(reply) == Err::<
            Seq<char>,
            ErrorModel,
        >(ErrorModel::LoaderError(no_string_message())),
        resolved(reply) matches Err(e) ==> e is LoaderError,
{
}

/// Whatever `load` returns, the shim fails with no other error than a
/// `LoaderError`, and it fails exactly where `load` returned no module source.
pub proof fn lemma_load_fails_as_loader_error(reply: Option<LoadReply>, r: Result<LoadedModule, Error>)
    requires
        loaded(reply, r),
    ensures
        r is Ok <==> reply matches Some(LoadReply::Source(_)),
        r matches Err(e) ==> e@ is LoaderError,
{
}

} // verus!
