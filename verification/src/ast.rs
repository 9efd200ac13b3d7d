//! Parsing of module sources and transpiling them to JavaScript.
//!
//! The parser and the transpiler are not part of this library. What is
//! decided here is what they are asked, and what the host is told of their
//! answers. Each of the two operations comes in two steps: the first says
//! what is asked, the second takes the answer.

use crate::error::{Error, ErrorModel};
use crate::specifier::{parse_url, specifier_from, text_result, url_parse_outcome};
use vstd::prelude::*;
use vstd::string::*;
use vstd::utf8::encode_utf8;

verus! {

/// What is to be parsed.
#[derive(Clone, Debug, PartialEq, Eq)]
pub struct ParseParams {
    /// The specifier of the module. It must be a URL.
    pub specifier: String,
    /// The source text.
    pub text_info: String,
    /// The type of the source, as a MIME type.
    pub media_type: String,
}

impl ParseParams {
    /// No specifier, no text, and the media type `javascript`.
    pub fn new() -> (params: ParseParams)
        ensures
            params.specifier@ == ""@,
            params.text_info@ == ""@,
            params.media_type@ == "javascript"@,
    {
        ParseParams {
            specifier: "".to_owned(),
            text_info: "".to_owned(),
            media_type: "javascript".to_owned(),
        }
    }
}

/// The options of a transpilation.
#[derive(Clone, Debug, PartialEq, Eq)]
pub struct EmitOptions {
    /// With a legacy decorator, emit its metadata too.
    pub emit_metadata: bool,
    /// Put the source map into the emitted text.
    pub inline_source_map: bool,
    /// Put the sources into the source map.
    pub inline_sources: bool,
    /// Use the automatic JSX runtime.
    pub jsx_automatic: bool,
    /// With the automatic JSX runtime, use its development mode.
    pub jsx_development: bool,
    pub jsx_factory: String,
    pub jsx_fragment_factory: String,
    /// The module to import the JSX factories from.
    pub jsx_import_source: Option<String>,
    /// Make a source map beside the emitted text.
    pub source_map: bool,
    /// Transform JSX, or leave it as it is.
    pub transform_jsx: bool,
    /// Turn import declarations into variable declarations.
    pub var_decl_imports: bool,
}

/// What is done with imports that are used for their types only.
#[derive(Clone, Copy, Debug, PartialEq, Eq, Structural)]
pub enum ImportsNotUsedAsValues {
    /// They are left out.
    Remove,
    /// They are kept, for what importing them does.
    Preserve,
}

/// The options as they are carried on: every option under its own name, and
/// beside them what is done with imports that are used for their types only.
#[derive(Clone, Debug, PartialEq, Eq)]
pub struct TranspilePlan {
    pub emit_metadata: bool,
    pub imports_not_used_as_values: ImportsNotUsedAsValues,
    pub inline_source_map: bool,
    pub inline_sources: bool,
    pub jsx_automatic: bool,
    pub jsx_development: bool,
    pub jsx_factory: String,
    pub jsx_fragment_factory: String,
    pub jsx_import_source: Option<String>,
    pub source_map: bool,
    pub transform_jsx: bool,
    pub var_decl_imports: bool,
}

/// The model of a `TranspilePlan`.
pub struct PlanModel {
    pub emit_metadata: bool,
    pub imports_not_used_as_values: ImportsNotUsedAsValues,
    pub inline_source_map: bool,
    pub inline_sources: bool,
    pub jsx_automatic: bool,
    pub jsx_development: bool,
    pub jsx_factory: Seq<char>,
    pub jsx_fragment_factory: Seq<char>,
    pub jsx_import_source: Option<Seq<char>>,
    pub source_map: bool,
    pub transform_jsx: bool,
    pub var_decl_imports: bool,
}

/// The text of an optional text.
pub open spec fn optional_text(text: Option<String>) -> Option<Seq<char>> {
    match text {
        Some(text) => Some(text@),
        None => None,
    }
}

impl View for TranspilePlan {
    type V = PlanModel;

    open spec fn view(&self) -> PlanModel {
        PlanModel {
            emit_metadata: self.emit_metadata,
            imports_not_used_as_values: self.imports_not_used_as_values,
            inline_source_map: self.inline_source_map,
            inline_sources: self.inline_sources,
            jsx_automatic: self.jsx_automatic,
            jsx_development: self.jsx_development,
            jsx_factory: self.jsx_factory@,
            jsx_fragment_factory: self.jsx_fragment_factory@,
            jsx_import_source: optional_text(self.jsx_import_source),
            source_map: self.source_map,
            transform_jsx: self.transform_jsx,
            var_decl_imports: self.var_decl_imports,
        }
    }
}

/// Where the source map goes.
#[derive(Clone, Copy, Debug, PartialEq, Eq, Structural)]
pub enum SourceMapMode {
    /// Into the emitted text.
    Inline,
    /// Beside the emitted text.
    Separate,
    /// Nowhere: none is made.
    Omitted,
}

/// What is done with JSX.
#[derive(Clone, Debug, PartialEq, Eq)]
pub enum JsxMode {
    /// It is left as it is.
    Preserve,
    /// It is transformed into calls of the two factories.
    Classic { factory: String, fragment_factory: String },
    /// It is transformed with the automatic runtime.
    Automatic { development: bool, import_source: Option<String> },
}

/// What is done with decorators.
#[derive(Clone, Copy, Debug, PartialEq, Eq, Structural)]
pub enum Decorators {
    /// They are left as they are.
    Untouched,
    /// They are taken as the standard has them.
    Ecma,
    /// They are taken as TypeScript had them first, with or without their
    /// metadata.
    LegacyTypeScript { emit_metadata: bool },
}

/// What the transpiler is asked, in the transpiler's own terms.
#[derive(Clone, Debug, PartialEq, Eq)]
pub struct TranspileRequest {
    pub decorators: Decorators,
    pub imports_not_used_as_values: ImportsNotUsedAsValues,
    pub jsx: JsxMode,
    pub var_decl_imports: bool,
    pub source_maps: SourceMapMode,
    pub inline_sources: bool,
}

/// The model of a `JsxMode`.
pub enum JsxModel {
    Preserve,
    Classic { factory: Seq<char>, fragment_factory: Seq<char> },
    Automatic { development: bool, import_source: Option<Seq<char>> },
}

impl View for JsxMode {
    type V = JsxModel;

    open spec fn view(&self) -> JsxModel {
        match self {
            JsxMode::Preserve => JsxModel::Preserve,
            JsxMode::Classic { factory, fragment_factory } => JsxModel::Classic {
                factory: factory@,
                fragment_factory: fragment_factory@,
            },
            JsxMode::Automatic { development, import_source } => JsxModel::Automatic {
                development: *development,
                import_source: optional_text(*import_source),
            },
        }
    }
}

/// The model of a `TranspileRequest`.
pub struct RequestModel {
    pub decorators: Decorators,
    pub imports_not_used_as_values: ImportsNotUsedAsValues,
    pub jsx: JsxModel,
    pub var_decl_imports: bool,
    pub source_maps: SourceMapMode,
    pub inline_sources: bool,
}

impl View for TranspileRequest {
    type V = RequestModel;

    open spec fn view(&self) -> RequestModel {
        RequestModel {
            decorators: self.decorators,
            imports_not_used_as_values: self.imports_not_used_as_values,
            jsx: self.jsx@,
            var_decl_imports: self.var_decl_imports,
            source_maps: self.source_maps,
            inline_sources: self.inline_sources,
        }
    }
}

impl PlanModel {
    /// Where the source map goes. The transpiler has one place for it: into
    /// the text where `inline_source_map` asks so, whatever `source_map`
    /// says; else beside the text where `source_map` asks for one; else
    /// nowhere.
    pub open spec fn source_map_mode(self) -> SourceMapMode {
        if self.inline_source_map {
            SourceMapMode::Inline
        } else if self.source_map {
            SourceMapMode::Separate
        } else {
            SourceMapMode::Omitted
        }
    }

    /// What is done with JSX: nothing where it is not to be transformed;
    /// else the automatic runtime where that is chosen, with its two
    /// settings; else calls of the two factories. The factories have no
    /// part in the first two.
    pub open spec fn jsx(self) -> JsxModel {
        if !self.transform_jsx {
            JsxModel::Preserve
        } else if self.jsx_automatic {
            JsxModel::Automatic {
                development: self.jsx_development,
                import_source: self.jsx_import_source,
            }
        } else {
            JsxModel::Classic {
                factory: self.jsx_factory,
                fragment_factory: self.jsx_fragment_factory,
            }
        }
    }

    /// The plan in the transpiler's own terms. Decorators are taken as
    /// TypeScript had them first.
    pub open spec fn request(self) -> RequestModel {
        RequestModel {
            decorators: Decorators::LegacyTypeScript { emit_metadata: self.emit_metadata },
            imports_not_used_as_values: self.imports_not_used_as_values,
            jsx: self.jsx(),
            var_decl_imports: self.var_decl_imports,
            source_maps: self.source_map_mode(),
            inline_sources: self.inline_sources,
        }
    }
}

impl TranspilePlan {
    /// The plan in the transpiler's own terms.
    pub fn request(&self) -> (request: TranspileRequest)
        ensures
            request@ == self@.request(),
    {
        let jsx = if !self.transform_jsx {
            JsxMode::Preserve
        } else if self.jsx_automatic {
            JsxMode::Automatic {
                development: self.jsx_development,
                import_source: match &self.jsx_import_source {
                    Some(source) => Some(source.clone()),
                    None => None,
                },
            }
        } else {
            JsxMode::Classic {
                factory: self.jsx_factory.clone(),
                fragment_factory: self.jsx_fragment_factory.clone(),
            }
        };
        let source_maps = if self.inline_source_map {
            SourceMapMode::Inline
        } else if self.source_map {
            SourceMapMode::Separate
        } else {
            SourceMapMode::Omitted
        };
        TranspileRequest {
            decorators: Decorators::LegacyTypeScript { emit_metadata: self.emit_metadata },
            imports_not_used_as_values: self.imports_not_used_as_values,
            jsx,
            var_decl_imports: self.var_decl_imports,
            source_maps,
            inline_sources: self.inline_sources,
        }
    }
}

impl EmitOptions {
    /// The source map in the text, and the sources in the map; JSX transformed
    /// into calls of `React.createElement` and `React.Fragment`; every other
    /// flag off.
    pub fn new() -> (options: EmitOptions)
        ensures
            !options.emit_metadata,
            options.inline_source_map,
            options.inline_sources,
            !options.jsx_automatic,
            !options.jsx_development,
            options.jsx_factory@ == "React.createElement"@,
            options.jsx_fragment_factory@ == "React.Fragment"@,
            options.jsx_import_source is None,
            !options.source_map,
            options.transform_jsx,
            !options.var_decl_imports,
    {
        EmitOptions {
            emit_metadata: false,
            inline_source_map: true,
            inline_sources: true,
            jsx_automatic: false,
            jsx_development: false,
            jsx_factory: "React.createElement".to_owned(),
            jsx_fragment_factory: "React.Fragment".to_owned(),
            jsx_import_source: None,
            source_map: false,
            transform_jsx: true,
            var_decl_imports: false,
        }
    }

    /// The options as they are carried on: each option under its own name,
    /// as it is; imports that are used for their types only are always
    /// removed.
    pub open spec fn plan_model(self) -> PlanModel {
        PlanModel {
            emit_metadata: self.emit_metadata,
            imports_not_used_as_values: ImportsNotUsedAsValues::Remove,
            inline_source_map: self.inline_source_map,
            inline_sources: self.inline_sources,
            jsx_automatic: self.jsx_automatic,
            jsx_development: self.jsx_development,
            jsx_factory: self.jsx_factory@,
            jsx_fragment_factory: self.jsx_fragment_factory@,
            jsx_import_source: optional_text(self.jsx_import_source),
            source_map: self.source_map,
            transform_jsx: self.transform_jsx,
            var_decl_imports: self.var_decl_imports,
        }
    }

    /// The options as they are carried on.
    pub fn plan(&self) -> (plan: TranspilePlan)
        ensures
            plan@ == self.plan_model(),
    {
        TranspilePlan {
            emit_metadata: self.emit_metadata,
            imports_not_used_as_values: ImportsNotUsedAsValues::Remove,
            inline_source_map: self.inline_source_map,
            inline_sources: self.inline_sources,
            jsx_automatic: self.jsx_automatic,
            jsx_development: self.jsx_development,
            jsx_factory: self.jsx_factory.clone(),
            jsx_fragment_factory: self.jsx_fragment_factory.clone(),
            jsx_import_source: match &self.jsx_import_source {
                Some(source) => Some(source.clone()),
                None => None,
            },
            source_map: self.source_map,
            transform_jsx: self.transform_jsx,
            var_decl_imports: self.var_decl_imports,
        }
    }
}

/// The emitted JavaScript, and the source map where one was made beside it.
#[derive(Clone, Debug, PartialEq, Eq)]
pub struct TranspiledSource {
    pub text: String,
    pub source_map: Option<String>,
}

/// The byte order mark.
pub const BOM: char = '\u{feff}';

/// A text without the byte order marks that it begins with.
pub open spec fn without_bom(text: Seq<char>) -> Seq<char>
    decreases text.len(),
{
    if text.len() > 0 && text[0] == BOM {
        without_bom(text.drop_first())
    } else {
        text
    }
}

/// A text without the byte order marks that it begins with.
pub fn strip_bom(text: &str) -> (stripped: &str)
    ensures
        stripped@ == without_bom(text@),
        stripped@.len() == 0 || stripped@[0] != BOM,
{
    let len = text.unicode_len();
    let mut k: usize = 0;
    proof {
        assert(text@.subrange(0, len as int) =~= text@);
    }
    while k < len && text.get_char(k) == BOM
        invariant
            k <= len == text@.len(),
            without_bom(text@) == without_bom(text@.subrange(k as int, len as int)),
        decreases len - k,
    {
        proof {
            assert(text@.subrange(k as int, len as int).drop_first() =~= text@.subrange(
                k + 1,
                len as int,
            ));
        }
        k = k + 1;
    }
    text.substring_char(k, len)
}

/// The longest source, in bytes, that is handed to the parser. The parser
/// counts the bytes of a source in 32 bits.
pub const MAX_SOURCE_BYTES: usize = 0x7fff_ffff;

/// The message of the diagnostic for a source that is too long.
pub open spec fn too_long_message() -> Seq<char> {
    "The source is too long."@
}

/// What the host is told of what the transpiler handed out: the emitted
/// text and source map, or `Transpile` with the transpiler's text.
pub open spec fn told(outcome: Result<(Seq<char>, Option<Seq<char>>), Seq<char>>) -> Result<
    (Seq<char>, Option<Seq<char>>),
    ErrorModel,
> {
    match outcome {
        Ok(emitted) => Ok(emitted),
        Err(text) => Err(ErrorModel::Transpile(text)),
    }
}

/// The model of what the host is told of a transpilation.
pub open spec fn transpiled_model(r: Result<TranspiledSource, Error>) -> Result<
    (Seq<char>, Option<Seq<char>>),
    ErrorModel,
> {
    match r {
        Ok(t) => Ok((t.text@, optional_text(t.source_map))),
        Err(e) => Err(e@),
    }
}

/// The model of what the transpiler hands out.
pub open spec fn outcome_model(r: Result<(String, Option<String>), String>) -> Result<
    (Seq<char>, Option<Seq<char>>),
    Seq<char>,
> {
    match r {
        Ok(emitted) => Ok((emitted.0@, optional_text(emitted.1))),
        Err(text) => Err(text@),
    }
}

/// What the host is told of a transpilation: the emitted text and source
/// map, or `Transpile` with the transpiler's text.
pub fn transpiled(outcome: Result<(String, Option<String>), String>) -> (r: Result<
    TranspiledSource,
    Error,
>)
    ensures
        transpiled_model(r) == told(outcome_model(outcome)),
        outcome matches Ok(emitted) ==> r is Ok && r->Ok_0.text == emitted.0 && r->Ok_0.source_map
            == emitted.1,
{
    match outcome {
        Ok(emitted) => Ok(TranspiledSource { text: emitted.0, source_map: emitted.1 }),
        Err(text) => Err(Error::Transpile(text)),
    }
}

/// The first step of transpiling a parsed source: what the transpiler is
/// asked with these options.
pub fn transpile(options: &EmitOptions) -> (request: TranspileRequest)
    ensures
        request@ == options.plan_model().request(),
{
    options.plan().request()
}

/// What the host is told of what the parser made of a source: what it
/// parsed, or `ParseDiagnostic` with the parser's text.
pub fn diagnosed<T>(outcome: Result<T, String>) -> (r: Result<T, Error>)
    ensures
        outcome matches Ok(parsed) ==> r == Ok::<T, Error>(parsed),
        outcome matches Err(diagnostic) ==> r is Err && r->Err_0@ == ErrorModel::ParseDiagnostic(
            diagnostic@,
        ),
{
    match outcome {
        Ok(parsed) => Ok(parsed),
        Err(diagnostic) => Err(Error::ParseDiagnostic(diagnostic)),
    }
}

/// What the parser is asked.
#[derive(Clone, Debug, PartialEq, Eq)]
pub struct ParseRequest {
    /// The specifier, as the URL that it parses to.
    pub specifier: String,
    /// The MIME type that the media type is derived from.
    pub media_type: String,
    /// The text, without the byte order marks that it began with.
    pub text: String,
    /// Whether the parser keeps its tokens.
    pub capture_tokens: bool,
    /// Whether the parser analyses the scopes.
    pub scope_analysis: bool,
}

/// The model of a `ParseRequest`.
pub struct ParseRequestModel {
    pub specifier: Seq<char>,
    pub media_type: Seq<char>,
    pub text: Seq<char>,
    pub capture_tokens: bool,
    pub scope_analysis: bool,
}

impl View for ParseRequest {
    type V = ParseRequestModel;

    open spec fn view(&self) -> ParseRequestModel {
        ParseRequestModel {
            specifier: self.specifier@,
            media_type: self.media_type@,
            text: self.text@,
            capture_tokens: self.capture_tokens,
            scope_analysis: self.scope_analysis,
        }
    }
}

/// What the parser is asked for these parameters, given what the URL parser
/// made of the specifier: `BadSpecifier` with its reason where the specifier
/// is no valid URL; else `ParseDiagnostic` where the text, without the byte
/// order marks that it begins with, is longer than `MAX_SOURCE_BYTES`; else
/// the request, with the URL, the media type as it is given and the text
/// without those marks. The parser keeps no tokens and analyses no scopes,
/// and takes the syntax that goes with the media type.
pub open spec fn asked(params: ParseParams, parsed: Result<Seq<char>, Seq<char>>) -> Result<
    ParseRequestModel,
    ErrorModel,
> {
    match parsed {
        Err(reason) => Err(ErrorModel::BadSpecifier(reason)),
        Ok(url) => if encode_utf8(without_bom(params.text_info@)).len() > MAX_SOURCE_BYTES {
            Err(ErrorModel::ParseDiagnostic(too_long_message()))
        } else {
            Ok(
                ParseRequestModel {
                    specifier: url,
                    media_type: params.media_type@,
                    text: without_bom(params.text_info@),
                    capture_tokens: false,
                    scope_analysis: false,
                },
            )
        },
    }
}

/// The model of what the first step of parsing returns.
pub open spec fn asked_model(r: Result<ParseRequest, Error>) -> Result<
    ParseRequestModel,
    ErrorModel,
> {
    match r {
        Ok(request) => Ok(request@),
        Err(e) => Err(e@),
    }
}

/// What the parser is asked for these parameters, given what the URL parser
/// made of the specifier.
pub fn parse_request(params: &ParseParams, parsed: Result<String, String>) -> (r: Result<
    ParseRequest,
    Error,
>)
    ensures
        asked_model(r) == asked(*params, text_result(parsed)),
{
    let url = match specifier_from(parsed) {
        Ok(url) => url,
        Err(e) => {
            return Err(e);
        },
    };
    let text = strip_bom(params.text_info.as_str());
    if text.as_bytes().len() > MAX_SOURCE_BYTES {
        return Err(Error::ParseDiagnostic("The source is too long.".to_owned()));
    }
    Ok(
        ParseRequest {
            specifier: url,
            media_type: params.media_type.clone(),
            text: text.to_owned(),
            capture_tokens: false,
            scope_analysis: false,
        },
    )
}

/// The first step of parsing a module: what the parser is asked, or why it
/// is not asked.
pub fn parse_module(params: &ParseParams) -> (r: Result<ParseRequest, Error>)
    ensures
        asked_model(r) == asked(*params, url_parse_outcome(params.specifier@)),
{
    parse_request(params, parse_url(params.specifier.as_str()))
}

} // verus!
