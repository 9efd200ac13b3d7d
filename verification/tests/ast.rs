use js_embed::ast::{
    diagnosed, parse_module, parse_request, strip_bom, transpile, transpiled, Decorators,
    EmitOptions, ImportsNotUsedAsValues, JsxMode, ParseParams, ParseRequest, SourceMapMode,
    TranspileRequest, TranspiledSource, MAX_SOURCE_BYTES,
};
use js_embed::error::Error;

fn text(s: &str) -> String {
    s.to_string()
}

fn typescript(source: &str) -> ParseParams {
    let mut params = ParseParams::new();
    params.specifier = text("file:///a.ts");
    params.media_type = text("application/typescript");
    params.text_info = text(source);
    params
}

fn tsx(source: &str) -> ParseParams {
    let mut params = typescript(source);
    params.specifier = text("file:///a.tsx");
    params.media_type = text("text/tsx");
    params
}

// The parser, asked what the library says.
fn ask_parser(request: &ParseRequest) -> Result<deno_ast::ParsedSource, String> {
    let specifier = deno_ast::ModuleSpecifier::parse(&request.specifier).unwrap();
    let media_type = deno_ast::MediaType::from_content_type(&specifier, &request.media_type);
    deno_ast::parse_module(deno_ast::ParseParams {
        specifier,
        text: request.text.as_str().into(),
        media_type,
        capture_tokens: request.capture_tokens,
        scope_analysis: request.scope_analysis,
        maybe_syntax: None,
    })
    .map_err(|diagnostic| diagnostic.to_string())
}

// The transpiler, asked what the library says.
fn ask_transpiler(
    parsed: &deno_ast::ParsedSource,
    request: &TranspileRequest,
) -> Result<(String, Option<String>), String> {
    let transpile_options = deno_ast::TranspileOptions {
        decorators: match request.decorators {
            Decorators::Untouched => deno_ast::DecoratorsTranspileOption::None,
            Decorators::Ecma => deno_ast::DecoratorsTranspileOption::Ecma,
            Decorators::LegacyTypeScript { emit_metadata } => {
                deno_ast::DecoratorsTranspileOption::LegacyTypeScript { emit_metadata }
            }
        },
        imports_not_used_as_values: match request.imports_not_used_as_values {
            ImportsNotUsedAsValues::Remove => deno_ast::ImportsNotUsedAsValues::Remove,
            ImportsNotUsedAsValues::Preserve => deno_ast::ImportsNotUsedAsValues::Preserve,
        },
        jsx: match request.jsx.clone() {
            JsxMode::Preserve => None,
            JsxMode::Classic { factory, fragment_factory } => Some(deno_ast::JsxRuntime::Classic(
                deno_ast::JsxClassicOptions { factory, fragment_factory },
            )),
            JsxMode::Automatic { development, import_source } => {
                Some(deno_ast::JsxRuntime::Automatic(deno_ast::JsxAutomaticOptions {
                    development,
                    import_source,
                }))
            }
        },
        var_decl_imports: request.var_decl_imports,
        ..Default::default()
    };
    let emit_options = deno_ast::EmitOptions {
        source_map: match request.source_maps {
            SourceMapMode::Inline => deno_ast::SourceMapOption::Inline,
            SourceMapMode::Separate => deno_ast::SourceMapOption::Separate,
            SourceMapMode::Omitted => deno_ast::SourceMapOption::None,
        },
        inline_sources: request.inline_sources,
        ..Default::default()
    };
    match parsed.clone().transpile(&transpile_options, &Default::default(), &emit_options) {
        Ok(result) => {
            let emitted = result.into_source();
            Ok((emitted.text, emitted.source_map))
        }
        Err(e) => Err(e.to_string()),
    }
}

fn parse(params: &ParseParams) -> Result<deno_ast::ParsedSource, Error> {
    diagnosed(ask_parser(&parse_module(params)?))
}

fn transpile_with(parsed: &deno_ast::ParsedSource, options: &EmitOptions) -> Result<TranspiledSource, Error> {
    transpiled(ask_transpiler(parsed, &transpile(options)))
}

fn classic() -> EmitOptions {
    let mut options = EmitOptions::new();
    options.inline_source_map = false;
    options
}

#[test]
fn typescript_is_transpiled_with_defaults() {
    let parsed = parse(&typescript("const x: number = 1;")).unwrap();
    let transpiled = transpile_with(&parsed, &EmitOptions::new()).unwrap();
    assert!(transpiled.text.contains("const x = 1;"));
    assert!(!transpiled.text.contains("number"));
    assert!(transpiled.text.contains("//# sourceMappingURL=data:application/json;base64,"));
    assert_eq!(transpiled.source_map, None);
}

#[test]
fn source_map_goes_where_it_is_asked() {
    let parsed = parse(&typescript("let y: string = 'a';")).unwrap();
    let mut options = EmitOptions::new();
    options.inline_source_map = false;
    options.source_map = true;
    let separate = transpile_with(&parsed, &options).unwrap();
    assert!(separate.text.contains("let y = 'a';"));
    assert!(!separate.text.contains("sourceMappingURL"));
    assert!(separate.source_map.is_some());
    options.source_map = false;
    let omitted = transpile_with(&parsed, &options).unwrap();
    assert!(!omitted.text.contains("sourceMappingURL"));
    assert_eq!(omitted.source_map, None);
    // The map in the text wins over the map beside it.
    options.inline_source_map = true;
    options.source_map = true;
    let both = transpile_with(&parsed, &options).unwrap();
    assert!(both.text.contains("sourceMappingURL"));
    assert_eq!(both.source_map, None);
}

#[test]
fn jsx_is_transformed_with_the_factories() {
    let parsed = parse(&tsx("const e = <><div/></>;")).unwrap();
    let plain = transpile_with(&parsed, &classic()).unwrap();
    assert!(plain.text.contains("React.createElement(\"div\""));
    assert!(plain.text.contains("React.Fragment"));
    let mut options = classic();
    options.jsx_factory = text("h");
    options.jsx_fragment_factory = text("F.x");
    let custom = transpile_with(&parsed, &options).unwrap();
    assert!(custom.text.contains("h(\"div\""));
    assert!(custom.text.contains("h(F.x"));
    options.transform_jsx = false;
    let preserved = transpile_with(&parsed, &options).unwrap();
    assert!(preserved.text.contains("<div/>"));
}

#[test]
fn automatic_runtime_imports_its_source() {
    let parsed = parse(&tsx("const e = <div/>;")).unwrap();
    let mut options = classic();
    options.jsx_automatic = true;
    options.jsx_import_source = Some(text("preact"));
    let transpiled = transpile_with(&parsed, &options).unwrap();
    assert!(transpiled.text.contains("preact/jsx-runtime"));
    options.jsx_development = true;
    let transpiled = transpile_with(&parsed, &options).unwrap();
    assert!(transpiled.text.contains("preact/jsx-dev-runtime"));
}

#[test]
fn decorators_are_taken_the_legacy_way() {
    let source = "function d(t: any) {}\n@d class A { constructor(public x: number) {} }";
    let parsed = parse(&typescript(source)).unwrap();
    let plain = transpile_with(&parsed, &classic()).unwrap();
    assert!(plain.text.contains("_ts_decorate"));
    assert!(!plain.text.contains("design:paramtypes"));
    let mut options = classic();
    options.emit_metadata = true;
    let with_metadata = transpile_with(&parsed, &options).unwrap();
    assert!(with_metadata.text.contains("design:paramtypes"));
}

#[test]
fn type_only_imports_are_removed() {
    let source = "import { T } from \"./t.ts\";\nconst x: T = 1;\nexport { x };";
    let parsed = parse(&typescript(source)).unwrap();
    let transpiled = transpile_with(&parsed, &classic()).unwrap();
    assert!(!transpiled.text.contains("./t.ts"));
}

#[test]
fn unparsable_source_is_a_diagnostic() {
    match parse(&typescript("const = ;")) {
        Err(Error::ParseDiagnostic(diagnostic)) => {
            assert!(diagnostic.starts_with("SyntaxError"));
            assert!(diagnostic.contains("file:///a.ts:1:"));
        }
        _ => panic!("a diagnostic was expected"),
    }
}

#[test]
fn parse_needs_a_url() {
    let mut params = typescript("1");
    params.specifier = text("a.ts");
    assert_eq!(
        parse_module(&params),
        Err(Error::BadSpecifier(text("relative URL without a base")))
    );
    assert_eq!(
        parse_module(&ParseParams::new()),
        Err(Error::BadSpecifier(text("relative URL without a base")))
    );
    assert_eq!(
        parse_request(&params, Err(text("empty host"))),
        Err(Error::BadSpecifier(text("empty host")))
    );
}

#[test]
fn parser_is_asked_for_the_url_and_the_text() {
    let mut params = typescript("\u{feff}const x = 1;");
    params.specifier = text("HTTPS://Example.com/a/../b.ts");
    assert_eq!(
        parse_module(&params),
        Ok(ParseRequest {
            specifier: text("https://example.com/b.ts"),
            media_type: text("application/typescript"),
            text: text("const x = 1;"),
            capture_tokens: false,
            scope_analysis: false,
        })
    );
    assert_eq!(
        parse_request(&params, Ok(text("file:///given.ts"))),
        Ok(ParseRequest {
            specifier: text("file:///given.ts"),
            media_type: text("application/typescript"),
            text: text("const x = 1;"),
            capture_tokens: false,
            scope_analysis: false,
        })
    );
}

#[test]
fn byte_order_mark_is_left_out() {
    assert_eq!(strip_bom("\u{feff}a"), "a");
    assert_eq!(strip_bom("\u{feff}\u{feff}a\u{feff}"), "a\u{feff}");
    assert_eq!(strip_bom("a"), "a");
    assert_eq!(strip_bom(""), "");
    assert_eq!(strip_bom("\u{feff}"), "");
    let parsed = parse(&typescript("\u{feff}const x: number = 1;")).unwrap();
    let transpiled = transpile_with(&parsed, &EmitOptions::new()).unwrap();
    assert!(transpiled.text.contains("const x = 1;"));
    assert!(!transpiled.text.contains('\u{feff}'));
}

#[test]
fn source_length_has_a_bound() {
    assert_eq!(MAX_SOURCE_BYTES, 2147483647);
}

#[test]
fn parse_params_have_their_defaults() {
    let params = ParseParams::new();
    assert_eq!(params.specifier, "");
    assert_eq!(params.text_info, "");
    assert_eq!(params.media_type, "javascript");
}

#[test]
fn emit_options_have_their_defaults() {
    let options = EmitOptions::new();
    assert!(!options.emit_metadata);
    assert!(options.inline_source_map);
    assert!(options.inline_sources);
    assert!(!options.jsx_automatic);
    assert!(!options.jsx_development);
    assert_eq!(options.jsx_factory, "React.createElement");
    assert_eq!(options.jsx_fragment_factory, "React.Fragment");
    assert_eq!(options.jsx_import_source, None);
    assert!(!options.source_map);
    assert!(options.transform_jsx);
    assert!(!options.var_decl_imports);
}

#[test]
fn plan_carries_every_option_under_its_name() {
    let mut options = EmitOptions::new();
    options.emit_metadata = true;
    options.inline_source_map = true;
    options.inline_sources = false;
    options.jsx_automatic = true;
    options.jsx_development = false;
    options.jsx_factory = text("h");
    options.jsx_fragment_factory = text("Frag");
    options.jsx_import_source = Some(text("preact"));
    options.source_map = true;
    options.transform_jsx = false;
    options.var_decl_imports = true;
    let plan = options.plan();
    assert_eq!(plan.imports_not_used_as_values, ImportsNotUsedAsValues::Remove);
    assert!(plan.emit_metadata);
    assert!(plan.inline_source_map);
    assert!(!plan.inline_sources);
    assert!(plan.jsx_automatic);
    assert!(!plan.jsx_development);
    assert_eq!(plan.jsx_factory, "h");
    assert_eq!(plan.jsx_fragment_factory, "Frag");
    assert_eq!(plan.jsx_import_source, Some(text("preact")));
    assert!(plan.source_map);
    assert!(!plan.transform_jsx);
    assert!(plan.var_decl_imports);
    let plain = EmitOptions::new().plan();
    assert_eq!(plain.imports_not_used_as_values, ImportsNotUsedAsValues::Remove);
    assert!(!plain.source_map);
    assert!(plain.inline_source_map);
    assert_eq!(plain.jsx_factory, "React.createElement");
    assert_eq!(plain.jsx_fragment_factory, "React.Fragment");
}

#[test]
fn request_follows_the_plan() {
    let mut options = EmitOptions::new();
    let request = options.plan().request();
    assert_eq!(request, transpile(&options));
    assert_eq!(request.imports_not_used_as_values, ImportsNotUsedAsValues::Remove);
    assert_eq!(request.source_maps, SourceMapMode::Inline);
    assert_eq!(
        request.jsx,
        JsxMode::Classic {
            factory: text("React.createElement"),
            fragment_factory: text("React.Fragment")
        }
    );
    assert!(request.inline_sources);
    assert_eq!(request.decorators, Decorators::LegacyTypeScript { emit_metadata: false });
    assert!(!request.var_decl_imports);

    options.source_map = true;
    assert_eq!(transpile(&options).source_maps, SourceMapMode::Inline);
    options.inline_source_map = false;
    assert_eq!(transpile(&options).source_maps, SourceMapMode::Separate);
    options.source_map = false;
    assert_eq!(transpile(&options).source_maps, SourceMapMode::Omitted);

    options.jsx_automatic = true;
    options.jsx_development = true;
    options.jsx_import_source = Some(text("preact"));
    options.emit_metadata = true;
    options.var_decl_imports = true;
    options.inline_sources = false;
    let request = transpile(&options);
    assert_eq!(
        request.jsx,
        JsxMode::Automatic { development: true, import_source: Some(text("preact")) }
    );
    assert_eq!(request.imports_not_used_as_values, ImportsNotUsedAsValues::Remove);
    assert_eq!(request.decorators, Decorators::LegacyTypeScript { emit_metadata: true });
    assert!(request.var_decl_imports);
    assert!(!request.inline_sources);

    options.transform_jsx = false;
    assert_eq!(transpile(&options).jsx, JsxMode::Preserve);
    let mut plan = options.plan();
    plan.imports_not_used_as_values = ImportsNotUsedAsValues::Preserve;
    assert_eq!(plan.request().imports_not_used_as_values, ImportsNotUsedAsValues::Preserve);
}

#[test]
fn transpile_result_is_told_as_it_is() {
    assert_eq!(
        transpiled(Ok((text("a"), Some(text("m"))))),
        Ok(TranspiledSource { text: text("a"), source_map: Some(text("m")) })
    );
    assert_eq!(
        transpiled(Ok((text("a"), None))),
        Ok(TranspiledSource { text: text("a"), source_map: None })
    );
    assert_eq!(transpiled(Err(text("bad"))), Err(Error::Transpile(text("bad"))));
}

#[test]
fn parser_result_is_told_as_it_is() {
    assert_eq!(diagnosed(Ok(7)), Ok(7));
    assert_eq!(diagnosed::<u8>(Err(text("d"))), Err(Error::ParseDiagnostic(text("d"))));
}

#[test]
fn unknown_runtime_is_the_transpilers_error() {
    let parsed = parse(&tsx("/** @jsxRuntime foo */ const x = <a/>;")).unwrap();
    match transpile_with(&parsed, &classic()) {
        Err(Error::Transpile(reason)) => assert!(reason.contains("classic")),
        other => panic!("{:?}", other),
    }
}

#[test]
fn directive_of_the_source_is_followed() {
    let source = "/** @jsx h */\n/** @jsxFrag F.x */ const x = <><a/></>;";
    let parsed = parse(&tsx(source)).unwrap();
    let transpiled = transpile_with(&parsed, &classic()).unwrap();
    assert!(transpiled.text.contains("h(F.x"));
    assert!(transpiled.text.contains("h(\"a\""));
    let imported = parse(&tsx("/** @jsxImportSource preact */ const x = <a/>;")).unwrap();
    let transpiled = transpile_with(&imported, &classic()).unwrap();
    assert!(transpiled.text.contains("preact/jsx-runtime"));
}
