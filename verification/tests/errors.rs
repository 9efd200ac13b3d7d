use js_embed::error::{Error, JsError, JsException, StackFrame};
use js_embed::runtime::{
    engine_result, evaluation_result, main_module_request, script_result, EngineError, JsRuntime,
    Request, RuntimeOptions,
};

type Op = fn(Vec<u8>) -> u8;

fn text(s: &str) -> String {
    s.to_string()
}

fn frame(file: Option<&str>, line: Option<i64>) -> StackFrame {
    StackFrame { file_name: file.map(text), line_number: line }
}

#[test]
fn thrown_error_becomes_exception() {
    let error = JsError {
        message: Some(text("boom")),
        frames: vec![frame(Some("t.js"), Some(3)), frame(Some("lib.js"), Some(120))],
    };
    let exception = JsException::from(error);
    assert_eq!(exception.message, "boom");
    assert_eq!(exception.code, 0);
    assert_eq!(exception.file, "t.js");
    assert_eq!(exception.line, 3);
    assert_eq!(exception.trace, vec![text("t.js:3"), text("lib.js:120")]);
}

#[test]
fn missing_frame_fields_take_defaults() {
    let error = JsError {
        message: None,
        frames: vec![frame(None, None), frame(Some("a.js"), None), frame(None, Some(-4))],
    };
    let exception = JsException::from(error);
    assert_eq!(exception.message, "Unknown JavaScript error.");
    assert_eq!(exception.code, 0);
    assert_eq!(exception.file, "unknown");
    assert_eq!(exception.line, 0);
    assert_eq!(
        exception.trace,
        vec![text("unknown:0"), text("a.js:0"), text("unknown:-4")]
    );
}

#[test]
fn error_without_frames_has_an_empty_trace() {
    let exception = JsException::from(JsError { message: Some(text("m")), frames: vec![] });
    assert_eq!(exception.file, "unknown");
    assert_eq!(exception.line, 0);
    assert!(exception.trace.is_empty());
}

#[test]
fn fresh_exception_has_its_defaults() {
    let exception = JsException::new();
    assert_eq!(exception.message, "JSError happened");
    assert_eq!(exception.code, 0);
    assert_eq!(exception.file, "");
    assert_eq!(exception.line, 0);
    assert!(exception.trace.is_empty());
}

#[test]
fn script_result_reports_the_exception() {
    let error = JsError { message: Some(text("boom")), frames: vec![frame(Some("t"), Some(1))] };
    let reported = script_result(Err(EngineError::Thrown(error.clone())));
    assert_eq!(reported, Err(Error::JsError(JsException::from(error))));
    match reported {
        Err(Error::JsError(exception)) => {
            assert_eq!(exception.message, "boom");
            assert_eq!(exception.code, 0);
            assert!(!exception.trace.is_empty());
            assert_eq!(exception.file, "t");
            assert_eq!(exception.line, 1);
        }
        _ => panic!("an exception was expected"),
    }
    assert_eq!(
        script_result(Err(EngineError::Other(text("no context")))),
        Err(Error::Engine(text("no context")))
    );
    assert_eq!(script_result(Ok(text("hi"))), Ok(text("hi")));
}

#[test]
fn evaluation_reports_the_first_failure() {
    assert_eq!(evaluation_result(Ok(()), Ok(())), Ok(()));
    assert_eq!(
        evaluation_result(Err(text("loop")), Ok(())),
        Err(Error::Engine(text("loop")))
    );
    assert_eq!(
        evaluation_result(Ok(()), Err(text("module"))),
        Err(Error::Engine(text("module")))
    );
    assert_eq!(
        evaluation_result(Err(text("loop")), Err(text("module"))),
        Err(Error::Engine(text("loop")))
    );
    assert_eq!(engine_result(Ok(7)), Ok(7));
    assert_eq!(engine_result::<i32>(Err(text("x"))), Err(Error::Engine(text("x"))));
}

fn runtime(will_snapshot: bool) -> JsRuntime<Op> {
    let mut options: RuntimeOptions<Op, ()> = RuntimeOptions::new();
    options.will_snapshot = will_snapshot;
    JsRuntime::new(options).0
}

#[test]
fn snapshot_closes_the_runtime() {
    let mut runtime = runtime(true);
    assert_eq!(
        runtime.execute_script("t", "1"),
        Ok(Request::ExecuteScript { name: text("t"), source: text("1") })
    );
    assert_eq!(runtime.snapshot(), Ok(Request::Snapshot));
    assert!(runtime.has_snapshotted);
    assert_eq!(runtime.execute_script("t", "1"), Err(Error::Snapshotted));
    assert_eq!(
        runtime.load_main_module("file:///a.js", None),
        Err(Error::Snapshotted)
    );
    assert_eq!(runtime.mod_evaluate(1), Err(Error::Snapshotted));
    assert_eq!(runtime.run_event_loop(), Request::RunEventLoop);
}

#[test]
fn snapshot_needs_the_flag() {
    let mut runtime = runtime(false);
    assert_eq!(runtime.snapshot(), Err(Error::NoSnapshotFlag));
    assert!(!runtime.has_snapshotted);
    assert_eq!(
        runtime.execute_script("t", "1"),
        Ok(Request::ExecuteScript { name: text("t"), source: text("1") })
    );
}

#[test]
fn main_module_needs_a_url() {
    let runtime = runtime(false);
    assert_eq!(
        runtime.load_main_module("file:///foo.js", Some(text("export {}"))),
        Ok(Request::LoadMainModule { url: text("file:///foo.js"), code: Some(text("export {}")) })
    );
    assert_eq!(
        runtime.load_main_module("HTTP://Example.COM/a/../b.js", None),
        Ok(Request::LoadMainModule { url: text("http://example.com/b.js"), code: None })
    );
    assert_eq!(
        runtime.load_main_module("foo", None),
        Err(Error::BadSpecifier(text("relative URL without a base")))
    );
    assert_eq!(runtime.mod_evaluate(3), Ok(Request::ModEvaluate { id: 3 }));
}

#[test]
fn runtime_is_made_of_its_options() {
    let mut options: RuntimeOptions<Op, u8> = RuntimeOptions::new();
    assert!(options.module_loader.is_none());
    assert!(options.extensions.is_empty());
    assert!(!options.will_snapshot);
    assert!(options.startup_snapshot.is_none());
    options.module_loader = Some(9);
    options.startup_snapshot = Some(vec![1, 2, 3]);
    options.will_snapshot = true;
    let (runtime, engine) = JsRuntime::new(options);
    assert!(runtime.will_snapshot);
    assert!(!runtime.has_snapshotted);
    assert_eq!(engine.module_loader, Some(9));
    assert_eq!(engine.startup_snapshot, Some(vec![1, 2, 3]));
    assert!(engine.will_snapshot);
    assert!(engine.extensions.is_empty());
}

#[test]
fn errors_have_messages() {
    assert_eq!(
        Error::Snapshotted.message(),
        "Scripts can not be executed after JsRuntime has been snapshotted."
    );
    assert_eq!(
        Error::NoSnapshotFlag.message(),
        "Unable to snapshot JsRuntime when RuntimeOptions.will_snapshot is not true."
    );
    assert_eq!(Error::BadPermission.message(), "Unable to parse permissions.");
    assert_eq!(Error::BadSpecifier(text("empty host")).message(), "empty host");
    assert_eq!(Error::LoaderError(text("l")).message(), "l");
    assert_eq!(Error::ParseDiagnostic(text("d")).message(), "d");
    assert_eq!(Error::HostRaised(text("h")).message(), "h");
    assert_eq!(Error::Transpile(text("t")).message(), "t");
    assert_eq!(Error::Engine(text("e")).message(), "e");
    assert_eq!(Error::InvalidValue.message(), "The value nests too deeply.");
    let mut exception = JsException::new();
    exception.message = text("boom");
    assert_eq!(Error::JsError(exception).message(), "boom");
}

#[test]
fn main_module_request_follows_the_parser() {
    assert_eq!(
        main_module_request(Ok(text("file:///a.js")), Some(text("1"))),
        Ok(Request::LoadMainModule { url: text("file:///a.js"), code: Some(text("1")) })
    );
    assert_eq!(
        main_module_request(Err(text("empty host")), None),
        Err(Error::BadSpecifier(text("empty host")))
    );
}
