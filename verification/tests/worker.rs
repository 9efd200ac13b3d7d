use js_embed::error::Error;
use js_embed::registry::Extension;
use js_embed::runtime::Request;
use js_embed::worker::{
    grant_of, location_from, BootstrapOptions, Grant, MainWorker, PermissionsOptions,
    WorkerOptions,
};

fn text(s: &str) -> String {
    s.to_string()
}

#[test]
fn bootstrap_options_have_their_defaults() {
    let options = BootstrapOptions::new();
    assert!(options.args.is_empty());
    assert_eq!(options.cpu_count, 1);
    assert!(!options.debug_flag);
    assert!(!options.enable_testing_features);
    assert_eq!(options.location, None);
    assert!(!options.no_color);
    assert!(!options.is_tty);
    assert_eq!(options.runtime_version, "x");
    assert_eq!(options.ts_version, "x");
    assert!(!options.unstable);
    assert_eq!(options.user_agent, "hello_runtime");
}

#[test]
fn location_is_a_url_or_nothing() {
    let mut options = BootstrapOptions::new();
    assert_eq!(options.location_url(), None);
    options.location = Some(text("https://Example.com"));
    assert_eq!(options.location_url(), Some(text("https://example.com/")));
    options.location = Some(text("nowhere"));
    assert_eq!(options.location_url(), None);
}

#[test]
fn permissions_deny_by_default() {
    let options = PermissionsOptions::new();
    let p = options.permissions();
    assert_eq!(p.env, Grant::Deny);
    assert_eq!(p.net, Grant::Deny);
    assert_eq!(p.ffi, Grant::Deny);
    assert_eq!(p.read, Grant::Deny);
    assert_eq!(p.run, Grant::Deny);
    assert_eq!(p.write, Grant::Deny);
    assert!(!p.hrtime);
    assert!(!p.prompt);
}

#[test]
fn permissions_follow_their_statements() {
    let mut options = PermissionsOptions::new();
    options.allow_net = Some(vec![]);
    options.allow_read = Some(vec![text("/tmp"), text("/var/data")]);
    options.allow_hrtime = true;
    let p = options.permissions();
    assert_eq!(p.net, Grant::AllowAll);
    assert_eq!(p.read, Grant::AllowList(vec![text("/tmp"), text("/var/data")]));
    assert_eq!(p.env, Grant::Deny);
    assert!(p.hrtime);
    assert!(!p.prompt);
    assert_eq!(grant_of(&None), Grant::Deny);
    assert_eq!(grant_of(&Some(vec![])), Grant::AllowAll);
    assert_eq!(grant_of(&Some(vec![text("HOME")])), Grant::AllowList(vec![text("HOME")]));
}

type Op = fn(u8) -> u8;

fn twice(x: u8) -> u8 {
    2 * x
}

fn options() -> WorkerOptions<Op, u16> {
    let mut bootstrap = BootstrapOptions::new();
    bootstrap.args = vec![text("--flag")];
    bootstrap.location = Some(text("https://Example.com/app"));
    let mut extension: Extension<Op> = Extension::new();
    extension.insert_op(text("twice"), twice);
    WorkerOptions::new(bootstrap, vec![extension], 7)
}

#[test]
fn worker_is_made_for_a_url() {
    let (worker, engine) = MainWorker::new(Ok(text("file:///main.js")), true, options()).ok().unwrap();
    assert_eq!(worker.main_module, "file:///main.js");
    assert!(worker.registry.get("twice").is_some());
    assert!(worker.registry.get("thrice").is_none());
    assert_eq!(engine.bootstrap.args, vec![text("--flag")]);
    assert_eq!(engine.location, Some(text("https://example.com/app")));
    assert_eq!(engine.module_loader, 7);
    assert_eq!(engine.extensions.len(), 1);
    assert_eq!(engine.extensions[0].ops[0].name, "twice");
    assert_eq!(
        worker.execute_main_module(),
        Request::ExecuteMainModule { url: text("file:///main.js") }
    );
    assert_eq!(worker.run_event_loop(), Request::RunEventLoop);
    assert_eq!(
        worker.execute_script("t", "Deno.args.length"),
        Request::ExecuteScript { name: text("t"), source: text("Deno.args.length") }
    );
}

#[test]
fn worker_refuses_bad_input() {
    match MainWorker::new(Err(text("the path has no URL")), true, options()) {
        Err(e) => assert_eq!(e, Error::BadSpecifier(text("the path has no URL"))),
        Ok(_) => panic!("an error was expected"),
    }
    match MainWorker::new(Ok(text("file:///main.js")), false, options()) {
        Err(e) => assert_eq!(e, Error::BadPermission),
        Ok(_) => panic!("an error was expected"),
    }
    match MainWorker::new(Err(text("the path has no URL")), false, options()) {
        Err(e) => assert_eq!(e, Error::BadSpecifier(text("the path has no URL"))),
        Ok(_) => panic!("an error was expected"),
    }
}

#[test]
fn worker_options_hold_what_they_are_given() {
    let mut bootstrap = BootstrapOptions::new();
    bootstrap.args = vec![text("--flag")];
    let options: WorkerOptions<u8, u16> = WorkerOptions::new(bootstrap.clone(), vec![], 7);
    assert_eq!(options.bootstrap, bootstrap);
    assert_eq!(options.bootstrap.args.len(), 1);
    assert!(options.extensions.is_empty());
    assert_eq!(options.module_loader, 7);
}


#[test]
fn location_follows_the_parser() {
    assert_eq!(location_from(Ok(text("https://example.com/"))), Some(text("https://example.com/")));
    assert_eq!(location_from(Err(text("empty host"))), None);
}
