use beryl::command::{build, join_args, DEBUG_FLAG};
use beryl::dispatch::{Action, Dispatcher, Event, ExitOutcome, InvocationRequest, Phase};
use beryl::examples::{bundled_examples, example_steps, ExampleStep, EXAMPLE_COUNT};
use beryl::mode::{default_examples_dir, input_source, select_mode, CliArgs, ExecutionPlan, InputSource};
use beryl::resolver::{resolve, DEFAULT_INTERPRETER};

fn strings(items: &[&str]) -> Vec<String> {
    items.iter().map(|s| s.to_string()).collect()
}

fn hello_request(debug: bool) -> InvocationRequest {
    InvocationRequest {
        script_source: "print(\"hi\")".to_string(),
        script_path: "hello.scr".to_string(),
        extra_args: Vec::new(),
        debug,
    }
}

fn cli(script_path: Option<&str>, examples_requested: bool, examples_path: Option<&str>) -> CliArgs {
    CliArgs {
        debug: true,
        script_path: script_path.map(|s| s.to_string()),
        script_args: strings(&["a", "b"]),
        bin_path: None,
        examples_requested,
        examples_path: examples_path.map(|s| s.to_string()),
    }
}

#[test]
fn resolve_prefers_override() {
    let r = resolve(Some("/opt/bin/berylvm".to_string()), Some("/usr/bin/other".to_string()));
    assert_eq!(r, "/opt/bin/berylvm");
    let r = resolve(Some("custom".to_string()), None);
    assert_eq!(r, "custom");
}

#[test]
fn resolve_uses_environment_value() {
    assert_eq!(resolve(None, Some("/usr/local/bin/vm".to_string())), "/usr/local/bin/vm");
    assert_eq!(resolve(Some(String::new()), Some("/usr/local/bin/vm".to_string())), "/usr/local/bin/vm");
}

#[test]
fn resolve_falls_back_to_default() {
    let first = resolve(None, None);
    let second = resolve(Some(String::new()), None);
    assert_eq!(first, "berylvm");
    assert_eq!(first, DEFAULT_INTERPRETER);
    assert_eq!(first, second);
}

#[test]
fn join_args_uses_commas() {
    assert_eq!(join_args(&strings(&["a", "b", "c"])), "a,b,c");
    assert_eq!(join_args(&strings(&["only"])), "only");
    assert_eq!(join_args(&Vec::new()), "");
    assert_eq!(join_args(&strings(&["", "x"])), ",x");
}

#[test]
fn build_without_debug() {
    let inv = build("berylvm", "main.brl", false, &strings(&["1", "two"]));
    assert_eq!(inv.program, "berylvm");
    assert_eq!(inv.args, strings(&["main.brl", "1,two"]));
}

#[test]
fn build_with_debug_puts_flag_first() {
    let inv = build("vm", "main.brl", true, &strings(&["x"]));
    assert_eq!(DEBUG_FLAG, "-d");
    assert_eq!(inv.program, "vm");
    assert_eq!(inv.args, strings(&["-d", "main.brl", "x"]));
}

#[test]
fn build_keeps_empty_args_token() {
    let inv = build("vm", "s.brl", false, &Vec::new());
    assert_eq!(inv.args, strings(&["s.brl", ""]));
}

#[test]
fn build_is_pure() {
    let extra = strings(&["p", "q"]);
    let a = build("vm", "s.brl", true, &extra);
    let b = build("vm", "s.brl", true, &extra);
    assert_eq!(a.program, b.program);
    assert_eq!(a.args, b.args);
}

#[test]
fn dispatch_falls_back_when_spawn_fails() {
    let mut d = Dispatcher::new(hello_request(true), Some("does-not-exist-xyz".to_string()), None);
    assert_eq!(d.phase(), Phase::Ready);
    match d.step(Event::Begin) {
        Action::Spawn { invocation, report_command } => {
            assert_eq!(invocation.program, "does-not-exist-xyz");
            assert_eq!(invocation.args, strings(&["-d", "hello.scr", ""]));
            assert!(report_command);
        }
        _ => panic!("expected a spawn"),
    }
    match d.step(Event::SpawnFailed) {
        Action::RunEmbedded { source, args, debug, announce_fallback } => {
            assert_eq!(source, "print(\"hi\")");
            assert!(args.is_empty());
            assert!(debug);
            assert!(announce_fallback);
        }
        _ => panic!("expected the embedded runtime"),
    }
    match d.step(Event::EmbeddedFinished) {
        Action::Finish { outcome, report_exit } => {
            assert_eq!(outcome, ExitOutcome::FallbackInvoked);
            assert!(!report_exit);
        }
        _ => panic!("expected the end"),
    }
    assert_eq!(d.phase(), Phase::Finished(ExitOutcome::FallbackInvoked));
}

#[test]
fn dispatch_fallback_keeps_debug_off() {
    let mut d = Dispatcher::new(hello_request(false), Some("does-not-exist-xyz".to_string()), None);
    d.step(Event::Begin);
    match d.step(Event::SpawnFailed) {
        Action::RunEmbedded { source, args, debug, announce_fallback } => {
            assert_eq!(source, "print(\"hi\")");
            assert!(args.is_empty());
            assert!(!debug);
            assert!(!announce_fallback);
        }
        _ => panic!("expected the embedded runtime"),
    }
}

#[test]
fn dispatch_reports_child_exit() {
    let mut d = Dispatcher::new(hello_request(false), Some("true".to_string()), None);
    match d.step(Event::Begin) {
        Action::Spawn { invocation, report_command } => {
            assert_eq!(invocation.program, "true");
            assert_eq!(invocation.args, strings(&["hello.scr", ""]));
            assert!(!report_command);
        }
        _ => panic!("expected a spawn"),
    }
    match d.step(Event::ChildExited(0)) {
        Action::Finish { outcome, report_exit } => {
            assert_eq!(outcome, ExitOutcome::Exited(0));
            assert!(!report_exit);
        }
        _ => panic!("expected the end"),
    }
    assert_eq!(d.phase(), Phase::Finished(ExitOutcome::Exited(0)));
}

#[test]
fn dispatch_uses_environment_then_default() {
    let mut d = Dispatcher::new(hello_request(false), None, Some("/env/vm".to_string()));
    match d.step(Event::Begin) {
        Action::Spawn { invocation, .. } => assert_eq!(invocation.program, "/env/vm"),
        _ => panic!("expected a spawn"),
    }
    let mut d = Dispatcher::new(hello_request(false), None, None);
    match d.step(Event::Begin) {
        Action::Spawn { invocation, .. } => assert_eq!(invocation.program, "berylvm"),
        _ => panic!("expected a spawn"),
    }
}

#[test]
fn dispatch_has_exactly_one_outcome() {
    let mut d = Dispatcher::new(hello_request(true), None, None);
    assert!(matches!(d.step(Event::Begin), Action::Spawn { .. }));
    // a second start is ignored: only one child per request
    assert!(matches!(d.step(Event::Begin), Action::Idle));
    assert!(matches!(d.step(Event::EmbeddedFinished), Action::Idle));
    match d.step(Event::ChildExited(3)) {
        Action::Finish { outcome, report_exit } => {
            assert_eq!(outcome, ExitOutcome::Exited(3));
            assert!(report_exit);
        }
        _ => panic!("expected the end"),
    }
    // once finished, nothing further happens, and no fallback runs
    assert!(matches!(d.step(Event::SpawnFailed), Action::Idle));
    assert!(matches!(d.step(Event::ChildExited(5)), Action::Idle));
    assert!(matches!(d.step(Event::Begin), Action::Idle));
    assert_eq!(d.phase(), Phase::Finished(ExitOutcome::Exited(3)));
}

#[test]
fn dispatch_ignores_events_before_begin() {
    let mut d = Dispatcher::new(hello_request(false), None, None);
    assert!(matches!(d.step(Event::SpawnFailed), Action::Idle));
    assert!(matches!(d.step(Event::ChildExited(1)), Action::Idle));
    assert_eq!(d.phase(), Phase::Ready);
}

#[test]
fn select_mode_runs_script_with_its_contents() {
    let c = cli(Some("hello.scr"), false, None);
    assert_eq!(input_source(&c), InputSource::ScriptFile("hello.scr".to_string()));
    match select_mode(c, "print(\"hi\")".to_string()) {
        ExecutionPlan::RunScript(req) => {
            assert_eq!(req.script_source, "print(\"hi\")");
            assert_eq!(req.script_path, "hello.scr");
            assert_eq!(req.extra_args, strings(&["a", "b"]));
            assert!(req.debug);
        }
        _ => panic!("expected a script run"),
    }
}

#[test]
fn select_mode_script_path_wins_over_examples() {
    let c = cli(Some("s.brl"), true, Some("out"));
    assert_eq!(input_source(&c), InputSource::ScriptFile("s.brl".to_string()));
    assert!(matches!(select_mode(c, String::new()), ExecutionPlan::RunScript(_)));
}

#[test]
fn select_mode_runs_standard_input_on_embedded_runtime() {
    let c = cli(None, false, None);
    assert_eq!(input_source(&c), InputSource::StandardInput);
    match select_mode(c, "let x = 1;".to_string()) {
        ExecutionPlan::RunFromStandardInput(req) => {
            assert_eq!(req.script_source, "let x = 1;");
            assert_eq!(req.script_path, "-");
            assert_eq!(req.extra_args, strings(&[""]));
            assert!(!req.debug);
        }
        _ => panic!("expected a run from standard input"),
    }
}

#[test]
fn select_mode_starts_repl_on_empty_input() {
    let c = cli(None, false, None);
    assert!(matches!(select_mode(c, String::new()), ExecutionPlan::StartRepl(true)));
}

#[test]
fn select_mode_generates_examples() {
    let c = cli(None, true, Some("out/dir"));
    assert_eq!(input_source(&c), InputSource::NoInput);
    match select_mode(c, String::new()) {
        ExecutionPlan::GenerateExamples(Some(p)) => assert_eq!(p, "out/dir"),
        _ => panic!("expected example generation"),
    }
    let c = cli(None, true, None);
    assert!(matches!(select_mode(c, String::new()), ExecutionPlan::GenerateExamples(None)));
}

#[test]
fn default_examples_dir_is_below_cwd() {
    assert_eq!(default_examples_dir("/home/user"), "/home/user/examples/");
}

#[test]
fn examples_create_directory_before_four_files() {
    let steps = example_steps("/tmp/fresh");
    assert_eq!(steps.len(), 5);
    match &steps[0] {
        ExampleStep::CreateDir(d) => assert_eq!(d, "/tmp/fresh"),
        _ => panic!("expected the directory first"),
    }
    for (i, step) in steps.iter().enumerate().skip(1) {
        match step {
            ExampleStep::WriteFile { name, contents } => {
                assert_eq!(name, &format!("example{}.brl", i));
                assert!(!contents.is_empty());
            }
            _ => panic!("expected a file write"),
        }
    }
}

#[test]
fn bundled_examples_are_four_non_empty_files() {
    let ex = bundled_examples();
    assert_eq!(ex.len(), EXAMPLE_COUNT);
    assert_eq!(EXAMPLE_COUNT, 4);
    for (i, (name, contents)) in ex.iter().enumerate() {
        assert_eq!(name, &format!("example{}.brl", i + 1));
        assert!(!contents.is_empty());
    }
}
