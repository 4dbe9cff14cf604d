use sigil::diag::Severity;
use sigil::frame::{FrameEvent, FrameLoop};
use sigil::input::Input;
use sigil::runtime::{
    compile, handle_arg, no_args, value_to_i64, HostContext, Runtime, ScriptError, ScriptSource,
};

const COUNTER_SCRIPT: &str = "
struct FrameCounter {
    count,
    logged,
}

impl FrameCounter {
    pub fn new() {
        FrameCounter { count: 0, logged: 0 }
    }

    pub fn update(self) {
        self.count += 1;
        if self.count % 60 == 0 {
            log::info(`frame count ${self.count}`);
            self.logged += 1;
        }
    }

    pub fn get(self) {
        self.count
    }

    pub fn get_logged(self) {
        self.logged
    }
}
";

fn source(name: &str, text: &str) -> ScriptSource {
    ScriptSource::new(name.to_string(), text.to_string())
}

#[test]
fn empty_source_set_compiles_and_exposes_no_entry_points() {
    let mut rt = Runtime::new(&vec![]).expect("an empty source set compiles");
    match rt.call("FrameCounter", "new", no_args()) {
        Err(ScriptError::EntryPointNotFound(owner, name)) => {
            assert_eq!(owner, "FrameCounter");
            assert_eq!(name, "new");
        }
        other => panic!("expected a missing entry point, got {:?}", other.is_ok()),
    }
    match rt.call("Anything", "at_all", no_args()) {
        Err(ScriptError::EntryPointNotFound(_, _)) => {}
        other => panic!("expected a missing entry point, got {:?}", other.is_ok()),
    }
}

#[test]
fn empty_source_set_yields_unit_without_error_diagnostics() {
    let host = HostContext::new().expect("host context");
    let unit = compile(&host, &vec![]).expect("an empty source set compiles");
    assert!(unit.diagnostics().is_empty());
}

#[test]
fn uninstalled_capability_is_a_compile_error_and_installing_fixes_it() {
    let sources = vec![source("counter", COUNTER_SCRIPT)];

    let bare = HostContext::new().expect("host context");
    match compile(&bare, &sources) {
        Err(ScriptError::Compile(diags)) => {
            assert!(diags.iter().any(|d| {
                matches!(d.severity, Severity::Error) && d.message.contains("log")
            }));
        }
        Err(other) => panic!("expected compile diagnostics, got {:?}", other),
        Ok(_) => panic!("compilation must fail without the log module"),
    }

    let mut host = HostContext::new().expect("host context");
    host.install_logging().expect("logging installs into a fresh context");
    let unit = compile(&host, &sources).expect("compiles once the module is installed");
    assert!(!unit.diagnostics().iter().any(|d| matches!(d.severity, Severity::Error)));
}

#[test]
fn duplicate_module_namespace_is_rejected() {
    let mut host = HostContext::new().expect("host context");
    host.install_logging().expect("first install succeeds");
    match host.install_logging() {
        Err(ScriptError::DuplicateModule(ns)) => assert_eq!(ns, "log"),
        other => panic!("expected a duplicate module error, got {:?}", other.is_ok()),
    }
}

#[test]
fn counter_reaches_sixty_after_sixty_loop_iterations() {
    let sources = vec![source("counter", COUNTER_SCRIPT)];
    let mut rt = Runtime::new(&sources).expect("the counter script compiles");
    let handle = rt
        .call("FrameCounter", "new", no_args())
        .expect("the constructor entry point resolves");

    let mut lp = FrameLoop::new();
    let mut input = Input::new();
    let mut iterations = 0;
    while iterations < 60 {
        let acts = lp.frame_step(&mut input, &FrameEvent::RedrawRequested);
        assert!(acts.run_script);
        rt.call("FrameCounter", "update", handle_arg(&handle))
            .expect("the update entry point resolves");
        iterations += 1;
    }

    let count = rt
        .call("FrameCounter", "get", handle_arg(&handle))
        .expect("the accessor entry point resolves");
    assert_eq!(value_to_i64(&count), Some(60));

    // The script logs on every sixtieth call, so exactly one logging
    // capability call has happened.
    let logged = rt
        .call("FrameCounter", "get_logged", handle_arg(&handle))
        .expect("the accessor entry point resolves");
    assert_eq!(value_to_i64(&logged), Some(1));
}

#[test]
fn vm_fault_poisons_the_instance() {
    let faulty = "
pub fn boom() {
    let xs = [1, 2];
    xs[9]
}

struct Faulty {}

impl Faulty {
    pub fn boom() {
        let xs = [1, 2];
        xs[9]
    }
}
";
    let mut rt = Runtime::new(&vec![source("faulty", faulty)]).expect("the script compiles");
    match rt.call("Faulty", "boom", no_args()) {
        Err(ScriptError::VmFault(_)) => {}
        other => panic!("expected a fault, got {:?}", other.is_ok()),
    }
    match rt.call("Faulty", "boom", no_args()) {
        Err(ScriptError::PoisonedVm) => {}
        other => panic!("expected a poisoned instance, got {:?}", other.is_ok()),
    }
    match rt.call("FrameCounter", "new", no_args()) {
        Err(ScriptError::PoisonedVm) => {}
        other => panic!("expected a poisoned instance, got {:?}", other.is_ok()),
    }
}

#[test]
fn runtime_records_source_names_in_order() {
    let sources = vec![source("counter", COUNTER_SCRIPT), source("extra", "pub fn noop() {}")];
    let rt = Runtime::new(&sources).expect("the scripts compile");
    assert_eq!(rt.sources, vec!["counter".to_string(), "extra".to_string()]);
}
