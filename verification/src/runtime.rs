//! The scripting runtime: host context, compilation, and the call-state
//! machine of the live virtual machine instance.
//!
//! A `HostContext` is built once, capability modules are installed into
//! it, script sources are compiled against it into a `CompiledUnit`, and
//! a `Runtime` owns the resulting virtual machine for the rest of the
//! process. Calls are addressed by a two-segment qualified name resolved
//! at call time; an unrecoverable engine fault poisons the instance and
//! every later call fails without reaching the engine.
use vstd::prelude::*;

use crate::diag::{contains_error, has_error, Diagnostic};
use crate::engine;
use vstd::string::StringExecFns;

verus! {

/// The errors of the scripting runtime.
#[derive(Debug)]
pub enum ScriptError {
    /// A script source could not be resolved to a readable file.
    SourceNotFound(String),
    /// Compilation collected at least one error-severity diagnostic; the
    /// whole collected list is carried for display.
    Compile(Vec<Diagnostic>),
    /// A capability module's namespace was already installed into this
    /// host context.
    DuplicateModule(String),
    /// The qualified name did not resolve to a callable of the compiled
    /// unit at call time.
    EntryPointNotFound(String, String),
    /// The virtual machine faulted on an earlier call; no further calls
    /// are permitted.
    PoisonedVm,
    /// The virtual machine faulted during this call, carrying the
    /// engine's message; the instance is poisoned from now on.
    VmFault(String),
    /// The scripting engine itself failed (setup or allocation).
    Engine,
}

/// One script source: an identity (file path or in-memory label) and its
/// text, immutable once loaded.
pub struct ScriptSource {
    pub name: String,
    pub text: String,
}

impl ScriptSource {
    pub fn new(name: String, text: String) -> (r: ScriptSource)
        ensures
            r.name@ == name@,
            r.text@ == text@,
    {
        ScriptSource { name, text }
    }
}

/// Whether a file name follows the script-file convention: it ends in
/// the extension `.rn` (the bytes are full stop, `r`, `n`).
pub open spec fn is_script_name(name: Seq<u8>) -> bool {
    &&& name.len() >= 3
    &&& name[name.len() - 3] == 46u8
    &&& name[name.len() - 2] == 114u8
    &&& name[name.len() - 1] == 110u8
}

/// Decide whether a discovered file belongs to the source set: the
/// filter applied to every file found under the source root.
pub fn has_script_extension(name: &[u8]) -> (r: bool)
    ensures
        r == is_script_name(name@),
{
    let n = name.len();
    n >= 3 && name[n - 3] == 46u8 && name[n - 2] == 114u8 && name[n - 1] == 110u8
}

/// The file name a script identifier resolves to under the source root.
pub fn script_file_name(name: &str) -> (r: String)
    ensures
        r@ == name@ + ".rn"@,
{
    let owned = name.to_owned();
    owned.concat(".rn")
}

/// The fixed set of host capability modules a script is compiled and run
/// against: the engine's default facilities plus every module installed
/// here, each under a unique namespace.
pub struct HostContext {
    context: rune::Context,
    installed: Vec<String>,
}

impl HostContext {
    /// The namespaces of the installed capability modules, in
    /// installation order.
    pub closed spec fn namespaces(&self) -> Seq<Seq<char>> {
        self.installed@.map_values(|s: String| s@)
    }

    /// A context with the engine's default facilities and no capability
    /// module installed yet.
    pub fn new() -> (r: Result<HostContext, ScriptError>)
        ensures
            r matches Ok(h) ==> h.namespaces() == Seq::<Seq<char>>::empty(),
            r matches Err(e) ==> e matches ScriptError::Engine,
    {
        match engine::new_default_context() {
            Some(context) => {
                let h = HostContext { context, installed: Vec::new() };
                proof {
                    assert(h.namespaces() =~= Seq::<Seq<char>>::empty());
                }
                Ok(h)
            },
            None => Err(ScriptError::Engine),
        }
    }

    /// Whether `namespace` is already installed.
    fn is_installed(&self, namespace: &String) -> (r: bool)
        ensures
            r == self.namespaces().contains(namespace@),
    {
        let n = self.installed.len();
        let mut i: usize = 0;
        while i < n
            invariant
                n == self.installed@.len(),
                i <= n,
                forall|j: int| 0 <= j < i ==> self.installed@[j]@ != namespace@,
            decreases n - i,
        {
            if self.installed[i].eq(namespace) {
                proof {
                    assert(self.namespaces()[i as int] == namespace@);
                }
                return true;
            }
            i = i + 1;
        }
        proof {
            if self.namespaces().contains(namespace@) {
                let j = choose|j: int|
                    0 <= j < self.namespaces().len() && self.namespaces()[j] == namespace@;
                assert(self.installed@[j]@ == namespace@);
            }
        }
        false
    }

    /// Install one capability module under `namespace`. Fails with
    /// `DuplicateModule` exactly when the namespace is already taken, in
    /// which case nothing changes.
    pub fn install(&mut self, namespace: String, module: rune::Module) -> (r: Result<
        (),
        ScriptError,
    >)
        ensures
            (r matches Err(e) && e matches ScriptError::DuplicateModule(_)) <==> old(
                self,
            ).namespaces().contains(namespace@),
            r matches Ok(_) ==> final(self).namespaces() == old(self).namespaces().push(
                namespace@,
            ),
            r matches Err(_) ==> final(self).namespaces() == old(self).namespaces(),
            r matches Err(e) ==> e matches ScriptError::DuplicateModule(_) || e
                matches ScriptError::Engine,
    {
        if self.is_installed(&namespace) {
            return Err(ScriptError::DuplicateModule(namespace));
        }
        if !engine::install_module(&mut self.context, module) {
            return Err(ScriptError::Engine);
        }
        let ghost before = self.namespaces();
        let ghost ns = namespace@;
        self.installed.push(namespace);
        proof {
            assert(self.namespaces() =~= before.push(ns));
        }
        Ok(())
    }

    /// Install the host's logging capability module under the `log`
    /// namespace.
    pub fn install_logging(&mut self) -> (r: Result<(), ScriptError>)
        ensures
            (r matches Err(e) && e matches ScriptError::DuplicateModule(_)) <==> old(
                self,
            ).namespaces().contains("log"@),
            r matches Ok(_) ==> final(self).namespaces() == old(self).namespaces().push("log"@),
            r matches Err(_) ==> final(self).namespaces() == old(self).namespaces(),
            r matches Err(e) ==> e matches ScriptError::DuplicateModule(_) || e
                matches ScriptError::Engine,
    {
        let ns = "log".to_owned();
        if self.is_installed(&ns) {
            return Err(ScriptError::DuplicateModule(ns));
        }
        match crate::api::module() {
            Some(m) => self.install(ns, m),
            None => Err(ScriptError::Engine),
        }
    }
}

/// The immutable result of compiling a source set against one host
/// context. The unit is held already bound to its originating context's
/// runtime, so it can never be executed against a different one; the
/// collected diagnostics (warnings only, by construction) are surfaced
/// alongside.
pub struct CompiledUnit {
    vm: rune::Vm,
    diagnostics: Vec<Diagnostic>,
}

impl CompiledUnit {
    /// The diagnostics collected while compiling this unit.
    pub closed spec fn diags(&self) -> Seq<Diagnostic> {
        self.diagnostics@
    }

    /// The collected diagnostics, for display.
    pub fn diagnostics(&self) -> (r: &Vec<Diagnostic>)
        ensures
            r@ == self.diags(),
    {
        &self.diagnostics
    }
}

/// Compile `sources` against `host`. Every diagnostic is collected before
/// deciding: the unit is produced exactly when no error-severity
/// diagnostic came back, and a failed compilation carries the whole list.
pub fn compile(host: &HostContext, sources: &Vec<ScriptSource>) -> (r: Result<
    CompiledUnit,
    ScriptError,
>)
    ensures
        r matches Ok(u) ==> !has_error(u.diags()),
        r matches Err(e) ==> {
            &&& (e matches ScriptError::Compile(d) ==> has_error(d@))
            &&& (e matches ScriptError::Compile(_) || e matches ScriptError::Engine)
        },
{
    let mut rs = engine::new_sources();
    let n = sources.len();
    let mut i: usize = 0;
    while i < n
        invariant
            n == sources@.len(),
            i <= n,
        decreases n - i,
    {
        let s = &sources[i];
        match engine::make_source(s.name.as_str(), s.text.as_str()) {
            Some(src) => {
                if !engine::push_source(&mut rs, src) {
                    return Err(ScriptError::Engine);
                }
            },
            None => {
                return Err(ScriptError::Engine);
            },
        }
        i = i + 1;
    }
    let (vm_opt, diags) = engine::build_vm(&host.context, &mut rs);
    if contains_error(&diags) {
        return Err(ScriptError::Compile(diags));
    }
    match vm_opt {
        Some(vm) => Ok(CompiledUnit { vm, diagnostics: diags }),
        None => Err(ScriptError::Engine),
    }
}

/// Where the live instance stands in its life cycle: compiled but not
/// yet invoked, idle between calls with its state persisted, or poisoned
/// after an unrecoverable fault. There is no way back from `Poisoned`,
/// and no way back to `Constructed`.
#[derive(Clone, Copy, PartialEq, Eq, Structural, Debug)]
pub enum VmPhase {
    Constructed,
    Idle,
    Poisoned,
}

/// The scripting runtime: one live virtual machine instance bound to one
/// compiled unit, plus the identities of the sources it was built from.
pub struct Runtime {
    vm: rune::Vm,
    pub sources: Vec<String>,
    phase: VmPhase,
}

impl Runtime {
    /// Where the instance stands in its life cycle.
    pub closed spec fn phase(&self) -> VmPhase {
        self.phase
    }

    /// The names of the sources the unit was compiled from, in order.
    pub closed spec fn source_names(&self) -> Seq<Seq<char>> {
        self.sources@.map_values(|s: String| s@)
    }

    /// Build the host context, install the logging capability, compile
    /// `sources`, and bind the unit into a fresh instance. Startup-time
    /// failures (engine setup, compilation) are the only failures:
    /// a fresh context has no namespace taken, so no duplicate-module
    /// error can come back.
    pub fn new(sources: &Vec<ScriptSource>) -> (r: Result<Runtime, ScriptError>)
        ensures
            r matches Ok(rt) ==> {
                &&& rt.phase() is Constructed
                &&& rt.source_names() == sources@.map_values(|s: ScriptSource| s.name@)
            },
            r matches Err(e) ==> {
                &&& (e matches ScriptError::Compile(d) ==> has_error(d@))
                &&& (e matches ScriptError::Compile(_) || e matches ScriptError::Engine)
            },
    {
        let mut host = match HostContext::new() {
            Ok(h) => h,
            Err(e) => {
                return Err(e);
            },
        };
        match host.install_logging() {
            Ok(_) => {},
            Err(e) => {
                proof {
                    assert(!(e matches ScriptError::DuplicateModule(_)));
                }
                return Err(e);
            },
        }
        let unit = match compile(&host, sources) {
            Ok(u) => u,
            Err(e) => {
                return Err(e);
            },
        };
        let n = sources.len();
        let mut names: Vec<String> = Vec::new();
        let mut i: usize = 0;
        while i < n
            invariant
                n == sources@.len(),
                i <= n,
                names@.len() == i,
                forall|j: int| 0 <= j < i ==> names@[j]@ == sources@[j].name@,
            decreases n - i,
        {
            names.push(sources[i].name.clone());
            i = i + 1;
        }
        let rt = Runtime { vm: unit.vm, sources: names, phase: VmPhase::Constructed };
        proof {
            assert(rt.source_names() =~= sources@.map_values(|s: ScriptSource| s.name@));
        }
        Ok(rt)
    }

    /// Invoke the script callable addressed by the two-segment qualified
    /// name `owner_name`.`fn_name`, resolved now, not at compile time.
    /// A poisoned instance refuses at once; a name that does not resolve
    /// fails only this call; an engine fault poisons the instance.
    pub fn call(&mut self, owner_name: &str, fn_name: &str, args: Vec<rune::Value>) -> (r: Result<
        rune::Value,
        ScriptError,
    >)
        ensures
            final(self).source_names() == old(self).source_names(),
            old(self).phase() is Poisoned ==> (r matches Err(e) && e matches ScriptError::PoisonedVm)
                && final(self).phase() is Poisoned,
            !(old(self).phase() is Poisoned) ==> match r {
                Ok(_) => final(self).phase() is Idle,
                Err(e) => match e {
                    ScriptError::EntryPointNotFound(o, f) => {
                        &&& final(self).phase() == old(self).phase()
                        &&& o@ == owner_name@
                        &&& f@ == fn_name@
                    },
                    ScriptError::VmFault(_) => final(self).phase() is Poisoned,
                    _ => false,
                },
            },
    {
        if matches!(self.phase, VmPhase::Poisoned) {
            return Err(ScriptError::PoisonedVm);
        }
        if !engine::vm_has_entry(&self.vm, owner_name, fn_name) {
            return Err(
                ScriptError::EntryPointNotFound(owner_name.to_owned(), fn_name.to_owned()),
            );
        }
        match engine::vm_execute(&mut self.vm, owner_name, fn_name, args) {
            Ok(v) => {
                self.phase = VmPhase::Idle;
                Ok(v)
            },
            Err(msg) => {
                self.phase = VmPhase::Poisoned;
                Err(ScriptError::VmFault(msg))
            },
        }
    }
}

/// An argument list carrying one opaque script handle, for calls that
/// take the handle back (the host only ever holds it and passes it back).
pub fn handle_arg(handle: &rune::Value) -> (r: Vec<rune::Value>)
    ensures
        r@.len() == 1,
{
    let mut v: Vec<rune::Value> = Vec::new();
    v.push(engine::clone_value(handle));
    v
}

/// An empty argument list.
pub fn no_args() -> (r: Vec<rune::Value>)
    ensures
        r@.len() == 0,
{
    Vec::new()
}

/// The integer content of a script value, where it has one.
pub fn value_to_i64(v: &rune::Value) -> (r: Option<i64>) {
    engine::value_as_integer(v)
}

} // verus!
