//! Bindings to the embedded scripting engine (the rune crate).
//!
//! Everything the engine computes — compiling source text, executing a
//! call — happens behind the trusted items of this module; the rest of
//! the crate makes its decisions on the plain values they return.
use std::sync::Arc;

use vstd::prelude::*;

use crate::diag::{Diagnostic, Severity};

verus! {

#[verifier::external_type_specification]
#[verifier::external_body]
pub struct ExContext(rune::Context);

#[verifier::external_type_specification]
#[verifier::external_body]
pub struct ExModule(rune::Module);

#[verifier::external_type_specification]
#[verifier::external_body]
pub struct ExSource(rune::Source);

#[verifier::external_type_specification]
#[verifier::external_body]
pub struct ExSources(rune::Sources);

#[verifier::external_type_specification]
#[verifier::external_body]
pub struct ExVm(rune::Vm);

#[verifier::external_type_specification]
#[verifier::external_body]
pub struct ExValue(rune::Value);

/// Relies on rune::Context::with_default_modules: a fresh compilation
/// context holding the engine's standard facilities and nothing else;
/// `None` only on an engine-internal failure.
#[verifier::external_body]
pub(crate) fn new_default_context() -> (r: Option<rune::Context>) {
    rune::Context::with_default_modules().ok()
}

/// Relies on rune::Context::install: registers the module's functions in
/// the context; the result says whether the engine accepted it.
#[verifier::external_body]
pub(crate) fn install_module(ctx: &mut rune::Context, module: rune::Module) -> (r: bool) {
    ctx.install(module).is_ok()
}

/// Relies on rune::Sources::new: an empty source collection.
#[verifier::external_body]
pub(crate) fn new_sources() -> (r: rune::Sources) {
    rune::Sources::new()
}

/// Relies on rune::Source::new: a source carrying exactly the given name
/// and text; `None` only on an engine-internal allocation failure.
#[verifier::external_body]
pub(crate) fn make_source(name: &str, text: &str) -> (r: Option<rune::Source>) {
    rune::Source::new(name, text).ok()
}

/// Relies on rune::Sources::insert: appends the source to the collection;
/// the result says whether the engine accepted it.
#[verifier::external_body]
pub(crate) fn push_source(sources: &mut rune::Sources, source: rune::Source) -> (r: bool) {
    sources.insert(source).is_ok()
}

/// Relies on rune's build pipeline (rune::prepare, Build::build) and on
/// rune::Vm::new. Compiles the collected sources against the context,
/// converts every collected diagnostic (fatal becomes error severity,
/// warning stays warning), and on success binds the unit and the
/// context's runtime into a fresh virtual machine. Build::build returns a
/// unit only when no error diagnostic was collected.
#[verifier::external_body]
pub(crate) fn build_vm(ctx: &rune::Context, sources: &mut rune::Sources) -> (r: (
    Option<rune::Vm>,
    Vec<Diagnostic>,
))
    ensures
        r.0 is Some ==> !crate::diag::has_error(r.1@),
{
    let mut diags = rune::Diagnostics::new();
    let res = rune::prepare(sources).with_context(ctx).with_diagnostics(&mut diags).build();
    let mut out: Vec<Diagnostic> = Vec::new();
    for d in diags.diagnostics() {
        let (severity, message) = match d {
            rune::diagnostics::Diagnostic::Fatal(f) => (Severity::Error, format!("{}", f)),
            rune::diagnostics::Diagnostic::Warning(w) => (Severity::Warning, format!("{}", w)),
            _ => continue,
        };
        out.push(Diagnostic { severity, message });
    }
    let vm = res.ok().zip(ctx.runtime().ok()).map(|(u, r)| rune::Vm::new(Arc::new(r), Arc::new(u)));
    (vm, out)
}

/// Relies on rune::Vm::lookup_function: whether the two-segment qualified
/// name resolves to a callable of the compiled unit.
#[verifier::external_body]
pub(crate) fn vm_has_entry(vm: &rune::Vm, owner_name: &str, fn_name: &str) -> (r: bool) {
    vm.lookup_function([owner_name, fn_name]).is_ok()
}

/// Relies on rune::Vm::execute: runs the named callable with the given
/// arguments on the calling thread, to completion; any engine error comes
/// back as its message.
#[verifier::external_body]
pub(crate) fn vm_execute(
    vm: &mut rune::Vm,
    owner_name: &str,
    fn_name: &str,
    args: Vec<rune::Value>,
) -> (r: Result<rune::Value, String>) {
    match vm.execute([owner_name, fn_name], args) {
        Ok(mut ex) => ex.complete().into_result().map_err(|e| format!("{}", e)),
        Err(e) => Err(format!("{}", e)),
    }
}

/// Relies on rune::Value's Clone impl: the clone refers to the same
/// script-side object, so it can be passed back into a call while the
/// host keeps the handle it already holds.
#[verifier::external_body]
pub(crate) fn clone_value(v: &rune::Value) -> (r: rune::Value) {
    v.clone()
}

/// Relies on rune::Value::as_integer: the value's integer content, or
/// `None` when the value is not an integer.
#[verifier::external_body]
pub(crate) fn value_as_integer(v: &rune::Value) -> (r: Option<i64>) {
    v.as_integer().into_result().ok()
}

} // verus!
