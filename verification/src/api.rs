//! The host's capability module for logging.
//!
//! Scripts see a `log` namespace exposing five severity-leveled
//! functions, each taking one string and returning nothing. A call
//! emits its line to the standard error stream at once, on the calling
//! thread; nothing is buffered.
use std::io::Write;

use vstd::prelude::*;

verus! {

/// Relies on std::io::stderr and the Write impl of the handle it returns:
/// the line reaches the standard error stream immediately.
#[verifier::external_body]
fn write_stderr_line(level: &str, message: &str) {
    let mut err = std::io::stderr();
    let _ = writeln!(err, "{}: {}", level, message);
}

/// Emit `message` at informational severity.
pub fn info(message: &str) {
    write_stderr_line("info", message);
}

/// Emit `message` at warning severity.
pub fn warn(message: &str) {
    write_stderr_line("warn", message);
}

/// Emit `message` at error severity.
pub fn error(message: &str) {
    write_stderr_line("error", message);
}

/// Emit `message` at trace severity.
pub fn trace(message: &str) {
    write_stderr_line("trace", message);
}

/// Emit `message` at debug severity.
pub fn debug(message: &str) {
    write_stderr_line("debug", message);
}

/// Relies on rune::Module::with_crate and Module::function: a capability
/// module in the `log` namespace whose five functions each take one
/// string, return nothing, and forward to the emitters above; `None` only
/// on an engine-internal failure.
#[verifier::external_body]
pub fn module() -> (r: Option<rune::Module>) {
    let mut m = rune::Module::with_crate("log").ok()?;
    m.function("info", |s: String| info(s.as_str())).build().ok()?;
    m.function("warn", |s: String| warn(s.as_str())).build().ok()?;
    m.function("error", |s: String| error(s.as_str())).build().ok()?;
    m.function("trace", |s: String| trace(s.as_str())).build().ok()?;
    m.function("debug", |s: String| debug(s.as_str())).build().ok()?;
    Some(m)
}

} // verus!
