//! Compiler diagnostics, as the host surfaces them.
//!
//! Compilation collects every diagnostic before deciding success or
//! failure: warnings are surfaced but do not block, while any
//! error-severity diagnostic aborts construction of the compiled unit.
use vstd::prelude::*;

verus! {

/// How severe one compiler message is.
#[derive(Clone, Copy, PartialEq, Eq, Structural, Debug)]
pub enum Severity {
    Warning,
    Error,
}

/// One compiler message.
#[derive(Debug)]
pub struct Diagnostic {
    pub severity: Severity,
    pub message: String,
}

/// Whether `diags` holds at least one error-severity diagnostic.
pub open spec fn has_error(diags: Seq<Diagnostic>) -> bool {
    exists|i: int| 0 <= i < diags.len() && diags[i].severity is Error
}

/// Scan a diagnostic list for an error-severity entry.
pub fn contains_error(diags: &Vec<Diagnostic>) -> (r: bool)
    ensures
        r == has_error(diags@),
{
    let n = diags.len();
    let mut i: usize = 0;
    while i < n
        invariant
            n == diags@.len(),
            i <= n,
            forall|j: int| 0 <= j < i ==> !(diags@[j].severity is Error),
        decreases n - i,
    {
        if matches!(diags[i].severity, Severity::Error) {
            proof {
                assert(diags@[i as int].severity is Error);
            }
            return true;
        }
        i = i + 1;
    }
    false
}

} // verus!
