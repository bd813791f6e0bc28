//! The stack-capture capability: an opaque snapshot of the call stack.

use vstd::prelude::*;

verus! {

#[verifier::external_type_specification]
#[verifier::external_body]
pub struct ExBacktrace(backtrace::Backtrace);

/// Relies on `backtrace::Backtrace::new`: walks and resolves the current
/// call stack.  The snapshot depends on the call stack at the call site, so
/// nothing is stated of its content; it is carried as an opaque value.
#[verifier::external_body]
pub(crate) fn capture_trace() -> backtrace::Backtrace {
    backtrace::Backtrace::new()
}

} // verus!
