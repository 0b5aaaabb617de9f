//! The stack snapshot of the standard library, as the error value carries it.

use std::backtrace::Backtrace;
use vstd::prelude::*;

verus! {

/// `std::backtrace::Backtrace`, carried through as an opaque value.
#[verifier::external_type_specification]
#[verifier::external_body]
pub struct ExBacktrace(Backtrace);

/// `Backtrace::force_capture` takes a snapshot of the calling thread's stack
/// at the moment of the call. Trusted: nothing is claimed of the snapshot,
/// which depends on the stack and on the machine.
pub assume_specification[ Backtrace::force_capture ]() -> (trace: Backtrace)
;

/// Renders a snapshot with the standard library's pretty debug format
/// (`{:#?}`). Trusted: nothing is claimed of the text, which depends on the
/// frames captured and on the symbols that the machine resolves for them.
#[verifier::external_body]
pub(crate) fn trace_text(trace: &Backtrace) -> (text: String) {
    format!("{:#?}", trace)
}

} // verus!
