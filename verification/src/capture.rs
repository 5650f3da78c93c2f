//! Stack capture: the one point where the pipeline reads the machine.

use vstd::prelude::*;

use crate::frames::RawFrame;
use crate::frames::SymbolInfo;

verus! {

/// Capture the current native call stack, innermost frame first.
///
/// Relies on `backtrace::Backtrace::new` to capture and resolve the calling
/// thread's stack, and on `BacktraceFrame::symbols`,
/// `BacktraceSymbol::filename` and `BacktraceSymbol::lineno` to read each
/// frame's resolved symbols; a path that is not valid UTF-8 is carried as a
/// missing filename. The captured stack depends on the call site and the
/// machine, so nothing is assumed of the result: callers handle every value.
#[verifier::external_body]
pub fn capture_raw_frames() -> Vec<RawFrame> {
    backtrace::Backtrace::new().frames().iter().map(
        |frame|
            RawFrame {
                symbols: frame.symbols().iter().map(
                    |symbol|
                        SymbolInfo {
                            filename: symbol.filename().and_then(|p| p.to_str()).map(
                                |f| f.to_owned(),
                            ),
                            lineno: symbol.lineno(),
                        },
                ).collect(),
            },
    ).collect()
}

} // verus!
