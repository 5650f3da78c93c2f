//! FaultHandler's computing core: from one fault event, the captured raw
//! frames and their source files' lines, to the report records to dispatch.
//!
//! The embedding program holds the single-flight lock around this pass, reads the source
//! files, and dispatches each record to the reporting sink in order.

use vstd::prelude::*;

use crate::filter::FileLines;
use crate::filter::filter_relevant_frames;
use crate::filter::spec_filter;
use crate::frames::FaultEvent;
use crate::frames::RawFrame;
use crate::frames::ReportRecord;
use crate::payload::build_records;
use crate::payload::spec_build;

verus! {

/// Filter the captured frames and build this fault's report records:
/// one per relevant frame in outermost-first order, or a single fallback
/// record when no frame is relevant. `contents[i]` holds the lines of the
/// source file recorded by `frames[i]`'s first symbol, `None` when that file
/// could not be read.
pub fn process_fault(
    event: &FaultEvent,
    frames: &Vec<RawFrame>,
    contents: &Vec<FileLines>,
) -> (records: Vec<ReportRecord>)
    requires
        frames@.len() == contents@.len(),
    ensures
        records.deep_view() == spec_build(
            event@,
            spec_filter(frames.deep_view(), contents.deep_view()),
        ),
{
    let relevant = filter_relevant_frames(frames, contents);
    build_records(event, &relevant)
}

} // verus!
