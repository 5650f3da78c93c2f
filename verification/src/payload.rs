//! PayloadBuilder: turns a fault event and the filtered frames into the
//! report records handed to the reporting sink, one per relevant frame, or a
//! single fallback record when no frame is relevant.

use vstd::prelude::*;

use crate::frames::FaultEvent;
use crate::frames::FaultEventView;
use crate::frames::Position;
use crate::frames::RelevantFrame;
use crate::frames::RelevantFrameView;
use crate::frames::ReportRecord;
use crate::frames::ReportRecordView;
use crate::frames::position_code;
use crate::frames::spec_position_code;
use crate::text::str_equal;
use crate::text::strip_first_line;
use crate::text::strip_first_line_spec;

verus! {

/// Fixed short identifier of the runtime producing these reports.
pub open spec fn lang_tag_spec() -> Seq<char> {
    "rs"@
}

pub fn lang_tag() -> (tag: &'static str)
    ensures
        tag@ == lang_tag_spec(),
{
    "rs"
}

/// Name of the designated primary thread; its faults are reported with an
/// empty thread name.
pub open spec fn primary_thread_name_spec() -> Seq<char> {
    "main"@
}

pub fn primary_thread_name() -> (name: &'static str)
    ensures
        name@ == primary_thread_name_spec(),
{
    "main"
}

/// Thread name carried by every record of the fault: the faulting thread's
/// name if it is set and is not the primary thread's; otherwise empty.
pub open spec fn spec_thread_name(event: FaultEventView) -> Seq<char> {
    match event.thread_name {
        Some(name) => if name == primary_thread_name_spec() {
            Seq::empty()
        } else {
            name
        },
        None => Seq::empty(),
    }
}

/// File of the fallback record: the event's own location, or `"unknown"`.
pub open spec fn spec_fallback_file(event: FaultEventView) -> Seq<char> {
    match event.location {
        Some(loc) => loc.file,
        None => "unknown"@,
    }
}

/// Line of the fallback record: the event's own location, or 0.
pub open spec fn spec_fallback_line(event: FaultEventView) -> u32 {
    match event.location {
        Some(loc) => loc.line,
        None => 0,
    }
}

/// One report record of the fault `event`: the event's description with its
/// first line stripped, the given source location, the multi-frame flag and
/// encoded position, the thread name, and the fixed language tag.
pub open spec fn spec_record(
    event: FaultEventView,
    file: Seq<char>,
    line_no: u32,
    multi_frame: bool,
    pos: i8,
) -> ReportRecordView {
    ReportRecordView {
        message: strip_first_line_spec(event.message),
        file,
        line_no,
        multi_frame,
        pos,
        thread_name: spec_thread_name(event),
        lang: lang_tag_spec(),
    }
}

/// What the builder returns: one record per relevant frame in presented
/// order, with `multi_frame` set exactly when there are two or more; or, for
/// an empty frame sequence, exactly one fallback record with position
/// sentinel 0 and `multi_frame` false, at the event's own location.
pub open spec fn spec_build(event: FaultEventView, frames: Seq<RelevantFrameView>) -> Seq<
    ReportRecordView,
> {
    if frames.len() == 0 {
        seq![
            spec_record(event, spec_fallback_file(event), spec_fallback_line(event), false, 0),
        ]
    } else {
        Seq::new(
            frames.len(),
            |i: int|
                spec_record(
                    event,
                    frames[i].file,
                    frames[i].line,
                    frames.len() > 1,
                    spec_position_code(frames[i].pos),
                ),
        )
    }
}

/// Thread name carried by the records, as `spec_thread_name` states it.
fn thread_name_for(event: &FaultEvent) -> (name: String)
    ensures
        name@ == spec_thread_name(event@),
{
    match &event.thread_name {
        Some(name) => {
            if str_equal(name.as_str(), primary_thread_name()) {
                String::new()
            } else {
                name.clone()
            }
        },
        None => String::new(),
    }
}

/// PayloadBuilder: build the report records for one fault.
pub fn build_records(event: &FaultEvent, frames: &Vec<RelevantFrame>) -> (records: Vec<
    ReportRecord,
>)
    ensures
        records.deep_view() == spec_build(event@, frames.deep_view()),
{
    let message = strip_first_line(event.message.as_str());
    let thread_name = thread_name_for(event);
    let mut records: Vec<ReportRecord> = Vec::new();
    if frames.len() == 0 {
        let record = match &event.location {
            Some(loc) => ReportRecord {
                message,
                file: loc.file.clone(),
                line_no: loc.line,
                multi_frame: false,
                pos: 0,
                thread_name,
                lang: lang_tag().to_owned(),
            },
            None => ReportRecord {
                message,
                file: "unknown".to_owned(),
                line_no: 0,
                multi_frame: false,
                pos: 0,
                thread_name,
                lang: lang_tag().to_owned(),
            },
        };
        records.push(record);
        proof {
            assert(records.deep_view() =~= spec_build(event@, frames.deep_view()));
        }
        return records;
    }
    let n = frames.len();
    let multi_frame = n > 1;
    let mut i: usize = 0;
    while i < n
        invariant
            n == frames@.len(),
            n > 0,
            multi_frame == (n > 1),
            message@ == strip_first_line_spec(event@.message),
            thread_name@ == spec_thread_name(event@),
            i <= n,
            records.deep_view() == spec_build(event@, frames.deep_view()).take(i as int),
        decreases n - i,
    {
        let frame = &frames[i];
        let record = ReportRecord {
            message: message.clone(),
            file: frame.file.clone(),
            line_no: frame.line,
            multi_frame,
            pos: position_code(frame.pos),
            thread_name: thread_name.clone(),
            lang: lang_tag().to_owned(),
        };
        let ghost pre_view = records.deep_view();
        let ghost pre_seq = records@;
        records.push(record);
        proof {
            assert(frames.deep_view().len() == n);
            assert(frames.deep_view()[i as int] == frames@[i as int]@);
            assert(record@ == spec_build(event@, frames.deep_view())[i as int]);
            assert(spec_build(event@, frames.deep_view()).len() == n);
            assert(pre_view.len() == i);
            assert(pre_view == Seq::new(pre_seq.len(), |k: int| pre_seq[k].deep_view()));
            assert(pre_seq.len() == i);
            assert forall|k: int| 0 <= k <= i as int implies records.deep_view()[k] == spec_build(
                event@,
                frames.deep_view(),
            )[k] by {
                if k < i as int {
                    assert(records@[k] == pre_seq[k]);
                    assert(pre_view[k] == spec_build(event@, frames.deep_view()).take(i as int)[k]);
                } else {
                    assert(records@[k] == record);
                }
            }
            assert(records.deep_view() =~= spec_build(event@, frames.deep_view()).take(
                i as int + 1,
            ));
        }
        i += 1;
    }
    proof {
        assert(spec_build(event@, frames.deep_view()).take(n as int) =~= spec_build(
            event@,
            frames.deep_view(),
        ));
    }
    records
}

} // verus!
