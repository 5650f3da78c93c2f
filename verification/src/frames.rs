//! Data model of the crash-capture pipeline: raw captured frames, relevant
//! frames with their position markers, the fault event handed in by the
//! runtime, and the report record handed out to the reporting sink.

use vstd::prelude::*;

verus! {

/// One resolved symbol of a captured frame; the file path or line number may
/// be missing when resolution was incomplete.
#[derive(Debug)]
pub struct SymbolInfo {
    pub filename: Option<String>,
    pub lineno: Option<u32>,
}

pub ghost struct SymbolInfoView {
    pub filename: Option<Seq<char>>,
    pub lineno: Option<u32>,
}

impl View for SymbolInfo {
    type V = SymbolInfoView;

    open spec fn view(&self) -> SymbolInfoView {
        SymbolInfoView {
            filename: match self.filename {
                Some(f) => Some(f@),
                None => None,
            },
            lineno: self.lineno,
        }
    }
}

impl DeepView for SymbolInfo {
    type V = SymbolInfoView;

    open spec fn deep_view(&self) -> SymbolInfoView {
        self.view()
    }
}

/// One unfiltered entry of a captured native call stack, carrying zero or
/// more resolved symbols.
#[derive(Debug)]
pub struct RawFrame {
    pub symbols: Vec<SymbolInfo>,
}

pub ghost struct RawFrameView {
    pub symbols: Seq<SymbolInfoView>,
}

impl View for RawFrame {
    type V = RawFrameView;

    open spec fn view(&self) -> RawFrameView {
        RawFrameView { symbols: self.symbols.deep_view() }
    }
}

impl DeepView for RawFrame {
    type V = RawFrameView;

    open spec fn deep_view(&self) -> RawFrameView {
        self.view()
    }
}

/// Position of a relevant frame in the reported (outermost-first) sequence.
/// Exactly one frame carries `First` and exactly one carries `Last` when two
/// or more relevant frames exist; a lone relevant frame carries `First`.
#[derive(Clone, Copy, PartialEq, Eq, Structural, Debug)]
pub enum Position {
    First,
    Middle,
    Last,
}

/// Integer encoding of a position marker as carried by a report record:
/// `First` is 0, `Middle` is 1, `Last` is 2.
pub open spec fn spec_position_code(pos: Position) -> i8 {
    match pos {
        Position::First => 0,
        Position::Middle => 1,
        Position::Last => 2,
    }
}

pub fn position_code(pos: Position) -> (code: i8)
    ensures
        code == spec_position_code(pos),
{
    match pos {
        Position::First => 0,
        Position::Middle => 1,
        Position::Last => 2,
    }
}

/// A raw frame that passed the filter: its first resolved symbol's source
/// file and line, annotated with its position marker.
#[derive(Debug)]
pub struct RelevantFrame {
    pub file: String,
    pub line: u32,
    pub pos: Position,
}

pub ghost struct RelevantFrameView {
    pub file: Seq<char>,
    pub line: u32,
    pub pos: Position,
}

impl View for RelevantFrame {
    type V = RelevantFrameView;

    open spec fn view(&self) -> RelevantFrameView {
        RelevantFrameView { file: self.file@, line: self.line, pos: self.pos }
    }
}

impl DeepView for RelevantFrame {
    type V = RelevantFrameView;

    open spec fn deep_view(&self) -> RelevantFrameView {
        self.view()
    }
}

/// The source location a fault event itself carries, used for the fallback
/// record when no captured frame is relevant.
#[derive(Debug)]
pub struct FaultLocation {
    pub file: String,
    pub line: u32,
}

pub ghost struct FaultLocationView {
    pub file: Seq<char>,
    pub line: u32,
}

impl View for FaultLocation {
    type V = FaultLocationView;

    open spec fn view(&self) -> FaultLocationView {
        FaultLocationView { file: self.file@, line: self.line }
    }
}

/// The raw signal from the runtime: a human-readable description, an optional
/// originating location, and the faulting thread's name (`None` when the
/// thread is unnamed). An immutable snapshot taken at fault time.
#[derive(Debug)]
pub struct FaultEvent {
    pub message: String,
    pub location: Option<FaultLocation>,
    pub thread_name: Option<String>,
}

pub ghost struct FaultEventView {
    pub message: Seq<char>,
    pub location: Option<FaultLocationView>,
    pub thread_name: Option<Seq<char>>,
}

impl View for FaultEvent {
    type V = FaultEventView;

    open spec fn view(&self) -> FaultEventView {
        FaultEventView {
            message: self.message@,
            location: match self.location {
                Some(loc) => Some(loc@),
                None => None,
            },
            thread_name: match self.thread_name {
                Some(name) => Some(name@),
                None => None,
            },
        }
    }
}

/// The unit sent to the external reporting sink. Write-once: records are
/// never mutated after construction.
#[derive(Debug)]
pub struct ReportRecord {
    /// Fault description with its first line (a generic banner) stripped.
    pub message: String,
    /// Source file of the relevant frame, or of the fault event's own
    /// location, or `"unknown"`.
    pub file: String,
    /// Line number in `file`; carried as an explicit unsigned integer so the
    /// width and signedness stay unambiguous across runtimes.
    pub line_no: u32,
    /// Whether the overall trace had more than one relevant frame.
    pub multi_frame: bool,
    /// Position marker encoded as 0 (`First`), 1 (`Middle`), 2 (`Last`);
    /// sentinel 0 on the fallback record.
    pub pos: i8,
    /// The faulting thread's name; empty for the primary thread and for
    /// unnamed threads.
    pub thread_name: String,
    /// Fixed short identifier of the runtime producing the report.
    pub lang: String,
}

pub ghost struct ReportRecordView {
    pub message: Seq<char>,
    pub file: Seq<char>,
    pub line_no: u32,
    pub multi_frame: bool,
    pub pos: i8,
    pub thread_name: Seq<char>,
    pub lang: Seq<char>,
}

impl View for ReportRecord {
    type V = ReportRecordView;

    open spec fn view(&self) -> ReportRecordView {
        ReportRecordView {
            message: self.message@,
            file: self.file@,
            line_no: self.line_no,
            multi_frame: self.multi_frame,
            pos: self.pos,
            thread_name: self.thread_name@,
            lang: self.lang@,
        }
    }
}

impl DeepView for ReportRecord {
    type V = ReportRecordView;

    open spec fn deep_view(&self) -> ReportRecordView {
        self.view()
    }
}

} // verus!
