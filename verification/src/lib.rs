//! Crash-capture bridge: when a fault occurs in one thread of a process, a
//! single-flight gate serializes handling across threads, the native call
//! stack is captured and filtered down to application-relevant frames, and a
//! structured, language-tagged report record is emitted for each relevant
//! frame (or a single fallback record when none qualifies).

pub mod capture;
pub mod filter;
pub mod frames;
pub mod gate;
pub mod handler;
pub mod laws;
pub mod payload;
pub mod text;

pub use capture::capture_raw_frames;
pub use filter::filter_relevant_frames;
pub use gate::Coordinator;
pub use handler::process_fault;
pub use payload::build_records;

pub use frames::FaultEvent;
pub use frames::FaultLocation;
pub use frames::Position;
pub use frames::RawFrame;
pub use frames::RelevantFrame;
pub use frames::ReportRecord;
pub use frames::SymbolInfo;
pub use frames::position_code;
pub use text::contains_substr;
pub use text::strip_first_line;
