//! FrameFilter: decides which captured frames are relevant and in what order
//! to present them.
//!
//! A frame is relevant when its first resolved symbol carries a source file
//! and line, the file's contents are available and the recorded line is in
//! range, the file path names no compiler-, backtrace- or toolchain-internal
//! code, and the recorded source line does not carry the exclusion marker
//! used to hide instrumentation lines. Raw capture order is innermost-first;
//! the relevant frames are presented reversed (outermost-first), with the
//! position markers assigned over the reversed sequence.
//!
//! Reading source files is the caller's concern: the filter takes, for each
//! frame, the lines of its source file (`None` when the file could not be
//! read), so a filtering pass is a pure function of its arguments.

use vstd::prelude::*;

use crate::frames::Position;
use crate::frames::RawFrame;
use crate::frames::RawFrameView;
use crate::frames::RelevantFrame;
use crate::frames::RelevantFrameView;
use crate::text::contains_sub;
use crate::text::contains_substr;

verus! {

/// The lines of one frame's source file, as the caller could read them:
/// `None` when the file was unreadable.
pub type FileLines = Option<Vec<String>>;

/// View of one frame's source-file lines.
pub type FileLinesView = Option<Seq<Seq<char>>>;

/// Marker comment: a source line carrying it must never appear in a
/// user-facing trace.
pub open spec fn exclusion_marker_spec() -> Seq<char> {
    ";//\"\"\"REMOVE-STACK\"\"\"//"@
}

pub fn exclusion_marker() -> (marker: &'static str)
    ensures
        marker@ == exclusion_marker_spec(),
{
    ";//\"\"\"REMOVE-STACK\"\"\"//"
}

/// Source file and line of a frame's first resolved symbol, if both are
/// present.
pub open spec fn first_symbol_loc(frame: RawFrameView) -> Option<(Seq<char>, u32)> {
    if frame.symbols.len() > 0 {
        match (frame.symbols[0].filename, frame.symbols[0].lineno) {
            (Some(file), Some(line)) => Some((file, line)),
            _ => None,
        }
    } else {
        None
    }
}

/// Source file and line of a relevant frame; meaningful only when
/// `first_symbol_loc` is `Some`.
pub open spec fn frame_loc(frame: RawFrameView) -> (Seq<char>, u32) {
    match first_symbol_loc(frame) {
        Some(loc) => loc,
        None => (Seq::empty(), 0),
    }
}

/// A frame is relevant when its first symbol resolves to a file and line,
/// the file's lines are available and the line is in range, the path has no
/// infrastructure fragment, and the recorded line has no exclusion marker.
pub open spec fn is_relevant(frame: RawFrameView, content: FileLinesView) -> bool {
    match (first_symbol_loc(frame), content) {
        (Some(loc), Some(lines)) => {
            &&& 1 <= loc.1
            &&& loc.1 - 1 < lines.len()
            &&& !contains_sub(loc.0, "rustc"@)
            &&& !contains_sub(loc.0, "backtrace"@)
            &&& !contains_sub(loc.0, "vctools"@)
            &&& !contains_sub(lines[loc.1 - 1], exclusion_marker_spec())
        },
        _ => false,
    }
}

/// Locations of the relevant frames, in raw (innermost-first) capture order.
pub open spec fn kept_locations(
    frames: Seq<RawFrameView>,
    contents: Seq<FileLinesView>,
) -> Seq<(Seq<char>, u32)>
    decreases frames.len(),
{
    if frames.len() == 0 || contents.len() != frames.len() {
        Seq::empty()
    } else {
        kept_locations(frames.drop_last(), contents.drop_last()) + (
        if is_relevant(frames.last(), contents.last()) {
            seq![frame_loc(frames.last())]
        } else {
            Seq::empty()
        })
    }
}

/// Position marker of index `i` in a presented sequence of length `n`:
/// index 0 is `First`, the last index is `Last`, anything between is
/// `Middle`; a lone frame is `First`.
pub open spec fn position_at(i: int, n: int) -> Position {
    if i == 0 {
        Position::First
    } else if i < n - 1 {
        Position::Middle
    } else {
        Position::Last
    }
}

/// What the filter returns: the relevant frames' locations, reversed into
/// outermost-first order, each annotated with its position marker.
pub open spec fn spec_filter(
    frames: Seq<RawFrameView>,
    contents: Seq<FileLinesView>,
) -> Seq<RelevantFrameView> {
    let locs = kept_locations(frames, contents).reverse();
    Seq::new(
        locs.len(),
        |i: int|
            RelevantFrameView {
                file: locs[i].0,
                line: locs[i].1,
                pos: position_at(i, locs.len() as int),
            },
    )
}

/// The relevant frames are exactly the frames that pass every criterion, in
/// raw order.
pub(crate) proof fn lemma_kept_step(frames: Seq<RawFrameView>, contents: Seq<FileLinesView>, i: int)
    requires
        frames.len() == contents.len(),
        0 <= i < frames.len(),
    ensures
        kept_locations(frames.take(i + 1), contents.take(i + 1)) == kept_locations(
            frames.take(i),
            contents.take(i),
        ) + (if is_relevant(frames[i], contents[i]) {
            seq![frame_loc(frames[i])]
        } else {
            Seq::<(Seq<char>, u32)>::empty()
        }),
{
    assert(frames.take(i + 1).drop_last() =~= frames.take(i));
    assert(contents.take(i + 1).drop_last() =~= contents.take(i));
    assert(frames.take(i + 1).last() == frames[i]);
    assert(contents.take(i + 1).last() == contents[i]);
}

/// Relevance check of one frame. Returns the source location when the frame
/// is relevant, `None` otherwise.
fn relevant_location(frame: &RawFrame, content: &FileLines) -> (loc: Option<(String, u32)>)
    ensures
        match loc {
            Some(fl) => is_relevant(frame@, content.deep_view()) && frame_loc(frame@) == (
                fl.0@,
                fl.1,
            ),
            None => !is_relevant(frame@, content.deep_view()),
        },
{
    if frame.symbols.len() == 0 {
        return None;
    }
    let sym = &frame.symbols[0];
    let file = match &sym.filename {
        Some(f) => f,
        None => {
            return None;
        },
    };
    let line = match sym.lineno {
        Some(l) => l,
        None => {
            return None;
        },
    };
    let lines = match content {
        Some(ls) => ls,
        None => {
            return None;
        },
    };
    if line < 1 {
        return None;
    }
    let idx = (line - 1) as usize;
    if idx >= lines.len() {
        return None;
    }
    if contains_substr(file.as_str(), "rustc") {
        return None;
    }
    if contains_substr(file.as_str(), "backtrace") {
        return None;
    }
    if contains_substr(file.as_str(), "vctools") {
        return None;
    }
    if contains_substr(lines[idx].as_str(), exclusion_marker()) {
        return None;
    }
    Some((file.clone(), line))
}

/// FrameFilter: reduce a raw, innermost-first stack trace to the relevant
/// frames, presented outermost-first with their position markers.
/// `contents[i]` holds the lines of the source file recorded by `frames[i]`'s
/// first symbol, or `None` when that file could not be read.
pub fn filter_relevant_frames(frames: &Vec<RawFrame>, contents: &Vec<FileLines>) -> (relevant: Vec<
    RelevantFrame,
>)
    requires
        frames@.len() == contents@.len(),
    ensures
        relevant.deep_view() == spec_filter(frames.deep_view(), contents.deep_view()),
{
    let ghost fseq = frames.deep_view();
    let ghost cseq = contents.deep_view();
    let n = frames.len();
    let mut kept: Vec<(String, u32)> = Vec::new();
    let mut i: usize = 0;
    proof {
        assert(kept.deep_view() =~= kept_locations(fseq.take(0), cseq.take(0)));
    }
    while i < n
        invariant
            fseq == frames.deep_view(),
            cseq == contents.deep_view(),
            n == fseq.len(),
            cseq.len() == fseq.len(),
            i <= n,
            kept.deep_view() == kept_locations(fseq.take(i as int), cseq.take(i as int)),
        decreases n - i,
    {
        match relevant_location(&frames[i], &contents[i]) {
            Some(loc) => {
                kept.push(loc);
            },
            None => {},
        }
        proof {
            lemma_kept_step(fseq, cseq, i as int);
            assert(kept.deep_view() =~= kept_locations(
                fseq.take(i as int + 1),
                cseq.take(i as int + 1),
            ));
        }
        i += 1;
    }
    proof {
        assert(fseq.take(n as int) =~= fseq);
        assert(cseq.take(n as int) =~= cseq);
    }
    let m = kept.len();
    let mut relevant: Vec<RelevantFrame> = Vec::new();
    let mut j: usize = 0;
    while j < m
        invariant
            fseq == frames.deep_view(),
            cseq == contents.deep_view(),
            m == kept.len(),
            kept.deep_view() == kept_locations(fseq, cseq),
            j <= m,
            relevant.deep_view() == spec_filter(fseq, cseq).take(j as int),
        decreases m - j,
    {
        let idx = m - 1 - j;
        let pos = if j == 0 {
            Position::First
        } else if j < m - 1 {
            Position::Middle
        } else {
            Position::Last
        };
        let entry = RelevantFrame { file: kept[idx].0.clone(), line: kept[idx].1, pos };
        let ghost pre_view = relevant.deep_view();
        let ghost pre_seq = relevant@;
        relevant.push(entry);
        proof {
            let locs = kept_locations(fseq, cseq).reverse();
            assert(locs.len() == m);
            assert(locs[j as int] == kept_locations(fseq, cseq)[idx as int]);
            assert(kept.deep_view()[idx as int] == (kept@[idx as int].0@, kept@[idx as int].1));
            assert(entry@ == spec_filter(fseq, cseq)[j as int]);
            assert(spec_filter(fseq, cseq).len() == m);
            assert(pre_view.len() == j);
            assert(pre_view == Seq::new(pre_seq.len(), |k: int| pre_seq[k].deep_view()));
            assert(pre_seq.len() == j);
            assert forall|k: int| 0 <= k <= j as int implies relevant.deep_view()[k]
                == spec_filter(fseq, cseq)[k] by {
                if k < j as int {
                    assert(relevant@[k] == pre_seq[k]);
                    assert(pre_view[k] == spec_filter(fseq, cseq).take(j as int)[k]);
                } else {
                    assert(relevant@[k] == entry);
                }
            }
            assert(relevant.deep_view() =~= spec_filter(fseq, cseq).take(j as int + 1));
        }
        j += 1;
    }
    proof {
        assert(spec_filter(fseq, cseq).take(m as int) =~= spec_filter(fseq, cseq));
    }
    relevant
}

} // verus!
