//! The pipeline's stated properties, proved from the contracts of the
//! filter and the builder.

use vstd::prelude::*;

use crate::filter::FileLinesView;
use crate::filter::frame_loc;
use crate::filter::is_relevant;
use crate::filter::kept_locations;
use crate::filter::lemma_kept_step;
use crate::filter::spec_filter;
use crate::frames::FaultEventView;
use crate::frames::Position;
use crate::frames::RawFrameView;
use crate::frames::RelevantFrameView;
use crate::payload::spec_build;

verus! {

/// How many frames pass every relevance criterion.
pub open spec fn relevant_count(frames: Seq<RawFrameView>, contents: Seq<FileLinesView>) -> nat
    decreases frames.len(),
{
    if frames.len() == 0 || contents.len() != frames.len() {
        0
    } else {
        relevant_count(frames.drop_last(), contents.drop_last()) + (if is_relevant(
            frames.last(),
            contents.last(),
        ) {
            1nat
        } else {
            0nat
        })
    }
}

proof fn lemma_kept_count(frames: Seq<RawFrameView>, contents: Seq<FileLinesView>)
    requires
        frames.len() == contents.len(),
    ensures
        kept_locations(frames, contents).len() == relevant_count(frames, contents),
    decreases frames.len(),
{
    if frames.len() > 0 {
        lemma_kept_count(frames.drop_last(), contents.drop_last());
    }
}

/// The filter returns a sequence whose length equals the count of frames
/// meeting every relevance criterion.
pub proof fn lemma_filter_length(frames: Seq<RawFrameView>, contents: Seq<FileLinesView>)
    requires
        frames.len() == contents.len(),
    ensures
        spec_filter(frames, contents).len() == relevant_count(frames, contents),
{
    lemma_kept_count(frames, contents);
}

/// Reversal: the filter presents the relevant frames outermost-first. The
/// frame at presented index `k` is the relevant frame captured at raw
/// position `n - 1 - k`, and its position marker is `First` at index 0,
/// `Last` at the final index, `Middle` between.
pub proof fn lemma_filter_reverses(
    frames: Seq<RawFrameView>,
    contents: Seq<FileLinesView>,
    k: int,
)
    requires
        frames.len() == contents.len(),
        0 <= k < kept_locations(frames, contents).len(),
    ensures
        ({
            let kept = kept_locations(frames, contents);
            let presented = spec_filter(frames, contents);
            &&& presented.len() == kept.len()
            &&& presented[k].file == kept[kept.len() - 1 - k].0
            &&& presented[k].line == kept[kept.len() - 1 - k].1
            &&& presented[k].pos == (if k == 0 {
                Position::First
            } else if k < kept.len() - 1 {
                Position::Middle
            } else {
                Position::Last
            })
        }),
{
}

/// The kept locations of a shorter prefix of the capture are a prefix of the
/// kept locations of a longer one.
proof fn lemma_kept_monotone(
    frames: Seq<RawFrameView>,
    contents: Seq<FileLinesView>,
    i: int,
    j: int,
)
    requires
        frames.len() == contents.len(),
        0 <= i <= j <= frames.len(),
    ensures
        ({
            let shorter = kept_locations(frames.take(i), contents.take(i));
            let longer = kept_locations(frames.take(j), contents.take(j));
            shorter.len() <= longer.len() && longer.take(shorter.len() as int) == shorter
        }),
    decreases j - i,
{
    if i < j {
        lemma_kept_monotone(frames, contents, i, j - 1);
        lemma_kept_step(frames, contents, j - 1);
        let shorter = kept_locations(frames.take(i), contents.take(i));
        let mid = kept_locations(frames.take(j - 1), contents.take(j - 1));
        let longer = kept_locations(frames.take(j), contents.take(j));
        assert(longer.take(shorter.len() as int) =~= mid.take(shorter.len() as int));
    }
}

/// Frame order, reversal in general: of two relevant frames, the one
/// captured earlier (closer to the fault) is presented later. Returns the
/// two presented indices: first where the later-captured frame stands,
/// then where the earlier-captured one stands.
pub proof fn lemma_earlier_frame_presented_later(
    frames: Seq<RawFrameView>,
    contents: Seq<FileLinesView>,
    a: int,
    b: int,
) -> (presented_at: (int, int))
    requires
        frames.len() == contents.len(),
        0 <= a < b < frames.len(),
        is_relevant(frames[a], contents[a]),
        is_relevant(frames[b], contents[b]),
    ensures
        ({
            let presented = spec_filter(frames, contents);
            let at_b = presented_at.0;
            let at_a = presented_at.1;
            &&& 0 <= at_b < at_a < presented.len()
            &&& presented[at_b].file == frame_loc(frames[b]).0
            &&& presented[at_b].line == frame_loc(frames[b]).1
            &&& presented[at_a].file == frame_loc(frames[a]).0
            &&& presented[at_a].line == frame_loc(frames[a]).1
        }),
{
    let n = frames.len() as int;
    let kept = kept_locations(frames, contents);
    lemma_kept_step(frames, contents, a);
    lemma_kept_step(frames, contents, b);
    assert(frames.take(a + 1)[a] == frames[a]);
    assert(frames.take(b + 1)[b] == frames[b]);
    let la = kept_locations(frames.take(a + 1), contents.take(a + 1)).len() - 1;
    let lb = kept_locations(frames.take(b + 1), contents.take(b + 1)).len() - 1;
    lemma_kept_monotone(frames, contents, a + 1, b);
    lemma_kept_monotone(frames, contents, a + 1, n);
    lemma_kept_monotone(frames, contents, b + 1, n);
    assert(frames.take(n) =~= frames);
    assert(contents.take(n) =~= contents);
    assert(la < lb);
    assert(lb < kept.len());
    assert(kept[la] == kept_locations(frames.take(a + 1), contents.take(a + 1))[la]);
    assert(kept[la] == frame_loc(frames[a]));
    assert(kept[lb] == kept_locations(frames.take(b + 1), contents.take(b + 1))[lb]);
    assert(kept[lb] == frame_loc(frames[b]));
    lemma_filter_reverses(frames, contents, kept.len() - 1 - la);
    lemma_filter_reverses(frames, contents, kept.len() - 1 - lb);
    (kept.len() - 1 - lb, kept.len() - 1 - la)
}

/// Two relevant frames, A captured before B: the output presents B first,
/// B's marker is `First` and A's is `Last`.
pub proof fn lemma_two_frames_reversed(frames: Seq<RawFrameView>, contents: Seq<FileLinesView>)
    requires
        frames.len() == contents.len(),
        kept_locations(frames, contents).len() == 2,
    ensures
        ({
            let kept = kept_locations(frames, contents);
            let presented = spec_filter(frames, contents);
            &&& presented.len() == 2
            &&& presented[0].file == kept[1].0
            &&& presented[0].line == kept[1].1
            &&& presented[0].pos == Position::First
            &&& presented[1].file == kept[0].0
            &&& presented[1].line == kept[0].1
            &&& presented[1].pos == Position::Last
        }),
{
    lemma_filter_reverses(frames, contents, 0);
    lemma_filter_reverses(frames, contents, 1);
}

/// A single relevant frame carries the marker `First`, and its one record
/// has `multi_frame` false.
pub proof fn lemma_single_relevant_frame(
    event: FaultEventView,
    frames: Seq<RawFrameView>,
    contents: Seq<FileLinesView>,
)
    requires
        frames.len() == contents.len(),
        kept_locations(frames, contents).len() == 1,
    ensures
        ({
            let presented = spec_filter(frames, contents);
            let records = spec_build(event, presented);
            &&& presented.len() == 1
            &&& presented[0].pos == Position::First
            &&& records.len() == 1
            &&& !records[0].multi_frame
            &&& records[0].pos == 0
        }),
{
    lemma_filter_reverses(frames, contents, 0);
}

/// Zero relevant frames: exactly one record is produced, with position
/// sentinel 0 and `multi_frame` false.
pub proof fn lemma_fallback_record(
    event: FaultEventView,
    frames: Seq<RawFrameView>,
    contents: Seq<FileLinesView>,
)
    requires
        frames.len() == contents.len(),
        kept_locations(frames, contents).len() == 0,
    ensures
        ({
            let records = spec_build(event, spec_filter(frames, contents));
            &&& records.len() == 1
            &&& !records[0].multi_frame
            &&& records[0].pos == 0
        }),
{
}

/// Filtering is idempotent: the filter's contract pins its result to a
/// function of the raw frames and the file contents alone, so re-running it
/// on the same inputs yields an identical sequence — there is no hidden
/// mutable state.
pub proof fn lemma_filter_deterministic(
    frames: Seq<RawFrameView>,
    contents: Seq<FileLinesView>,
    first_run: Seq<RelevantFrameView>,
    second_run: Seq<RelevantFrameView>,
)
    requires
        first_run == spec_filter(frames, contents),
        second_run == spec_filter(frames, contents),
    ensures
        first_run == second_run,
{
}

} // verus!
