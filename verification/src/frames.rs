//! The display over many frames: the front end takes at most one response per
//! frame from the queue, in the order sent, and so ends up showing what the
//! instrument reported last.
//!
//! Everything here is stated over `merged` and `polled` of `display`.

use vstd::prelude::*;
use crate::display::{merged, polled, DisplayView};
use crate::protocol::ResponseView;

verus! {

/// The parts of the display that a response can write.
pub enum Field {
    Connection,
    Scale,
    Table,
    Frequency,
    Attenuations,
    Measurement,
    Error,
}

/// The part of the display that `response` writes.
pub open spec fn field_of(response: ResponseView) -> Field {
    match response {
        ResponseView::Connected(_) => Field::Connection,
        ResponseView::FFTScale(_) => Field::Scale,
        ResponseView::DACTable(_) => Field::Table,
        ResponseView::IFFreq(_) => Field::Frequency,
        ResponseView::IFAttens(_) => Field::Attenuations,
        ResponseView::Sweep(_) => Field::Measurement,
        ResponseView::CaptureResult(data) => if data.len() == 0 {
            Field::Error
        } else {
            Field::Measurement
        },
    }
}

/// The display after `responses` were merged one after another.
pub open spec fn merged_all(d: DisplayView, responses: Seq<ResponseView>) -> DisplayView
    decreases responses.len(),
{
    if responses.len() == 0 {
        d
    } else {
        merged(merged_all(d, responses.drop_last()), responses.last())
    }
}

/// The display and the queue after `frames` frames, each of which takes the
/// response at the head of the queue if there is one.
pub open spec fn after_frames(d: DisplayView, queue: Seq<ResponseView>, frames: nat) -> (
    DisplayView,
    Seq<ResponseView>,
)
    decreases frames,
{
    if frames == 0 {
        (d, queue)
    } else {
        let (shown, left) = after_frames(d, queue, (frames - 1) as nat);
        if left.len() == 0 {
            (polled(shown, None), left)
        } else {
            (polled(shown, Some(left.first())), left.skip(1))
        }
    }
}

/// The last write wins: of two responses that write the same part of the
/// display, only the second shows.
pub proof fn lemma_last_write_wins(d: DisplayView, first: ResponseView, second: ResponseView)
    requires
        field_of(first) == field_of(second),
    ensures
        merged(merged(d, first), second) == merged(d, second),
{
}

/// Responses that write different parts of the display do not disturb each
/// other: merged in either order they show the same.
pub proof fn lemma_fields_are_independent(d: DisplayView, a: ResponseView, b: ResponseView)
    requires
        field_of(a) != field_of(b),
    ensures
        merged(merged(d, a), b) == merged(merged(d, b), a),
{
}

/// A frame that finds the queue empty leaves the display and the queue as they
/// are.
pub proof fn lemma_empty_frame(d: DisplayView, frames: nat)
    ensures
        after_frames(d, Seq::empty(), frames) == (d, Seq::<ResponseView>::empty()),
    decreases frames,
{
    if frames > 0 {
        lemma_empty_frame(d, (frames - 1) as nat);
    }
}

/// After `frames` frames the display shows the first `frames` responses of the
/// queue, merged in the order sent, and the rest of the queue waits in that
/// order; once the queue is used up nothing changes any more.
pub proof fn lemma_one_response_per_frame(d: DisplayView, queue: Seq<ResponseView>, frames: nat)
    ensures
        frames <= queue.len() ==> after_frames(d, queue, frames) == (
            merged_all(d, queue.take(frames as int)),
            queue.skip(frames as int),
        ),
        frames >= queue.len() ==> after_frames(d, queue, frames) == (
            merged_all(d, queue),
            Seq::<ResponseView>::empty(),
        ),
    decreases frames,
{
    if frames == 0 {
        assert(queue.take(0) =~= Seq::empty());
        assert(queue.skip(0) =~= queue);
        if queue.len() == 0 {
            assert(queue =~= Seq::empty());
        }
    } else {
        let before = (frames - 1) as nat;
        lemma_one_response_per_frame(d, queue, before);
        let (shown, left) = after_frames(d, queue, before);
        if before >= queue.len() {
            assert(left.len() == 0);
        } else {
            assert(left == queue.skip(before as int));
            assert(left.first() == queue[before as int]);
            assert(left.skip(1) =~= queue.skip(frames as int));
            let taken = queue.take(frames as int);
            assert(taken.drop_last() =~= queue.take(before as int));
            assert(taken.last() == queue[before as int]);
            if frames == queue.len() {
                assert(taken =~= queue);
                assert(queue.skip(frames as int) =~= Seq::empty());
            }
        }
    }
}

/// The display converges: once as many frames have passed as responses were
/// queued, the queue is used up and the response queued last was merged last,
/// so the part that it writes shows what it reported.
pub proof fn lemma_display_converges(d: DisplayView, queue: Seq<ResponseView>, frames: nat)
    requires
        queue.len() > 0,
        frames >= queue.len(),
    ensures
        after_frames(d, queue, frames).1.len() == 0,
        after_frames(d, queue, frames).0 == merged(
            merged_all(d, queue.drop_last()),
            queue.last(),
        ),
{
    lemma_one_response_per_frame(d, queue, frames);
}

} // verus!
