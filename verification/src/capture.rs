//! The capture state machine: frames accumulate while the transport plays,
//! and a recording segment that reaches the cycle length flushes wholesale
//! into the export segment.

use vstd::prelude::*;
use crate::sample::PROGRESS_ONE;

verus! {

/// The two states of the capture state machine. The host transport decides
/// the state anew each block: playing records, anything else idles and
/// discards the open recording segment.
#[derive(Clone, Copy, Debug, PartialEq, Eq, Structural)]
pub enum CaptureState {
    Idle,
    Recording,
}

/// The capture-side model: the open recording segment, the last completed
/// export segment, and the recording progress.
pub ghost struct CaptureModel {
    pub rec: Seq<Seq<i32>>,
    pub exp: Seq<Seq<i32>>,
    pub prog: u64,
}

/// Recording progress in fixed point: recorded length over cycle length.
/// The ratio is uncapped beyond one whole cycle (the flush threshold crossing
/// stays visible) but saturates at the type's ceiling. A zero cycle reports
/// an empty segment as no progress and anything else as one whole cycle.
pub open spec fn progress_of(len: int, cycle: u64) -> u64 {
    if cycle == 0 {
        if len == 0 {
            0u64
        } else {
            PROGRESS_ONE
        }
    } else {
        let q = len * (PROGRESS_ONE as int) / (cycle as int);
        if q > u64::MAX as int {
            u64::MAX
        } else {
            q as u64
        }
    }
}

/// One frame arrives while recording: it is appended, progress is recomputed
/// from the pre-flush length, and a recording segment that has reached the
/// cycle length replaces the export segment wholesale and is cleared.
pub open spec fn capture_frame(m: CaptureModel, frame: Seq<i32>, cycle: u64) -> CaptureModel {
    let r = m.rec.push(frame);
    let p = progress_of(r.len() as int, cycle);
    if r.len() >= cycle {
        CaptureModel { rec: Seq::empty(), exp: r, prog: p }
    } else {
        CaptureModel { rec: r, exp: m.exp, prog: p }
    }
}

/// A block of frames arrives while recording, one frame at a time, so a block
/// larger than the cycle can flush more than once.
pub open spec fn capture_frames(m: CaptureModel, frames: Seq<Seq<i32>>, cycle: u64) -> CaptureModel
    decreases frames.len(),
{
    if frames.len() == 0 {
        m
    } else {
        capture_frames(capture_frame(m, frames[0], cycle), frames.skip(1), cycle)
    }
}

/// Capturing one more frame after a run of frames is the same as appending it
/// to the run.
pub proof fn lemma_capture_frames_snoc(
    m: CaptureModel,
    frames: Seq<Seq<i32>>,
    f: Seq<i32>,
    cycle: u64,
)
    ensures
        capture_frames(m, frames.push(f), cycle)
            == capture_frame(capture_frames(m, frames, cycle), f, cycle),
    decreases frames.len(),
{
    if frames.len() == 0 {
        assert(frames.push(f)[0] == f);
        assert(frames.push(f).skip(1) =~= Seq::<Seq<i32>>::empty());
        assert(capture_frames(capture_frame(m, f, cycle), Seq::<Seq<i32>>::empty(), cycle)
            == capture_frame(m, f, cycle));
    } else {
        assert(frames.push(f)[0] == frames[0]);
        assert(frames.push(f).skip(1) =~= frames.skip(1).push(f));
        lemma_capture_frames_snoc(capture_frame(m, frames[0], cycle), frames.skip(1), f, cycle);
    }
}

/// Law: capture composes over blocks — delivering two runs of frames one
/// after the other is the same as delivering their concatenation, so any
/// sequence of blocks can be reasoned about as one stream of frames.
pub proof fn lemma_capture_frames_concat(
    m: CaptureModel,
    a: Seq<Seq<i32>>,
    b: Seq<Seq<i32>>,
    cycle: u64,
)
    ensures
        capture_frames(m, a + b, cycle)
            == capture_frames(capture_frames(m, a, cycle), b, cycle),
    decreases b.len(),
{
    if b.len() == 0 {
        assert(a + b =~= a);
    } else {
        let b0 = b.drop_last();
        lemma_capture_frames_concat(m, a, b0, cycle);
        assert(a + b =~= (a + b0).push(b.last()));
        assert(b =~= b0.push(b.last()));
        lemma_capture_frames_snoc(m, a + b0, b.last(), cycle);
        lemma_capture_frames_snoc(capture_frames(m, a, cycle), b0, b.last(), cycle);
    }
}

/// Filling a recording segment up to the cycle length: while the combined
/// length stays below the cycle, frames accumulate and the export segment is
/// untouched; the frame that reaches the cycle length flushes everything
/// recorded into the export segment and empties the recording segment.
pub proof fn lemma_capture_fill(m: CaptureModel, frames: Seq<Seq<i32>>, cycle: u64)
    requires
        cycle >= 1,
        m.rec.len() + frames.len() <= cycle,
    ensures
        m.rec.len() + frames.len() < cycle ==> {
            &&& capture_frames(m, frames, cycle).rec == m.rec + frames
            &&& capture_frames(m, frames, cycle).exp == m.exp
        },
        m.rec.len() + frames.len() == cycle && frames.len() > 0 ==> {
            &&& capture_frames(m, frames, cycle).rec == Seq::<Seq<i32>>::empty()
            &&& capture_frames(m, frames, cycle).exp == m.rec + frames
        },
    decreases frames.len(),
{
    if frames.len() == 0 {
        assert(m.rec + frames =~= m.rec);
    } else {
        let r1 = m.rec.push(frames[0]);
        if r1.len() >= cycle {
            assert(frames.len() == 1);
            assert(r1 =~= m.rec + frames);
            assert(frames.skip(1).len() == 0);
            let m1 = capture_frame(m, frames[0], cycle);
            assert(capture_frames(m1, frames.skip(1), cycle) == m1);
        } else {
            let m1 = capture_frame(m, frames[0], cycle);
            lemma_capture_fill(m1, frames.skip(1), cycle);
            assert(r1 + frames.skip(1) =~= m.rec + frames);
        }
    }
}

/// Law: from an empty recording segment with a fixed positive cycle length
/// `n`, delivering `k <= n` frames leaves exactly those `k` frames recorded
/// while `k < n`, with the export segment untouched; at `k == n` the cycle
/// flushes — the export segment becomes exactly the `n` delivered frames and
/// the recording segment is empty again.
pub proof fn lemma_capture_progression(m: CaptureModel, frames: Seq<Seq<i32>>, cycle: u64)
    requires
        m.rec.len() == 0,
        cycle >= 1,
        frames.len() <= cycle,
    ensures
        frames.len() < cycle ==> {
            &&& capture_frames(m, frames, cycle).rec == frames
            &&& capture_frames(m, frames, cycle).rec.len() == frames.len()
            &&& capture_frames(m, frames, cycle).exp == m.exp
        },
        frames.len() == cycle ==> {
            &&& capture_frames(m, frames, cycle).rec.len() == 0
            &&& capture_frames(m, frames, cycle).exp == frames
            &&& capture_frames(m, frames, cycle).exp.len() == cycle
        },
{
    lemma_capture_fill(m, frames, cycle);
    assert(m.rec + frames =~= frames);
}

} // verus!
