//! The playback drain: queued output frames written into the host buffer,
//! at most a block's worth at a time, front first.

use vstd::prelude::*;
use crate::segment::{clone_frame, deep_of, lemma_segment_deep_view, seg_wf};

verus! {

/// One output frame spread over a host frame's channels: channel `c` takes
/// the frame's channel `c`, and a frame with fewer channels than the host
/// lends its last channel to the extra ones.
pub open spec fn broadcast_of(frame: Seq<i32>, channels: int) -> Seq<i32>
    recommends
        frame.len() > 0,
{
    Seq::new(
        if channels >= 0 {
            channels as nat
        } else {
            0
        },
        |c: int| if c < frame.len() {
            frame[c]
        } else {
            frame[frame.len() - 1]
        },
    )
}

/// Builds the host frame a queued output frame produces.
fn broadcast_frame(frame: &Vec<i32>, channels: usize) -> (out: Vec<i32>)
    requires
        frame.len() > 0,
    ensures
        out@ == broadcast_of(frame@, channels as int),
{
    let mut out: Vec<i32> = Vec::new();
    let mut c: usize = 0;
    while c < channels
        invariant
            0 <= c <= channels,
            frame.len() > 0,
            out@ =~= broadcast_of(frame@, channels as int).take(c as int),
        decreases channels - c,
    {
        let idx = if c < frame.len() {
            c
        } else {
            frame.len() - 1
        };
        out.push(frame[idx]);
        proof {
            assert(out@ =~= broadcast_of(frame@, channels as int).take(c as int + 1));
        }
        c = c + 1;
    }
    proof {
        assert(broadcast_of(frame@, channels as int).take(channels as int)
            =~= broadcast_of(frame@, channels as int));
    }
    out
}

/// Drains queued output into the host block: the front `min(block length,
/// queued length)` output frames overwrite the block's first frames,
/// channel-broadcast to each host frame's own channel count, and exactly
/// those frames leave the queue; host frames past the written ones keep
/// whatever they held. An empty queue leaves the block untouched.
pub fn drain_into_block(output: &mut Vec<Vec<i32>>, block: &mut Vec<Vec<i32>>)
    requires
        seg_wf(old(output).deep_view()),
    ensures
        ({
            let n = if old(block)@.len() < old(output)@.len() {
                old(block)@.len() as int
            } else {
                old(output)@.len() as int
            };
            &&& final(output).deep_view() == old(output).deep_view().skip(n)
            &&& seg_wf(final(output).deep_view())
            &&& final(block)@.len() == old(block)@.len()
            &&& (forall|i: int| 0 <= i < n
                ==> #[trigger] final(block).deep_view()[i]
                    == broadcast_of(old(output).deep_view()[i], old(block).deep_view()[i].len() as int))
            &&& (forall|i: int| n <= i < old(block)@.len()
                ==> #[trigger] final(block)@[i] == old(block)@[i])
        }),
{
    proof {
        lemma_segment_deep_view(*old(output));
        lemma_segment_deep_view(*old(block));
    }
    let ghost out0 = output.deep_view();
    let ghost blk0 = block.deep_view();
    let n = if block.len() < output.len() {
        block.len()
    } else {
        output.len()
    };
    let mut i: usize = 0;
    while i < n
        invariant
            0 <= i <= n,
            n <= block@.len(),
            n <= output@.len(),
            output@ == old(output)@,
            out0 == deep_of(output@),
            seg_wf(out0),
            block@.len() == blk0.len(),
            blk0 == deep_of(old(block)@),
            forall|j: int| 0 <= j < i
                ==> #[trigger] block@[j]@ == broadcast_of(out0[j], blk0[j].len() as int),
            forall|j: int| i <= j < block@.len() ==> #[trigger] block@[j] == old(block)@[j],
        decreases n - i,
    {
        proof {
            assert(out0[i as int] == output@[i as int]@);
            assert(blk0[i as int] == old(block)@[i as int]@);
            assert(out0[i as int].len() > 0);
        }
        let channels = block[i].len();
        let bf = broadcast_frame(&output[i], channels);
        block.set(i, bf);
        i = i + 1;
    }
    let mut rest: Vec<Vec<i32>> = Vec::new();
    let total = output.len();
    let mut j: usize = n;
    while j < total
        invariant
            n <= j <= total,
            total == output@.len(),
            output@ == old(output)@,
            out0 == deep_of(output@),
            seg_wf(out0),
            rest@.len() == j - n,
            forall|k: int| 0 <= k < rest@.len() ==> #[trigger] rest@[k]@ == out0[n + k],
        decreases total - j,
    {
        let f = clone_frame(&output[j]);
        rest.push(f);
        j = j + 1;
    }
    *output = rest;
    proof {
        lemma_segment_deep_view(*output);
        lemma_segment_deep_view(*block);
        assert(output.deep_view() =~= out0.skip(n as int));
        assert forall|k: int| 0 <= k < n as int
            implies #[trigger] block.deep_view()[k]
                == broadcast_of(out0[k], blk0[k].len() as int) by {
            assert(block.deep_view()[k] == block@[k]@);
        }
    }
}

} // verus!
