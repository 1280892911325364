//! Audio segments: ordered runs of frames, one sample per channel per frame.

use vstd::prelude::*;

verus! {

/// Every frame of a segment holds at least one channel sample.
pub open spec fn seg_wf(seg: Seq<Seq<i32>>) -> bool {
    forall|i: int| 0 <= i < seg.len() ==> #[trigger] seg[i].len() > 0
}

/// The frame sequence a run of frame vectors stands for.
pub open spec fn deep_of(s: Seq<Vec<i32>>) -> Seq<Seq<i32>> {
    Seq::new(s.len(), |i: int| s[i]@)
}

/// A frame's deep view is its plain view.
pub proof fn lemma_frame_deep_view(f: Vec<i32>)
    ensures
        f.deep_view() == f@,
{
    assert(f.deep_view() =~= f@);
}

/// A segment's deep view is the frame sequence of its view.
pub proof fn lemma_segment_deep_view(v: Vec<Vec<i32>>)
    ensures
        v.deep_view() == deep_of(v@),
{
    assert forall|k: int| 0 <= k < v@.len() implies v.deep_view()[k] == deep_of(v@)[k] by {
        lemma_frame_deep_view(v@[k]);
    }
    assert(v.deep_view() =~= deep_of(v@));
}

/// Appending a frame vector appends its view to the frame sequence.
pub proof fn lemma_deep_of_push(s: Seq<Vec<i32>>, f: Vec<i32>)
    ensures
        deep_of(s.push(f)) == deep_of(s).push(f@),
{
    assert forall|k: int| 0 <= k < s.len() + 1
        implies #[trigger] deep_of(s.push(f))[k] == deep_of(s).push(f@)[k] by {
    }
    assert(deep_of(s.push(f)) =~= deep_of(s).push(f@));
}

/// Copies one frame.
pub fn clone_frame(f: &Vec<i32>) -> (r: Vec<i32>)
    ensures
        r@ == f@,
{
    let mut r: Vec<i32> = Vec::new();
    let n = f.len();
    let mut i: usize = 0;
    while i < n
        invariant
            0 <= i <= n,
            n == f.len(),
            r@ =~= f@.take(i as int),
        decreases n - i,
    {
        r.push(f[i]);
        i = i + 1;
    }
    proof {
        assert(f@.take(n as int) =~= f@);
    }
    r
}

/// Copies a whole segment, frame by frame.
pub fn clone_segment(seg: &Vec<Vec<i32>>) -> (r: Vec<Vec<i32>>)
    ensures
        r.deep_view() == seg.deep_view(),
        r@.len() == seg@.len(),
{
    let mut r: Vec<Vec<i32>> = Vec::new();
    let n = seg.len();
    let mut i: usize = 0;
    while i < n
        invariant
            0 <= i <= n,
            n == seg.len(),
            r@.len() == i,
            forall|k: int| 0 <= k < i ==> #[trigger] r@[k]@ == seg@[k]@,
        decreases n - i,
    {
        let f = clone_frame(&seg[i]);
        r.push(f);
        i = i + 1;
    }
    proof {
        lemma_segment_deep_view(r);
        lemma_segment_deep_view(*seg);
        assert(deep_of(r@) =~= deep_of(seg@));
    }
    r
}

} // verus!
