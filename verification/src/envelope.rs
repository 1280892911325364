//! The waveform downsampler: the export segment reduced to a fixed-resolution
//! display envelope, recomputed from scratch every block.

use vstd::prelude::*;
use crate::sample::{clamp_full_scale, lemma_tdiv_bound, tdiv, tdiv_i128, SAMPLE_SCALE};
use crate::segment::seg_wf;

verus! {

/// Target number of windows for one full recording cycle.
pub const ENVELOPE_RESOLUTION: u64 = 2400;

/// The downsampling window width in frames: the cycle length split into
/// `ENVELOPE_RESOLUTION` windows, rounded to the nearest whole frame count.
pub open spec fn window_size_of(cycle: u64) -> u64 {
    (((cycle as int) + (ENVELOPE_RESOLUTION as int) / 2) / (ENVELOPE_RESOLUTION as int)) as u64
}

/// Computes the downsampling window width for a cycle length.
pub fn window_size(cycle: u64) -> (w: u64)
    ensures
        w == window_size_of(cycle),
{
    let wide: u128 = ((cycle as u128) + ((ENVELOPE_RESOLUTION / 2) as u128))
        / (ENVELOPE_RESOLUTION as u128);
    proof {
        vstd::arithmetic::div_mod::lemma_div_is_ordered(
            cycle as int + 1200,
            u64::MAX as int + 1200,
            ENVELOPE_RESOLUTION as int,
        );
        assert(wide <= u64::MAX as u128);
    }
    wide as u64
}

/// Sum of one frame's channel samples.
pub open spec fn sum_of(f: Seq<i32>) -> int
    decreases f.len(),
{
    if f.len() == 0 {
        0
    } else {
        sum_of(f.drop_last()) + f.last()
    }
}

/// Signed mean of one frame across its channels, truncated toward zero.
pub open spec fn frame_mean(f: Seq<i32>) -> int {
    if f.len() == 0 {
        0
    } else {
        tdiv(sum_of(f), f.len() as int)
    }
}

/// Sum of the frame means of the `n` frames starting at `start`.
pub open spec fn mean_sum(seg: Seq<Seq<i32>>, start: int, n: int) -> int
    decreases n,
{
    if n <= 0 {
        0
    } else {
        mean_sum(seg, start, n - 1) + frame_mean(seg[start + n - 1])
    }
}

/// One envelope value: the mean of the window's frame means, clamped to full
/// scale and negated (the display draws captured material inverted).
pub open spec fn window_value_at(seg: Seq<Seq<i32>>, start: int, w: int) -> int
    recommends
        w > 0,
{
    -clamp_full_scale(tdiv(mean_sum(seg, start, w), w))
}

/// The envelope of an export segment under a given cycle length: one value
/// per complete window of `window_size_of(cycle)` frames, in order; a
/// trailing partial window contributes nothing, and a zero window size gives
/// the empty envelope.
pub open spec fn envelope_of(seg: Seq<Seq<i32>>, cycle: u64) -> Seq<i32> {
    let w = window_size_of(cycle);
    if w == 0 {
        Seq::empty()
    } else {
        Seq::new(
            seg.len() / (w as nat),
            |k: int| window_value_at(seg, k * (w as int), w as int) as i32,
        )
    }
}

/// Law: every envelope value lies within full scale, whatever the captured
/// samples were — the clamp is total.
pub proof fn lemma_envelope_bounded(seg: Seq<Seq<i32>>, cycle: u64)
    ensures
        forall|k: int| 0 <= k < envelope_of(seg, cycle).len()
            ==> -SAMPLE_SCALE <= #[trigger] envelope_of(seg, cycle)[k] <= SAMPLE_SCALE,
{
    assert forall|k: int| 0 <= k < envelope_of(seg, cycle).len()
        implies -SAMPLE_SCALE <= #[trigger] envelope_of(seg, cycle)[k] <= SAMPLE_SCALE by {
        let w = window_size_of(cycle);
        assert(envelope_of(seg, cycle)[k]
            == window_value_at(seg, k * (w as int), w as int) as i32);
    }
}

/// The mean of one frame, exactly as `frame_mean` gives it.
fn frame_mean_exec(f: &Vec<i32>) -> (m: i128)
    requires
        f.len() > 0,
    ensures
        m == frame_mean(f@),
        -0x8000_0000 <= m <= 0x7fff_ffff,
{
    let n = f.len();
    let mut acc: i128 = 0;
    let mut i: usize = 0;
    while i < n
        invariant
            0 <= i <= n,
            n == f.len(),
            acc == sum_of(f@.take(i as int)),
            -(i as int) * 0x8000_0000 <= acc <= (i as int) * 0x7fff_ffff,
        decreases n - i,
    {
        proof {
            assert(f@.take(i as int + 1).drop_last() =~= f@.take(i as int));
            assert(f@.take(i as int + 1).last() == f@[i as int]);
            assert((i as int + 1) * 0x8000_0000 == (i as int) * 0x8000_0000 + 0x8000_0000);
            assert((i as int + 1) * 0x7fff_ffff == (i as int) * 0x7fff_ffff + 0x7fff_ffff);
            assert((i as int + 1) * 0x8000_0000 <= 0x1_0000_0000_0000_0000 * 0x8000_0000) by (nonlinear_arith)
                requires i as int + 1 <= 0x1_0000_0000_0000_0000;
            assert((i as int + 1) * 0x7fff_ffff <= 0x1_0000_0000_0000_0000 * 0x7fff_ffff) by (nonlinear_arith)
                requires i as int + 1 <= 0x1_0000_0000_0000_0000;
        }
        acc = acc + (f[i] as i128);
        i = i + 1;
    }
    proof {
        assert(f@.take(n as int) =~= f@);
        assert((n as int) * 0x8000_0000 <= 0x1_0000_0000_0000_0000 * 0x8000_0000) by (nonlinear_arith)
            requires n as int <= 0x1_0000_0000_0000_0000;
        assert((n as int) * 0x7fff_ffff <= 0x1_0000_0000_0000_0000 * 0x7fff_ffff) by (nonlinear_arith)
            requires n as int <= 0x1_0000_0000_0000_0000;
        lemma_tdiv_bound(acc as int, n as int, -0x8000_0000, 0x7fff_ffff);
    }
    tdiv_i128(acc, n as i128)
}

/// One window's envelope value, for the `w` frames starting at `start`.
fn window_value_exec(seg: &Vec<Vec<i32>>, start: usize, w: usize) -> (v: i32)
    requires
        seg_wf(seg.deep_view()),
        w >= 1,
        start + w <= seg.len(),
    ensures
        v as int == window_value_at(seg.deep_view(), start as int, w as int),
{
    let ghost dv = seg.deep_view();
    let mut acc: i128 = 0;
    let mut i: usize = 0;
    while i < w
        invariant
            0 <= i <= w,
            w >= 1,
            start + w <= seg.len(),
            seg_wf(dv),
            dv == seg.deep_view(),
            acc == mean_sum(dv, start as int, i as int),
            -(i as int) * 0x8000_0000 <= acc <= (i as int) * 0x8000_0000,
        decreases w - i,
    {
        proof {
            assert(dv[start as int + i as int] =~= seg@[start as int + i as int]@);
            assert(dv[start as int + i as int].len() > 0);
            assert((i as int + 1) * 0x8000_0000 == (i as int) * 0x8000_0000 + 0x8000_0000);
            assert((i as int + 1) * 0x8000_0000 <= 0x1_0000_0000_0000_0000 * 0x8000_0000) by (nonlinear_arith)
                requires i as int + 1 <= 0x1_0000_0000_0000_0000;
        }
        let fm = frame_mean_exec(&seg[start + i]);
        acc = acc + fm;
        i = i + 1;
    }
    proof {
        assert((w as int) * 0x8000_0000 <= 0x1_0000_0000_0000_0000 * 0x8000_0000) by (nonlinear_arith)
            requires w as int <= 0x1_0000_0000_0000_0000;
        lemma_tdiv_bound(acc as int, w as int, -0x8000_0000, 0x8000_0000);
    }
    let q = tdiv_i128(acc, w as i128);
    let clamped: i128 = if q > SAMPLE_SCALE as i128 {
        SAMPLE_SCALE as i128
    } else if q < -(SAMPLE_SCALE as i128) {
        -(SAMPLE_SCALE as i128)
    } else {
        q
    };
    (-clamped) as i32
}

/// Recomputes the display envelope of an export segment for the current
/// cycle length, as §`envelope_of` states: the segment is cut into complete
/// windows of the cycle's window size, and each window contributes the
/// clamped, negated mean of its frame means.
pub fn compute_envelope(seg: &Vec<Vec<i32>>, cycle: u64) -> (env: Vec<i32>)
    requires
        seg_wf(seg.deep_view()),
    ensures
        env@ == envelope_of(seg.deep_view(), cycle),
        env@.len() == if window_size_of(cycle) == 0 {
            0
        } else {
            seg.deep_view().len() / (window_size_of(cycle) as nat)
        },
{
    let ghost dv = seg.deep_view();
    let w64 = window_size(cycle);
    let mut env: Vec<i32> = Vec::new();
    if w64 == 0 {
        proof {
            assert(env@ =~= envelope_of(dv, cycle));
        }
        return env;
    }
    if (seg.len() as u64) < w64 {
        proof {
            assert(dv.len() / (w64 as nat) == 0) by {
                vstd::arithmetic::div_mod::lemma_basic_div(dv.len() as int, w64 as int);
            }
            assert(env@ =~= envelope_of(dv, cycle));
        }
        return env;
    }
    let w = w64 as usize;
    let total: usize = seg.len() / w;
    proof {
        assert(total as nat == dv.len() / (w64 as nat));
    }
    let mut k: usize = 0;
    while k < total
        invariant
            0 <= k <= total,
            w == w64,
            w >= 1,
            w64 == window_size_of(cycle),
            total as int == seg.len() as int / (w as int),
            seg_wf(dv),
            dv == seg.deep_view(),
            dv.len() == seg.len(),
            total as nat == dv.len() / (w64 as nat),
            env@.len() == k,
            forall|j: int| 0 <= j < k
                ==> #[trigger] env@[j] as int == window_value_at(dv, j * (w as int), w as int),
        decreases total - k,
    {
        proof {
            assert((k as int) * (w as int) + w as int == (k as int + 1) * (w as int))
                by (nonlinear_arith);
            assert((k as int + 1) * (w as int) <= (total as int) * (w as int)) by (nonlinear_arith)
                requires k as int + 1 <= total as int, w as int > 0;
            vstd::arithmetic::div_mod::lemma_fundamental_div_mod(seg.len() as int, w as int);
            vstd::arithmetic::div_mod::lemma_mod_division_less_than_divisor(
                seg.len() as int,
                w as int,
            );
            vstd::arithmetic::mul::lemma_mul_is_commutative(seg.len() as int / w as int, w as int);
            assert(seg.len() as int
                == (w as int) * (seg.len() as int / (w as int))
                    + (seg.len() as int) % (w as int));
            assert(0 <= (seg.len() as int) % (w as int));
            assert((w as int) * (total as int) <= seg.len() as int);
            assert((total as int) * (w as int) <= seg.len() as int);
        }
        let start = k * w;
        let v = window_value_exec(seg, start, w);
        env.push(v);
        k = k + 1;
    }
    proof {
        let e = envelope_of(dv, cycle);
        assert forall|j: int| 0 <= j < e.len() implies env@[j] == e[j] by {
            assert(env@[j] as int == window_value_at(dv, j * (w as int), w as int));
        }
        assert(env@ =~= e);
    }
    env
}

} // verus!
