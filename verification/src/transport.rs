//! The cycle sizer: how long one recording cycle is, given the host transport.

use vstd::prelude::*;

verus! {

/// The host transport state the engine reads once per audio block.
///
/// The tempo is in thousandths of a beat per minute, so fractional host
/// tempos keep their precision, and is absent when the host does not report
/// one. An active loop is a half-open `[start, end)` range of sample
/// positions.
#[derive(Clone, Copy, Debug)]
pub struct Transport {
    pub sample_rate: u32,
    pub tempo_mbpm: Option<u64>,
    pub playing: bool,
    pub loop_range: Option<(u64, u64)>,
}

impl Transport {
    /// A loop range is a half-open interval, so its start cannot lie past its end.
    pub open spec fn wf(self) -> bool {
        match self.loop_range {
            Some(range) => range.0 <= range.1,
            None => true,
        }
    }
}

/// The cycle length in sample-frames for one block.
///
/// With an active loop the cycle is the loop's width in samples, whatever the
/// tempo says. Without one it is the frames of a single beat,
/// `sample_rate * 60 / tempo` — with the tempo in thousandths of a beat per
/// minute, `sample_rate * 60_000 / tempo_mbpm`. A missing or zero tempo
/// leaves the cycle undefined; the engine skips such a block and counts the
/// fault.
pub open spec fn cycle_len_of(t: Transport) -> Option<u64> {
    match t.loop_range {
        Some(range) => Some((range.1 - range.0) as u64),
        None => match t.tempo_mbpm {
            Some(mbpm) => if mbpm == 0 {
                None
            } else {
                Some(((t.sample_rate as int) * 60_000 / (mbpm as int)) as u64)
            },
            None => None,
        },
    }
}

/// Computes the recording cycle length for the current block.
pub fn cycle_length(t: &Transport) -> (r: Option<u64>)
    requires
        t.wf(),
    ensures
        r == cycle_len_of(*t),
{
    match t.loop_range {
        Some(range) => Some(range.1 - range.0),
        None => match t.tempo_mbpm {
            Some(mbpm) => {
                if mbpm == 0 {
                    None
                } else {
                    Some((t.sample_rate as u64) * 60_000 / mbpm)
                }
            },
            None => None,
        },
    }
}

/// Law: an active loop fixes the cycle length by itself; two transports with
/// the same loop range get the same cycle length no matter how their tempos
/// or sample rates differ.
pub proof fn lemma_loop_overrides_tempo(t1: Transport, t2: Transport)
    requires
        t1.loop_range == t2.loop_range,
        t1.loop_range is Some,
    ensures
        cycle_len_of(t1) == cycle_len_of(t2),
{
}

} // verus!
