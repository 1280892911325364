//! The engine: one rolling capture/export/output buffer triple, driven once
//! per audio block by the host and by the user's queued commands.

use vstd::prelude::*;
use crate::capture::{capture_frame, capture_frames, progress_of, CaptureModel, CaptureState};
use crate::channel::{new_command_channel, CommandReceiver, CommandSender};
use crate::commands::{has_play, save_count, ExportJob, PluginMessage};
use crate::envelope::{compute_envelope, envelope_of};
use crate::playback::{broadcast_of, drain_into_block};
use crate::sample::PROGRESS_ONE;
use crate::segment::{clone_frame, clone_segment, deep_of, lemma_segment_deep_view, seg_wf};
use crate::transport::{cycle_len_of, cycle_length, Transport};
use crate::waveform_buffer::{new_waveform_handoff, published_of, WaveformPublisher, WaveformReader};

verus! {

/// The audio engine. It owns the three segments exclusively; only command
/// messages arrive from other threads and only envelope snapshots and export
/// clones leave for them.
pub struct Beatrec {
    /// Frames of the still-open recording cycle.
    pub recording: Vec<Vec<i32>>,
    /// The last completed cycle, replaced wholesale on flush.
    pub export: Vec<Vec<i32>>,
    /// Frames queued for playback into coming blocks.
    pub output: Vec<Vec<i32>>,
    /// The capture state machine's state, decided anew each block.
    pub state: CaptureState,
    /// Recording progress in fixed point (`PROGRESS_ONE` is one whole cycle).
    pub progress: u64,
    /// How many blocks were skipped for a missing or zero tempo.
    pub tempo_faults: u64,
    /// The audio-thread half of the command channel.
    pub commands: CommandReceiver,
    /// The writer half of the envelope handoff.
    pub waveform: WaveformPublisher,
}

impl Beatrec {
    /// Every frame the engine holds has at least one channel sample.
    pub open spec fn wf(self) -> bool {
        &&& seg_wf(self.recording.deep_view())
        &&& seg_wf(self.export.deep_view())
        &&& seg_wf(self.output.deep_view())
    }

    /// The capture state machine's view of the engine.
    pub open spec fn capture_model(self) -> CaptureModel {
        CaptureModel {
            rec: self.recording.deep_view(),
            exp: self.export.deep_view(),
            prog: self.progress,
        }
    }

    /// Creates an idle engine with empty segments, together with the
    /// front-end half of its command channel and the reader half of its
    /// envelope handoff.
    pub fn new() -> (r: (Beatrec, CommandSender, WaveformReader))
        ensures
            r.0.wf(),
            r.0.recording@.len() == 0,
            r.0.export@.len() == 0,
            r.0.output@.len() == 0,
            r.0.state is Idle,
            r.0.progress == 0,
            r.0.tempo_faults == 0,
            published_of(r.0.waveform.input) == Seq::<i32>::empty(),
            r.1.dropped == 0,
    {
        let (sender, receiver) = new_command_channel();
        let (publisher, reader) = new_waveform_handoff();
        let engine = Beatrec {
            recording: Vec::new(),
            export: Vec::new(),
            output: Vec::new(),
            state: CaptureState::Idle,
            progress: 0,
            tempo_faults: 0,
            commands: receiver,
            waveform: publisher,
        };
        proof {
            lemma_segment_deep_view(engine.recording);
            lemma_segment_deep_view(engine.export);
            lemma_segment_deep_view(engine.output);
        }
        (engine, sender, reader)
    }

    /// Ingests one block of host frames, as the capture state machine says:
    /// while the transport plays every frame is appended, progress follows,
    /// and each frame that brings the recording segment up to the cycle
    /// length flushes it wholesale into the export segment; while it does
    /// not, the open recording segment is discarded and progress reads zero.
    pub fn ingest_block(&mut self, block: &Vec<Vec<i32>>, cycle: u64, playing: bool)
        requires
            old(self).wf(),
            seg_wf(block.deep_view()),
        ensures
            final(self).wf(),
            playing ==> final(self).capture_model()
                == capture_frames(old(self).capture_model(), block.deep_view(), cycle),
            !playing ==> {
                &&& final(self).recording@.len() == 0
                &&& final(self).export == old(self).export
                &&& final(self).progress == progress_of(0, cycle)
            },
            final(self).state == (if playing {
                CaptureState::Recording
            } else {
                CaptureState::Idle
            }),
            final(self).output == old(self).output,
            final(self).tempo_faults == old(self).tempo_faults,
            final(self).commands == old(self).commands,
            final(self).waveform == old(self).waveform,
    {
        proof {
            lemma_segment_deep_view(*block);
        }
        if playing {
            self.state = CaptureState::Recording;
            let ghost m0 = old(self).capture_model();
            let ghost frames = block.deep_view();
            let n = block.len();
            let mut i: usize = 0;
            while i < n
                invariant
                    0 <= i <= n,
                    n == block@.len(),
                    frames == deep_of(block@),
                    frames == block.deep_view(),
                    seg_wf(frames),
                    self.wf(),
                    self.capture_model() == capture_frames(m0, frames.take(i as int), cycle),
                    self.state == CaptureState::Recording,
                    self.output == old(self).output,
                    self.tempo_faults == old(self).tempo_faults,
                    self.commands == old(self).commands,
                    self.waveform == old(self).waveform,
                decreases n - i,
            {
                let ghost m_pre = self.capture_model();
                let frame = clone_frame(&block[i]);
                let ghost rec0: Seq<Vec<i32>> = self.recording@;
                proof {
                    lemma_segment_deep_view(self.recording);
                }
                self.recording.push(frame);
                proof {
                    lemma_segment_deep_view(self.recording);
                    crate::segment::lemma_deep_of_push(rec0, frame);
                    assert(self.recording.deep_view() == m_pre.rec.push(frames[i as int]));
                }
                let len = self.recording.len();
                if cycle == 0 {
                    self.progress = PROGRESS_ONE;
                } else {
                    let q: u128 = ((len as u128) * (PROGRESS_ONE as u128)) / (cycle as u128);
                    if q > (u64::MAX as u128) {
                        self.progress = u64::MAX;
                    } else {
                        self.progress = q as u64;
                    }
                }
                if (len as u64) >= cycle {
                    core::mem::swap(&mut self.export, &mut self.recording);
                    self.recording.clear();
                    proof {
                        lemma_segment_deep_view(self.recording);
                        assert(self.recording.deep_view() =~= Seq::<Seq<i32>>::empty());
                    }
                }
                proof {
                    assert(self.capture_model() == capture_frame(m_pre, frames[i as int], cycle));
                    crate::capture::lemma_capture_frames_snoc(m0, frames.take(i as int), frames[i as int], cycle);
                    assert(frames.take(i as int).push(frames[i as int]) =~= frames.take(i as int + 1));
                }
                i = i + 1;
            }
            proof {
                assert(frames.take(n as int) =~= frames);
            }
        } else {
            self.state = CaptureState::Idle;
            self.recording.clear();
            self.progress = 0;
            proof {
                lemma_segment_deep_view(self.recording);
                if cycle != 0 {
                    vstd::arithmetic::div_mod::lemma_div_of0(cycle as int);
                }
            }
        }
    }

    /// Applies one block's drained commands in arrival order: each save
    /// command clones the current export segment into a detached export job
    /// carrying the sample rate; a play-back command replaces the queued
    /// output wholesale with a copy of the export segment, discarding
    /// whatever was still queued. The export segment itself never changes
    /// here.
    pub fn apply_commands(&mut self, cmds: &Vec<PluginMessage>, sample_rate: u32) -> (jobs: Vec<
        ExportJob,
    >)
        requires
            old(self).wf(),
        ensures
            final(self).wf(),
            jobs@.len() == save_count(cmds@),
            forall|j: int| 0 <= j < jobs@.len()
                ==> #[trigger] jobs@[j].frames.deep_view() == old(self).export.deep_view()
                    && jobs@[j].sample_rate == sample_rate,
            final(self).output.deep_view() == if has_play(cmds@) {
                old(self).export.deep_view()
            } else {
                old(self).output.deep_view()
            },
            final(self).recording == old(self).recording,
            final(self).export == old(self).export,
            final(self).progress == old(self).progress,
            final(self).state == old(self).state,
            final(self).tempo_faults == old(self).tempo_faults,
            final(self).commands == old(self).commands,
            final(self).waveform == old(self).waveform,
    {
        let mut jobs: Vec<ExportJob> = Vec::new();
        let n = cmds.len();
        let mut i: usize = 0;
        while i < n
            invariant
                0 <= i <= n,
                n == cmds@.len(),
                self.wf(),
                jobs@.len() == save_count(cmds@.take(i as int)),
                forall|j: int| 0 <= j < jobs@.len()
                    ==> #[trigger] jobs@[j].frames.deep_view() == old(self).export.deep_view()
                        && jobs@[j].sample_rate == sample_rate,
                self.output.deep_view() == if has_play(cmds@.take(i as int)) {
                    old(self).export.deep_view()
                } else {
                    old(self).output.deep_view()
                },
                self.recording == old(self).recording,
                self.export == old(self).export,
                self.progress == old(self).progress,
                self.state == old(self).state,
                self.tempo_faults == old(self).tempo_faults,
                self.commands == old(self).commands,
                self.waveform == old(self).waveform,
            decreases n - i,
        {
            let cmd = cmds[i];
            proof {
                crate::commands::lemma_commands_snoc(cmds@.take(i as int), cmds@[i as int]);
                assert(cmds@.take(i as int).push(cmds@[i as int]) =~= cmds@.take(i as int + 1));
            }
            match cmd {
                PluginMessage::SaveBuffer => {
                    let frames = clone_segment(&self.export);
                    jobs.push(ExportJob { frames, sample_rate });
                },
                PluginMessage::PlayBuffer => {
                    self.output = clone_segment(&self.export);
                },
            }
            i = i + 1;
        }
        proof {
            assert(cmds@.take(n as int) =~= cmds@);
        }
        jobs
    }
}

/// What one processed block guarantees, given the run of commands that was
/// drained for it. With a defined cycle length the engine runs its fixed
/// order: commands first (so a play-back copies the export segment as it
/// stood before this block), then capture of the block's input frames, then
/// the envelope recomputed from the resulting export segment and published,
/// then queued output drained into the block. A missing or zero tempo with
/// no loop skips the block entirely and only counts the fault.
pub open spec fn block_step_post(
    pre: Beatrec,
    post: Beatrec,
    block0: Seq<Seq<i32>>,
    block1: Seq<Seq<i32>>,
    cmds: Seq<PluginMessage>,
    t: Transport,
    jobs: Seq<ExportJob>,
) -> bool {
    match cycle_len_of(t) {
        None => {
            &&& post.recording == pre.recording
            &&& post.export == pre.export
            &&& post.output == pre.output
            &&& post.progress == pre.progress
            &&& post.state == pre.state
            &&& post.waveform == pre.waveform
            &&& post.tempo_faults as int == if pre.tempo_faults < u64::MAX {
                pre.tempo_faults + 1
            } else {
                u64::MAX as int
            }
            &&& block1 == block0
            &&& jobs.len() == 0
        },
        Some(cycle) => {
            let exp0 = pre.export.deep_view();
            let out1 = if has_play(cmds) {
                exp0
            } else {
                pre.output.deep_view()
            };
            let cm0 = CaptureModel {
                rec: pre.recording.deep_view(),
                exp: exp0,
                prog: pre.progress,
            };
            let cm1 = if t.playing {
                capture_frames(cm0, block0, cycle)
            } else {
                CaptureModel { rec: Seq::empty(), exp: exp0, prog: progress_of(0, cycle) }
            };
            let n = if block0.len() < out1.len() {
                block0.len() as int
            } else {
                out1.len() as int
            };
            &&& post.recording.deep_view() == cm1.rec
            &&& post.export.deep_view() == cm1.exp
            &&& post.progress == cm1.prog
            &&& post.state == (if t.playing {
                CaptureState::Recording
            } else {
                CaptureState::Idle
            })
            &&& published_of(post.waveform.input) == envelope_of(cm1.exp, cycle)
            &&& post.output.deep_view() == out1.skip(n)
            &&& block1.len() == block0.len()
            &&& (forall|i: int| 0 <= i < n
                ==> #[trigger] block1[i] == broadcast_of(out1[i], block0[i].len() as int))
            &&& (forall|i: int| n <= i < block1.len() ==> #[trigger] block1[i] == block0[i])
            &&& jobs.len() == save_count(cmds)
            &&& (forall|j: int| 0 <= j < jobs.len()
                ==> #[trigger] jobs[j].frames.deep_view() == exp0
                    && jobs[j].sample_rate == t.sample_rate)
            &&& post.tempo_faults == pre.tempo_faults
        },
    }
}

impl Beatrec {
    /// Processes one block for a given run of drained commands; everything
    /// it guarantees is stated by `block_step_post`.
    pub fn step(&mut self, cmds: &Vec<PluginMessage>, block: &mut Vec<Vec<i32>>, t: &Transport)
        -> (jobs: Vec<ExportJob>)
        requires
            old(self).wf(),
            t.wf(),
            seg_wf(old(block).deep_view()),
        ensures
            final(self).wf(),
            block_step_post(
                *old(self),
                *final(self),
                old(block).deep_view(),
                final(block).deep_view(),
                cmds@,
                *t,
                jobs@,
            ),
    {
        match cycle_length(t) {
            None => {
                if self.tempo_faults < u64::MAX {
                    self.tempo_faults = self.tempo_faults + 1;
                }
                Vec::new()
            },
            Some(cycle) => {
                let jobs = self.apply_commands(cmds, t.sample_rate);
                self.ingest_block(&*block, cycle, t.playing);
                proof {
                    if !t.playing {
                        lemma_segment_deep_view(self.recording);
                        assert(self.recording.deep_view() =~= Seq::<Seq<i32>>::empty());
                    }
                }
                let env = compute_envelope(&self.export, cycle);
                self.waveform.publish(env);
                drain_into_block(&mut self.output, block);
                jobs
            },
        }
    }

    /// Processes one audio block as the host calls it: drains the command
    /// channel without blocking, then runs the block for whatever commands
    /// arrived. What other threads sent cannot be known here, so the
    /// contract holds for some run of commands — everything that does not
    /// depend on them (capture, progress, the published envelope) is thereby
    /// pinned down exactly.
    pub fn process_block(&mut self, block: &mut Vec<Vec<i32>>, t: &Transport) -> (jobs: Vec<
        ExportJob,
    >)
        requires
            old(self).wf(),
            t.wf(),
            seg_wf(old(block).deep_view()),
        ensures
            final(self).wf(),
            exists|cmds: Seq<PluginMessage>|
                #[trigger] block_step_post(
                    *old(self),
                    *final(self),
                    old(block).deep_view(),
                    final(block).deep_view(),
                    cmds,
                    *t,
                    jobs@,
                ),
    {
        let drained = self.commands.drain();
        let jobs = self.step(&drained, block, t);
        proof {
            assert(block_step_post(
                *old(self),
                *self,
                old(block).deep_view(),
                block.deep_view(),
                drained@,
                *t,
                jobs@,
            ));
        }
        jobs
    }
}

} // verus!
