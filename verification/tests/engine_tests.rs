use beatrec::commands::PluginMessage;
use beatrec::engine::Beatrec;
use beatrec::sample::{PROGRESS_ONE, SAMPLE_SCALE};
use beatrec::transport::Transport;

fn stereo_block(frames: usize, value: i32) -> Vec<Vec<i32>> {
    let mut block = Vec::new();
    for _ in 0..frames {
        block.push(vec![value, value]);
    }
    block
}

fn playing_transport(sample_rate: u32, tempo_mbpm: u64) -> Transport {
    Transport { sample_rate, tempo_mbpm: Some(tempo_mbpm), playing: true, loop_range: None }
}

#[test]
fn new_engine_is_idle_and_empty() {
    let (engine, sender, mut reader) = Beatrec::new();
    assert_eq!(engine.recording.len(), 0);
    assert_eq!(engine.export.len(), 0);
    assert_eq!(engine.output.len(), 0);
    assert_eq!(engine.progress, 0);
    assert_eq!(engine.tempo_faults, 0);
    assert_eq!(sender.dropped_count(), 0);
    assert_eq!(reader.read_latest(), Vec::<i32>::new());
}

#[test]
fn recording_grows_per_frame_and_flushes_at_cycle() {
    let (mut engine, _sender, _reader) = Beatrec::new();
    engine.ingest_block(&stereo_block(60, 7), 100, true);
    assert_eq!(engine.recording.len(), 60);
    assert_eq!(engine.export.len(), 0);
    assert_eq!(engine.progress, 60 * PROGRESS_ONE / 100);
    engine.ingest_block(&stereo_block(40, 7), 100, true);
    assert_eq!(engine.recording.len(), 0);
    assert_eq!(engine.export.len(), 100);
    assert_eq!(engine.progress, PROGRESS_ONE);
}

#[test]
fn one_block_can_flush_more_than_once() {
    let (mut engine, _sender, _reader) = Beatrec::new();
    // 10 frames against a cycle of 4: two flushes, two frames left open.
    engine.ingest_block(&stereo_block(10, 5), 4, true);
    assert_eq!(engine.export.len(), 4);
    assert_eq!(engine.recording.len(), 2);
}

#[test]
fn idle_block_discards_open_recording() {
    let (mut engine, _sender, _reader) = Beatrec::new();
    engine.ingest_block(&stereo_block(60, 7), 100, true);
    assert_eq!(engine.recording.len(), 60);
    engine.ingest_block(&stereo_block(16, 7), 100, false);
    assert_eq!(engine.recording.len(), 0);
    assert_eq!(engine.progress, 0);
}

#[test]
fn zero_cycle_flushes_every_frame() {
    let (mut engine, _sender, _reader) = Beatrec::new();
    engine.ingest_block(&stereo_block(3, 9), 0, true);
    assert_eq!(engine.recording.len(), 0);
    assert_eq!(engine.export.len(), 1);
    assert_eq!(engine.progress, PROGRESS_ONE);
}

#[test]
fn full_cycle_capture_publishes_envelope() {
    // One beat at 600 beats per minute and 48 kHz is 4800 frames; a block of exactly that
    // many frames of +0.5 fills and flushes one cycle.
    let (mut engine, _sender, mut reader) = Beatrec::new();
    let half = SAMPLE_SCALE / 2;
    let mut block = stereo_block(4800, half);
    let no_commands: Vec<PluginMessage> = Vec::new();
    let jobs = engine.step(&no_commands, &mut block, &playing_transport(48000, 600_000));
    assert!(jobs.is_empty());
    assert_eq!(engine.export.len(), 4800);
    assert_eq!(engine.recording.len(), 0);
    assert_eq!(engine.progress, PROGRESS_ONE);
    for frame in &engine.export {
        assert_eq!(frame, &vec![half, half]);
    }
    // Window size 2, so 2400 published values, each the negated window mean.
    let envelope = reader.read_latest();
    assert_eq!(envelope.len(), 2400);
    for v in envelope {
        assert_eq!(v, -half);
    }
    // The next, stopped block leaves the export segment alone.
    let mut idle_block = stereo_block(16, 0);
    let t = Transport { playing: false, ..playing_transport(48000, 600_000) };
    engine.step(&no_commands, &mut idle_block, &t);
    assert_eq!(engine.export.len(), 4800);
    assert_eq!(engine.recording.len(), 0);
    assert_eq!(engine.progress, 0);
}

#[test]
fn command_channel_preserves_fifo_order() {
    let (engine, mut sender, _reader) = Beatrec::new();
    assert!(sender.send(PluginMessage::SaveBuffer));
    assert!(sender.send(PluginMessage::PlayBuffer));
    assert!(sender.send(PluginMessage::SaveBuffer));
    let drained = engine.commands.drain();
    assert_eq!(
        drained,
        vec![PluginMessage::SaveBuffer, PluginMessage::PlayBuffer, PluginMessage::SaveBuffer]
    );
}

#[test]
fn cloned_sender_feeds_the_same_channel() {
    let (engine, mut sender, _reader) = Beatrec::new();
    let mut second = sender.clone();
    assert!(sender.send(PluginMessage::SaveBuffer));
    assert!(second.send(PluginMessage::PlayBuffer));
    let drained = engine.commands.drain();
    assert_eq!(drained, vec![PluginMessage::SaveBuffer, PluginMessage::PlayBuffer]);
}

#[test]
fn full_channel_drops_and_counts() {
    let (_engine, mut sender, _reader) = Beatrec::new();
    for _ in 0..64 {
        assert!(sender.send(PluginMessage::PlayBuffer));
    }
    assert!(!sender.send(PluginMessage::PlayBuffer));
    assert_eq!(sender.dropped_count(), 1);
}

#[test]
fn save_command_clones_export_into_jobs() {
    let (mut engine, _sender, _reader) = Beatrec::new();
    engine.ingest_block(&stereo_block(4, 11), 4, true);
    assert_eq!(engine.export.len(), 4);
    let cmds = vec![PluginMessage::SaveBuffer, PluginMessage::SaveBuffer];
    let jobs = engine.apply_commands(&cmds, 44100);
    assert_eq!(jobs.len(), 2);
    for job in jobs {
        assert_eq!(job.sample_rate, 44100);
        assert_eq!(job.frames, engine.export);
    }
    assert_eq!(engine.output.len(), 0);
}

#[test]
fn playback_exhaustion_leaves_later_frames_untouched() {
    // Capture one 4800-frame cycle of +0.5, queue it for playback, then run
    // blocks whose combined length exceeds it.
    let (mut engine, mut sender, _reader) = Beatrec::new();
    let half = SAMPLE_SCALE / 2;
    let mut block = stereo_block(4800, half);
    let no_commands: Vec<PluginMessage> = Vec::new();
    engine.step(&no_commands, &mut block, &playing_transport(48000, 600_000));
    assert_eq!(engine.export.len(), 4800);

    assert!(sender.send(PluginMessage::PlayBuffer));
    let idle = Transport { playing: false, ..playing_transport(48000, 600_000) };
    let mut first = stereo_block(3000, 777);
    let jobs = engine.process_block(&mut first, &idle);
    assert!(jobs.is_empty());
    assert_eq!(engine.output.len(), 1800);
    for frame in &first {
        assert_eq!(frame, &vec![half, half]);
    }

    let mut second = stereo_block(3000, 777);
    engine.process_block(&mut second, &idle);
    assert_eq!(engine.output.len(), 0);
    for frame in &second[..1800] {
        assert_eq!(frame, &vec![half, half]);
    }
    for frame in &second[1800..] {
        assert_eq!(frame, &vec![777, 777]);
    }

    // Output exhausted: a further block is left entirely untouched.
    let mut third = stereo_block(8, 777);
    engine.process_block(&mut third, &idle);
    for frame in &third {
        assert_eq!(frame, &vec![777, 777]);
    }
}

#[test]
fn playback_broadcasts_last_channel_to_extra_channels() {
    let (mut engine, _sender, _reader) = Beatrec::new();
    // Capture a mono cycle, then drain it into a stereo block.
    let mono: Vec<Vec<i32>> = vec![vec![21], vec![22], vec![23], vec![24]];
    engine.ingest_block(&mono, 4, true);
    assert_eq!(engine.export.len(), 4);
    let cmds = vec![PluginMessage::PlayBuffer];
    engine.apply_commands(&cmds, 48000);
    assert_eq!(engine.output.len(), 4);
    let idle = Transport { playing: false, ..playing_transport(48000, 600_000) };
    let mut block = stereo_block(4, 0);
    engine.step(&Vec::new(), &mut block, &idle);
    assert_eq!(block[0], vec![21, 21]);
    assert_eq!(block[3], vec![24, 24]);
}

#[test]
fn missing_tempo_skips_block_and_counts_fault() {
    let (mut engine, _sender, _reader) = Beatrec::new();
    engine.ingest_block(&stereo_block(10, 7), 100, true);
    let t = Transport { sample_rate: 48000, tempo_mbpm: None, playing: true, loop_range: None };
    let mut block = stereo_block(16, 5);
    let jobs = engine.step(&Vec::new(), &mut block, &t);
    assert!(jobs.is_empty());
    assert_eq!(engine.tempo_faults, 1);
    assert_eq!(engine.recording.len(), 10);
    for frame in &block {
        assert_eq!(frame, &vec![5, 5]);
    }
}

#[test]
fn loop_range_drives_cycle_during_capture() {
    let (mut engine, _sender, _reader) = Beatrec::new();
    let t = Transport {
        sample_rate: 48000,
        tempo_mbpm: Some(120_000),
        playing: true,
        loop_range: Some((1000, 1004)),
    };
    let mut block = stereo_block(4, 3);
    engine.step(&Vec::new(), &mut block, &t);
    assert_eq!(engine.export.len(), 4);
    assert_eq!(engine.recording.len(), 0);
}
