use beatrec::transport::{cycle_length, Transport};

fn transport(sample_rate: u32, tempo_mbpm: Option<u64>, loop_range: Option<(u64, u64)>) -> Transport {
    Transport { sample_rate, tempo_mbpm, playing: false, loop_range }
}

#[test]
fn cycle_is_one_beat_without_loop() {
    assert_eq!(cycle_length(&transport(48000, Some(120_000), None)), Some(24000));
    assert_eq!(cycle_length(&transport(44100, Some(60_000), None)), Some(44100));
    assert_eq!(cycle_length(&transport(48000, Some(90_000), None)), Some(32000));
    assert_eq!(cycle_length(&transport(44100, Some(80_000), None)), Some(33075));
    assert_eq!(cycle_length(&transport(96000, Some(1_000), None)), Some(5760000));
}

#[test]
fn fractional_tempo_keeps_its_precision() {
    // 120.5 beats per minute: 48000 * 60000 / 120500 truncates to 23900.
    assert_eq!(cycle_length(&transport(48000, Some(120_500), None)), Some(23900));
    // 99.999 beats per minute.
    assert_eq!(cycle_length(&transport(48000, Some(99_999), None)), Some(28800));
}

#[test]
fn loop_range_fixes_cycle_regardless_of_tempo() {
    assert_eq!(cycle_length(&transport(48000, Some(120_000), Some((1000, 5000)))), Some(4000));
    assert_eq!(cycle_length(&transport(8000, Some(999_000), Some((1000, 5000)))), Some(4000));
    assert_eq!(cycle_length(&transport(44100, None, Some((1000, 5000)))), Some(4000));
}

#[test]
fn missing_or_zero_tempo_gives_no_cycle() {
    assert_eq!(cycle_length(&transport(48000, None, None)), None);
    assert_eq!(cycle_length(&transport(48000, Some(0), None)), None);
}

#[test]
fn empty_loop_gives_zero_cycle() {
    assert_eq!(cycle_length(&transport(48000, Some(120_000), Some((700, 700)))), Some(0));
}
