use signalgen::audio::{
    fill_interleaved, AudioStream, DeviceError, StreamAction, StreamError, StreamPhase,
};
use signalgen::event::{
    classify, Event, EventChannel, EventSource, KeyCode, KeyEvent, KeyEventKind, Modifiers,
    MouseEvent, RawInput,
};
use signalgen::parameter::Parameter;
use signalgen::store::ParameterStore;
use signalgen::waveform::{WaveformState, WaveformType};

fn press(c: char) -> KeyEvent {
    KeyEvent {
        code: KeyCode::Char(c),
        modifiers: Modifiers { ctrl: false, alt: false, shift: false },
        kind: KeyEventKind::Press,
    }
}

#[test]
fn parameter_cycle() {
    assert_eq!(Parameter::count(), 6);
    let mut p = Parameter::Frequency;
    for _ in 0..6 {
        p = p.next();
    }
    assert_eq!(p, Parameter::Frequency);
    assert_eq!(Parameter::Pan.next(), Parameter::Frequency);
    assert_eq!(Parameter::Frequency.previous(), Parameter::Pan);
    assert_eq!(Parameter::from_index(2), Some(Parameter::Waveform));
    assert_eq!(Parameter::from_index(6), None);
}

#[test]
fn waveform_state_defaults() {
    let w = WaveformState::new(44_100, 440_000);
    assert_eq!(w.waveform_type, WaveformType::Sine);
    assert_eq!(w.frequency, 440_000);
    assert_eq!(w.amplitude, 1_000);
    assert_eq!(w.phase_offset, 0);
    assert_eq!(w.dc_offset, 0);
    assert_eq!(w.phase_accumulator, 0);
}

#[test]
fn phase_advances_with_the_sample_count() {
    // One cycle is sample_rate * 1000 units; 250 Hz at 1000 Hz sample rate
    // walks a quarter cycle per sample.
    let mut w = WaveformState::new(1_000, 250_000);
    let modulus: u64 = 1_000 * 1_000;
    for n in 1..=8u64 {
        w.advance_phase();
        assert_eq!(w.phase_accumulator, (n * 250_000) % modulus);
    }
    assert_eq!(w.frequency, 250_000);
}

#[test]
fn phase_advances_backwards_for_negative_frequency() {
    let mut w = WaveformState::new(1, -300);
    w.advance_phase();
    assert_eq!(w.phase_accumulator, 700);
    w.advance_phase();
    assert_eq!(w.phase_accumulator, 400);
}

#[test]
fn phase_advance_survives_the_extreme_frequency() {
    let mut w = WaveformState::new(1, i64::MIN);
    w.advance_phase();
    // |i64::MIN| leaves remainder 808 in a 1000-unit cycle, so one step
    // backwards lands at 192.
    assert_eq!(w.phase_accumulator, 192);
}

#[test]
fn phase_reset_only_clears_the_accumulator() {
    let mut w = WaveformState::new(1_000, 250_000);
    w.advance_phase();
    assert_ne!(w.phase_accumulator, 0);
    w.reset();
    assert_eq!(w.phase_accumulator, 0);
    assert_eq!(w.frequency, 250_000);
}

#[test]
fn store_seeds_musically_spaced_defaults() {
    let store = ParameterStore::with_channels(2, 44_100);
    assert_eq!(store.channel_count(), 2);
    assert_eq!(store.read_snapshot(0).unwrap().frequency, 440_000);
    assert_eq!(store.read_snapshot(1).unwrap().frequency, 880_000);
    assert_eq!(store.read_snapshot(2), None);
}

#[test]
fn store_write_then_snapshot_returns_the_value() {
    let mut store = ParameterStore::with_channels(2, 44_100);
    assert!(store.write(0, Parameter::Frequency, 1_000_000));
    assert_eq!(store.read_snapshot(0).unwrap().frequency, 1_000_000);
    // The other channel is untouched.
    assert_eq!(store.read_snapshot(1).unwrap().frequency, 880_000);
}

#[test]
fn store_rejects_out_of_range_and_bad_values() {
    let mut store = ParameterStore::with_channels(2, 44_100);
    assert!(!store.write(2, Parameter::Frequency, 1_000));
    assert!(!store.write(0, Parameter::Pan, 1_000));
    assert!(!store.write(0, Parameter::Waveform, 0));
    assert!(!store.write(0, Parameter::Waveform, 6_000));
    assert_eq!(store.read_snapshot(0).unwrap().frequency, 440_000);
    let empty = ParameterStore::new();
    let mut empty = empty;
    assert!(!empty.write(0, Parameter::Frequency, 1_000));
    assert_eq!(empty.read_snapshot(0), None);
}

#[test]
fn store_waveform_write_takes_whole_number() {
    let mut store = ParameterStore::with_channels(1, 44_100);
    assert!(store.write(0, Parameter::Waveform, 3_000));
    assert_eq!(
        store.read_snapshot(0).unwrap().waveform_type,
        WaveformType::Triangle
    );
    // 2.5 truncates to shape number 2.
    assert!(store.write(0, Parameter::Waveform, 2_500));
    assert_eq!(
        store.read_snapshot(0).unwrap().waveform_type,
        WaveformType::Square
    );
}

#[test]
fn store_snapshot_and_advance_hands_out_the_pre_advance_state() {
    let mut store = ParameterStore::with_channels(1, 1_000);
    store.write(0, Parameter::Frequency, 250_000);
    let snap = store.snapshot_and_advance(0).unwrap();
    assert_eq!(snap.phase_accumulator, 0);
    let snap = store.snapshot_and_advance(0).unwrap();
    assert_eq!(snap.phase_accumulator, 250_000);
    assert_eq!(store.snapshot_and_advance(9), None);
}

#[test]
fn interleaved_writes_never_tear_a_snapshot() {
    let mut store = ParameterStore::with_channels(2, 44_100);
    // Writes to channel 1 interleaved with the audio side reading channel 0:
    // every channel-0 snapshot is one whole generation, untouched by them.
    store.write(1, Parameter::Frequency, 123_000);
    let a = store.snapshot_and_advance(0).unwrap();
    store.write(1, Parameter::Amplitude, 250);
    let b = store.snapshot_and_advance(0).unwrap();
    store.write(0, Parameter::Frequency, 500_000);
    let c = store.read_snapshot(0).unwrap();
    assert_eq!((a.frequency, a.amplitude), (440_000, 1_000));
    assert_eq!((b.frequency, b.amplitude), (440_000, 1_000));
    assert_eq!((c.frequency, c.amplitude), (500_000, 1_000));
    // Channel 1 holds exactly its own writes, its phase untouched.
    let d = store.read_snapshot(1).unwrap();
    assert_eq!((d.frequency, d.amplitude), (123_000, 250));
    assert_eq!(d.phase_accumulator, 0);
}

#[test]
fn store_reset_phase_touches_one_channel() {
    let mut store = ParameterStore::with_channels(2, 1_000);
    store.snapshot_and_advance(0);
    store.snapshot_and_advance(1);
    store.reset_phase(0);
    assert_eq!(store.read_snapshot(0).unwrap().phase_accumulator, 0);
    assert_ne!(store.read_snapshot(1).unwrap().phase_accumulator, 0);
    store.reset_phase(7);
}

#[test]
fn engine_open_with_two_channels_seeds_440_and_880() {
    let mut audio = AudioStream::default();
    assert_eq!(audio.state, StreamPhase::Uninitialized);
    audio
        .create_stream(Ok((2, 44_100)))
        .expect("a negotiated format configures the engine");
    assert_eq!(audio.state, StreamPhase::Configured);
    assert_eq!(audio.channels, 2);
    assert_eq!(audio.sample_rate, 44_100);
    assert_eq!(audio.store.read_snapshot(0).unwrap().frequency, 440_000);
    assert_eq!(audio.store.read_snapshot(1).unwrap().frequency, 880_000);
}

#[test]
fn engine_open_failure_keeps_the_engine_silent() {
    let mut audio = AudioStream::default();
    let r = audio.create_stream(Err(DeviceError::NoOutputDevice));
    assert_eq!(r, Err(DeviceError::NoOutputDevice));
    assert_eq!(audio.state, StreamPhase::Uninitialized);
    assert_eq!(audio.store.read_snapshot(0), None);
}

#[test]
fn stream_control_is_idempotent() {
    let mut audio = AudioStream::default();
    // Starting an engine that was never configured asks nothing.
    assert_eq!(audio.start_stream(), StreamAction::Keep);
    audio.create_stream(Ok((2, 44_100))).unwrap();

    assert_eq!(audio.start_stream(), StreamAction::Play);
    assert_eq!(audio.state, StreamPhase::Running);
    // Starting twice: no change of state, nothing asked of the backend.
    assert_eq!(audio.start_stream(), StreamAction::Keep);
    assert_eq!(audio.state, StreamPhase::Running);

    assert_eq!(audio.stop_stream(), StreamAction::Pause);
    assert_eq!(audio.state, StreamPhase::Stopped);
    // Stopping twice: no change of state, nothing asked of the backend.
    assert_eq!(audio.stop_stream(), StreamAction::Keep);
    assert_eq!(audio.state, StreamPhase::Stopped);

    assert_eq!(audio.start_stream(), StreamAction::Play);
    assert_eq!(audio.state, StreamPhase::Running);
}

#[test]
fn backend_refusal_reverts_the_transition() {
    let mut audio = AudioStream::default();
    audio.create_stream(Ok((2, 44_100))).unwrap();
    assert_eq!(audio.start_stream(), StreamAction::Play);
    audio.backend_failed(StreamAction::Play, StreamError::PlayRejected);
    assert_eq!(audio.state, StreamPhase::Stopped);
    assert_eq!(audio.last_error, Some(StreamError::PlayRejected));
}

#[test]
fn fill_interleaved_mono_mixes_each_frame() {
    let values: Vec<u32> = vec![10, 20, 30];
    let out = fill_interleaved(&values, 2);
    assert_eq!(out, vec![10, 10, 20, 20, 30, 30]);
    let floats: Vec<f32> = vec![0.25, -1.0];
    let out = fill_interleaved(&floats, 3);
    assert_eq!(out, vec![0.25, 0.25, 0.25, -1.0, -1.0, -1.0]);
    let one: Vec<u32> = vec![7];
    assert_eq!(fill_interleaved(&one, 1), vec![7]);
}

#[test]
fn classify_forwards_presses_and_drops_releases() {
    let k = press('x');
    assert_eq!(classify(RawInput::Key(k)), Some(Event::Key(k)));
    let released = KeyEvent { kind: KeyEventKind::Release, ..k };
    assert_eq!(classify(RawInput::Key(released)), None);
    let repeated = KeyEvent { kind: KeyEventKind::Repeat, ..k };
    assert_eq!(classify(RawInput::Key(repeated)), None);
    let m = MouseEvent { column: 3, row: 4 };
    assert_eq!(classify(RawInput::Mouse(m)), Some(Event::Mouse(m)));
    assert_eq!(
        classify(RawInput::Resize(80, 24)),
        Some(Event::Resize(80, 24))
    );
}

#[test]
fn channel_delivers_in_production_order() {
    let mut ch = EventChannel::new();
    assert_eq!(ch.pending(), 0);
    ch.send(Event::Key(press('a')));
    ch.send(Event::Tick);
    ch.send(Event::Resize(80, 24));
    assert_eq!(ch.pending(), 3);
    assert_eq!(ch.next(), Ok(Event::Key(press('a'))));
    assert_eq!(ch.next(), Ok(Event::Tick));
    assert_eq!(ch.next(), Ok(Event::Resize(80, 24)));
    assert_eq!(ch.pending(), 0);
}

#[test]
fn channel_close_drains_then_errors() {
    let mut ch = EventChannel::new();
    ch.send(Event::Tick);
    ch.close();
    assert!(ch.is_closed());
    assert_eq!(ch.next(), Ok(Event::Tick));
    assert!(ch.next().is_err());
}

#[test]
fn source_classifies_input_before_the_tick() {
    let mut src = EventSource::new(125);
    let mut ch = EventChannel::new();
    assert_eq!(src.poll_timeout(), 125);

    // Input arrives halfway through the interval: no tick yet.
    src.step(60, Some(RawInput::Key(press('x'))), &mut ch);
    assert_eq!(ch.pending(), 1);
    assert_eq!(src.poll_timeout(), 65);

    // The rest of the interval times out: exactly one tick.
    src.step(65, None, &mut ch);
    assert_eq!(ch.pending(), 2);
    assert_eq!(src.poll_timeout(), 125);

    // Input lands exactly when the interval ends: the input first, then the tick.
    src.step(125, Some(RawInput::Resize(80, 24)), &mut ch);
    assert_eq!(ch.next(), Ok(Event::Key(press('x'))));
    assert_eq!(ch.next(), Ok(Event::Tick));
    assert_eq!(ch.next(), Ok(Event::Resize(80, 24)));
    assert_eq!(ch.next(), Ok(Event::Tick));
}

#[test]
fn three_idle_intervals_give_exactly_three_ticks() {
    let mut src = EventSource::new(125);
    let mut ch = EventChannel::new();
    for _ in 0..3 {
        let waited = src.poll_timeout();
        assert_eq!(waited, 125);
        src.step(waited, None, &mut ch);
    }
    assert_eq!(ch.pending(), 3);
    for _ in 0..3 {
        assert_eq!(ch.next(), Ok(Event::Tick));
    }
}

#[test]
fn key_releases_produce_no_event_and_no_early_tick() {
    let mut src = EventSource::new(100);
    let mut ch = EventChannel::new();
    let released = KeyEvent { kind: KeyEventKind::Release, ..press('z') };
    src.step(10, Some(RawInput::Key(released)), &mut ch);
    assert_eq!(ch.pending(), 0);
    assert_eq!(src.poll_timeout(), 90);
}
