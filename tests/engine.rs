use roog_vst::envelope::{Envelope, Shape, Stage, LEVEL_ONE};
use roog_vst::midi::{decode_midi, MidiCommand};
use roog_vst::params::{get_parameter_name, param_slot, ParamStore, BITS_ONE, BITS_ONE_FIFTH};
use roog_vst::pitch::semitones_from_a4;
use roog_vst::registry::{MonoVoice, PolyRegistry, NOTE_COUNT};
use roog_vst::synth::{Synth, DEFAULT_SAMPLE_RATE};

fn frequency(note: u8) -> f64 {
    (f64::from(semitones_from_a4(note)) / 12.0).exp2() * 440.0
}

fn shape(attack: u32, decay: u32, sustain: u32, release: u32) -> Shape {
    Shape { attack, decay, sustain, release }
}

#[test]
fn reference_pitches() {
    assert_eq!(semitones_from_a4(69), 0);
    assert_eq!(semitones_from_a4(81), 12);
    assert_eq!(semitones_from_a4(57), -12);
    assert_eq!(semitones_from_a4(0), -69);
    assert_eq!(semitones_from_a4(127), 58);
    assert_eq!(frequency(69), 440.0);
    assert_eq!(frequency(81), 880.0);
    assert_eq!(frequency(57), 220.0);
}

#[test]
fn midi_messages_decode() {
    assert_eq!(decode_midi([0x90, 60, 100]), MidiCommand::NoteOn(60));
    assert_eq!(decode_midi([0x80, 60, 0]), MidiCommand::NoteOff(60));
    assert_eq!(decode_midi([0xb0, 7, 127]), MidiCommand::Ignore);
    assert_eq!(decode_midi([0x91, 60, 100]), MidiCommand::Ignore);
}

#[test]
fn parameter_round_trip() {
    let mut store = ParamStore::new();
    for i in 0..8 {
        let bits = (0.125f32 * (i as f32 + 1.0)).to_bits();
        store.set_parameter(i, bits);
        assert_eq!(store.get_parameter(i), bits);
        assert_eq!(f32::from_bits(store.get_parameter(i)), 0.125 * (i as f32 + 1.0));
    }
    let before: Vec<u32> = (0..8).map(|i| store.get_parameter(i)).collect();
    store.set_parameter(8, 1.5f32.to_bits());
    store.set_parameter(-1, 1.5f32.to_bits());
    let after: Vec<u32> = (0..8).map(|i| store.get_parameter(i)).collect();
    assert_eq!(before, after);
    assert_eq!(store.get_parameter(8), 0.0f32.to_bits());
    assert_eq!(store.get_parameter(-1), 0);
}

#[test]
fn parameter_defaults() {
    let store = ParamStore::new();
    assert_eq!(f32::from_bits(store.get_parameter(0)), 0.0);
    assert_eq!(store.get_parameter(1), 0.2f32.to_bits());
    assert_eq!(BITS_ONE_FIFTH, 0.2f32.to_bits());
    assert_eq!(BITS_ONE, 1.0f32.to_bits());
    assert_eq!(f32::from_bits(store.get_parameter(6)), 1.0);
    assert_eq!(f32::from_bits(store.get_parameter(7)), 0.0);
}

#[test]
fn parameter_names() {
    let names = ["Saw", "Sin", "Square", "Triangle", "Attack", "Decay", "Sustain", "Release"];
    for (i, name) in names.iter().enumerate() {
        assert_eq!(get_parameter_name(i as i32), *name);
        assert_eq!(param_slot(i as i32), Some(i));
    }
    assert_eq!(get_parameter_name(8), "");
    assert_eq!(get_parameter_name(-3), "");
    assert_eq!(param_slot(8), None);
}

#[test]
fn instant_attack_is_full_scale() {
    let sh = shape(0, 10, LEVEL_ONE / 2, 10);
    let mut e = Envelope::idle();
    e.note_on();
    assert_eq!(e.stage, Stage::Attack);
    assert_eq!(e.level(&sh), LEVEL_ONE);
}

#[test]
fn linear_ramps() {
    let sh = shape(4, 4, LEVEL_ONE / 2, 4);
    let mut e = Envelope::idle();
    assert_eq!(e.level(&sh), 0);
    e.note_on();
    let mut seen = Vec::new();
    for _ in 0..10 {
        seen.push(e.level(&sh));
        e.tick(&sh);
    }
    assert_eq!(seen, vec![0, 16384, 32768, 49152, 65536, 57344, 49152, 40960, 32768, 32768]);
    assert_eq!(e.stage, Stage::Sustain);
    e.note_off(&sh);
    assert_eq!(e.stage, Stage::Release);
    assert_eq!(e.release_from, 32768);
    let mut tail = Vec::new();
    for _ in 0..4 {
        tail.push(e.level(&sh));
        e.tick(&sh);
    }
    assert_eq!(tail, vec![32768, 24576, 16384, 8192]);
    assert_eq!(e.stage, Stage::Idle);
    assert_eq!(e.level(&sh), 0);
}

#[test]
fn note_on_then_off_releases_then_idles() {
    let sh = shape(0, 0, LEVEL_ONE, 3);
    for note in 0..128u8 {
        let mut synth = Synth::new();
        synth.set_shape(sh);
        synth.note_on(note);
        synth.note_off(note);
        assert_eq!(synth.voice(note).stage, Stage::Release);
        assert_eq!(synth.voice(note).release_from, LEVEL_ONE);
        let mut levels = vec![0u32; NOTE_COUNT];
        for _ in 0..3 {
            assert_eq!(synth.voice(note).stage, Stage::Release);
            synth.render(&mut levels);
        }
        assert_eq!(synth.voice(note).stage, Stage::Idle);
        assert!(!synth.is_active(note));
    }
}

#[test]
fn zero_release_idles_after_one_sample() {
    let sh = shape(0, 0, LEVEL_ONE, 0);
    let mut e = Envelope::idle();
    e.note_on();
    e.note_off(&sh);
    assert_eq!(e.stage, Stage::Release);
    assert_eq!(e.level(&sh), 0);
    e.tick(&sh);
    assert_eq!(e.stage, Stage::Idle);
}

#[test]
fn full_polyphony() {
    let mut reg = PolyRegistry::new();
    for note in 0..128u8 {
        reg.note_on(note);
    }
    for note in 0..128u8 {
        assert!(reg.is_active(note));
        assert_eq!(reg.voice(note).stage, Stage::Attack);
    }
    let sh = shape(10, 10, LEVEL_ONE, 10);
    reg.note_off(40, &sh);
    for note in 0..128u8 {
        let expected = if note == 40 { Stage::Release } else { Stage::Attack };
        assert_eq!(reg.voice(note).stage, expected);
    }
}

#[test]
fn mono_last_note_wins() {
    let sh = shape(0, 0, LEVEL_ONE, 5);
    let mut v = MonoVoice::new();
    v.note_on(60);
    v.note_on(64);
    let mut fresh = MonoVoice::new();
    fresh.note_on(64);
    assert_eq!(v, fresh);
    assert_eq!(v.note, 64);
    assert_eq!(frequency(v.note), frequency(64));
    v.note_off(60, &sh);
    assert_eq!(v.env.stage, Stage::Attack);
    assert_eq!(v.level(&sh), LEVEL_ONE);
    v.note_off(64, &sh);
    assert_eq!(v.env.stage, Stage::Release);
    for _ in 0..5 {
        v.tick(&sh);
    }
    assert_eq!(v.env.stage, Stage::Idle);
    assert_eq!(v.level(&sh), 0);
    assert_eq!(v.note, 64);
}

#[test]
fn midi_drives_the_voices() {
    let mut synth = Synth::default();
    assert_eq!(synth.sample_rate(), DEFAULT_SAMPLE_RATE);
    synth.process_midi_event([0x90, 72, 90]);
    assert!(synth.is_active(72));
    synth.process_midi_event([0xe0, 73, 90]);
    assert!(!synth.is_active(73));
    synth.process_midi_event([0x90, 200, 90]);
    synth.process_midi_event([0x80, 72, 0]);
    assert_eq!(synth.voice(72).stage, Stage::Release);
    let mut levels = vec![7u32; NOTE_COUNT];
    synth.render(&mut levels);
    assert_eq!(levels[72], 0);
    assert_eq!(synth.voice(72).stage, Stage::Idle);
    assert!(levels.iter().all(|l| *l == 0));
}

#[test]
fn render_reports_levels_by_note() {
    let mut synth = Synth::new();
    synth.set_shape(shape(2, 0, LEVEL_ONE / 4, 0));
    synth.note_on(10);
    synth.note_on(20);
    let mut levels = vec![0u32; NOTE_COUNT];
    synth.render(&mut levels);
    assert_eq!(levels[10], 0);
    synth.render(&mut levels);
    assert_eq!(levels[10], LEVEL_ONE / 2);
    assert_eq!(levels[20], LEVEL_ONE / 2);
    synth.render(&mut levels);
    assert_eq!(levels[10], LEVEL_ONE / 4);
    assert_eq!(levels[11], 0);
    assert_eq!(synth.voice(10).stage, Stage::Sustain);
}

#[test]
fn sample_rate_change_takes_effect_at_once() {
    let mut synth = Synth::new();
    synth.set_sample_rate(48000);
    assert_eq!(synth.sample_rate(), 48000);
    synth.set_parameter(4, 0.5f32.to_bits());
    assert_eq!(synth.get_parameter(4), 0.5f32.to_bits());
    assert_eq!(synth.get_parameter(9), 0);
    synth.set_sample_rate(96000);
    assert_eq!(synth.sample_rate(), 96000);
    assert_eq!(synth.get_parameter(4), 0.5f32.to_bits());
}
