use wavetable::CountdownGate;
use wavetable::EnvelopeGate;
use wavetable::Oscillator;
use wavetable::Overtone;
use wavetable::FIXED_ONE;
use wavetable::WAVE_TABLE_SIZE;

type Voice = Oscillator<CountdownGate>;

fn zero_table() -> Vec<i64> {
    vec![0i64; WAVE_TABLE_SIZE]
}

#[test]
fn note_mapping_concrete_values() {
    // Note 0 is the lowest semitone of the tuning table; every octave
    // doubles, and note 69 lands on 440.0 in fixed point.
    assert_eq!(Voice::get_freq(0), 535809);
    assert_eq!(Voice::get_freq(12), 2 * 535809);
    assert_eq!(Voice::get_freq(69), 28835840);
    assert_eq!(Voice::get_freq(69), 440 * FIXED_ONE);
}

#[test]
fn note_mapping_is_strictly_increasing() {
    let mut previous = 0u64;
    for note in 0..=127u8 {
        let frequency = Voice::get_freq(note);
        assert!(frequency > previous);
        previous = frequency;
    }
}

#[test]
fn note_69_matches_closed_form() {
    // 2^((69 + 36.376316) / 12), the mapping's closed form; deliberately
    // checked against the formula rather than a hard-coded 440.0 Hz.
    let expected = 2f64.powf((69.0 + 36.376316) / 12.0);
    let got = Voice::get_freq(69) as f64 / FIXED_ONE as f64;
    assert!((got - expected).abs() < 1e-3);
}

#[test]
fn press_sets_frequency_and_gate() {
    let mut voice = Voice::new();
    assert!(!voice.is_pressed());
    voice.press(69);
    assert!(voice.is_pressed());
    // Increment = frequency * 64 / 44100 = 28835840 * 64 / 44100, floored.
    assert_eq!(voice.wt_osc.current_increment(), 28835840u64 * 64 / 44100);
}

#[test]
fn release_leaves_oscillator_untouched() {
    let mut voice = Voice::new();
    voice.press(60);
    let increment = voice.wt_osc.current_increment();
    let index = voice.wt_osc.current_index();
    voice.release();
    assert_eq!(voice.wt_osc.current_increment(), increment);
    assert_eq!(voice.wt_osc.current_index(), index);
}

#[test]
fn gate_stays_pressed_through_release_ramp() {
    // The default gate releases over 4410 samples: pressed stays true from
    // press through release until the ramp has fully played out.
    let table = zero_table();
    let mut voice = Voice::new();
    voice.press(69);
    assert!(voice.is_pressed());
    voice.release();
    assert!(voice.is_pressed());
    for _ in 0..4409 {
        voice.get_sample(&table);
    }
    assert!(voice.is_pressed());
    voice.get_sample(&table);
    assert!(!voice.is_pressed());
}

#[test]
fn countdown_gate_ramps_linearly() {
    let mut gate = CountdownGate::with_release(2);
    assert!(!gate.pressed());
    gate.press();
    assert!(gate.pressed());
    assert_eq!(gate.current_gain(), FIXED_ONE);
    gate.release();
    assert!(gate.pressed());
    assert_eq!(gate.current_gain(), FIXED_ONE);
    assert_eq!(gate.current_gain(), FIXED_ONE / 2);
    assert_eq!(gate.current_gain(), 0);
    assert!(!gate.pressed());
}

#[test]
fn re_press_during_release_sounds_again() {
    let mut gate = CountdownGate::with_release(8);
    gate.press();
    gate.release();
    gate.press();
    assert!(gate.pressed());
    assert_eq!(gate.current_gain(), FIXED_ONE);
}

#[test]
fn idle_voice_is_silent() {
    let table = vec![FIXED_ONE as i64; WAVE_TABLE_SIZE];
    let mut voice = Voice::new();
    assert_eq!(voice.get_sample(&table), 0);
}

#[test]
fn pressed_voice_passes_samples_at_unity_gain() {
    let table = vec![FIXED_ONE as i64; WAVE_TABLE_SIZE];
    let mut voice = Voice::new();
    voice.press(69);
    for _ in 0..10 {
        assert_eq!(voice.get_sample(&table), FIXED_ONE as i64);
    }
}

#[test]
fn released_voice_scales_samples_by_the_ramp() {
    let table = vec![FIXED_ONE as i64; WAVE_TABLE_SIZE];
    let mut voice = Voice::new();
    voice.press(69);
    voice.release();
    // First ramp gain is full scale, the ramp then decays toward silence.
    let first = voice.get_sample(&table);
    assert_eq!(first, FIXED_ONE as i64);
    let second = voice.get_sample(&table);
    assert_eq!(second, (FIXED_ONE as i64 * 4409) / 4410);
}

#[test]
fn overtone_keeps_its_description() {
    let partial = Overtone::new(2 * FIXED_ONE, FIXED_ONE / 4);
    assert_eq!(partial.overtone, 2 * FIXED_ONE);
    assert_eq!(partial.volume, FIXED_ONE / 4);
}
