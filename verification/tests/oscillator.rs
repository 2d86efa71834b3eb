use wavetable::WavetableOscillator;
use wavetable::FIXED_ONE;
use wavetable::SAMPLE_RATE;
use wavetable::WAVE_TABLE_SIZE;

// A sample rate of 32768 with a 64-entry table makes the increment
// `frequency / 512` exactly, so fractional phases can be dialed in directly.
const EASY_RATE: u32 = 32768;

fn zero_table() -> Vec<i64> {
    vec![0i64; WAVE_TABLE_SIZE]
}

#[test]
fn new_oscillator_is_silent() {
    let osc = WavetableOscillator::new(SAMPLE_RATE, WAVE_TABLE_SIZE);
    assert_eq!(osc.current_index(), 0);
    assert_eq!(osc.current_increment(), 0);
}

#[test]
fn unit_increment_at_one_traversal_per_table() {
    // WAVE_TABLE_SIZE = 64, SAMPLE_RATE = 44100: a frequency of 44100 / 64 Hz
    // (fixed point: 44100 * 65536 / 64 = 45158400) gives an increment of 1.0.
    let mut osc = WavetableOscillator::new(44100, 64);
    osc.set_frequency(45158400);
    assert_eq!(osc.current_increment(), FIXED_ONE);
}

#[test]
fn increment_formula_floors_exactly() {
    // 1.0 Hz at 44100 Hz with a 64-entry table: 65536 * 64 / 44100 floors
    // from 95.109... to 95.
    let mut osc = WavetableOscillator::new(44100, 64);
    osc.set_frequency(FIXED_ONE);
    assert_eq!(osc.current_increment(), 95);
}

#[test]
fn interpolates_quarter_way_between_entries() {
    let mut table = zero_table();
    table[0] = 0;
    table[1] = 100;
    let mut osc = WavetableOscillator::new(EASY_RATE, WAVE_TABLE_SIZE);
    // Increment 0.25: the second read interpolates 0.75 * 0 + 0.25 * 100.
    osc.set_frequency(128 * FIXED_ONE);
    assert_eq!(osc.current_increment(), 16384);
    osc.get_sample(&table);
    assert_eq!(osc.get_sample(&table), 25);
}

#[test]
fn set_frequency_twice_is_idempotent() {
    let mut osc = WavetableOscillator::new(EASY_RATE, WAVE_TABLE_SIZE);
    osc.set_frequency(512 * FIXED_ONE);
    let table = zero_table();
    osc.get_sample(&table);
    assert_eq!(osc.current_index(), FIXED_ONE);

    osc.set_frequency(1024000);
    let after_once = osc.current_increment();
    let index_once = osc.current_index();
    osc.set_frequency(1024000);
    assert_eq!(osc.current_increment(), after_once);
    assert_eq!(after_once, 2000);
    assert_eq!(osc.current_index(), index_once);
    assert_eq!(index_once, FIXED_ONE);
}

#[test]
fn phase_returns_after_full_period() {
    // Increment 1.0: the table span is 64 increments, so 64 calls wrap the
    // phase back to its starting value.
    let mut osc = WavetableOscillator::new(44100, 64);
    osc.set_frequency(45158400);
    let table = zero_table();
    osc.get_sample(&table);
    let start = osc.current_index();
    assert_eq!(start, FIXED_ONE);
    for _ in 0..64 {
        osc.get_sample(&table);
    }
    assert_eq!(osc.current_index(), start);
}

#[test]
fn phase_wraps_from_zero_start() {
    let mut osc = WavetableOscillator::new(44100, 64);
    osc.set_frequency(45158400);
    let table = zero_table();
    for _ in 0..64 {
        osc.get_sample(&table);
    }
    assert_eq!(osc.current_index(), 0);
}

#[test]
fn interpolates_halfway_between_entries() {
    let mut table = zero_table();
    table[0] = 0;
    table[1] = FIXED_ONE as i64;
    let mut osc = WavetableOscillator::new(EASY_RATE, WAVE_TABLE_SIZE);
    // Increment 0.5: frequency 256 * FIXED_ONE makes 16777216 / 512 = 32768.
    osc.set_frequency(256 * FIXED_ONE);
    assert_eq!(osc.current_increment(), 32768);
    let first = osc.get_sample(&table);
    assert_eq!(first, 0);
    let second = osc.get_sample(&table);
    assert_eq!(second, 32768);
}

#[test]
fn interpolation_wraps_across_table_end() {
    let mut table = zero_table();
    table[63] = 100;
    table[0] = 200;
    let mut osc = WavetableOscillator::new(EASY_RATE, WAVE_TABLE_SIZE);
    // Increment 63.5: one call lands the phase between the last entry and
    // the wrapped-around first one.
    osc.set_frequency(2130706432);
    assert_eq!(osc.current_increment(), 63 * FIXED_ONE + 32768);
    let first = osc.get_sample(&table);
    assert_eq!(first, 200);
    let second = osc.get_sample(&table);
    assert_eq!(second, 150);
    assert!(100 <= second && second <= 200);
}

#[test]
fn interpolation_stays_between_negative_entries() {
    let mut table = zero_table();
    table[63] = -100;
    table[0] = -200;
    let mut osc = WavetableOscillator::new(EASY_RATE, WAVE_TABLE_SIZE);
    osc.set_frequency(2130706432);
    osc.get_sample(&table);
    let sample = osc.get_sample(&table);
    assert_eq!(sample, -150);
    assert!(-200 <= sample && sample <= -100);
}

#[test]
fn interpolation_rounds_down_not_toward_zero() {
    let mut table = zero_table();
    table[63] = -1;
    table[0] = 0;
    let mut osc = WavetableOscillator::new(EASY_RATE, WAVE_TABLE_SIZE);
    osc.set_frequency(2130706432);
    osc.get_sample(&table);
    // Halfway between -1 and 0 is -0.5; the fixed-point quotient floors to -1.
    let sample = osc.get_sample(&table);
    assert_eq!(sample, -1);
}

#[test]
fn constant_table_reads_back_exactly() {
    let table = vec![-(FIXED_ONE as i64); WAVE_TABLE_SIZE];
    let mut osc = WavetableOscillator::new(EASY_RATE, WAVE_TABLE_SIZE);
    osc.set_frequency(256 * FIXED_ONE);
    for _ in 0..100 {
        assert_eq!(osc.get_sample(&table), -(FIXED_ONE as i64));
    }
}
