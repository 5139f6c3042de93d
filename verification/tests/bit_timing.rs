use tc37x_hal::can::baud_rate::calculate_fast_timing;
use tc37x_hal::can::baud_rate::calculate_nominal_timing;
use tc37x_hal::can::baud_rate::calculate_timing;
use tc37x_hal::can::baud_rate::fast_timing_limits;
use tc37x_hal::can::baud_rate::nominal_timing_limits;
use tc37x_hal::can::baud_rate::BitTiming;
use tc37x_hal::can::baud_rate::DataBitTiming;
use tc37x_hal::can::baud_rate::NominalBitTiming;
use tc37x_hal::can::baud_rate::TimingLimits;

fn timing(prescaler: u16, sync_jump_width: u16, time_segment_1: u16, time_segment_2: u16) -> BitTiming {
    BitTiming { prescaler, sync_jump_width, time_segment_1, time_segment_2 }
}

fn quanta(t: &BitTiming) -> u64 {
    1 + t.time_segment_1 as u64 + t.time_segment_2 as u64
}

fn within(t: &BitTiming, l: &TimingLimits) -> bool {
    1 <= t.prescaler as u32
        && t.prescaler as u32 <= l.prescaler_max
        && l.tseg1_min <= t.time_segment_1 as u32
        && t.time_segment_1 as u32 <= l.tseg1_max
        && l.tseg2_min <= t.time_segment_2 as u32
        && t.time_segment_2 as u32 <= l.tseg2_max
        && 1 <= t.sync_jump_width
        && t.sync_jump_width as u32 <= l.sjw_max
        && t.sync_jump_width <= t.time_segment_2
}

fn representable(l: &TimingLimits, cycles: u64, sample: u64) -> bool {
    (1..=l.prescaler_max as u64).any(|p| {
        let n = cycles / p;
        let before = (2 * n * sample + 9999) / 20000;
        before >= 1 + l.tseg1_min as u64
            && before - 1 <= l.tseg1_max as u64
            && n >= before + l.tseg2_min as u64
            && n - before <= l.tseg2_max as u64
    })
}

#[test]
fn nominal_timing_one_megabit_at_eighty_percent() {
    let t = calculate_nominal_timing(80_000_000, 1_000_000, 8000, 3);
    assert_eq!(t, timing(8, 2, 7, 2));
    assert_eq!(t.prescaler as u64 * quanta(&t), 80);
    assert_eq!(10000 * (1 + t.time_segment_1 as u64), 8000 * quanta(&t));
}

#[test]
fn nominal_timing_half_megabit() {
    assert_eq!(calculate_nominal_timing(80_000_000, 500_000, 8750, 1), timing(10, 1, 13, 2));
}

#[test]
fn nominal_timing_prefers_exact_sample_point_over_larger_prescaler() {
    // Prescaler 10 gives 8 quanta and would sample at 75%; prescaler 8 gives
    // 10 quanta and samples at 80% exactly.
    let t = calculate_nominal_timing(80_000_000, 1_000_000, 8000, 1);
    assert_eq!(t.prescaler, 8);
    // At 50% both divide exactly, and the larger prescaler is taken.
    assert_eq!(calculate_nominal_timing(80_000_000, 1_000_000, 5000, 0), timing(10, 1, 3, 4));
}

#[test]
fn nominal_timing_sample_point_rounds_to_the_earlier_quantum() {
    // 73 cycles per bit divide by 1 and by 73 only; one quantum per cycle
    // is left. 80% of 73 quanta is 58.4, which rounds to 58.
    let t = calculate_nominal_timing(73_000_000, 1_000_000, 8000, 3);
    assert_eq!(t, timing(1, 3, 57, 15));
    // 50% of 9 quanta is 4.5: the sample point is taken half a quantum early.
    let l = TimingLimits {
        prescaler_max: 1,
        tseg1_min: 1,
        tseg1_max: 16,
        tseg2_min: 1,
        tseg2_max: 16,
        sjw_max: 4,
    };
    let odd = calculate_timing(&l, 9_000_000, 1_000_000, 5000, 1);
    assert_eq!(odd, timing(1, 1, 3, 5));
}

#[test]
fn nominal_timing_jump_width_is_clamped() {
    assert_eq!(calculate_nominal_timing(16_000_000, 125_000, 7500, 200), timing(16, 2, 5, 2));
    assert_eq!(calculate_nominal_timing(40_000_000, 250_000, 5000, 4), timing(20, 4, 3, 4));
}

#[test]
fn nominal_timing_clamps_what_cannot_be_met() {
    let l = nominal_timing_limits();
    // Too few cycles for a bit.
    let fast = calculate_nominal_timing(1000, 1_000_000, 8000, 3);
    assert_eq!(fast, timing(1, 2, 2, 2));
    assert!(within(&fast, &l));
    // Too many cycles for the largest prescaler.
    let slow = calculate_nominal_timing(4_000_000_000, 1, 8000, 3);
    assert_eq!(slow, timing(512, 3, 256, 128));
    assert!(within(&slow, &l));
    // A baud rate of 0 counts as 1.
    assert_eq!(calculate_nominal_timing(80_000_000, 0, 8000, 3), timing(512, 3, 256, 128));
    // A sample point above 100% counts as 100%, which no bit can have.
    let late = calculate_nominal_timing(80_000_000, 1_000_000, 60000, 3);
    assert_eq!(late, timing(1, 2, 77, 2));
    assert!(within(&late, &l));
}

#[test]
fn fast_timing_has_narrower_limits() {
    let l = fast_timing_limits();
    assert_eq!(l.prescaler_max, 32);
    assert_eq!(l.tseg1_max, 32);
    assert_eq!(l.tseg2_max, 16);
    assert_eq!(nominal_timing_limits().prescaler_max, 512);
    assert_eq!(calculate_fast_timing(80_000_000, 2_000_000, 7500, 3), timing(10, 1, 2, 1));
    assert_eq!(calculate_fast_timing(80_000_000, 5_000_000, 8000, 2), timing(1, 2, 12, 3));
    assert_eq!(calculate_fast_timing(80_000_000, 8_000_000, 7000, 1), timing(1, 1, 6, 3));
    assert_eq!(calculate_fast_timing(80_000_000, 100_000, 8000, 1), timing(32, 1, 19, 5));
}

#[test]
fn timing_meets_targets_over_a_grid_of_inputs() {
    let l = nominal_timing_limits();
    let clocks = [8_000_000u32, 20_000_000, 40_000_000, 80_000_000, 100_000_000];
    let bauds = [10_000u32, 50_000, 125_000, 250_000, 500_000, 800_000, 1_000_000];
    let samples = [5000u16, 6250, 7000, 7500, 8000, 8750];
    let mut met = 0;
    for clock in clocks {
        for baud in bauds {
            for sample in samples {
                let t = calculate_nominal_timing(clock, baud, sample, 1);
                assert!(within(&t, &l));
                let cycles = (clock / baud) as u64;
                if !representable(&l, cycles, sample as u64) {
                    continue;
                }
                met += 1;
                let bit = t.prescaler as u64 * quanta(&t);
                assert!(bit <= cycles);
                assert!(cycles - bit < t.prescaler as u64);
                let reached = 10000 * (1 + t.time_segment_1 as u64);
                let wanted = sample as u64 * quanta(&t);
                let off = if reached > wanted { reached - wanted } else { wanted - reached };
                assert!(off <= 5000);
            }
        }
    }
    assert_eq!(met, 208);
}

#[test]
fn timing_register_fields_are_one_less() {
    let t = calculate_nominal_timing(80_000_000, 1_000_000, 8000, 3);
    assert_eq!(t.to_nominal(), NominalBitTiming { brp: 7, sjw: 1, tseg1: 6, tseg2: 1 });
    let f = calculate_fast_timing(80_000_000, 5_000_000, 8000, 2);
    assert_eq!(f.to_data(), DataBitTiming { brp: 0, sjw: 1, tseg1: 11, tseg2: 2 });
    // Counts that no register holds are clamped to the field.
    let wide = timing(600, 0, 300, 200);
    assert_eq!(wide.to_nominal(), NominalBitTiming { brp: 511, sjw: 0, tseg1: 255, tseg2: 127 });
    assert_eq!(wide.to_data(), DataBitTiming { brp: 31, sjw: 0, tseg1: 31, tseg2: 15 });
}
