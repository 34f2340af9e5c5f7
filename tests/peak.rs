use colimiter::{colimit_block, Attenuation, ColimiterCore, PeakHold, ThresholdDescriptor};

fn bits(v: &[f32]) -> Vec<u32> {
    v.iter().map(|x| x.to_bits()).collect()
}

#[test]
fn peak_hold_starts_at_zero() {
    let hold = PeakHold::new();
    assert_eq!(hold.peak(), 0);
}

#[test]
fn peak_is_largest_magnitude_before_attenuation() {
    let mut core = ColimiterCore::new();
    let t = 0.2f32.to_bits();
    let mut acts = Vec::new();
    for s in [0.5f32, -0.3, 0.05] {
        acts.push(core.process_sample(s.to_bits(), t));
    }
    assert_eq!(acts, vec![Attenuation::Lower, Attenuation::Raise, Attenuation::Silence]);
    assert_eq!(core.peak(), 0.5f32.to_bits());
    assert_eq!(core.finish_block(true), Some(0.5f32.to_bits()));
}

#[test]
fn negative_sample_sets_peak_by_magnitude() {
    let mut core = ColimiterCore::new();
    let t = 0.1f32.to_bits();
    core.process_sample(0.25f32.to_bits(), t);
    core.process_sample((-0.9f32).to_bits(), t);
    core.process_sample(0.01f32.to_bits(), t);
    assert_eq!(core.finish_block(true), Some(0.9f32.to_bits()));
}

#[test]
fn unobserved_block_publishes_nothing() {
    let mut core = ColimiterCore::new();
    core.process_sample(0.7f32.to_bits(), 0.2f32.to_bits());
    assert_eq!(core.finish_block(false), None);
}

#[test]
fn next_block_starts_afresh() {
    let mut core = ColimiterCore::new();
    core.process_sample(0.7f32.to_bits(), 0.2f32.to_bits());
    assert_eq!(core.finish_block(true), Some(0.7f32.to_bits()));
    core.process_sample(0.1f32.to_bits(), 0.2f32.to_bits());
    assert_eq!(core.finish_block(true), Some(0.1f32.to_bits()));
    assert_eq!(core.finish_block(true), Some(0));
}

#[test]
fn nan_does_not_raise_peak_but_infinity_does() {
    let mut hold = PeakHold::new();
    hold.observe(0.3f32.to_bits());
    hold.observe(f32::NAN.to_bits());
    assert_eq!(hold.peak(), 0.3f32.to_bits());
    hold.observe(f32::NEG_INFINITY.to_bits());
    assert_eq!(hold.peak(), f32::INFINITY.to_bits());
}

#[test]
fn block_of_two_channels() {
    let channels = vec![bits(&[0.5, -0.3, 0.05]), bits(&[-0.6, 0.1, 0.35])];
    let thresholds = bits(&[0.2, 0.2, 0.3]);
    let (plan, peak) = colimit_block(&channels, &thresholds, true);
    assert_eq!(plan[0], vec![Attenuation::Lower, Attenuation::Raise, Attenuation::Silence]);
    assert_eq!(plan[1], vec![Attenuation::Raise, Attenuation::Silence, Attenuation::Lower]);
    assert_eq!(peak, Some(0.6f32.to_bits()));
    let (_, hidden) = colimit_block(&channels, &thresholds, false);
    assert_eq!(hidden, None);
}

#[test]
fn empty_block_has_zero_peak() {
    let (plan, peak) = colimit_block(&Vec::new(), &Vec::new(), true);
    assert!(plan.is_empty());
    assert_eq!(peak, Some(0));
}

#[test]
fn threshold_control_description() {
    let d = ThresholdDescriptor::threshold();
    assert_eq!(d.min_db, -90);
    assert_eq!(d.max_db, 20);
    assert_eq!(d.default_db, -45);
    assert_eq!(d.ramp_ms, 25);
    assert_eq!(d.display_decimals, 2);
}
