use nih_plug_example::{effective_shape, ramp_steps, Level, RampShape, SmoothedValue};

fn lv(x: f32) -> Level {
    Level::from_bits(x.to_bits())
}

#[test]
fn new_value_is_settled_at_its_value() {
    let v = SmoothedValue::new(lv(0.5));
    assert!(v.is_settled());
    assert_eq!(v.current, lv(0.5));
    assert_eq!(v.target, lv(0.5));
}

#[test]
fn ramp_reaches_target_after_its_steps() {
    let mut v = SmoothedValue::new(lv(0.0));
    v.set_target(lv(1.0), 3);
    assert_eq!(v.steps_left, 3);
    assert_eq!(v.current, lv(0.0));
    assert_eq!(v.advance(lv(1.0 / 3.0)), lv(1.0 / 3.0));
    assert_eq!(v.advance(lv(2.0 / 3.0)), lv(2.0 / 3.0));
    // the last step snaps to the target, whatever point is handed in
    assert_eq!(v.advance(lv(0.99)), lv(1.0));
    assert!(v.is_settled());
}

#[test]
fn settled_advance_is_idempotent() {
    let mut v = SmoothedValue::new(lv(0.0));
    v.set_target(lv(0.25), 1);
    assert_eq!(v.advance(lv(7.0)), lv(0.25));
    let before = v;
    for k in 0..100 {
        assert_eq!(v.advance(lv(k as f32)), lv(0.25));
        assert_eq!(v, before);
    }
}

#[test]
fn zero_step_target_jumps_at_once() {
    let mut v = SmoothedValue::new(lv(0.0));
    v.set_target(lv(0.8), 0);
    assert_eq!(v.current, lv(0.8));
    assert!(v.is_settled());
}

#[test]
fn reset_jumps_and_settles() {
    let mut v = SmoothedValue::new(lv(0.0));
    v.set_target(lv(1.0), 10);
    v.advance(lv(0.1));
    v.reset(lv(0.0));
    assert_eq!(v, SmoothedValue::new(lv(0.0)));
}

#[test]
fn ramp_steps_round_up() {
    // 5 ms at 44.1 kHz is 220.5 samples
    assert_eq!(ramp_steps(5, 44100), 221);
    assert_eq!(ramp_steps(50, 48000), 2400);
    assert_eq!(ramp_steps(1, 1), 1);
    assert_eq!(ramp_steps(0, 44100), 0);
    assert_eq!(ramp_steps(150, 44100), 6615);
}

#[test]
fn logarithmic_needs_positive_ends() {
    assert_eq!(effective_shape(RampShape::Logarithmic, lv(0.5), lv(2.0)), RampShape::Logarithmic);
    assert_eq!(effective_shape(RampShape::Logarithmic, lv(0.0), lv(2.0)), RampShape::Linear);
    assert_eq!(effective_shape(RampShape::Logarithmic, lv(0.5), lv(-0.0)), RampShape::Linear);
    assert_eq!(effective_shape(RampShape::Logarithmic, lv(-1.0), lv(1.0)), RampShape::Linear);
    assert_eq!(effective_shape(RampShape::Logarithmic, lv(f32::NAN), lv(1.0)), RampShape::Linear);
    assert_eq!(effective_shape(RampShape::Linear, lv(0.5), lv(2.0)), RampShape::Linear);
}

#[test]
fn level_sign_follows_ieee() {
    assert!(lv(1.0).is_positive());
    assert!(lv(f32::MIN_POSITIVE).is_positive());
    assert!(lv(f32::from_bits(1)).is_positive());
    assert!(lv(f32::INFINITY).is_positive());
    assert!(!lv(0.0).is_positive());
    assert!(!lv(-0.0).is_positive());
    assert!(!lv(-3.0).is_positive());
    assert!(!lv(f32::NAN).is_positive());
    assert!(!lv(f32::NEG_INFINITY).is_positive());
    assert_eq!(Level::zero(), lv(0.0));
}

#[test]
fn follow_keeps_a_ramp_that_heads_there() {
    let mut v = SmoothedValue::new(lv(1.0));
    v.follow(lv(2.0), 10);
    assert_eq!(v.steps_left, 10);
    v.advance(lv(1.1));
    let before = v;
    v.follow(lv(2.0), 10);
    assert_eq!(v, before);
    v.follow(lv(0.5), 4);
    assert_eq!(v.target, lv(0.5));
    assert_eq!(v.steps_left, 4);
    assert_eq!(v.current, lv(1.1));
}
