use tether::adaptive::{BitrateController, HIGH_WATER, LOW_WATER};

#[test]
fn starts_at_ceiling() {
    let c = BitrateController::new(4000, 600);
    assert_eq!(c.target_kbps(), 4000);
}

#[test]
fn congestion_decreases_multiplicatively_to_the_floor() {
    let mut c = BitrateController::new(4000, 600);
    let a = c.sample(HIGH_WATER + 1); // 4000*0.7 = 2800
    assert_eq!(a, 2800);
    let b = c.sample(HIGH_WATER + 1); // 1960
    assert_eq!(b, 1960);
    // keep congesting → clamps at floor, never below
    for _ in 0..20 {
        c.sample(HIGH_WATER + 1);
    }
    assert_eq!(c.target_kbps(), 600);
}

#[test]
fn headroom_increases_additively_after_a_streak_to_the_ceiling() {
    let mut c = BitrateController::new(4000, 600);
    // drop first
    c.sample(HIGH_WATER + 1); // 2800
    assert_eq!(c.target_kbps(), 2800);
    // a low-buffer streak: no change until INCREASE_AFTER samples
    assert_eq!(c.sample(0), 2800);
    assert_eq!(c.sample(0), 2800);
    assert_eq!(c.sample(0), 3300); // +500 on the 3rd
    // climbs by steps, clamped at the ceiling
    for _ in 0..20 {
        c.sample(0);
    }
    assert_eq!(c.target_kbps(), 4000);
}

#[test]
fn mid_band_holds_and_resets_the_streak() {
    let mut c = BitrateController::new(4000, 600);
    c.sample(HIGH_WATER + 1); // 2800
    c.sample(0); // streak 1
    c.sample(0); // streak 2
    c.sample(LOW_WATER + (HIGH_WATER - LOW_WATER) / 2); // mid band → reset streak, hold
    assert_eq!(c.target_kbps(), 2800);
    c.sample(0); // streak restarts at 1
    c.sample(0); // 2
    assert_eq!(c.target_kbps(), 2800); // not yet
    assert_eq!(c.sample(0), 3300); // 3 → increase
}

#[test]
fn floor_never_exceeds_ceiling() {
    let c = BitrateController::new(500, 600); // floor clamped to ceiling
    assert_eq!(c.target_kbps(), 500);
}

/// One congested sample from a ceiling, with no floor.
fn one_step(ceiling: u32) -> u32 {
    BitrateController::new(ceiling, 0).sample(HIGH_WATER + 1)
}

#[test]
fn the_decrease_is_the_rounded_product_with_seven_tenths() {
    let mut samples: Vec<u32> = (0..200_000).collect();
    for k in 0..32u32 {
        let p = 1u64 << k;
        for base in [p, 5 * p / 2, 10 * p / 7] {
            for d in 0..60u64 {
                for t in [base.saturating_sub(d), base + d] {
                    if t <= u64::from(u32::MAX) {
                        samples.push(t as u32);
                    }
                }
            }
        }
    }
    for t in samples {
        assert_eq!(one_step(t), (f64::from(t) * 0.7).round() as u32, "at {t}");
    }
    assert_eq!(one_step(85), 59);
    assert_eq!(one_step(5), 4);
    assert_eq!(one_step(55), 39);
    assert_eq!(one_step(15), 11);
}

#[test]
fn water_marks_are_in_the_band() {
    let mut c = BitrateController::new(4000, 600);
    assert_eq!(c.sample(HIGH_WATER), 4000);
    c.sample(HIGH_WATER + 1);
    assert_eq!(c.sample(LOW_WATER), 2800);
    assert_eq!(c.sample(LOW_WATER), 2800);
    assert_eq!(c.sample(LOW_WATER), 2800);
}
