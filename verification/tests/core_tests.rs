use mbot::fixmath::PI_FIXED;
use mbot::fixmath::UNIT;
use mbot::normalize_angle;
use mbot::HomeostasisState;
use mbot::MBotBrain;
use mbot::MBotSensors;
use mbot::ReflexMode;

fn frame_with_distance(cm_fixed: i64) -> MBotSensors {
    MBotSensors { ultrasonic_cm: cm_fixed, ..Default::default() }
}

#[test]
fn test_reflex_modes() {
    // 0.1, 0.3, 0.7 and 0.9 in fixed point.
    assert_eq!(ReflexMode::from_tension(1_000), ReflexMode::Calm);
    assert_eq!(ReflexMode::from_tension(3_000), ReflexMode::Active);
    assert_eq!(ReflexMode::from_tension(7_000), ReflexMode::Spike);
    assert_eq!(ReflexMode::from_tension(9_000), ReflexMode::Protect);
}

#[test]
fn test_boundary_classification() {
    // The bands are half-open: each threshold belongs to the band above.
    assert_eq!(ReflexMode::from_tension(0), ReflexMode::Calm);
    assert_eq!(ReflexMode::from_tension(1_999), ReflexMode::Calm);
    assert_eq!(ReflexMode::from_tension(2_000), ReflexMode::Active);
    assert_eq!(ReflexMode::from_tension(5_499), ReflexMode::Active);
    assert_eq!(ReflexMode::from_tension(5_500), ReflexMode::Spike);
    assert_eq!(ReflexMode::from_tension(8_499), ReflexMode::Spike);
    assert_eq!(ReflexMode::from_tension(8_500), ReflexMode::Protect);
    assert_eq!(ReflexMode::from_tension(10_000), ReflexMode::Protect);
}

#[test]
fn test_led_colors() {
    assert_eq!(ReflexMode::Calm.led_color(), [0, 100, 255]);
    assert_eq!(ReflexMode::Active.led_color(), [0, 255, 100]);
    assert_eq!(ReflexMode::Spike.led_color(), [255, 200, 0]);
    assert_eq!(ReflexMode::Protect.led_color(), [255, 0, 0]);
}

#[test]
fn test_default_state() {
    let st = HomeostasisState::default();
    assert_eq!(st.tension, 0);
    assert_eq!(st.coherence, UNIT);
    assert_eq!(st.reflex, ReflexMode::Calm);
    assert_eq!(st.energy, UNIT / 2);
    assert_eq!(st.curiosity, UNIT / 2);
}

#[test]
fn test_brain_tick() {
    let mut brain = MBotBrain::new();
    // 50 cm ahead, everything else quiet.
    let sensors = frame_with_distance(50 * UNIT);

    let (state, cmd) = brain.tick(&sensors);

    assert!(state.tension >= 0 && state.tension <= UNIT);
    assert!(state.coherence >= 0 && state.coherence <= UNIT);
    assert!(cmd.left >= -100 && cmd.left <= 100);
    assert!(cmd.right >= -100 && cmd.right <= 100);
}

#[test]
fn test_tick_exact_values() {
    // One tick on an all-quiet frame, worked through the fusion formulas
    // by hand: no echo reads as an obstacle at 0 cm (proximity term 1.0)
    // and as a jump from the initial 100 cm (change term capped at 1.0),
    // so the raw tension is 0.5 + 0.2 = 0.7, smoothed by alpha 0.15 to
    // 0.105; the coherence fuses to 0.9401; energy recovers to its cap;
    // curiosity sits at its baseline.
    let mut brain = MBotBrain::new();
    let (state, cmd) = brain.tick(&MBotSensors::default());
    assert_eq!(state.tension, 1_050);
    assert_eq!(state.coherence, 9_401);
    assert_eq!(state.reflex, ReflexMode::Calm);
    assert_eq!(state.energy, UNIT);
    assert_eq!(state.curiosity, 2_000);
    // Calm policy: cruise at 0.6 of base speed 50 with full energy (30
    // power), split by the first wander sample.
    assert_eq!(cmd.left, 30);
    assert_eq!(cmd.right, 29);
    assert_eq!(cmd.pen_angle, 45);
    assert_eq!(cmd.led_color, [0, 100, 255]);
    assert_eq!(cmd.buzzer_hz, 0);
    assert_eq!(brain.tick_count(), 1);
    assert_eq!(brain.position(), (0, 0));
    assert_eq!(brain.heading(), 0);
}

#[test]
fn test_state_ranges_over_wild_frames() {
    // Out-of-range readings are conditioned, never rejected: the reported
    // state stays in range on every tick.
    let mut brain = MBotBrain::new();
    let frames = [
        MBotSensors {
            ultrasonic_cm: -50 * UNIT,
            sound_level: 30 * UNIT,
            accel: [i64::MAX / 4, i64::MIN / 4, 77],
            encoder_left: 1_000,
            encoder_right: -1_000,
            ..Default::default()
        },
        MBotSensors {
            ultrasonic_cm: 4_000 * UNIT,
            sound_level: -UNIT,
            accel: [0, 0, 98_000],
            encoder_left: i32::MIN,
            encoder_right: i32::MAX,
            ..Default::default()
        },
        frame_with_distance(0),
    ];
    for _round in 0..10 {
        for f in &frames {
            let (state, cmd) = brain.tick(f);
            assert!(state.tension >= 0 && state.tension <= UNIT);
            assert!(state.coherence >= 0 && state.coherence <= UNIT);
            assert!(state.energy >= 0 && state.energy <= UNIT);
            assert!(state.curiosity >= 0 && state.curiosity <= UNIT);
            assert!(cmd.left >= -100 && cmd.left <= 100);
            assert!(cmd.right >= -100 && cmd.right <= 100);
        }
    }
}

#[test]
fn test_command_powers_in_range_when_configured_fast() {
    // Even an extreme speed configuration cannot push a command power
    // outside [-100, 100]: the policy clamps last.
    let mut brain = MBotBrain::new();
    brain.configure(1_000_000_000, 1_000_000_000, 15 * UNIT);
    for i in 0i64..50 {
        let (_state, cmd) = brain.tick(&frame_with_distance((i % 120) * UNIT));
        assert!(cmd.left >= -100 && cmd.left <= 100);
        assert!(cmd.right >= -100 && cmd.right <= 100);
    }
}

#[test]
fn test_tick_determinism() {
    // Identical frame histories give identical state and mode sequences.
    let mut a = MBotBrain::new();
    let mut b = MBotBrain::new();
    for i in 0i64..40 {
        let f = MBotSensors {
            ultrasonic_cm: ((i * 13) % 200) * UNIT,
            sound_level: (i % 3) * 2_000,
            accel: [i * 100, -i * 50, 9_800],
            encoder_left: (2 * i) as i32,
            encoder_right: (3 * i) as i32,
            ..Default::default()
        };
        let (sa, ca) = a.tick(&f);
        let (sb, cb) = b.tick(&f);
        assert_eq!(sa.tension, sb.tension);
        assert_eq!(sa.coherence, sb.coherence);
        assert_eq!(sa.reflex, sb.reflex);
        assert_eq!(sa.energy, sb.energy);
        assert_eq!(sa.curiosity, sb.curiosity);
        assert_eq!(ca.left, cb.left);
        assert_eq!(ca.right, cb.right);
    }
    assert_eq!(a.position(), b.position());
    assert_eq!(a.heading(), b.heading());
}

#[test]
fn test_reflex_follows_smoothed_tension() {
    // The reported mode is always the classification of the reported
    // tension, tick after tick.
    let mut brain = MBotBrain::new();
    for i in 0..60 {
        let (state, _cmd) = brain.tick(&frame_with_distance((i % 7) * UNIT));
        assert_eq!(state.reflex, ReflexMode::from_tension(state.tension));
    }
}

#[test]
fn test_protect_policy_backs_away() {
    // Seed the smoothing state near the top of the scale: one close
    // obstacle then keeps the smoothed tension above the Protect
    // threshold, and the policy must reverse both wheels.
    let mut brain = MBotBrain::new();
    brain.tension_ema = 9_500;
    let (state, cmd) = brain.tick(&frame_with_distance(5 * UNIT));
    assert_eq!(state.reflex, ReflexMode::Protect);
    assert!(cmd.left < 0 && cmd.right < 0, "Should back up in Protect mode");
    assert_eq!(cmd.buzzer_hz, 440);
    assert_eq!(cmd.led_color, [255, 0, 0]);
}

#[test]
fn test_protect_needs_high_tension() {
    // A calm approach at 5 cm settles the smoothed tension near 0.475:
    // well inside Active, far from the Protect threshold.
    let mut brain = MBotBrain::new();
    let mut last_state = None;
    for _ in 0..200 {
        let (state, _cmd) = brain.tick(&frame_with_distance(5 * UNIT));
        last_state = Some(state);
    }
    let state = last_state.unwrap();
    assert_eq!(state.reflex, ReflexMode::Active);
    assert!(state.tension > 4_000 && state.tension < 5_500);
}

#[test]
fn test_pen_latch() {
    let mut brain = MBotBrain::new();
    let (_s, cmd) = brain.tick(&frame_with_distance(80 * UNIT));
    assert_eq!(cmd.pen_angle, 45);
    brain.set_pen(true);
    let (_s, cmd) = brain.tick(&frame_with_distance(80 * UNIT));
    assert_eq!(cmd.pen_angle, 90);
}

#[test]
fn test_energy_drains_and_recovers() {
    let mut brain = MBotBrain::new();
    brain.tension_ema = 9_000;
    // High tension: energy must fall from its full start.
    let (s1, _) = brain.tick(&frame_with_distance(5 * UNIT));
    assert_eq!(s1.energy, UNIT - 10);
    // Calm again: energy recovers at half the drain rate.
    brain.tension_ema = 0;
    brain.last_distance = 100 * UNIT;
    let (s2, _) = brain.tick(&frame_with_distance(100 * UNIT));
    assert_eq!(s2.energy, UNIT - 10 + 5);
}

#[test]
fn test_reset_position() {
    // Pose reset is total and touches nothing else.
    let mut brain = MBotBrain::new();
    for i in 0..5 {
        let f = MBotSensors {
            encoder_left: 40 * i,
            encoder_right: 25 * i,
            ultrasonic_cm: 60 * UNIT,
            ..Default::default()
        };
        brain.tick(&f);
    }
    assert!(brain.position() != (0, 0) || brain.heading() != 0);
    let ticks_before = brain.tick_count();
    brain.reset_position();
    assert_eq!(brain.position(), (0, 0));
    assert_eq!(brain.heading(), 0);
    assert_eq!(brain.tick_count(), ticks_before);
    // Resetting an already reset pose changes nothing.
    brain.reset_position();
    assert_eq!(brain.position(), (0, 0));
    assert_eq!(brain.heading(), 0);
}

#[test]
fn test_odometry_straight_line() {
    // Equal positive encoder deltas are pure translation along the
    // heading: with a zero heading, ten ticks per centimetre advance x
    // by exactly the travelled distance and leave y and heading alone.
    let mut brain = MBotBrain::new();
    let mut ticks: i32 = 0;
    for _ in 0..4 {
        ticks += 5;
        let f = MBotSensors { encoder_left: ticks, encoder_right: ticks, ..Default::default() };
        brain.tick(&f);
    }
    // 20 ticks at 10 ticks/cm = 2 cm forward.
    assert_eq!(brain.position(), (2 * UNIT, 0));
    assert_eq!(brain.heading(), 0);
}

#[test]
fn test_odometry_pure_rotation() {
    // Opposite deltas spin in place: the position stays at the origin
    // and the heading integrates the rotation.
    let mut brain = MBotBrain::new();
    let f = MBotSensors { encoder_left: -50, encoder_right: 50, ..Default::default() };
    brain.tick(&f);
    // Displacements are -5 cm and +5 cm: rotation = 10 cm / 10 cm = 1 rad.
    assert_eq!(brain.heading(), UNIT);
    assert_eq!(brain.position(), (0, 0));
}

#[test]
fn test_normalize_angle() {
    assert_eq!(normalize_angle(0), 0);
    assert_eq!(normalize_angle(PI_FIXED), PI_FIXED);
    assert_eq!(normalize_angle(3 * PI_FIXED), PI_FIXED);
    assert_eq!(normalize_angle(-3 * PI_FIXED), -PI_FIXED);
}
