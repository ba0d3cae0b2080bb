//! Data model of the control core: the per-tick sensor frame, the
//! homeostasis state it is fused into, the discrete reflex mode, and the
//! motor/actuator command the policy emits.
//!
//! Fractional fields are fixed-point integers in `fixmath::UNIT` scale
//! (`UNIT` is 1.0): distances are centimetres times `UNIT`, angles radians
//! times `UNIT`, and the levels in `[0, 1]` run from `0` to `UNIT`.

use vstd::prelude::*;

verus! {

use crate::fixmath::UNIT;
use crate::fixmath::clamp_spec;

/// Largest conditioned obstacle distance: 400 cm in fixed point.
pub const DIST_LIMIT: i64 = 4_000_000;

/// Largest conditioned accelerometer component magnitude, in fixed point.
pub const ACCEL_LIMIT: i64 = 1_000_000;

/// Smoothed tension at or above this is `Active` (0.20).
pub const TENSION_ACTIVE: i64 = 2_000;

/// Smoothed tension at or above this is `Spike` (0.55).
pub const TENSION_SPIKE: i64 = 5_500;

/// Smoothed tension at or above this is `Protect` (0.85).
pub const TENSION_PROTECT: i64 = 8_500;

/// One normalized snapshot of all onboard sensors for a tick.
#[derive(Clone, Debug)]
pub struct MBotSensors {
    /// Monotonic tick time in microseconds.
    pub timestamp_us: u64,
    /// Forward obstacle distance, centimetres in `UNIT` scale; plausible
    /// readings lie in `[0, 400]` cm and 0 means no echo.
    pub ultrasonic_cm: i64,
    /// Cumulative left wheel encoder ticks.
    pub encoder_left: i32,
    /// Cumulative right wheel encoder ticks.
    pub encoder_right: i32,
    /// Reflectance sensors, unused by the control core itself.
    pub quad_rgb: [[u8; 3]; 4],
    /// Yaw rate in `UNIT` scale; positive turns one fixed direction.
    pub gyro_z: i64,
    /// Accelerometer vector including gravity, `UNIT` scale per axis.
    pub accel: [i64; 3],
    /// Microphone level in `[0, UNIT]`.
    pub sound_level: i64,
    /// Light sensor level in `[0, UNIT]`.
    pub light_level: i64,
}

impl Default for MBotSensors {
    /// An all-quiet frame: every reading zero.
    fn default() -> (r: Self)
        ensures
            r.timestamp_us == 0,
            r.ultrasonic_cm == 0,
            r.encoder_left == 0,
            r.encoder_right == 0,
            r.quad_rgb == [[0u8, 0u8, 0u8], [0u8, 0u8, 0u8], [0u8, 0u8, 0u8], [0u8, 0u8, 0u8]],
            r.gyro_z == 0,
            r.accel == [0i64, 0i64, 0i64],
            r.sound_level == 0,
            r.light_level == 0,
    {
        MBotSensors {
            timestamp_us: 0,
            ultrasonic_cm: 0,
            encoder_left: 0,
            encoder_right: 0,
            quad_rgb: [[0u8, 0u8, 0u8], [0u8, 0u8, 0u8], [0u8, 0u8, 0u8], [0u8, 0u8, 0u8]],
            gyro_z: 0,
            accel: [0i64, 0i64, 0i64],
            sound_level: 0,
            light_level: 0,
        }
    }
}

/// An out-of-range obstacle reading conditioned into the documented
/// `[0, 400]` cm band before fusion.
pub open spec fn cond_distance(d: int) -> int {
    clamp_spec(d, 0, DIST_LIMIT as int)
}

/// A level reading conditioned into its documented `[0, 1]` band.
pub open spec fn cond_unit(s: int) -> int {
    clamp_spec(s, 0, UNIT as int)
}

/// An accelerometer component conditioned into the band the fusion
/// arithmetic is sized for; the movement term saturates far below it.
pub open spec fn cond_accel(a: int) -> int {
    clamp_spec(a, -ACCEL_LIMIT as int, ACCEL_LIMIT as int)
}

/// Discrete behavioral regime, ordered by rising tension.
#[derive(Clone, Copy, Debug, PartialEq, Eq, Structural)]
pub enum ReflexMode {
    /// Tension below 0.20: relaxed wandering.
    Calm,
    /// Tension in [0.20, 0.55): active exploration.
    Active,
    /// Tension in [0.55, 0.85): heightened response.
    Spike,
    /// Tension at or above 0.85: protective mode, back away.
    Protect,
}

/// The four disjoint tension bands; a pure function of the smoothed
/// tension alone, with no hysteresis.
pub open spec fn classify(t: int) -> ReflexMode {
    if t >= TENSION_PROTECT {
        ReflexMode::Protect
    } else if t >= TENSION_SPIKE {
        ReflexMode::Spike
    } else if t >= TENSION_ACTIVE {
        ReflexMode::Active
    } else {
        ReflexMode::Calm
    }
}

/// The fixed per-mode LED color table.
pub open spec fn led_color_spec(m: ReflexMode) -> [u8; 3] {
    match m {
        ReflexMode::Calm => [0u8, 100u8, 255u8],
        ReflexMode::Active => [0u8, 255u8, 100u8],
        ReflexMode::Spike => [255u8, 200u8, 0u8],
        ReflexMode::Protect => [255u8, 0u8, 0u8],
    }
}

impl ReflexMode {
    /// Classify a smoothed fixed-point tension value into its band.
    pub fn from_tension(tension: i64) -> (r: Self)
        ensures
            r == classify(tension as int),
    {
        if tension >= TENSION_PROTECT {
            ReflexMode::Protect
        } else if tension >= TENSION_SPIKE {
            ReflexMode::Spike
        } else if tension >= TENSION_ACTIVE {
            ReflexMode::Active
        } else {
            ReflexMode::Calm
        }
    }

    /// The LED color of this mode: cool blue, green, amber or red.
    pub fn led_color(&self) -> (r: [u8; 3])
        ensures
            r == led_color_spec(*self),
    {
        match self {
            ReflexMode::Calm => [0u8, 100u8, 255u8],
            ReflexMode::Active => [0u8, 255u8, 100u8],
            ReflexMode::Spike => [255u8, 200u8, 0u8],
            ReflexMode::Protect => [255u8, 0u8, 0u8],
        }
    }
}

/// The robot's "feeling" for one tick, recomputed from scratch every tick.
#[derive(Clone, Debug)]
pub struct HomeostasisState {
    /// Smoothed deviation from equilibrium, in `[0, UNIT]`.
    pub tension: i64,
    /// Smoothed stability estimate, in `[0, UNIT]`.
    pub coherence: i64,
    /// The classification of the current `tension`; never stale.
    pub reflex: ReflexMode,
    /// Slowly draining and recovering resource, in `[0, UNIT]`.
    pub energy: i64,
    /// Exploration drive, derived each tick, in `[0, UNIT]`.
    pub curiosity: i64,
}

impl HomeostasisState {
    /// Every field clamped to its documented range and the reflex mode in
    /// step with the tension.
    pub open spec fn wf(self) -> bool {
        &&& 0 <= self.tension <= UNIT
        &&& 0 <= self.coherence <= UNIT
        &&& 0 <= self.energy <= UNIT
        &&& 0 <= self.curiosity <= UNIT
        &&& self.reflex == classify(self.tension as int)
    }
}

impl Default for HomeostasisState {
    /// The state before any frame was fused: no tension, full coherence,
    /// half energy and half curiosity.
    fn default() -> (r: Self)
        ensures
            r.tension == 0,
            r.coherence == UNIT,
            r.reflex == ReflexMode::Calm,
            r.energy == UNIT / 2,
            r.curiosity == UNIT / 2,
            r.wf(),
    {
        HomeostasisState {
            tension: 0,
            coherence: UNIT,
            reflex: ReflexMode::Calm,
            energy: UNIT / 2,
            curiosity: UNIT / 2,
        }
    }
}

/// Motor and actuator command for one tick, consumed by the transport.
#[derive(Clone, Debug)]
pub struct MotorCommand {
    /// Left motor power in `[-100, 100]`; the sign is the direction.
    pub left: i8,
    /// Right motor power in `[-100, 100]`; the sign is the direction.
    pub right: i8,
    /// Pen servo angle: 90 when the pen is engaged, 45 when retracted.
    pub pen_angle: u8,
    /// LED color, a function of the reflex mode alone.
    pub led_color: [u8; 3],
    /// Buzzer frequency: the alert tone in `Protect`, otherwise 0.
    pub buzzer_hz: u16,
}

impl MotorCommand {
    /// Motor powers inside the band the wire format can carry.
    pub open spec fn wf(self) -> bool {
        &&& -100 <= self.left <= 100
        &&& -100 <= self.right <= 100
    }
}

impl Default for MotorCommand {
    /// The idle command: no drive, pen retracted, lights and buzzer off.
    fn default() -> (r: Self)
        ensures
            r.left == 0,
            r.right == 0,
            r.pen_angle == 0,
            r.led_color == [0u8, 0u8, 0u8],
            r.buzzer_hz == 0,
            r.wf(),
    {
        MotorCommand { left: 0, right: 0, pen_angle: 0, led_color: [0u8, 0u8, 0u8], buzzer_hz: 0 }
    }
}

} // verus!
