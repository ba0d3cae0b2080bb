//! The homeostatic control loop: fusion of a sensor frame into smoothed
//! tension and coherence, energy bookkeeping, reflex classification,
//! per-mode command synthesis, and dead-reckoning odometry.
//!
//! Every step of a tick is specified as a spec function of the brain's
//! prior state and the incoming frame, and `tick` promises that the new
//! brain state and both outputs equal those functions: one tick is a pure,
//! deterministic function of what came before it.

use vstd::prelude::*;

verus! {

use vstd::arithmetic::div_mod::lemma_div_is_ordered;
use vstd::arithmetic::div_mod::lemma_div_multiples_vanish;
use vstd::math::abs;

use crate::fixmath::UNIT;
use crate::fixmath::clamp_spec;
use crate::fixmath::clamp64;
use crate::fixmath::sat_add_spec;
use crate::fixmath::sat_add64;
use crate::fixmath::div_floor;
use crate::fixmath::lemma_div_in_range;
use crate::fixmath::isqrt;
use crate::fixmath::isqrt_spec;
use crate::fixmath::sin_spec;
use crate::fixmath::cos_spec;
use crate::fixmath::sin_fp;
use crate::fixmath::cos_fp;
use crate::fixmath::phase_spec;
use crate::fixmath::phase_fp;

use crate::state::MBotSensors;
use crate::state::MotorCommand;
use crate::state::HomeostasisState;
use crate::state::ReflexMode;
use crate::state::classify;
use crate::state::led_color_spec;
use crate::state::cond_distance;
use crate::state::cond_unit;
use crate::state::cond_accel;
use crate::state::DIST_LIMIT;
use crate::state::ACCEL_LIMIT;

/// Encoder ticks per centimetre of wheel travel (calibration constant).
pub const TICKS_PER_CM: i64 = 10;

/// Distance between the wheels in centimetres.
pub const WHEEL_BASE_CM: i64 = 10;

/// Wheel travel per encoder tick in fixed point: `UNIT` over
/// `TICKS_PER_CM`.
pub const DIST_PER_TICK: i64 = 1_000;

/// Cap on the configurable speed and gain parameters (a machine limit:
/// products with unit-scale factors must fit the word size).
pub const PARAM_LIMIT: i64 = 1_000_000_000;

/// Cap on the configurable distance parameters (a machine limit).
pub const RANGE_LIMIT: i64 = 1_000_000_000_000;

/// Alert tone emitted while the reflex mode is `Protect`.
pub const ALERT_HZ: u16 = 440;

/// The proximity tension term: closer obstacles raise tension linearly,
/// capped at the 100 cm horizon, `0` beyond it.
pub open spec fn proximity_term(d: int) -> int {
    if d < 100 * UNIT {
        (100 * UNIT - d) / 100
    } else {
        0
    }
}

/// The sudden-change tension term: distance jumps in either direction,
/// one unit per 50 cm of jump, capped at one unit.
pub open spec fn change_term(d: int, last: int) -> int {
    let c = abs(d - last) as int / 50;
    if c > UNIT {
        UNIT as int
    } else {
        c
    }
}

/// The sound tension term: half the microphone level.
pub open spec fn sound_term(s: int) -> int {
    s / 2
}

/// The movement tension term: the accelerometer vector norm (gravity
/// included), one unit per 20 norm units, capped at one unit.
pub open spec fn movement_term(a0: int, a1: int, a2: int) -> int {
    let m = isqrt_spec(a0 * a0 + a1 * a1 + a2 * a2) / 20;
    if m > UNIT {
        UNIT as int
    } else {
        m
    }
}

/// Combined raw tension of one frame: the weighted sum of the four terms
/// (proximity 0.5, change 0.2, sound 0.15, movement 0.15), capped at one.
pub open spec fn raw_tension_spec(b: MBotBrain, f: MBotSensors) -> int {
    let d = cond_distance(f.ultrasonic_cm as int);
    let raw = (5_000 * proximity_term(d) + 2_000 * change_term(d, b.last_distance as int) + 1_500
        * sound_term(cond_unit(f.sound_level as int)) + 1_500 * movement_term(
        cond_accel(f.accel[0] as int),
        cond_accel(f.accel[1] as int),
        cond_accel(f.accel[2] as int),
    )) / (UNIT as int);
    if raw > UNIT {
        UNIT as int
    } else {
        raw
    }
}

/// One step of exponential smoothing with blend factor `alpha`.
pub open spec fn ema_spec(alpha: int, raw: int, prev: int) -> int {
    (alpha * raw + (UNIT - alpha) * prev) / (UNIT as int)
}

/// The smoothed tension after fusing frame `f`.
pub open spec fn next_tension(b: MBotBrain, f: MBotSensors) -> int {
    ema_spec(b.alpha as int, raw_tension_spec(b, f), b.tension_ema as int)
}

/// How far this frame's raw tension sits from the new smoothed tension.
pub open spec fn instability_spec(b: MBotBrain, f: MBotSensors) -> int {
    abs(raw_tension_spec(b, f) - next_tension(b, f)) as int
}

/// Raw coherence of one frame: high or unstable tension depresses it
/// (weights 0.4 on the smoothed tension, 0.6 on the instability).
pub open spec fn raw_coherence_spec(b: MBotBrain, f: MBotSensors) -> int {
    UNIT - (next_tension(b, f) * 4_000 + instability_spec(b, f) * 6_000) / (UNIT as int)
}

/// The smoothed coherence after fusing frame `f`.
pub open spec fn next_coherence(b: MBotBrain, f: MBotSensors) -> int {
    ema_spec(b.alpha as int, raw_coherence_spec(b, f), b.coherence_ema as int)
}

/// The energy after one tick: drains while smoothed tension is high
/// (floored at 0.1), recovers half as fast otherwise (capped at 1).
pub open spec fn next_energy(b: MBotBrain, f: MBotSensors) -> int {
    if next_tension(b, f) > 5_000 {
        let e = b.energy - 10;
        if e < 1_000 {
            1_000
        } else {
            e
        }
    } else {
        let e = b.energy + 5;
        if e > UNIT {
            UNIT as int
        } else {
            e
        }
    }
}

/// The curiosity of this tick: raised by coherence and novelty while the
/// smoothed tension is moderate, a fixed baseline of 0.2 otherwise.
pub open spec fn curiosity_spec(b: MBotBrain, f: MBotSensors) -> int {
    let t = next_tension(b, f);
    if 2_000 < t && t < 6_000 {
        let d = cond_distance(f.ultrasonic_cm as int);
        let c = (next_coherence(b, f) * 7_000 + change_term(d, b.last_distance as int) * 3_000) / (
        UNIT as int);
        if c > UNIT {
            UNIT as int
        } else {
            c
        }
    } else {
        2_000
    }
}

/// The homeostasis state reported for this tick: the smoothed values
/// clamped to their documented ranges, the reflex mode classified from
/// the current smoothed tension.
pub open spec fn tick_state_spec(b: MBotBrain, f: MBotSensors) -> HomeostasisState {
    HomeostasisState {
        tension: clamp_spec(next_tension(b, f), 0, UNIT as int) as i64,
        coherence: clamp_spec(next_coherence(b, f), 0, UNIT as int) as i64,
        reflex: classify(next_tension(b, f)),
        energy: next_energy(b, f) as i64,
        curiosity: curiosity_spec(b, f) as i64,
    }
}

/// Left wheel encoder movement since the previous tick.
pub open spec fn left_delta(b: MBotBrain, f: MBotSensors) -> int {
    f.encoder_left - b.last_encoder_left
}

/// Right wheel encoder movement since the previous tick.
pub open spec fn right_delta(b: MBotBrain, f: MBotSensors) -> int {
    f.encoder_right - b.last_encoder_right
}

/// Forward displacement of this tick: the average of the two wheel
/// displacements, in fixed-point centimetres.
pub open spec fn forward_disp(b: MBotBrain, f: MBotSensors) -> int {
    (left_delta(b, f) + right_delta(b, f)) * (DIST_PER_TICK / 2)
}

/// Rotation of this tick in fixed-point radians: the wheel displacement
/// difference over the wheel base.
pub open spec fn rotation_disp(b: MBotBrain, f: MBotSensors) -> int {
    (right_delta(b, f) - left_delta(b, f)) * (DIST_PER_TICK / WHEEL_BASE_CM)
}

/// The heading after integrating this tick's rotation (saturating at the
/// representable extremes, which wheel motion cannot reach in practice).
pub open spec fn next_heading(b: MBotBrain, f: MBotSensors) -> int {
    sat_add_spec(b.heading as int, rotation_disp(b, f))
}

/// The x position after moving the forward displacement along the new
/// heading.
pub open spec fn next_pos_x(b: MBotBrain, f: MBotSensors) -> int {
    sat_add_spec(
        b.position.0 as int,
        forward_disp(b, f) * cos_spec(next_heading(b, f)) / (UNIT as int),
    )
}

/// The y position after moving the forward displacement along the new
/// heading.
pub open spec fn next_pos_y(b: MBotBrain, f: MBotSensors) -> int {
    sat_add_spec(
        b.position.1 as int,
        forward_disp(b, f) * sin_spec(next_heading(b, f)) / (UNIT as int),
    )
}

/// A raw fixed-point power level brought down to a motor power in
/// `[-100, 100]`.
pub open spec fn to_power(v: int) -> int {
    clamp_spec(v / (UNIT as int), -100, 100)
}

/// The left and right fixed-point power levels of the per-mode steering
/// policy, before the final clamp; `b` and `st` are the brain and state
/// after fusion, so `b.tick_count` is this tick's phase input.
pub open spec fn drive_levels(b: MBotBrain, f: MBotSensors, st: HomeostasisState) -> (int, int) {
    let d = cond_distance(f.ultrasonic_cm as int);
    let t = b.tick_count as int;
    match st.reflex {
        ReflexMode::Calm => {
            let wander = sin_spec(phase_spec(t, 500)) * 10;
            let speed = b.base_speed * 6 / 10 * st.energy / (UNIT as int);
            (speed + wander, speed - wander)
        },
        ReflexMode::Active => {
            let turn = if d < b.approach_distance {
                st.curiosity * b.turn_gain / (UNIT as int)
            } else {
                sin_spec(phase_spec(t, 1_000)) * 20
            };
            let speed = b.base_speed * 8 / 10 * st.energy / (UNIT as int);
            (speed - turn, speed + turn)
        },
        ReflexMode::Spike => {
            let excitement = st.tension * 30;
            let speed = b.base_speed * st.energy / (UNIT as int) + excitement;
            let turn = if d < 30 * UNIT {
                40 * (UNIT as int)
            } else {
                sin_spec(phase_spec(t, 2_000)) * 25
            };
            (speed - turn, speed + turn)
        },
        ReflexMode::Protect => {
            if d < b.danger_distance {
                (-60 * (UNIT as int), -60 * (UNIT as int))
            } else {
                (-30 * (UNIT as int), 50 * (UNIT as int))
            }
        },
    }
}

/// The full motor command of one tick: the steering pair clamped into
/// `[-100, 100]`, the pen angle from the latch, the LED color from the
/// mode table, and the alert tone only in `Protect`.
pub open spec fn command_from(b: MBotBrain, f: MBotSensors, st: HomeostasisState) -> MotorCommand {
    let levels = drive_levels(b, f, st);
    MotorCommand {
        left: to_power(levels.0) as i8,
        right: to_power(levels.1) as i8,
        pen_angle: if b.pen_down {
            90
        } else {
            45
        },
        led_color: led_color_spec(st.reflex),
        buzzer_hz: if st.reflex == ReflexMode::Protect {
            ALERT_HZ
        } else {
            0
        },
    }
}

/// The whole brain after one tick: smoothing state, energy, history and
/// pose advanced by frame `f`; tuning, latch and blend factor unchanged.
pub open spec fn next_brain(b: MBotBrain, f: MBotSensors) -> MBotBrain {
    MBotBrain {
        tension_ema: next_tension(b, f) as i64,
        coherence_ema: next_coherence(b, f) as i64,
        last_distance: cond_distance(f.ultrasonic_cm as int) as i64,
        last_encoder_left: f.encoder_left,
        last_encoder_right: f.encoder_right,
        position: (next_pos_x(b, f) as i64, next_pos_y(b, f) as i64),
        heading: next_heading(b, f) as i64,
        energy: next_energy(b, f) as i64,
        tick_count: (b.tick_count + 1) as u64,
        ..b
    }
}

/// The motor command of one tick, as a function of the prior brain state
/// and the frame alone.
pub open spec fn tick_command_spec(b: MBotBrain, f: MBotSensors) -> MotorCommand {
    command_from(next_brain(b, f), f, tick_state_spec(b, f))
}

/// A unit-scale numerator divided by the scale stays a unit-scale value.
proof fn lemma_unit_frac_bounds(num: int)
    requires
        0 <= num <= UNIT * UNIT,
    ensures
        0 <= num / (UNIT as int) <= UNIT,
{
    lemma_div_is_ordered(num, UNIT * UNIT, UNIT as int);
    lemma_div_multiples_vanish(UNIT as int, UNIT as int);
    lemma_div_in_range(num, UNIT as int);
}

/// The two products of an exponential smoothing step are unit-scale.
proof fn lemma_ema_num(alpha: int, raw: int, prev: int)
    by (nonlinear_arith)
    requires
        0 <= alpha <= UNIT,
        0 <= raw <= UNIT,
        0 <= prev <= UNIT,
    ensures
        0 <= alpha * raw <= UNIT * UNIT,
        0 <= (UNIT - alpha) * prev <= UNIT * UNIT,
        0 <= alpha * raw + (UNIT - alpha) * prev <= UNIT * UNIT,
{
}

/// Exponential smoothing never overshoots: the smoothed value stays
/// between the previous value and the raw value, so a sustained stimulus
/// ratchets the smoothed tension toward its raw level and a persistent
/// calm lets it fall back, never past either.
pub proof fn lemma_ema_between(alpha: int, raw: int, prev: int)
    requires
        0 <= alpha <= UNIT,
        0 <= raw <= UNIT,
        0 <= prev <= UNIT,
    ensures
        prev <= raw ==> prev <= ema_spec(alpha, raw, prev) <= raw,
        raw <= prev ==> raw <= ema_spec(alpha, raw, prev) <= prev,
{
    let num = alpha * raw + (UNIT - alpha) * prev;
    let lo = if prev <= raw {
        prev
    } else {
        raw
    };
    let hi = if prev <= raw {
        raw
    } else {
        prev
    };
    assert(lo * UNIT <= num <= hi * UNIT) by (nonlinear_arith)
        requires
            num == alpha * raw + (UNIT - alpha) * prev,
            0 <= alpha <= UNIT,
            lo <= raw <= hi,
            lo <= prev <= hi,
    ;
    lemma_div_is_ordered(lo * UNIT, num, UNIT as int);
    lemma_div_is_ordered(num, hi * UNIT, UNIT as int);
    assert((lo * UNIT) / (UNIT as int) == lo) by {
        vstd::arithmetic::mul::lemma_mul_is_commutative(lo, UNIT as int);
        lemma_div_multiples_vanish(lo, UNIT as int);
    }
    assert((hi * UNIT) / (UNIT as int) == hi) by {
        vstd::arithmetic::mul::lemma_mul_is_commutative(hi, UNIT as int);
        lemma_div_multiples_vanish(hi, UNIT as int);
    }
}

/// One tick is deterministic: two brains in the same state fed the same
/// frame report the same homeostasis state and command and end in the
/// same state, so identical frame histories always yield identical mode
/// sequences.
pub proof fn lemma_tick_deterministic(b1: MBotBrain, b2: MBotBrain, f: MBotSensors)
    requires
        b1 == b2,
    ensures
        tick_state_spec(b1, f) == tick_state_spec(b2, f),
        tick_command_spec(b1, f) == tick_command_spec(b2, f),
        next_brain(b1, f) == next_brain(b2, f),
{
}

/// In `Protect` the command always retreats: the left wheel reverses in
/// both branches of the policy, and when the obstacle is inside the
/// danger distance both wheels reverse (the robot backs straight away).
pub proof fn lemma_protect_backs_away(b: MBotBrain, f: MBotSensors)
    requires
        b.wf(),
        tick_state_spec(b, f).reflex == ReflexMode::Protect,
    ensures
        tick_command_spec(b, f).left < 0,
        cond_distance(f.ultrasonic_cm as int) < next_brain(b, f).danger_distance
            ==> tick_command_spec(b, f).right < 0,
        tick_command_spec(b, f).buzzer_hz == ALERT_HZ,
{
    assert(to_power(-60 * (UNIT as int)) == -60);
    assert(to_power(-30 * (UNIT as int)) == -30);
    assert(to_power(50 * (UNIT as int)) == 50);
}

/// Equal encoder deltas are pure translation: the rotation term is zero,
/// the heading is untouched, and the position advances by the forward
/// displacement along the existing heading.
pub proof fn lemma_odometry_straight(b: MBotBrain, f: MBotSensors)
    requires
        b.wf(),
        left_delta(b, f) == right_delta(b, f),
    ensures
        rotation_disp(b, f) == 0,
        next_heading(b, f) == b.heading,
        next_pos_x(b, f) == sat_add_spec(
            b.position.0 as int,
            forward_disp(b, f) * cos_spec(b.heading as int) / (UNIT as int),
        ),
        next_pos_y(b, f) == sat_add_spec(
            b.position.1 as int,
            forward_disp(b, f) * sin_spec(b.heading as int) / (UNIT as int),
        ),
{
}

/// Driving both encoders by the same positive delta from a zero heading
/// advances the position along the x axis by exactly the forward
/// displacement, with the heading and the y position unchanged.
pub proof fn lemma_odometry_round_trip(b: MBotBrain, f: MBotSensors)
    requires
        b.wf(),
        b.heading == 0,
        left_delta(b, f) == right_delta(b, f),
        i64::MIN <= b.position.0 + forward_disp(b, f) <= i64::MAX,
    ensures
        next_heading(b, f) == 0,
        next_pos_x(b, f) == b.position.0 + forward_disp(b, f),
        next_pos_y(b, f) == b.position.1,
{
    lemma_odometry_straight(b, f);
    crate::fixmath::lemma_trig_anchors();
    let fwd = forward_disp(b, f);
    assert(fwd * cos_spec(0) / (UNIT as int) == fwd) by {
        vstd::arithmetic::mul::lemma_mul_is_commutative(fwd, UNIT as int);
        lemma_div_multiples_vanish(fwd, UNIT as int);
    }
    assert(fwd * sin_spec(0) / (UNIT as int) == 0) by {
        assert(fwd * 0 == 0);
    }
}

/// The core nervous system: all per-instance state of the control loop.
///
/// Exactly one owner drives ticks; the struct has no interior locking.
pub struct MBotBrain {
    /// Smoothed tension, in `[0, UNIT]`.
    pub tension_ema: i64,
    /// Smoothed coherence, in `[0, UNIT]`.
    pub coherence_ema: i64,
    /// Smoothing blend factor, in `[0, UNIT]`; fixed at construction.
    pub alpha: i64,
    /// Previous conditioned obstacle distance, for the change term.
    pub last_distance: i64,
    /// Previous left encoder reading, for the odometry delta.
    pub last_encoder_left: i32,
    /// Previous right encoder reading, for the odometry delta.
    pub last_encoder_right: i32,
    /// Cruise speed parameter, power in fixed point.
    pub base_speed: i64,
    /// Steering gain parameter, power in fixed point.
    pub turn_gain: i64,
    /// Distance under which `Active` investigates, fixed-point cm.
    pub approach_distance: i64,
    /// Distance under which `Protect` backs straight up, fixed-point cm.
    pub danger_distance: i64,
    /// Actuator latch set by the caller, read by the command policy.
    pub pen_down: bool,
    /// Dead-reckoned position in fixed-point centimetres.
    pub position: (i64, i64),
    /// Dead-reckoned heading in fixed-point radians; not normalized.
    pub heading: i64,
    /// Energy resource, in `[0, UNIT]`; mutated only by fusion.
    pub energy: i64,
    /// Ticks processed so far; the phase input of the wander terms.
    pub tick_count: u64,
}

impl MBotBrain {
    /// The internal invariant: smoothing state, energy and history in
    /// their documented ranges, tuning parameters under their caps.
    pub open spec fn wf(self) -> bool {
        &&& 0 <= self.tension_ema <= UNIT
        &&& 0 <= self.coherence_ema <= UNIT
        &&& 0 <= self.alpha <= UNIT
        &&& 0 <= self.energy <= UNIT
        &&& 0 <= self.last_distance <= DIST_LIMIT
        &&& 0 <= self.base_speed <= PARAM_LIMIT
        &&& 0 <= self.turn_gain <= PARAM_LIMIT
        &&& 0 <= self.approach_distance <= RANGE_LIMIT
        &&& 0 <= self.danger_distance <= RANGE_LIMIT
    }

    /// A fresh brain: no tension, full coherence and energy, the default
    /// tuning (speed 50, gain 30, approach 50 cm, danger 15 cm), the pen
    /// up, and the pose at the origin.
    pub fn new() -> (r: Self)
        ensures
            r.wf(),
            r.tension_ema == 0,
            r.coherence_ema == UNIT,
            r.alpha == 1_500,
            r.last_distance == 100 * UNIT,
            r.last_encoder_left == 0,
            r.last_encoder_right == 0,
            r.base_speed == 50 * UNIT,
            r.turn_gain == 30 * UNIT,
            r.approach_distance == 50 * UNIT,
            r.danger_distance == 15 * UNIT,
            !r.pen_down,
            r.position == (0i64, 0i64),
            r.heading == 0,
            r.energy == UNIT,
            r.tick_count == 0,
    {
        MBotBrain {
            tension_ema: 0,
            coherence_ema: UNIT,
            alpha: 1_500,
            last_distance: 100 * UNIT,
            last_encoder_left: 0,
            last_encoder_right: 0,
            base_speed: 50 * UNIT,
            turn_gain: 30 * UNIT,
            approach_distance: 50 * UNIT,
            danger_distance: 15 * UNIT,
            pen_down: false,
            position: (0, 0),
            heading: 0,
            energy: UNIT,
            tick_count: 0,
        }
    }

    /// Reconfigure the behavior parameters; takes effect from the next
    /// tick on.  The caps are machine limits, not behavior limits.
    pub fn configure(&mut self, base_speed: i64, turn_gain: i64, danger_dist: i64)
        requires
            old(self).wf(),
            0 <= base_speed <= PARAM_LIMIT,
            0 <= turn_gain <= PARAM_LIMIT,
            0 <= danger_dist <= RANGE_LIMIT,
        ensures
            final(self).wf(),
            final(self).base_speed == base_speed,
            final(self).turn_gain == turn_gain,
            final(self).danger_distance == danger_dist,
            final(self).tension_ema == old(self).tension_ema,
            final(self).coherence_ema == old(self).coherence_ema,
            final(self).alpha == old(self).alpha,
            final(self).last_distance == old(self).last_distance,
            final(self).last_encoder_left == old(self).last_encoder_left,
            final(self).last_encoder_right == old(self).last_encoder_right,
            final(self).approach_distance == old(self).approach_distance,
            final(self).pen_down == old(self).pen_down,
            final(self).position == old(self).position,
            final(self).heading == old(self).heading,
            final(self).energy == old(self).energy,
            final(self).tick_count == old(self).tick_count,
    {
        self.base_speed = base_speed;
        self.turn_gain = turn_gain;
        self.danger_distance = danger_dist;
    }

    /// Set the pen latch; nothing else changes.
    pub fn set_pen(&mut self, down: bool)
        requires
            old(self).wf(),
        ensures
            *final(self) == (MBotBrain { pen_down: down, ..*old(self) }),
            final(self).wf(),
    {
        self.pen_down = down;
    }

    /// The current dead-reckoned position estimate.
    pub fn position(&self) -> (r: (i64, i64))
        ensures
            r == self.position,
    {
        self.position
    }

    /// The current dead-reckoned heading in fixed-point radians.
    pub fn heading(&self) -> (r: i64)
        ensures
            r == self.heading,
    {
        self.heading
    }

    /// Zero the pose estimate; tension, energy and the tick counter are
    /// untouched.
    pub fn reset_position(&mut self)
        requires
            old(self).wf(),
        ensures
            *final(self) == (MBotBrain { position: (0i64, 0i64), heading: 0i64, ..*old(self) }),
            final(self).wf(),
    {
        self.position = (0, 0);
        self.heading = 0;
    }

    /// How many ticks this brain has processed.
    pub fn tick_count(&self) -> (r: u64)
        ensures
            r == self.tick_count,
    {
        self.tick_count
    }

    /// Integrate this frame's encoder deltas into the pose: per-wheel
    /// displacement from the tick calibration, rotation from the wheel
    /// difference over the wheel base, translation along the new heading.
    fn update_odometry(&mut self, sensors: &MBotSensors)
        requires
            old(self).wf(),
        ensures
            *final(self) == (MBotBrain {
                heading: next_heading(*old(self), *sensors) as i64,
                position: (
                    next_pos_x(*old(self), *sensors) as i64,
                    next_pos_y(*old(self), *sensors) as i64,
                ),
                ..*old(self)
            }),
            final(self).wf(),
    {
        let ld = (sensors.encoder_left as i64) - (self.last_encoder_left as i64);
        let rd = (sensors.encoder_right as i64) - (self.last_encoder_right as i64);
        let forward = (ld + rd) * (DIST_PER_TICK / 2);
        let rotation = (rd - ld) * (DIST_PER_TICK / WHEEL_BASE_CM);
        self.heading = sat_add64(self.heading, rotation);
        let c = cos_fp(self.heading);
        let s = sin_fp(self.heading);
        proof {
            assert(-43_000_000_000_000_000int <= forward * c <= 43_000_000_000_000_000int
                && -43_000_000_000_000_000int <= forward * s <= 43_000_000_000_000_000int)
                by (nonlinear_arith)
                requires
                    -4_300_000_000_000int <= forward <= 4_300_000_000_000int,
                    -UNIT <= (c as int) <= UNIT,
                    -UNIT <= (s as int) <= UNIT,
            ;
        }
        let dx = div_floor(forward * c, UNIT);
        let dy = div_floor(forward * s, UNIT);
        self.position.0 = sat_add64(self.position.0, dx);
        self.position.1 = sat_add64(self.position.1, dy);
    }

    /// Fuse one frame into the smoothing state and energy, and report the
    /// homeostasis state of this tick.
    fn compute_homeostasis(&mut self, sensors: &MBotSensors) -> (st: HomeostasisState)
        requires
            old(self).wf(),
        ensures
            *final(self) == (MBotBrain {
                tension_ema: next_tension(*old(self), *sensors) as i64,
                coherence_ema: next_coherence(*old(self), *sensors) as i64,
                energy: next_energy(*old(self), *sensors) as i64,
                ..*old(self)
            }),
            final(self).wf(),
            st == tick_state_spec(*old(self), *sensors),
            st.wf(),
    {
        let d = clamp64(sensors.ultrasonic_cm, 0, DIST_LIMIT);

        // Proximity tension: closer obstacles raise it, 100 cm horizon.
        let proximity = if d < 100 * UNIT {
            let p = div_floor(100 * UNIT - d, 100);
            proof {
                lemma_div_is_ordered(100 * UNIT - d, 100 * UNIT, 100);
                lemma_div_in_range(100 * UNIT - d as int, 100);
            }
            p
        } else {
            0
        };

        // Sudden-change tension: distance jumps in either direction.
        let delta = if d >= self.last_distance {
            d - self.last_distance
        } else {
            self.last_distance - d
        };
        let c0 = div_floor(delta, 50);
        proof {
            lemma_div_in_range(delta as int, 50);
        }
        let change = if c0 > UNIT {
            UNIT
        } else {
            c0
        };

        // Sound tension: half the microphone level.
        let snd = clamp64(sensors.sound_level, 0, UNIT);
        let sound = div_floor(snd, 2);
        proof {
            lemma_div_in_range(snd as int, 2);
            lemma_div_is_ordered(snd as int, UNIT as int, 2);
        }

        // Movement tension from the accelerometer norm, gravity included.
        let a0 = clamp64(sensors.accel[0], -ACCEL_LIMIT, ACCEL_LIMIT);
        let a1 = clamp64(sensors.accel[1], -ACCEL_LIMIT, ACCEL_LIMIT);
        let a2 = clamp64(sensors.accel[2], -ACCEL_LIMIT, ACCEL_LIMIT);
        proof {
            assert(0 <= a0 * a0 <= ACCEL_LIMIT * ACCEL_LIMIT && 0 <= a1 * a1 <= ACCEL_LIMIT
                * ACCEL_LIMIT && 0 <= a2 * a2 <= ACCEL_LIMIT * ACCEL_LIMIT) by (nonlinear_arith)
                requires
                    -ACCEL_LIMIT <= (a0 as int) <= ACCEL_LIMIT,
                    -ACCEL_LIMIT <= (a1 as int) <= ACCEL_LIMIT,
                    -ACCEL_LIMIT <= (a2 as int) <= ACCEL_LIMIT,
            ;
        }
        let norm = isqrt(a0 * a0 + a1 * a1 + a2 * a2);
        let m0 = div_floor(norm, 20);
        proof {
            lemma_div_in_range(norm as int, 20);
        }
        let movement = if m0 > UNIT {
            UNIT
        } else {
            m0
        };

        // Combined raw tension, capped at one unit.
        let weighted = 5_000 * proximity + 2_000 * change + 1_500 * sound + 1_500 * movement;
        let r0 = div_floor(weighted, UNIT);
        proof {
            lemma_div_in_range(weighted as int, UNIT as int);
        }
        let raw = if r0 > UNIT {
            UNIT
        } else {
            r0
        };

        // Exponential smoothing of the tension.
        proof {
            lemma_ema_num(self.alpha as int, raw as int, self.tension_ema as int);
        }
        let tnum = self.alpha * raw + (UNIT - self.alpha) * self.tension_ema;
        let t1 = div_floor(tnum, UNIT);
        proof {
            lemma_unit_frac_bounds(tnum as int);
        }
        self.tension_ema = t1;

        // Coherence drops with high or unstable tension.
        let inst = if raw >= t1 {
            raw - t1
        } else {
            t1 - raw
        };
        let cpart = div_floor(t1 * 4_000 + inst * 6_000, UNIT);
        proof {
            lemma_unit_frac_bounds(t1 * 4_000 + inst * 6_000);
        }
        let raw_coh = UNIT - cpart;
        proof {
            lemma_ema_num(self.alpha as int, raw_coh as int, self.coherence_ema as int);
        }
        let cnum = self.alpha * raw_coh + (UNIT - self.alpha) * self.coherence_ema;
        let c1 = div_floor(cnum, UNIT);
        proof {
            lemma_unit_frac_bounds(cnum as int);
        }
        self.coherence_ema = c1;

        // Energy drains under high tension (floored), else recovers
        // (capped); the drain is twice the recovery by design.
        if t1 > 5_000 {
            let e = self.energy - 10;
            self.energy = if e < 1_000 {
                1_000
            } else {
                e
            };
        } else {
            let e = self.energy + 5;
            self.energy = if e > UNIT {
                UNIT
            } else {
                e
            };
        }

        // Curiosity: novelty without threat, else a fixed baseline.
        let curiosity = if t1 > 2_000 && t1 < 6_000 {
            let q0 = div_floor(c1 * 7_000 + change * 3_000, UNIT);
            proof {
                lemma_unit_frac_bounds(c1 * 7_000 + change * 3_000);
            }
            if q0 > UNIT {
                UNIT
            } else {
                q0
            }
        } else {
            2_000
        };

        HomeostasisState {
            tension: clamp64(t1, 0, UNIT),
            coherence: clamp64(c1, 0, UNIT),
            reflex: ReflexMode::from_tension(t1),
            energy: self.energy,
            curiosity,
        }
    }

    /// Synthesize the motor command of this tick from the reflex mode,
    /// the homeostasis state, the frame and the pen latch; reads the
    /// brain, never writes it.
    fn generate_command(&self, sensors: &MBotSensors, state: &HomeostasisState) -> (cmd:
        MotorCommand)
        requires
            self.wf(),
            state.wf(),
        ensures
            cmd == command_from(*self, *sensors, *state),
            cmd.wf(),
    {
        let d = clamp64(sensors.ultrasonic_cm, 0, DIST_LIMIT);
        let levels: (i64, i64) = match state.reflex {
            ReflexMode::Calm => {
                // Gentle sinusoidal wander at reduced cruise speed.
                let wander = sin_fp(phase_fp(self.tick_count, 500)) * 10;
                let sp0 = div_floor(self.base_speed * 6, 10);
                proof {
                    lemma_div_in_range(self.base_speed * 6, 10);
                    assert(0 <= sp0 * state.energy <= 6_000_000_000_000int) by (nonlinear_arith)
                        requires
                            0 <= (sp0 as int) <= 600_000_000,
                            0 <= (state.energy as int) <= UNIT,
                    ;
                }
                let speed = div_floor(sp0 * state.energy, UNIT);
                proof {
                    lemma_div_in_range(sp0 * state.energy, UNIT as int);
                }
                (speed + wander, speed - wander)
            },
            ReflexMode::Active => {
                // Investigate a near stimulus, else wander more actively.
                let turn = if d < self.approach_distance {
                    proof {
                        assert(0 <= state.curiosity * self.turn_gain <= 10_000_000_000_000int)
                            by (nonlinear_arith)
                            requires
                                0 <= (state.curiosity as int) <= UNIT,
                                0 <= (self.turn_gain as int) <= PARAM_LIMIT,
                        ;
                    }
                    let t = div_floor(state.curiosity * self.turn_gain, UNIT);
                    proof {
                        lemma_div_in_range(state.curiosity * self.turn_gain, UNIT as int);
                    }
                    t
                } else {
                    sin_fp(phase_fp(self.tick_count, 1_000)) * 20
                };
                let sp0 = div_floor(self.base_speed * 8, 10);
                proof {
                    lemma_div_in_range(self.base_speed * 8, 10);
                    assert(0 <= sp0 * state.energy <= 8_000_000_000_000int) by (nonlinear_arith)
                        requires
                            0 <= (sp0 as int) <= 800_000_000,
                            0 <= (state.energy as int) <= UNIT,
                    ;
                }
                let speed = div_floor(sp0 * state.energy, UNIT);
                proof {
                    lemma_div_in_range(sp0 * state.energy, UNIT as int);
                }
                (speed - turn, speed + turn)
            },
            ReflexMode::Spike => {
                // Faster and more erratic; tension adds excitement.
                let excitement = state.tension * 30;
                proof {
                    assert(0 <= self.base_speed * state.energy <= 10_000_000_000_000int)
                        by (nonlinear_arith)
                        requires
                            0 <= (self.base_speed as int) <= PARAM_LIMIT,
                            0 <= (state.energy as int) <= UNIT,
                    ;
                }
                let sp0 = div_floor(self.base_speed * state.energy, UNIT);
                proof {
                    lemma_div_in_range(self.base_speed * state.energy, UNIT as int);
                }
                let speed = sp0 + excitement;
                let turn = if d < 30 * UNIT {
                    40 * UNIT
                } else {
                    sin_fp(phase_fp(self.tick_count, 2_000)) * 25
                };
                (speed - turn, speed + turn)
            },
            ReflexMode::Protect => {
                // Back straight away from danger, else pivot away.
                if d < self.danger_distance {
                    (-60 * UNIT, -60 * UNIT)
                } else {
                    (-30 * UNIT, 50 * UNIT)
                }
            },
        };
        let left = clamp64(div_floor(levels.0, UNIT), -100, 100) as i8;
        let right = clamp64(div_floor(levels.1, UNIT), -100, 100) as i8;
        MotorCommand {
            left,
            right,
            pen_angle: if self.pen_down {
                90
            } else {
                45
            },
            led_color: state.reflex.led_color(),
            buzzer_hz: if state.reflex == ReflexMode::Protect {
                ALERT_HZ
            } else {
                0
            },
        }
    }

    /// The per-tick entry point: fuse the frame, classify, integrate the
    /// odometry and synthesize the command, in one call.
    ///
    /// The new brain state and both outputs are pure functions of the old
    /// brain state and the frame; the reported tension and coherence lie
    /// in `[0, UNIT]`, the motor powers in `[-100, 100]`, and the reflex
    /// mode is the classification of the current smoothed tension.
    pub fn tick(&mut self, sensors: &MBotSensors) -> (r: (HomeostasisState, MotorCommand))
        requires
            old(self).wf(),
            old(self).tick_count < u64::MAX,
        ensures
            *final(self) == next_brain(*old(self), *sensors),
            final(self).wf(),
            r.0 == tick_state_spec(*old(self), *sensors),
            r.0.wf(),
            r.1 == tick_command_spec(*old(self), *sensors),
            r.1.wf(),
            0 <= r.0.tension <= UNIT,
            0 <= r.0.coherence <= UNIT,
            -100 <= r.1.left <= 100,
            -100 <= r.1.right <= 100,
            r.0.reflex == classify(next_tension(*old(self), *sensors)),
    {
        self.tick_count = self.tick_count + 1;

        // Update the pose estimate from the encoder deltas.
        self.update_odometry(sensors);

        // Fuse the frame into the homeostasis state.
        let state = self.compute_homeostasis(sensors);

        // Synthesize this tick's command from the fresh state.
        let cmd = self.generate_command(sensors, &state);

        // Remember this frame for the next tick's deltas.
        self.last_distance = clamp64(sensors.ultrasonic_cm, 0, DIST_LIMIT);
        self.last_encoder_left = sensors.encoder_left;
        self.last_encoder_right = sensors.encoder_right;

        (state, cmd)
    }
}

impl Default for MBotBrain {
    /// The same brain `new` builds.
    fn default() -> (r: Self)
        ensures
            r.wf(),
            r.tick_count == 0,
    {
        MBotBrain::new()
    }
}

} // verus!
