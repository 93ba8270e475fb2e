//! The controller's settings, and the random idle targets drawn from them.
use vstd::prelude::*;
use crate::angle::{bounded, MAX_ANGLE, PI_URAD};
use rand::Rng;

verus! {

/// The half-open interval `[lo, hi)` of angles, in microradians.
#[derive(Clone, Copy, Debug, PartialEq, Eq, Structural)]
pub struct AngleRange {
    pub lo: i64,
    pub hi: i64,
}

impl AngleRange {
    pub open spec fn wf(self) -> bool {
        &&& bounded(self.lo as int)
        &&& bounded(self.hi as int)
        &&& self.lo < self.hi
    }

    pub open spec fn contains(self, a: int) -> bool {
        self.lo <= a < self.hi
    }
}

/// Settings of the look controller.
#[derive(Clone, Copy, Debug, PartialEq, Eq, Structural)]
pub struct LookConfig {
    /// Cursor pixels (from the window's centre) per degree of turn.
    pub sensitivity: u32,
    /// An idle yaw is drawn from one of these two ranges, picked by a coin flip.
    pub idle_yaw_first: AngleRange,
    pub idle_yaw_second: AngleRange,
    /// Range of an idle pitch.
    pub idle_pitch: AngleRange,
    /// An idle cycle lasts `[idle_duration_lo, idle_duration_hi)` nanoseconds,
    /// and never zero.
    pub idle_duration_lo: u64,
    pub idle_duration_hi: u64,
}

/// Yaw ranges start at 2.6 radians from straight ahead.
pub const IDLE_YAW_NEAR: i64 = 2_600_000;

/// The far end of the single backward arc: 3.6 radians.
pub const IDLE_YAW_FAR: i64 = 3_600_000;

/// Idle pitch stays within 0.3 radians of level.
pub const IDLE_PITCH_SPAN: i64 = 300_000;

/// Idle cycles last from 0.3 s up to 2.5 s.
pub const IDLE_DURATION_MIN: u64 = 300_000_000;
pub const IDLE_DURATION_MAX: u64 = 2_500_000_000;

/// Pixels per degree of turn toward the cursor.
pub const SENSITIVITY: u32 = 20;

impl LookConfig {
    pub open spec fn wf(self) -> bool {
        &&& self.sensitivity > 0
        &&& self.idle_yaw_first.wf()
        &&& self.idle_yaw_second.wf()
        &&& self.idle_pitch.wf()
        &&& 0 < self.idle_duration_lo < self.idle_duration_hi
    }

    /// Idle yaw in `[2.6, 3.6)` radians: a single arc facing roughly backward.
    pub open spec fn single_arc_spec() -> LookConfig {
        let back = AngleRange { lo: IDLE_YAW_NEAR, hi: IDLE_YAW_FAR };
        LookConfig {
            sensitivity: SENSITIVITY,
            idle_yaw_first: back,
            idle_yaw_second: back,
            idle_pitch: AngleRange { lo: -IDLE_PITCH_SPAN as i64, hi: IDLE_PITCH_SPAN },
            idle_duration_lo: IDLE_DURATION_MIN,
            idle_duration_hi: IDLE_DURATION_MAX,
        }
    }

    /// Idle yaw in `[2.6, PI)` or `[-PI, -2.6)` radians: looking away to either side.
    pub open spec fn twin_arcs_spec() -> LookConfig {
        LookConfig {
            sensitivity: SENSITIVITY,
            idle_yaw_first: AngleRange { lo: IDLE_YAW_NEAR, hi: PI_URAD },
            idle_yaw_second: AngleRange { lo: -PI_URAD as i64, hi: -IDLE_YAW_NEAR as i64 },
            idle_pitch: AngleRange { lo: -IDLE_PITCH_SPAN as i64, hi: IDLE_PITCH_SPAN },
            idle_duration_lo: IDLE_DURATION_MIN,
            idle_duration_hi: IDLE_DURATION_MAX,
        }
    }

    pub fn single_arc() -> (c: LookConfig)
        ensures
            c == LookConfig::single_arc_spec(),
            c.wf(),
    {
        let back = AngleRange { lo: IDLE_YAW_NEAR, hi: IDLE_YAW_FAR };
        LookConfig {
            sensitivity: SENSITIVITY,
            idle_yaw_first: back,
            idle_yaw_second: back,
            idle_pitch: AngleRange { lo: -IDLE_PITCH_SPAN, hi: IDLE_PITCH_SPAN },
            idle_duration_lo: IDLE_DURATION_MIN,
            idle_duration_hi: IDLE_DURATION_MAX,
        }
    }

    pub fn twin_arcs() -> (c: LookConfig)
        ensures
            c == LookConfig::twin_arcs_spec(),
            c.wf(),
    {
        LookConfig {
            sensitivity: SENSITIVITY,
            idle_yaw_first: AngleRange { lo: IDLE_YAW_NEAR, hi: PI_URAD },
            idle_yaw_second: AngleRange { lo: -PI_URAD, hi: -IDLE_YAW_NEAR },
            idle_pitch: AngleRange { lo: -IDLE_PITCH_SPAN, hi: IDLE_PITCH_SPAN },
            idle_duration_lo: IDLE_DURATION_MIN,
            idle_duration_hi: IDLE_DURATION_MAX,
        }
    }
}

/// One idle target with the length of the cycle that eases toward it.
#[derive(Clone, Copy, Debug, PartialEq, Eq, Structural)]
pub struct IdleDraw {
    pub yaw: i64,
    pub pitch: i64,
    pub duration: u64,
}

impl IdleDraw {
    /// The draw is one that `config` can produce.
    pub open spec fn allowed_by(self, config: LookConfig) -> bool {
        &&& config.idle_yaw_first.contains(self.yaw as int) || config.idle_yaw_second.contains(
            self.yaw as int,
        )
        &&& config.idle_pitch.contains(self.pitch as int)
        &&& config.idle_duration_lo <= self.duration < config.idle_duration_hi
    }
}

/// Relies on rand's `Rng::gen_range` over `thread_rng()`: for a non-empty
/// range `0..n` it returns a value below `n`.
#[verifier::external_body]
fn random_below(n: u64) -> (r: u64)
    requires
        n > 0,
    ensures
        r < n,
{
    rand::thread_rng().gen_range(0..n)
}

/// A uniformly drawn angle of `range`.
fn random_angle(range: AngleRange) -> (a: i64)
    requires
        range.wf(),
    ensures
        range.contains(a as int),
{
    let span = (range.hi - range.lo) as u64;
    let r = random_below(span);
    range.lo + r as i64
}

/// Draws a new idle target: a coin flip picks one of the two yaw ranges, then
/// yaw, pitch and cycle length are drawn uniformly from their ranges.
pub fn draw_idle(config: &LookConfig) -> (d: IdleDraw)
    requires
        config.wf(),
    ensures
        d.allowed_by(*config),
{
    let coin = random_below(2);
    let yaw = if coin == 0 {
        random_angle(config.idle_yaw_first)
    } else {
        random_angle(config.idle_yaw_second)
    };
    let pitch = random_angle(config.idle_pitch);
    let duration = config.idle_duration_lo + random_below(
        config.idle_duration_hi - config.idle_duration_lo,
    );
    IdleDraw { yaw, pitch, duration }
}

} // verus!
