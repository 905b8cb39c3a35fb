use vstd::prelude::*;

verus! {

/// Largest magnitude accepted for a configuration constant or a viewport side.
pub const MAX_MAGNITUDE: i64 = 2147483648;

/// Microseconds in one second: frame durations are measured in microseconds.
pub const MICROS_PER_SECOND: i64 = 1000000;

/// The compiled-in constants of one game build.
///
/// Lengths are in the caller's length unit; `gravity` is the gain of
/// vertical velocity per second, `scroll_speed` the leftward travel of an
/// obstacle per second. Velocity is a length travelled per frame.
#[derive(Clone, Copy, Debug, PartialEq, Eq)]
pub struct Config {
    /// Radius of the bird's collision circle.
    pub radius: i64,
    /// Width of both blocking rectangles of an obstacle.
    pub obstacle_width: i64,
    /// Half of the vertical size of the passable gap.
    pub gap_half_height: i64,
    /// Spawn threshold: a new obstacle follows once the newest one has
    /// scrolled further left than this distance from its spawn point.
    pub spawn_distance: i64,
    /// Offset from the right edge at which a new obstacle appears.
    pub spawn_offset: i64,
    /// Leftward scroll speed of the obstacles, per second.
    pub scroll_speed: i64,
    /// Downward velocity gained per second of free fall.
    pub gravity: i64,
    /// Largest downward velocity.
    pub velocity_cap: i64,
    /// Velocity set by a jump (negative: upward).
    pub jump_velocity: i64,
}

pub open spec fn within_magnitude(v: i64) -> bool {
    -MAX_MAGNITUDE <= v <= MAX_MAGNITUDE
}

pub open spec fn nonneg_within_magnitude(v: i64) -> bool {
    0 <= v <= MAX_MAGNITUDE
}

impl Config {
    /// Every constant is in range: sizes, speeds and gravity are
    /// non-negative and no constant exceeds `MAX_MAGNITUDE` in magnitude.
    pub open spec fn wf(&self) -> bool {
        &&& nonneg_within_magnitude(self.radius)
        &&& nonneg_within_magnitude(self.obstacle_width)
        &&& nonneg_within_magnitude(self.gap_half_height)
        &&& nonneg_within_magnitude(self.spawn_distance)
        &&& nonneg_within_magnitude(self.spawn_offset)
        &&& nonneg_within_magnitude(self.scroll_speed)
        &&& nonneg_within_magnitude(self.gravity)
        &&& within_magnitude(self.velocity_cap)
        &&& within_magnitude(self.jump_velocity)
    }

    /// The standard build, with lengths in thousandths of a pixel: radius
    /// 25 px, obstacles 100 px wide with a 190 px gap, a new obstacle every
    /// 380 px, scrolling at 250 px/s, gravity of 20 px/frame per second,
    /// fall speed capped at 10 px/frame and a jump of 5 px/frame upward.
    pub fn standard() -> (r: Config)
        ensures
            r.wf(),
            r == (Config {
                radius: 25000,
                obstacle_width: 100000,
                gap_half_height: 95000,
                spawn_distance: 380000,
                spawn_offset: 10000,
                scroll_speed: 250000,
                gravity: 20000,
                velocity_cap: 10000,
                jump_velocity: -5000i64,
            }),
    {
        Config {
            radius: 25000,
            obstacle_width: 100000,
            gap_half_height: 95000,
            spawn_distance: 380000,
            spawn_offset: 10000,
            scroll_speed: 250000,
            gravity: 20000,
            velocity_cap: 10000,
            jump_velocity: -5000,
        }
    }

    /// Whether a viewport of height `viewport_height` leaves room for a gap:
    /// when it does not, obstacles are still placed, with the gap centre
    /// pinned to `gap_half_height`, and the caller should report the fault.
    pub fn fits_viewport(&self, viewport_height: i64) -> (r: bool)
        requires
            self.wf(),
            nonneg_within_magnitude(viewport_height),
        ensures
            r == (2 * self.gap_half_height <= viewport_height),
    {
        2 * self.gap_half_height <= viewport_height
    }
}

/// What the loop learns from its environment each frame.
#[derive(Clone, Copy, Debug, PartialEq, Eq)]
pub struct Frame {
    /// Time elapsed since the previous frame, in microseconds.
    pub dt_micros: u32,
    /// Current viewport width.
    pub width: i64,
    /// Current viewport height.
    pub height: i64,
}

impl Frame {
    pub open spec fn wf(&self) -> bool {
        &&& nonneg_within_magnitude(self.width)
        &&& nonneg_within_magnitude(self.height)
    }
}

/// The amount `rate_per_second` contributes over `dt_micros` microseconds,
/// rounded down.
pub open spec fn gain_over(rate_per_second: i64, dt_micros: u32) -> int {
    (rate_per_second * dt_micros) as int / MICROS_PER_SECOND as int
}

/// Computes `gain_over(rate_per_second, dt_micros)`.
pub fn gain(rate_per_second: i64, dt_micros: u32) -> (r: i64)
    requires
        nonneg_within_magnitude(rate_per_second),
    ensures
        r == gain_over(rate_per_second, dt_micros),
        0 <= r <= 0x1_0000_0000_0000,
{
    assert(0 <= rate_per_second * dt_micros <= MAX_MAGNITUDE * 0xffff_ffff) by (nonlinear_arith)
        requires
            0 <= rate_per_second <= MAX_MAGNITUDE,
            0 <= dt_micros <= 0xffff_ffff,
    ;
    rate_per_second * (dt_micros as i64) / MICROS_PER_SECOND
}

/// Horizontal position of the bird's centre: a third of the viewport width.
pub open spec fn bird_x_of(viewport_width: i64) -> int {
    viewport_width / 3
}

/// Computes `bird_x_of(viewport_width)`.
pub fn bird_x(viewport_width: i64) -> (r: i64)
    requires
        nonneg_within_magnitude(viewport_width),
    ensures
        r == bird_x_of(viewport_width),
{
    viewport_width / 3
}

} // verus!
