use vstd::prelude::*;

use crate::config::{Config, gain, gain_over, nonneg_within_magnitude};

verus! {

/// The player's bird: the height of its centre (measured downward from the
/// top of the viewport) and its vertical velocity, positive downward, in
/// length units per frame.
#[derive(Clone, Copy, Debug, PartialEq, Eq)]
pub struct Bird {
    pub height: i64,
    pub velocity: i64,
}

/// `v` clamped to the range of `i64`.
pub open spec fn saturate(v: int) -> int {
    if v > i64::MAX {
        i64::MAX as int
    } else if v < i64::MIN {
        i64::MIN as int
    } else {
        v
    }
}

/// Velocity after one frame of free fall: the gravity gained over the frame
/// is added, and a result above the cap is replaced by the cap.
pub open spec fn fall_velocity(cfg: Config, velocity: i64, dt_micros: u32) -> int {
    let sum = velocity + gain_over(cfg.gravity, dt_micros);
    if sum > cfg.velocity_cap {
        cfg.velocity_cap as int
    } else {
        sum
    }
}

/// The bird a game starts with: centred vertically and at rest.
pub open spec fn start_bird(viewport_height: i64) -> Bird {
    Bird { height: (viewport_height / 2) as i64, velocity: 0 }
}

impl Bird {
    /// The bird has left the viewport through the floor and is still
    /// moving down.
    pub open spec fn spec_off_bottom(&self, viewport_height: i64) -> bool {
        self.height > viewport_height && self.velocity > 0
    }

    /// A bird at the vertical centre of the viewport, at rest.
    pub fn new(viewport_height: i64) -> (r: Bird)
        requires
            nonneg_within_magnitude(viewport_height),
        ensures
            r == start_bird(viewport_height),
    {
        Bird { height: viewport_height / 2, velocity: 0 }
    }

    /// One frame of free fall: the height moves by the velocity the frame
    /// started with (saturating at the bounds of `i64`), then the velocity
    /// gains gravity over `dt_micros`, capped at `cfg.velocity_cap`.
    pub fn tick(&mut self, cfg: &Config, dt_micros: u32)
        requires
            cfg.wf(),
        ensures
            final(self).height == saturate(old(self).height + old(self).velocity),
            final(self).velocity == fall_velocity(*cfg, old(self).velocity, dt_micros),
    {
        let h = self.height;
        let v = self.velocity;
        if v > 0 && h > i64::MAX - v {
            self.height = i64::MAX;
        } else if v < 0 && h < i64::MIN - v {
            self.height = i64::MIN;
        } else {
            self.height = h + v;
        }
        let dv = gain(cfg.gravity, dt_micros);
        if v > cfg.velocity_cap - dv {
            self.velocity = cfg.velocity_cap;
        } else {
            self.velocity = v + dv;
        }
    }

    /// A jump replaces the velocity by the jump velocity, whatever it was.
    pub fn jump(&mut self, cfg: &Config)
        ensures
            final(self).velocity == cfg.jump_velocity,
            final(self).height == old(self).height,
    {
        self.velocity = cfg.jump_velocity;
    }

    /// Back to the vertical centre of the viewport, at rest.
    pub fn reset(&mut self, viewport_height: i64)
        requires
            nonneg_within_magnitude(viewport_height),
        ensures
            *final(self) == start_bird(viewport_height),
    {
        self.height = viewport_height / 2;
        self.velocity = 0;
    }

    /// Whether the bird is below the floor of the viewport and still falling.
    pub fn off_bottom(&self, viewport_height: i64) -> (r: bool)
        ensures
            r == self.spec_off_bottom(viewport_height),
    {
        self.height > viewport_height && self.velocity > 0
    }
}

} // verus!
