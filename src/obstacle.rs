use vstd::prelude::*;

use crate::bird::saturate;
use crate::config::{
    Config, MAX_MAGNITUDE, gain, gain_over, nonneg_within_magnitude, within_magnitude,
};
use crate::geometry::{Rect, circle_hits_rect, circle_meets_rect};

verus! {

/// One obstacle: a top and a bottom blocking rectangle with a passable gap
/// between them. `x_offset` is the signed distance of its left edge from the
/// right edge of the viewport; `gap_center` is the height of the middle of
/// the gap.
#[derive(Clone, Copy, Debug, PartialEq, Eq)]
pub struct Obstacle {
    pub x_offset: i64,
    pub gap_center: i64,
}

/// Lowest gap centre a new obstacle may get.
pub open spec fn band_low(cfg: Config) -> int {
    cfg.gap_half_height as int
}

/// Highest gap centre a new obstacle may get; pinned to `band_low` when the
/// viewport is too short to hold a whole gap.
pub open spec fn band_high(cfg: Config, viewport_height: i64) -> int {
    let high = viewport_height - cfg.gap_half_height;
    if high < cfg.gap_half_height {
        cfg.gap_half_height as int
    } else {
        high
    }
}

/// A freshly spawned obstacle with its gap centred at `gap_center`.
pub open spec fn spawned(cfg: Config, gap_center: i64) -> Obstacle {
    Obstacle { x_offset: cfg.spawn_offset, gap_center }
}

/// `o` scrolled left by `distance`, saturating at the bound of `i64`.
pub open spec fn advanced(o: Obstacle, distance: int) -> Obstacle {
    Obstacle { x_offset: saturate(o.x_offset - distance) as i64, gap_center: o.gap_center }
}

/// Left edge of `o` in a viewport of width `viewport_width`.
pub open spec fn left_edge(o: Obstacle, viewport_width: i64) -> int {
    viewport_width + o.x_offset
}

pub open spec fn top_rect_of(cfg: Config, o: Obstacle, viewport_width: i64) -> Rect {
    Rect {
        x: left_edge(o, viewport_width) as i64,
        y: 0,
        w: cfg.obstacle_width,
        h: (o.gap_center - cfg.gap_half_height) as i64,
    }
}

pub open spec fn bottom_rect_of(
    cfg: Config,
    o: Obstacle,
    viewport_width: i64,
    viewport_height: i64,
) -> Rect {
    Rect {
        x: left_edge(o, viewport_width) as i64,
        y: (o.gap_center + cfg.gap_half_height) as i64,
        w: cfg.obstacle_width,
        h: (viewport_height - (o.gap_center + cfg.gap_half_height)) as i64,
    }
}

/// The bird's circle, centred at `(bird_x, bird_y)`, meets the top or the
/// bottom rectangle of `o`.
pub open spec fn blocks(
    cfg: Config,
    o: Obstacle,
    viewport_width: i64,
    viewport_height: i64,
    bird_x: i64,
    bird_y: i64,
) -> bool {
    ||| circle_meets_rect(bird_x as int, bird_y as int, cfg.radius as int, top_rect_of(cfg, o, viewport_width))
    ||| circle_meets_rect(
        bird_x as int,
        bird_y as int,
        cfg.radius as int,
        bottom_rect_of(cfg, o, viewport_width, viewport_height),
    )
}

/// Relies on macroquad::rand::gen_range, quad-rand's global generator, on
/// `i64`: it scales a uniform draw from [0, 1) onto `high - low` in `f64`,
/// adds `low` and truncates. Bounds this small are exact in `f64`, so the
/// draw lies between them, both included.
#[verifier::external_body]
fn random_between(low: i64, high: i64) -> (r: i64)
    requires
        low <= high,
        within_magnitude(low),
        within_magnitude(high),
    ensures
        low <= r <= high,
{
    macroquad::rand::gen_range(low, high)
}

impl Obstacle {
    pub open spec fn wf(&self) -> bool {
        &&& self.x_offset <= MAX_MAGNITUDE
        &&& within_magnitude(self.gap_center)
    }

    /// An obstacle entering at the spawn offset with the given gap centre.
    pub fn with_gap(cfg: &Config, gap_center: i64) -> (r: Obstacle)
        requires
            cfg.wf(),
            within_magnitude(gap_center),
        ensures
            r == spawned(*cfg, gap_center),
            r.wf(),
    {
        Obstacle { x_offset: cfg.spawn_offset, gap_center }
    }

    /// An obstacle entering at the spawn offset, its gap centre drawn at
    /// random from the band that keeps the whole gap in the viewport.
    pub fn new(cfg: &Config, viewport_height: i64) -> (r: Obstacle)
        requires
            cfg.wf(),
            nonneg_within_magnitude(viewport_height),
        ensures
            r.x_offset == cfg.spawn_offset,
            band_low(*cfg) <= r.gap_center <= band_high(*cfg, viewport_height),
            r.wf(),
    {
        let (low, high) = gap_band(cfg, viewport_height);
        let gap = random_between(low, high);
        Obstacle::with_gap(cfg, gap)
    }

    /// Scrolls left by the distance covered at `cfg.scroll_speed` in
    /// `dt_micros`.
    pub fn update(&mut self, cfg: &Config, dt_micros: u32)
        requires
            cfg.wf(),
        ensures
            *final(self) == advanced(*old(self), gain_over(cfg.scroll_speed, dt_micros)),
    {
        let d = gain(cfg.scroll_speed, dt_micros);
        if self.x_offset < i64::MIN + d {
            self.x_offset = i64::MIN;
        } else {
            self.x_offset = self.x_offset - d;
        }
    }

    /// Left edge in a viewport of the given width.
    pub fn x(&self, viewport_width: i64) -> (r: i64)
        requires
            self.wf(),
            nonneg_within_magnitude(viewport_width),
        ensures
            r == left_edge(*self, viewport_width),
    {
        viewport_width + self.x_offset
    }

    /// The top blocking rectangle, from the top of the viewport down to the gap.
    pub fn top_rect(&self, cfg: &Config, viewport_width: i64) -> (r: Rect)
        requires
            self.wf(),
            cfg.wf(),
            nonneg_within_magnitude(viewport_width),
        ensures
            r == top_rect_of(*cfg, *self, viewport_width),
    {
        Rect {
            x: self.x(viewport_width),
            y: 0,
            w: cfg.obstacle_width,
            h: self.gap_center - cfg.gap_half_height,
        }
    }

    /// The bottom blocking rectangle, from the gap down to the floor.
    pub fn bottom_rect(&self, cfg: &Config, viewport_width: i64, viewport_height: i64) -> (r:
        Rect)
        requires
            self.wf(),
            cfg.wf(),
            nonneg_within_magnitude(viewport_width),
            nonneg_within_magnitude(viewport_height),
        ensures
            r == bottom_rect_of(*cfg, *self, viewport_width, viewport_height),
    {
        let top = self.gap_center + cfg.gap_half_height;
        Rect { x: self.x(viewport_width), y: top, w: cfg.obstacle_width, h: viewport_height - top }
    }

    /// Whether the bird's circle at `(bird_x, bird_y)` meets either
    /// blocking rectangle.
    pub fn blocks_bird(
        &self,
        cfg: &Config,
        viewport_width: i64,
        viewport_height: i64,
        bird_x: i64,
        bird_y: i64,
    ) -> (r: bool)
        requires
            self.wf(),
            cfg.wf(),
            nonneg_within_magnitude(viewport_width),
            nonneg_within_magnitude(viewport_height),
        ensures
            r == blocks(*cfg, *self, viewport_width, viewport_height, bird_x, bird_y),
    {
        let top = self.top_rect(cfg, viewport_width);
        if circle_hits_rect(bird_x, bird_y, cfg.radius, top) {
            return true;
        }
        let bottom = self.bottom_rect(cfg, viewport_width, viewport_height);
        circle_hits_rect(bird_x, bird_y, cfg.radius, bottom)
    }
}

/// The band `(band_low, band_high)` of gap centres for a new obstacle.
pub fn gap_band(cfg: &Config, viewport_height: i64) -> (r: (i64, i64))
    requires
        cfg.wf(),
        nonneg_within_magnitude(viewport_height),
    ensures
        r.0 == band_low(*cfg),
        r.1 == band_high(*cfg, viewport_height),
        within_magnitude(r.0),
        within_magnitude(r.1),
        r.0 <= r.1,
{
    let low = cfg.gap_half_height;
    let high = viewport_height - cfg.gap_half_height;
    if high < low {
        (low, low)
    } else {
        (low, high)
    }
}

} // verus!
