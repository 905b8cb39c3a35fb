use std::collections::VecDeque;

use vstd::prelude::*;

use crate::config::{Config, Frame, gain_over, nonneg_within_magnitude, within_magnitude};
use crate::obstacle::{Obstacle, advanced, band_high, band_low, gap_band, spawned};

verus! {

/// Every obstacle of `s` is well formed.
pub open spec fn all_wf(s: Seq<Obstacle>) -> bool {
    forall|i: int| 0 <= i < s.len() ==> #[trigger] s[i].wf()
}

/// Every obstacle of `s` scrolled left by `distance`, order kept.
pub open spec fn advance_all(s: Seq<Obstacle>, distance: int) -> Seq<Obstacle> {
    s.map_values(|o: Obstacle| advanced(o, distance))
}

/// `o` has scrolled so far left that its right edge lies left of the bird's
/// centre by more than one obstacle width plus the bird's radius.
pub open spec fn retires(cfg: Config, viewport_width: i64, o: Obstacle) -> bool {
    viewport_width + o.x_offset + cfg.obstacle_width < viewport_width / 3 - cfg.obstacle_width
        - cfg.radius
}

/// The front of `s` is retired this frame.
pub open spec fn front_retires(cfg: Config, viewport_width: i64, s: Seq<Obstacle>) -> bool {
    s.len() > 0 && retires(cfg, viewport_width, s[0])
}

/// `s` without its front when the front retires.
pub open spec fn kept(cfg: Config, viewport_width: i64, s: Seq<Obstacle>) -> Seq<Obstacle> {
    if front_retires(cfg, viewport_width, s) {
        s.drop_first()
    } else {
        s
    }
}

/// A new obstacle is due: the queue is empty or its newest obstacle has
/// scrolled further than the spawn distance.
pub open spec fn spawn_due(cfg: Config, s: Seq<Obstacle>) -> bool {
    s.len() == 0 || s.last().x_offset < -cfg.spawn_distance
}

/// `s` with a new obstacle, gap centred at `gap_center`, appended when due.
pub open spec fn with_spawn(cfg: Config, s: Seq<Obstacle>, gap_center: i64) -> Seq<Obstacle> {
    if spawn_due(cfg, s) {
        s.push(spawned(cfg, gap_center))
    } else {
        s
    }
}

/// The upcoming obstacles after one frame: retire the front if it is
/// done, spawn if due, then scroll everything.
pub open spec fn next_upcoming(
    cfg: Config,
    frame: Frame,
    upcoming: Seq<Obstacle>,
    gap_center: i64,
) -> Seq<Obstacle> {
    advance_all(
        with_spawn(cfg, kept(cfg, frame.width, upcoming), gap_center),
        gain_over(cfg.scroll_speed, frame.dt_micros),
    )
}

/// `o` lies wholly left of the viewport.
pub open spec fn gone(cfg: Config, viewport_width: i64, o: Obstacle) -> bool {
    viewport_width + o.x_offset + cfg.obstacle_width <= 0
}

/// The passed obstacles after one frame: the oldest is dropped once wholly
/// off screen, the obstacle retired from `upcoming` joins, and everything
/// scrolls.
pub open spec fn next_passed(
    cfg: Config,
    frame: Frame,
    upcoming: Seq<Obstacle>,
    passed: Seq<Obstacle>,
) -> Seq<Obstacle> {
    let remaining = if passed.len() > 0 && gone(cfg, frame.width, passed[0]) {
        passed.drop_first()
    } else {
        passed
    };
    let joined = if front_retires(cfg, frame.width, upcoming) {
        remaining.push(upcoming[0])
    } else {
        remaining
    };
    advance_all(joined, gain_over(cfg.scroll_speed, frame.dt_micros))
}

/// One frame of the upcoming queue keeps every obstacle that was not
/// retired, each once and in its order, then at most the one new obstacle:
/// only the front can retire, exactly when `front_retires` holds; a new
/// obstacle is appended exactly when `spawn_due` holds once the front is
/// gone; and the queue is never empty afterwards.
pub proof fn lemma_frame_outcome(cfg: Config, frame: Frame, upcoming: Seq<Obstacle>, gap_center: i64)
    ensures
        ({
            let next = next_upcoming(cfg, frame, upcoming, gap_center);
            let d = gain_over(cfg.scroll_speed, frame.dt_micros);
            let r: int = if front_retires(cfg, frame.width, upcoming) { 1 } else { 0 };
            let spawn = spawn_due(cfg, kept(cfg, frame.width, upcoming));
            &&& next.len() == upcoming.len() - r + (if spawn { 1int } else { 0int })
            &&& forall|i: int|
                0 <= i < upcoming.len() - r ==> #[trigger] next[i] == advanced(upcoming[i + r], d)
            &&& spawn ==> next.last() == advanced(spawned(cfg, gap_center), d)
            &&& next.len() > 0
        }),
{
    let k = kept(cfg, frame.width, upcoming);
    let r: int = if front_retires(cfg, frame.width, upcoming) { 1 } else { 0 };
    assert(k.len() == upcoming.len() - r);
    assert forall|i: int| 0 <= i < k.len() implies #[trigger] k[i] == upcoming[i + r] by {}
}

/// The obstacles of a game: `list` holds the upcoming ones, oldest (and
/// leftmost) first, which are checked for collisions; `passed` holds those
/// the bird has already cleared, still drawn until they leave the screen.
pub struct Obstacles {
    pub list: VecDeque<Obstacle>,
    pub passed: VecDeque<Obstacle>,
}

/// Scrolls every obstacle of `q` over one frame, keeping their order.
fn advance_queue(q: &mut VecDeque<Obstacle>, cfg: &Config, dt_micros: u32)
    requires
        cfg.wf(),
        all_wf(old(q)@),
    ensures
        final(q)@ == advance_all(old(q)@, gain_over(cfg.scroll_speed, dt_micros)),
        all_wf(final(q)@),
{
    let ghost s = q@;
    let ghost d = gain_over(cfg.scroll_speed, dt_micros);
    let n = q.len();
    let mut k: usize = 0;
    while k < n
        invariant
            cfg.wf(),
            d == gain_over(cfg.scroll_speed, dt_micros),
            n == s.len(),
            all_wf(s),
            0 <= k <= n,
            q@ == s.subrange(k as int, n as int) + advance_all(s.subrange(0, k as int), d),
        decreases n - k,
    {
        let ghost before = q@;
        let mut o = q.pop_front().unwrap();
        assert(o == s[k as int]);
        o.update(cfg, dt_micros);
        q.push_back(o);
        proof {
            assert(s.subrange(k as int + 1, n as int) =~= before.drop_first().subrange(
                0,
                n - k - 1,
            ));
            assert(advance_all(s.subrange(0, k as int + 1), d) =~= advance_all(
                s.subrange(0, k as int),
                d,
            ).push(advanced(s[k as int], d)));
            assert(q@ =~= s.subrange(k as int + 1, n as int) + advance_all(
                s.subrange(0, k as int + 1),
                d,
            ));
        }
        k = k + 1;
    }
    assert(s.subrange(0, n as int) =~= s);
    assert(q@ =~= advance_all(s, d));
    assert(cfg.scroll_speed * dt_micros >= 0) by (nonlinear_arith)
        requires
            cfg.scroll_speed >= 0,
    ;
    assert forall|i: int| 0 <= i < q@.len() implies #[trigger] q@[i].wf() by {
        assert(s[i].wf());
    }
}

impl Obstacles {
    /// Both collections hold well-formed obstacles only.
    pub open spec fn wf(&self) -> bool {
        &&& all_wf(self.list@)
        &&& all_wf(self.passed@)
    }

    /// The obstacles of a new game: one freshly spawned obstacle, nothing passed.
    pub fn new(cfg: &Config, viewport_height: i64) -> (r: Obstacles)
        requires
            cfg.wf(),
            nonneg_within_magnitude(viewport_height),
        ensures
            r.wf(),
            r.list@.len() == 1,
            r.list@[0].x_offset == cfg.spawn_offset,
            band_low(*cfg) <= r.list@[0].gap_center <= band_high(*cfg, viewport_height),
            r.passed@.len() == 0,
    {
        let mut list = VecDeque::new();
        list.push_back(Obstacle::new(cfg, viewport_height));
        Obstacles { list, passed: VecDeque::new() }
    }

    /// Starts over with one freshly spawned obstacle and nothing passed.
    pub fn reset(&mut self, cfg: &Config, viewport_height: i64)
        requires
            cfg.wf(),
            nonneg_within_magnitude(viewport_height),
        ensures
            final(self).wf(),
            final(self).list@.len() == 1,
            final(self).list@[0].x_offset == cfg.spawn_offset,
            band_low(*cfg) <= final(self).list@[0].gap_center <= band_high(*cfg, viewport_height),
            final(self).passed@.len() == 0,
    {
        self.list.clear();
        self.passed.clear();
        self.list.push_back(Obstacle::new(cfg, viewport_height));
    }

    /// Whether a new obstacle will be spawned this frame, once the front has
    /// been retired if it is done.
    pub fn spawn_pending(&self, cfg: &Config, viewport_width: i64) -> (r: bool)
        requires
            self.wf(),
            cfg.wf(),
            nonneg_within_magnitude(viewport_width),
        ensures
            r == spawn_due(*cfg, kept(*cfg, viewport_width, self.list@)),
    {
        let retire = self.front_retires(cfg, viewport_width);
        let n = self.list.len();
        if retire {
            n == 1 || self.list[n - 1].x_offset < -cfg.spawn_distance
        } else {
            n == 0 || self.list[n - 1].x_offset < -cfg.spawn_distance
        }
    }

    fn front_retires(&self, cfg: &Config, viewport_width: i64) -> (r: bool)
        requires
            self.wf(),
            cfg.wf(),
            nonneg_within_magnitude(viewport_width),
        ensures
            r == front_retires(*cfg, viewport_width, self.list@),
    {
        if self.list.len() == 0 {
            return false;
        }
        let front = self.list[0];
        assert(front.wf());
        viewport_width + front.x_offset + cfg.obstacle_width < viewport_width / 3
            - cfg.obstacle_width - cfg.radius
    }

    /// One frame of the obstacle stream, with `gap_center` as the gap of an
    /// obstacle spawned in it. In this order: the front of `list` moves to
    /// `passed` once the bird has cleared it by a width and a radius (and the
    /// oldest passed obstacle is dropped once off screen); a new obstacle is
    /// appended if `list` is empty or its newest has scrolled past the spawn
    /// distance; every obstacle scrolls left. Returns whether an obstacle
    /// was retired, which happens at most once per frame.
    pub fn tick_with_gap(&mut self, cfg: &Config, frame: Frame, gap_center: i64) -> (retired:
        bool)
        requires
            old(self).wf(),
            cfg.wf(),
            frame.wf(),
            within_magnitude(gap_center),
        ensures
            final(self).wf(),
            final(self).list@ == next_upcoming(*cfg, frame, old(self).list@, gap_center),
            final(self).passed@ == next_passed(*cfg, frame, old(self).list@, old(self).passed@),
            retired == front_retires(*cfg, frame.width, old(self).list@),
            final(self).list@.len() > 0,
    {
        let ghost up0 = self.list@;
        let ghost pa0 = self.passed@;
        let n_passed = self.passed.len();
        if n_passed > 0 {
            let oldest = self.passed[0];
            assert(oldest.wf());
            if frame.width + oldest.x_offset + cfg.obstacle_width <= 0 {
                self.passed.pop_front();
            }
        }
        let retired = self.front_retires(cfg, frame.width);
        if retired {
            let front = self.list.pop_front().unwrap();
            self.passed.push_back(front);
        }
        assert(self.list@ == kept(*cfg, frame.width, up0));
        let n = self.list.len();
        if n == 0 || self.list[n - 1].x_offset < -cfg.spawn_distance {
            self.list.push_back(Obstacle::with_gap(cfg, gap_center));
        }
        assert(self.list@ == with_spawn(*cfg, kept(*cfg, frame.width, up0), gap_center));
        assert(all_wf(self.list@));
        assert(all_wf(self.passed@));
        advance_queue(&mut self.list, cfg, frame.dt_micros);
        advance_queue(&mut self.passed, cfg, frame.dt_micros);
        assert(self.passed@ =~= next_passed(*cfg, frame, up0, pa0));
        retired
    }

    /// One frame of the obstacle stream, drawing the gap of a spawned
    /// obstacle at random from the band for the frame's viewport height;
    /// otherwise as `tick_with_gap`.
    pub fn tick(&mut self, cfg: &Config, frame: Frame) -> (retired: bool)
        requires
            old(self).wf(),
            cfg.wf(),
            frame.wf(),
        ensures
            final(self).wf(),
            exists|g: i64|
                band_low(*cfg) <= g <= band_high(*cfg, frame.height) && final(self).list@
                    == next_upcoming(*cfg, frame, old(self).list@, g),
            final(self).passed@ == next_passed(*cfg, frame, old(self).list@, old(self).passed@),
            retired == front_retires(*cfg, frame.width, old(self).list@),
            final(self).list@.len() > 0,
    {
        let (low, _) = gap_band(cfg, frame.height);
        let gap = if self.spawn_pending(cfg, frame.width) {
            Obstacle::new(cfg, frame.height).gap_center
        } else {
            low
        };
        self.tick_with_gap(cfg, frame, gap)
    }
}

} // verus!
