use vstd::prelude::*;

use crate::bird::{Bird, fall_velocity, saturate, start_bird};
use crate::config::{Config, Frame, bird_x, bird_x_of, nonneg_within_magnitude};
use crate::obstacle::{Obstacle, band_high, band_low, blocks};
use crate::queue::{Obstacles, front_retires, next_passed, next_upcoming};

verus! {

/// What the bird ran into.
#[derive(Clone, Copy, Debug, PartialEq, Eq, Structural)]
pub enum Collision {
    /// It fell through the floor of the viewport.
    Floor,
    /// It met a blocking rectangle of an upcoming obstacle.
    Obstacle,
}

/// One frame's input, already reduced to the command it stands for.
#[derive(Clone, Copy, Debug, PartialEq, Eq, Structural)]
pub enum Action {
    Jump,
    Reset,
    Pause,
    PauseReleased,
}

/// The collision the bird is in, if any: the floor counts first, then any
/// upcoming obstacle whose top or bottom rectangle meets the bird's circle.
pub open spec fn collision_of(
    cfg: Config,
    bird: Bird,
    upcoming: Seq<Obstacle>,
    viewport_width: i64,
    viewport_height: i64,
) -> Option<Collision> {
    if bird.spec_off_bottom(viewport_height) {
        Some(Collision::Floor)
    } else if exists|i: int|
        0 <= i < upcoming.len() && #[trigger] blocks(
            cfg,
            upcoming[i],
            viewport_width,
            viewport_height,
            bird_x_of(viewport_width) as i64,
            bird.height,
        ) {
        Some(Collision::Obstacle)
    } else {
        None
    }
}

/// The command that a frame's input stands for. A release of the pause key
/// comes first, then a held jump input, a held pause key, and a held reset
/// key.
pub open spec fn action_of(
    pause_released: bool,
    jump_held: bool,
    pause_held: bool,
    reset_held: bool,
) -> Option<Action> {
    if pause_released {
        Some(Action::PauseReleased)
    } else if jump_held {
        Some(Action::Jump)
    } else if pause_held {
        Some(Action::Pause)
    } else if reset_held {
        Some(Action::Reset)
    } else {
        None
    }
}

/// Computes `action_of` for one frame's input.
pub fn classify_input(pause_released: bool, jump_held: bool, pause_held: bool, reset_held: bool) -> (r:
    Option<Action>)
    ensures
        r == action_of(pause_released, jump_held, pause_held, reset_held),
{
    if pause_released {
        Some(Action::PauseReleased)
    } else if jump_held {
        Some(Action::Jump)
    } else if pause_held {
        Some(Action::Pause)
    } else if reset_held {
        Some(Action::Reset)
    } else {
        None
    }
}

impl Bird {
    /// The collision the bird is in against the upcoming obstacles, scanned
    /// front to back.
    pub fn check_collisions(
        &self,
        cfg: &Config,
        obstacles: &Obstacles,
        viewport_width: i64,
        viewport_height: i64,
    ) -> (r: Option<Collision>)
        requires
            cfg.wf(),
            obstacles.wf(),
            nonneg_within_magnitude(viewport_width),
            nonneg_within_magnitude(viewport_height),
        ensures
            r == collision_of(*cfg, *self, obstacles.list@, viewport_width, viewport_height),
    {
        if self.off_bottom(viewport_height) {
            return Some(Collision::Floor);
        }
        let x = bird_x(viewport_width);
        let n = obstacles.list.len();
        let mut i: usize = 0;
        while i < n
            invariant
                cfg.wf(),
                obstacles.wf(),
                nonneg_within_magnitude(viewport_width),
                nonneg_within_magnitude(viewport_height),
                x == bird_x_of(viewport_width),
                !self.spec_off_bottom(viewport_height),
                n == obstacles.list@.len(),
                0 <= i <= n,
                forall|j: int|
                    0 <= j < i ==> !#[trigger] blocks(
                        *cfg,
                        obstacles.list@[j],
                        viewport_width,
                        viewport_height,
                        x,
                        self.height,
                    ),
            decreases n - i,
        {
            let o = obstacles.list[i];
            assert(o.wf());
            if o.blocks_bird(cfg, viewport_width, viewport_height, x, self.height) {
                assert(bird_x_of(viewport_width) as i64 == x);
                assert(blocks(
                    *cfg,
                    obstacles.list@[i as int],
                    viewport_width,
                    viewport_height,
                    bird_x_of(viewport_width) as i64,
                    self.height,
                ));
                return Some(Collision::Obstacle);
            }
            i = i + 1;
        }
        None
    }
}

/// The whole state of a game in progress.
pub struct GameState {
    pub bird: Bird,
    pub obstacles: Obstacles,
    /// The simulation is frozen by the player.
    pub paused: bool,
    /// Debounce latch: a held pause key toggles `paused` once, and only a
    /// release of the key arms it again.
    pub can_pause: bool,
    /// The bird has collided; the simulation is frozen until a reset.
    pub game_over: bool,
    /// Obstacles cleared since the last reset.
    pub score: u64,
}

/// `score` plus one, held at `u64::MAX`.
pub open spec fn bumped(score: u64) -> u64 {
    if score == u64::MAX {
        score
    } else {
        (score + 1) as u64
    }
}

impl GameState {
    pub open spec fn wf(&self) -> bool {
        self.obstacles.wf()
    }

    /// A new game: the bird centred and at rest, one fresh obstacle,
    /// running, with the pause latch armed and a score of zero.
    pub fn new(cfg: &Config, viewport_height: i64) -> (r: GameState)
        requires
            cfg.wf(),
            nonneg_within_magnitude(viewport_height),
        ensures
            r.wf(),
            r.bird == start_bird(viewport_height),
            r.obstacles.list@.len() == 1,
            r.obstacles.list@[0].x_offset == cfg.spawn_offset,
            band_low(*cfg) <= r.obstacles.list@[0].gap_center <= band_high(*cfg, viewport_height),
            r.obstacles.passed@.len() == 0,
            !r.paused,
            r.can_pause,
            !r.game_over,
            r.score == 0,
    {
        GameState {
            bird: Bird::new(viewport_height),
            obstacles: Obstacles::new(cfg, viewport_height),
            paused: false,
            can_pause: true,
            game_over: false,
            score: 0,
        }
    }

    /// Applies one frame's command. A jump sets the bird's velocity (even
    /// while frozen); a pause toggles `paused` only while the latch is
    /// armed, and disarms it; a pause release arms it; a reset restarts the
    /// bird, the obstacles and the score and ends a game over. Nothing else
    /// changes.
    pub fn apply(&mut self, cfg: &Config, action: Option<Action>, viewport_height: i64)
        requires
            old(self).wf(),
            cfg.wf(),
            nonneg_within_magnitude(viewport_height),
        ensures
            final(self).wf(),
            action is None ==> *final(self) == *old(self),
            action == Some(Action::Jump) ==> *final(self) == (GameState {
                bird: Bird { height: old(self).bird.height, velocity: cfg.jump_velocity },
                ..*old(self)
            }),
            action == Some(Action::Pause) ==> *final(self) == (if old(self).can_pause {
                GameState { paused: !old(self).paused, can_pause: false, ..*old(self) }
            } else {
                *old(self)
            }),
            action == Some(Action::PauseReleased) ==> *final(self) == (GameState {
                can_pause: true,
                ..*old(self)
            }),
            action == Some(Action::Reset) ==> {
                &&& final(self).bird == start_bird(viewport_height)
                &&& final(self).obstacles.list@.len() == 1
                &&& final(self).obstacles.list@[0].x_offset == cfg.spawn_offset
                &&& band_low(*cfg) <= final(self).obstacles.list@[0].gap_center <= band_high(
                    *cfg,
                    viewport_height,
                )
                &&& final(self).obstacles.passed@.len() == 0
                &&& !final(self).game_over
                &&& final(self).score == 0
                &&& final(self).paused == old(self).paused
                &&& final(self).can_pause == old(self).can_pause
            },
    {
        match action {
            Some(Action::Jump) => self.bird.jump(cfg),
            Some(Action::Pause) => {
                if self.can_pause {
                    self.paused = !self.paused;
                    self.can_pause = false;
                }
            },
            Some(Action::PauseReleased) => self.can_pause = true,
            Some(Action::Reset) => {
                self.bird.reset(viewport_height);
                self.obstacles.reset(cfg, viewport_height);
                self.game_over = false;
                self.score = 0;
            },
            None => {},
        }
    }

    /// Advances one frame unless paused or over: the obstacles take their
    /// frame (a retirement scores one), then the bird falls, and a collision
    /// in the new state ends the game. Returns that collision. A frozen
    /// game is left as it is and reports none.
    pub fn step(&mut self, cfg: &Config, frame: Frame) -> (r: Option<Collision>)
        requires
            old(self).wf(),
            cfg.wf(),
            frame.wf(),
        ensures
            final(self).wf(),
            old(self).paused || old(self).game_over ==> *final(self) == *old(self) && r is None,
            !old(self).paused && !old(self).game_over ==> {
                &&& exists|g: i64|
                    band_low(*cfg) <= g <= band_high(*cfg, frame.height)
                        && final(self).obstacles.list@ == next_upcoming(
                        *cfg,
                        frame,
                        old(self).obstacles.list@,
                        g,
                    )
                &&& final(self).obstacles.passed@ == next_passed(
                    *cfg,
                    frame,
                    old(self).obstacles.list@,
                    old(self).obstacles.passed@,
                )
                &&& final(self).obstacles.list@.len() > 0
                &&& final(self).score == (if front_retires(
                    *cfg,
                    frame.width,
                    old(self).obstacles.list@,
                ) {
                    bumped(old(self).score)
                } else {
                    old(self).score
                })
                &&& final(self).bird.height == saturate(
                    old(self).bird.height + old(self).bird.velocity,
                )
                &&& final(self).bird.velocity == fall_velocity(
                    *cfg,
                    old(self).bird.velocity,
                    frame.dt_micros,
                )
                &&& r == collision_of(
                    *cfg,
                    final(self).bird,
                    final(self).obstacles.list@,
                    frame.width,
                    frame.height,
                )
                &&& final(self).game_over == r is Some
                &&& final(self).paused == old(self).paused
                &&& final(self).can_pause == old(self).can_pause
            },
    {
        if self.paused || self.game_over {
            return None;
        }
        let retired = self.obstacles.tick(cfg, frame);
        if retired && self.score < u64::MAX {
            self.score = self.score + 1;
        }
        self.bird.tick(cfg, frame.dt_micros);
        let hit = self.bird.check_collisions(cfg, &self.obstacles, frame.width, frame.height);
        if hit.is_some() {
            self.game_over = true;
        }
        hit
    }
}

} // verus!
