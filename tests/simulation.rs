use std::collections::VecDeque;

use molly_bird::bird::Bird;
use molly_bird::fps::FpsMeter;
use molly_bird::config::{bird_x, gain, Config, Frame};
use molly_bird::game::{classify_input, Action, Collision, GameState};
use molly_bird::geometry::{circle_hits_rect, Rect};
use molly_bird::obstacle::{gap_band, Obstacle};
use molly_bird::queue::Obstacles;

/// Lengths in whole pixels: radius 25, obstacles 30 wide, gap half-height 30.
fn pixel_config() -> Config {
    Config {
        radius: 25,
        obstacle_width: 30,
        gap_half_height: 30,
        spawn_distance: 380,
        spawn_offset: 10,
        scroll_speed: 250,
        gravity: 20,
        velocity_cap: 10,
        jump_velocity: -5,
    }
}

fn queue(list: Vec<Obstacle>) -> Obstacles {
    Obstacles { list: VecDeque::from(list), passed: VecDeque::new() }
}

fn frame(dt_micros: u32) -> Frame {
    Frame { dt_micros, width: 800, height: 600 }
}

#[test]
fn free_fall_adds_gravity_over_the_frame() {
    let cfg = Config { gravity: 9800, velocity_cap: 1_000_000, ..Config::standard() };
    let mut bird = Bird { height: 0, velocity: 0 };
    bird.tick(&cfg, 1_000_000);
    assert_eq!(bird.velocity, 9800);
    assert_eq!(bird.height, 0);
    bird.tick(&cfg, 500_000);
    assert_eq!(bird.height, 9800);
    assert_eq!(bird.velocity, 9800 + 4900);
}

#[test]
fn free_fall_is_capped() {
    let cfg = Config::standard();
    let mut bird = Bird { height: 100, velocity: 9990 };
    bird.tick(&cfg, 16_000);
    assert_eq!(bird.height, 100 + 9990);
    assert_eq!(bird.velocity, 10000);
    let mut slow = Bird { height: 0, velocity: -5000 };
    slow.tick(&cfg, 16_000);
    assert_eq!(slow.velocity, -5000 + 320);
}

#[test]
fn height_saturates_at_the_integer_bound() {
    let cfg = Config::standard();
    let mut bird = Bird { height: i64::MIN + 3, velocity: -5000 };
    bird.tick(&cfg, 0);
    assert_eq!(bird.height, i64::MIN);
}

#[test]
fn jump_overwrites_velocity() {
    let cfg = Config::standard();
    for v in [-5000i64, 0, 7, 10000] {
        let mut bird = Bird { height: 42, velocity: v };
        bird.jump(&cfg);
        assert_eq!(bird, Bird { height: 42, velocity: -5000 });
        bird.jump(&cfg);
        assert_eq!(bird.velocity, -5000);
    }
}

#[test]
fn reset_recentres_and_stops() {
    let mut bird = Bird { height: 123, velocity: -77 };
    bird.reset(600);
    assert_eq!(bird, Bird { height: 300, velocity: 0 });
    let mut other = Bird { height: -9000, velocity: 10 };
    other.reset(600);
    assert_eq!(other, Bird { height: 300, velocity: 0 });
    assert_eq!(Bird::new(601), Bird { height: 300, velocity: 0 });
}

#[test]
fn floor_crossing_counts_only_while_falling() {
    assert!(Bird { height: 601, velocity: 1 }.off_bottom(600));
    assert!(!Bird { height: 601, velocity: -1 }.off_bottom(600));
    assert!(!Bird { height: 600, velocity: 5 }.off_bottom(600));
}

#[test]
fn gain_rounds_down() {
    assert_eq!(gain(250_000, 16_667), 4166);
    assert_eq!(gain(20, 1_000_000), 20);
    assert_eq!(gain(7, 0), 0);
    assert_eq!(bird_x(800), 266);
}

#[test]
fn corner_contact_is_inclusive() {
    let rect = Rect { x: 0, y: 0, w: 10, h: 10 };
    // Centre 3 right and 4 below the bottom-right corner: distance 5.
    assert!(circle_hits_rect(13, 14, 5, rect));
    assert!(!circle_hits_rect(13, 14, 4, rect));
    // Top-left corner.
    assert!(circle_hits_rect(-3, -4, 5, rect));
    assert!(!circle_hits_rect(-3, -4, 4, rect));
}

#[test]
fn collision_bands_and_far_misses() {
    let rect = Rect { x: 100, y: 50, w: 30, h: 20 };
    assert!(circle_hits_rect(115, 60, 0, rect));
    assert!(circle_hits_rect(115, 95, 25, rect));
    assert!(!circle_hits_rect(115, 96, 25, rect));
    assert!(circle_hits_rect(75, 60, 25, rect));
    assert!(!circle_hits_rect(74, 60, 25, rect));
    assert!(!circle_hits_rect(0, 0, 25, rect));
    assert!(!circle_hits_rect(115, 60, 25, Rect { x: 100, y: 50, w: 30, h: -1 }));
}

#[test]
fn bird_in_gap_is_clear_and_in_band_is_hit() {
    let cfg = pixel_config();
    // Obstacle at x = 400 with its gap centred at 300.
    let far = queue(vec![Obstacle { x_offset: -400, gap_center: 300 }]);
    assert_eq!(far.list[0].x(800), 400);
    assert_eq!(Bird { height: 300, velocity: 0 }.check_collisions(&cfg, &far, 800, 600), None);
    // The same obstacle moved over the bird's column (x = 250).
    let near = queue(vec![Obstacle { x_offset: -550, gap_center: 300 }]);
    assert_eq!(
        Bird { height: 150, velocity: 0 }.check_collisions(&cfg, &near, 800, 600),
        Some(Collision::Obstacle)
    );
    assert_eq!(Bird { height: 300, velocity: 0 }.check_collisions(&cfg, &near, 800, 600), None);
    assert_eq!(
        Bird { height: 560, velocity: 0 }.check_collisions(&cfg, &near, 800, 600),
        Some(Collision::Obstacle)
    );
    assert_eq!(
        Bird { height: 700, velocity: 3 }.check_collisions(&cfg, &near, 800, 600),
        Some(Collision::Floor)
    );
}

#[test]
fn obstacle_rectangles() {
    let cfg = pixel_config();
    let o = Obstacle { x_offset: -400, gap_center: 300 };
    assert_eq!(o.top_rect(&cfg, 800), Rect { x: 400, y: 0, w: 30, h: 270 });
    assert_eq!(o.bottom_rect(&cfg, 800, 600), Rect { x: 400, y: 330, w: 30, h: 270 });
}

#[test]
fn obstacle_scrolls_left() {
    let cfg = pixel_config();
    let mut o = Obstacle::with_gap(&cfg, 200);
    assert_eq!(o, Obstacle { x_offset: 10, gap_center: 200 });
    o.update(&cfg, 1_000_000);
    assert_eq!(o, Obstacle { x_offset: -240, gap_center: 200 });
    let mut edge = Obstacle { x_offset: i64::MIN + 1, gap_center: 0 };
    edge.update(&cfg, 1_000_000);
    assert_eq!(edge.x_offset, i64::MIN);
}

#[test]
fn random_gaps_stay_in_band_and_vary() {
    let cfg = Config::standard();
    assert_eq!(gap_band(&cfg, 600_000), (95_000, 505_000));
    let mut seen = Vec::new();
    for _ in 0..200 {
        let o = Obstacle::new(&cfg, 600_000);
        assert_eq!(o.x_offset, 10_000);
        assert!(o.gap_center >= 95_000 && o.gap_center <= 505_000);
        seen.push(o.gap_center);
    }
    assert!(seen.iter().any(|g| *g != 95_000));
    assert!(seen.iter().any(|g| *g != seen[0]));
}

#[test]
fn short_viewport_pins_the_gap() {
    let cfg = Config::standard();
    assert!(!cfg.fits_viewport(150_000));
    assert!(cfg.fits_viewport(190_000));
    assert_eq!(gap_band(&cfg, 150_000), (95_000, 95_000));
    assert_eq!(Obstacle::new(&cfg, 150_000).gap_center, 95_000);
}

#[test]
fn empty_queue_spawns() {
    let cfg = pixel_config();
    let mut obstacles = queue(vec![]);
    let retired = obstacles.tick_with_gap(&cfg, frame(1_000_000), 123);
    assert!(!retired);
    assert_eq!(obstacles.list, VecDeque::from(vec![Obstacle { x_offset: -240, gap_center: 123 }]));
    assert!(obstacles.passed.is_empty());
}

#[test]
fn spawn_follows_the_spawn_distance() {
    let cfg = pixel_config();
    let mut waiting = queue(vec![Obstacle { x_offset: -380, gap_center: 300 }]);
    waiting.tick_with_gap(&cfg, frame(0), 100);
    assert_eq!(waiting.list.len(), 1);
    let mut due = queue(vec![Obstacle { x_offset: -381, gap_center: 300 }]);
    due.tick_with_gap(&cfg, frame(0), 100);
    assert_eq!(
        due.list,
        VecDeque::from(vec![
            Obstacle { x_offset: -381, gap_center: 300 },
            Obstacle { x_offset: 10, gap_center: 100 },
        ])
    );
}

#[test]
fn retirement_moves_the_front_to_passed() {
    let cfg = pixel_config();
    // Bird at 266: retire once 800 + offset + 30 < 266 - 30 - 25 = 211.
    let front = Obstacle { x_offset: -620, gap_center: 300 };
    let back = Obstacle { x_offset: -200, gap_center: 400 };
    let mut obstacles = queue(vec![front, back]);
    let retired = obstacles.tick_with_gap(&cfg, frame(4_000), 100);
    assert!(retired);
    assert_eq!(obstacles.list, VecDeque::from(vec![Obstacle { x_offset: -201, gap_center: 400 }]));
    assert_eq!(obstacles.passed, VecDeque::from(vec![Obstacle { x_offset: -621, gap_center: 300 }]));
    let mut kept = queue(vec![Obstacle { x_offset: -619, gap_center: 300 }, back]);
    assert!(!kept.tick_with_gap(&cfg, frame(0), 100));
    assert_eq!(kept.list.len(), 2);
}

#[test]
fn last_obstacle_retired_is_replaced_in_the_same_frame() {
    let cfg = pixel_config();
    let mut obstacles = queue(vec![Obstacle { x_offset: -700, gap_center: 300 }]);
    assert!(obstacles.tick_with_gap(&cfg, frame(0), 77));
    assert_eq!(obstacles.list, VecDeque::from(vec![Obstacle { x_offset: 10, gap_center: 77 }]));
    assert_eq!(obstacles.passed.len(), 1);
}

#[test]
fn passed_obstacles_leave_once_off_screen() {
    let cfg = pixel_config();
    let mut obstacles = Obstacles {
        list: VecDeque::from(vec![Obstacle { x_offset: -100, gap_center: 300 }]),
        passed: VecDeque::from(vec![
            Obstacle { x_offset: -830, gap_center: 300 },
            Obstacle { x_offset: -700, gap_center: 300 },
        ]),
    };
    obstacles.tick_with_gap(&cfg, frame(0), 1);
    assert_eq!(obstacles.passed, VecDeque::from(vec![Obstacle { x_offset: -700, gap_center: 300 }]));
}

#[test]
fn random_tick_never_leaves_the_queue_empty() {
    let cfg = Config::standard();
    let f = Frame { dt_micros: 16_667, width: 800_000, height: 600_000 };
    let mut obstacles = Obstacles::new(&cfg, 600_000);
    for _ in 0..2000 {
        obstacles.tick(&cfg, f);
        assert!(!obstacles.list.is_empty());
        for o in obstacles.list.iter() {
            assert!(o.gap_center >= 95_000 && o.gap_center <= 505_000);
        }
    }
    obstacles.reset(&cfg, 600_000);
    assert_eq!(obstacles.list.len(), 1);
    assert!(obstacles.passed.is_empty());
}

#[test]
fn input_priority() {
    assert_eq!(classify_input(true, true, true, true), Some(Action::PauseReleased));
    assert_eq!(classify_input(false, true, true, true), Some(Action::Jump));
    assert_eq!(classify_input(false, false, true, true), Some(Action::Pause));
    assert_eq!(classify_input(false, false, false, true), Some(Action::Reset));
    assert_eq!(classify_input(false, false, false, false), None);
}

#[test]
fn pause_is_debounced() {
    let cfg = Config::standard();
    let mut game = GameState::new(&cfg, 600_000);
    assert!(!game.paused && game.can_pause);
    game.apply(&cfg, Some(Action::Pause), 600_000);
    assert!(game.paused && !game.can_pause);
    game.apply(&cfg, Some(Action::Pause), 600_000);
    assert!(game.paused && !game.can_pause);
    game.apply(&cfg, Some(Action::PauseReleased), 600_000);
    assert!(game.paused && game.can_pause);
    game.apply(&cfg, Some(Action::Pause), 600_000);
    assert!(!game.paused && !game.can_pause);
}

#[test]
fn paused_game_does_not_advance() {
    let cfg = Config::standard();
    let f = Frame { dt_micros: 16_667, width: 800_000, height: 600_000 };
    let mut game = GameState::new(&cfg, 600_000);
    game.apply(&cfg, Some(Action::Pause), 600_000);
    let before = (game.bird, game.obstacles.list.clone());
    assert_eq!(game.step(&cfg, f), None);
    assert_eq!((game.bird, game.obstacles.list.clone()), before);
}

#[test]
fn running_game_scores_and_ends_on_collision() {
    let cfg = pixel_config();
    let mut game = GameState::new(&cfg, 600);
    game.bird = Bird { height: 300, velocity: 0 };
    game.obstacles = queue(vec![
        Obstacle { x_offset: -700, gap_center: 300 },
        Obstacle { x_offset: -100, gap_center: 300 },
    ]);
    assert_eq!(game.step(&cfg, frame(0)), None);
    assert_eq!(game.score, 1);
    assert!(!game.game_over);
    game.bird = Bird { height: 650, velocity: 5 };
    assert_eq!(game.step(&cfg, frame(0)), Some(Collision::Floor));
    assert!(game.game_over);
    let frozen = game.bird;
    assert_eq!(game.step(&cfg, frame(1_000_000)), None);
    assert_eq!(game.bird, frozen);
    game.apply(&cfg, Some(Action::Jump), 600);
    assert_eq!(game.bird.velocity, -5);
    game.apply(&cfg, Some(Action::Reset), 600);
    assert!(!game.game_over);
    assert_eq!(game.score, 0);
    assert_eq!(game.bird, Bird { height: 300, velocity: 0 });
    assert_eq!(game.obstacles.list.len(), 1);
}

#[test]
fn fps_average_over_the_last_twenty_frames() {
    let mut meter = FpsMeter::new();
    assert_eq!(meter.average(), 0);
    meter.record(59);
    meter.record(60);
    assert_eq!(meter.average(), 59);
    for _ in 0..20 {
        meter.record(30);
    }
    assert_eq!(meter.samples.len(), 20);
    assert_eq!(meter.average(), 30);
    meter.record(u32::MAX);
    assert_eq!(meter.samples.len(), 20);
    assert_eq!(meter.average(), ((19 * 30 + u32::MAX as u64) / 20) as u32);
}
