use disco_bird::bird::Bird;
use disco_bird::ground::Ground;
use disco_bird::pipe::Pipe;
use disco_bird::screen::Screen;
use disco_bird::units::{
    BIRD_SIZE, GAME_SPEED, GAP_EDGE_MAX, GAP_EDGE_MIN, GRAVITY, JUMP_FORCE, MAX_FRAME_MS,
    PIPE1_START, PIPE_DISTANCE, PIPE_GAP,
};
use disco_bird::world::{FrameEvents, GameState, GapDraws, World};

fn screen() -> Screen {
    Screen {
        width: 432_000,
        height: 768_000,
        ground_width: 336_000,
        ground_height: 112_000,
        pipe_width: 52_000,
    }
}

fn draws() -> GapDraws {
    GapDraws {
        recycled_first: 250_000,
        recycled_second: 260_000,
        restart_first: 270_000,
        restart_second: 280_000,
    }
}

fn quiet() -> FrameEvents {
    FrameEvents {
        jumped: false,
        scored_first: false,
        scored_second: false,
        hit_first: false,
        hit_second: false,
        hit_bounds: false,
        restarted: false,
    }
}

/// A world in play, with the bird at rest at the height given, in the gap of
/// pipes that are far to the right.
fn playing(y: i64, vy: i64) -> World {
    let mut world = World::new(screen(), 400_000, 400_000);
    world.state = GameState::Gameplay;
    world.bird.y = y;
    world.bird.vy = vy;
    assert!(world.is_wf());
    world
}

#[test]
fn units_are_thousandths_of_the_pixel_values() {
    assert_eq!(BIRD_SIZE, 17_000);
    assert_eq!(PIPE_GAP, 170_000);
    assert_eq!(PIPE_DISTANCE, 250_000);
    assert_eq!(PIPE1_START, 532_000);
    assert_eq!(GRAVITY, 2);
    assert_eq!(JUMP_FORCE, 600);
    assert_eq!(GAME_SPEED, 150);
    assert_eq!(GAP_EDGE_MIN, 240_000);
    assert_eq!(GAP_EDGE_MAX, 560_000);
    assert_eq!(MAX_FRAME_MS, 1_000);
}

#[test]
fn new_world_waits_at_the_spawn_point() {
    let world = World::new(screen(), 300_000, 500_000);
    assert_eq!(world.state, GameState::Start);
    assert_eq!(world.bird, Bird { x: 216_000, y: 284_000, vy: 0 });
    assert_eq!(world.pipe1, Pipe { x: 532_000, y: 300_000 });
    assert_eq!(world.pipe2, Pipe { x: 782_000, y: 500_000 });
    assert_eq!(world.ground1, Ground { x: 0, y: 656_000 });
    assert_eq!(world.ground2, Ground { x: 336_000, y: 656_000 });
    assert_eq!(world.score, 0);
    assert_eq!(world.high_score, 0);
    assert_eq!(world.screen, screen());
    assert!(world.is_wf());
}

#[test]
fn random_world_has_gaps_in_range() {
    for _ in 0..200 {
        let world = World::random(screen());
        assert!(world.is_wf());
        assert!(GAP_EDGE_MIN <= world.pipe1.y && world.pipe1.y <= GAP_EDGE_MAX);
        assert!(GAP_EDGE_MIN <= world.pipe2.y && world.pipe2.y <= GAP_EDGE_MAX);
        assert_eq!(world, World::new(screen(), world.pipe1.y, world.pipe2.y));
    }
}

#[test]
fn start_without_jump_only_scrolls_the_ground() {
    let mut world = World::new(screen(), 300_000, 500_000);
    let events = world.update_with(false, 10, draws());
    assert_eq!(events, quiet());
    let mut expected = World::new(screen(), 300_000, 500_000);
    expected.ground1.x = -1_500;
    expected.ground2.x = 334_500;
    assert_eq!(world, expected);
}

#[test]
fn jump_from_start_enters_play_with_the_impulse() {
    let mut world = World::new(screen(), 300_000, 500_000);
    let events = world.update_with(true, 0, draws());
    assert_eq!(events, FrameEvents { jumped: true, ..quiet() });
    assert_eq!(world.state, GameState::Gameplay);
    assert_eq!(world.bird, Bird { x: 216_000, y: 284_000, vy: -600 });
    assert_eq!(world.pipe1.x, 532_000);

    let events = world.update_with(false, 16, draws());
    assert_eq!(events, quiet());
    assert_eq!(world.state, GameState::Gameplay);
    assert_eq!(world.bird, Bird { x: 216_000, y: 274_912, vy: -568 });
    assert_eq!(world.pipe1, Pipe { x: 532_000 - 150 * 16, y: 300_000 });
    assert_eq!(world.pipe2, Pipe { x: 782_000 - 150 * 16, y: 500_000 });
    assert_eq!(world.ground1.x, -2_400);
    assert_eq!(world.ground2.x, 333_600);
}

#[test]
fn jump_and_motion_share_the_first_frame() {
    let mut world = World::new(screen(), 300_000, 500_000);
    let events = world.update_with(true, 20, draws());
    assert!(events.jumped);
    assert_eq!(world.state, GameState::Gameplay);
    assert_eq!(world.bird.vy, -560);
    assert_eq!(world.bird.y, 284_000 - 560 * 20);
    assert_eq!(world.pipe1.x, 532_000 - 3_000);
    assert_eq!(world.pipe2.x, 782_000 - 3_000);
}

#[test]
fn jump_overrides_any_speed() {
    for vy in [-600, -1, 0, 1, 900, 1_000_300_000] {
        let mut world = playing(300_000, vy);
        let events = world.update_with(true, 0, draws());
        assert!(events.jumped);
        assert_eq!(world.bird.vy, -600);
        assert_eq!(world.bird.y, 300_000);
        assert_eq!(world.state, GameState::Gameplay);
    }
    let mut world = playing(300_000, 900);
    world.update_with(true, 5, draws());
    assert_eq!(world.bird.vy, -590);
    assert_eq!(world.bird.y, 300_000 - 2_950);
}

#[test]
fn bird_jump_keeps_the_position() {
    let bird = Bird { x: 5, y: -7, vy: 123 };
    assert_eq!(bird.jump(), Bird { x: 5, y: -7, vy: -600 });
}

#[test]
fn gravity_raises_the_speed_every_frame() {
    let mut world = playing(200_000, -100);
    let mut speed = world.bird.vy;
    let mut height = world.bird.y;
    for dt in [10, 1, 16, 33, 7] {
        let events = world.update_with(false, dt, draws());
        assert_eq!(events, quiet());
        assert!(world.bird.vy > speed);
        assert_eq!(world.bird.vy, speed + 2 * i64::from(dt));
        assert_eq!(world.bird.y, height + world.bird.vy * i64::from(dt));
        speed = world.bird.vy;
        height = world.bird.y;
    }
    assert_eq!(speed, 34);
    assert_eq!(height, 200_000 - 800 - 78 - 736 + 660 + 238);
}

#[test]
fn frame_of_no_time_moves_nothing() {
    let mut world = playing(200_000, 345);
    let before = world;
    let events = world.update_with(false, 0, draws());
    assert_eq!(events, quiet());
    assert_eq!(world, before);
}

#[test]
fn bird_fall_is_velocity_then_position() {
    let bird = Bird { x: 216_000, y: 100_000, vy: -600 };
    assert_eq!(bird.fall(100), Bird { x: 216_000, y: 60_000, vy: -400 });
    assert_eq!(bird.fall(300), Bird { x: 216_000, y: 100_000, vy: 0 });
    assert_eq!(bird.fall(1_000), Bird { x: 216_000, y: 1_500_000, vy: 1_400 });
    assert_eq!(bird.fall(0), bird);
}

#[test]
fn bird_rotation_follows_the_speed() {
    let at = |vy: i64| Bird { x: 0, y: 0, vy }.rotation();
    assert_eq!(at(2_000), 90_000);
    assert_eq!(at(1_001), 90_000);
    assert_eq!(at(1_000), 90_000);
    assert_eq!(at(500), 45_000);
    assert_eq!(at(1), 90);
    assert_eq!(at(0), 0);
    assert_eq!(at(-1), -60);
    assert_eq!(at(-500), -30_000);
    assert_eq!(at(-600), -36_000);
}

#[test]
fn bird_bounds_are_the_top_and_the_floor() {
    let at = |y: i64| Bird { x: 0, y, vy: 0 };
    assert!(!at(17_000).out_of_bounds(656_000));
    assert!(at(16_999).out_of_bounds(656_000));
    assert!(!at(639_000).out_of_bounds(656_000));
    assert!(at(639_001).out_of_bounds(656_000));
    assert!(at(638_999).above(656_000));
    assert!(!at(639_000).above(656_000));
}

#[test]
fn pipes_scroll_by_speed_times_time() {
    let pipe = Pipe { x: 532_000, y: 300_000 };
    assert_eq!(pipe.scroll(0), pipe);
    assert_eq!(pipe.scroll(1), Pipe { x: 531_850, y: 300_000 });
    assert_eq!(pipe.scroll(1_000), Pipe { x: 382_000, y: 300_000 });
}

#[test]
fn pipe_that_left_the_screen_follows_its_partner() {
    let mut world = playing(300_000, 0);
    world.pipe1.x = -51_000;
    world.pipe2.x = 199_000;
    assert!(world.is_wf());
    let events = world.update_with(false, 10, draws());
    assert_eq!(events, quiet());
    assert_eq!(world.state, GameState::Gameplay);
    assert_eq!(world.pipe2, Pipe { x: 197_500, y: 400_000 });
    assert_eq!(world.pipe1, Pipe { x: 197_500 + 250_000, y: 250_000 });
    assert_eq!(world.bird, Bird { x: 216_000, y: 300_200, vy: 20 });
}

#[test]
fn pipe_at_the_edge_is_not_recycled_yet() {
    let mut world = playing(300_000, 0);
    world.pipe1.x = -50_500;
    world.pipe2.x = 199_500;
    assert!(world.is_wf());
    world.update_with(false, 10, draws());
    assert_eq!(world.pipe1, Pipe { x: -52_000, y: 400_000 });
    assert_eq!(world.pipe2, Pipe { x: 198_000, y: 400_000 });
    world.update_with(false, 1, draws());
    assert_eq!(world.pipe2, Pipe { x: 197_850, y: 400_000 });
    assert_eq!(world.pipe1, Pipe { x: 447_850, y: 250_000 });
}

#[test]
fn second_pipe_follows_the_first() {
    let mut world = playing(300_000, 0);
    world.pipe2.x = -51_000;
    world.pipe1.x = 199_000;
    assert!(world.is_wf());
    let events = world.update_with(false, 10, draws());
    assert_eq!(events, quiet());
    assert_eq!(world.pipe1, Pipe { x: 197_500, y: 400_000 });
    assert_eq!(world.pipe2, Pipe { x: 447_500, y: 260_000 });
}

#[test]
fn recycled_gap_from_the_generator_is_in_range() {
    for _ in 0..200 {
        let mut world = playing(300_000, 0);
        world.pipe1.x = -51_000;
        world.pipe2.x = 199_000;
        let events = world.update(false, 10);
        assert_eq!(events, quiet());
        assert_eq!(world.pipe1.x, 447_500);
        assert!(GAP_EDGE_MIN <= world.pipe1.y && world.pipe1.y <= GAP_EDGE_MAX);
        assert_eq!(world.pipe2, Pipe { x: 197_500, y: 400_000 });
        assert!(world.is_wf());
    }
}

#[test]
fn pipe_tests_its_right_edge_against_the_window() {
    let bird = Bird { x: 216_000, y: 300_000, vy: 0 };
    let at = |edge: i64| Pipe { x: edge - 52_000, y: 400_000 }.passed_by(52_000, bird);
    assert!(!at(217_000));
    assert!(at(216_999));
    assert!(at(216_000));
    assert!(at(215_001));
    assert!(!at(215_000));
}

#[test]
fn first_pipe_scores_once_per_pass() {
    let mut world = playing(300_000, 0);
    world.pipe1.x = 164_650;
    world.pipe2.x = 414_650;
    assert!(world.is_wf());
    let events = world.update_with(false, 1, draws());
    assert_eq!(events, FrameEvents { scored_first: true, ..quiet() });
    assert_eq!(world.score, 1);
    assert_eq!(world.pipe1.x + 52_000, 216_500);
    for _ in 0..20 {
        let events = world.update_with(false, 1, draws());
        assert_eq!(events, quiet());
        assert_eq!(world.score, 1);
    }
    assert_eq!(world.state, GameState::Gameplay);
}

#[test]
fn second_pipe_scores_only_at_an_odd_score() {
    let mut world = playing(300_000, 0);
    world.pipe2.x = 164_650;
    world.pipe1.x = 414_650;
    assert!(world.is_wf());
    let mut even = world;
    let events = even.update_with(false, 1, draws());
    assert_eq!(events, quiet());
    assert_eq!(even.score, 0);

    world.score = 1;
    let events = world.update_with(false, 1, draws());
    assert_eq!(events, FrameEvents { scored_second: true, ..quiet() });
    assert_eq!(world.score, 2);
}

#[test]
fn first_pipe_scores_only_at_an_even_score() {
    let mut world = playing(300_000, 0);
    world.pipe1.x = 164_650;
    world.pipe2.x = 414_650;
    world.score = 3;
    assert!(world.is_wf());
    let events = world.update_with(false, 1, draws());
    assert_eq!(events, quiet());
    assert_eq!(world.score, 3);
}

#[test]
fn bird_inside_the_gap_does_not_hit() {
    let pipe = Pipe { x: 200_000, y: 400_000 };
    let at = |y: i64| pipe.hits(52_000, Bird { x: 216_000, y, vy: 0 });
    assert!(!at(300_000));
    assert!(!at(382_999));
    assert!(at(383_000));
    assert!(at(500_000));
    assert!(!at(247_001));
    assert!(at(247_000));
    assert!(at(100_000));
}

#[test]
fn bird_beside_the_pipe_does_not_hit() {
    let bird = Bird { x: 216_000, y: 500_000, vy: 0 };
    let at = |x: i64| Pipe { x, y: 400_000 }.hits(52_000, bird);
    assert!(!at(233_000));
    assert!(at(232_999));
    assert!(at(147_001));
    assert!(!at(147_000));
}

#[test]
fn hitting_a_pipe_ends_the_round() {
    let mut world = playing(390_000, 0);
    world.pipe1.x = 200_000;
    world.pipe2.x = 450_000;
    world.score = 4;
    world.high_score = 2;
    assert!(world.is_wf());
    let events = world.update_with(false, 0, draws());
    assert_eq!(events, FrameEvents { hit_first: true, ..quiet() });
    assert_eq!(world.state, GameState::GameOver);
    assert_eq!(world.score, 4);
    assert_eq!(world.high_score, 4);
    assert!(world.is_wf());
}

#[test]
fn hitting_the_second_pipe_ends_the_round() {
    let mut world = playing(240_000, 0);
    world.pipe2.x = 200_000;
    world.pipe1.x = 450_000;
    world.score = 1;
    world.high_score = 9;
    assert!(world.is_wf());
    let events = world.update_with(false, 0, draws());
    assert_eq!(events, FrameEvents { hit_second: true, ..quiet() });
    assert_eq!(world.state, GameState::GameOver);
    assert_eq!(world.score, 1);
    assert_eq!(world.high_score, 9);
}

#[test]
fn leaving_the_screen_at_the_top_ends_the_round() {
    let mut world = playing(20_000, -600);
    let events = world.update_with(false, 10, draws());
    assert_eq!(events, FrameEvents { hit_bounds: true, ..quiet() });
    assert_eq!(world.state, GameState::GameOver);
    // the crash is followed up at once: the bird has fallen twice
    assert_eq!(world.bird, Bird { x: 216_000, y: 20_000 - 5_800 - 5_600, vy: -560 });
    assert_eq!(world.pipe1.x, 532_000 - 1_500);
    assert!(world.is_wf());
}

#[test]
fn touching_the_ground_ends_the_round() {
    let mut world = playing(630_000, 1_000);
    let events = world.update_with(false, 10, draws());
    assert_eq!(events, FrameEvents { hit_bounds: true, ..quiet() });
    assert_eq!(world.state, GameState::GameOver);
    // 630_000 + 1_020 * 10 puts the lower edge below the ground: no further fall
    assert_eq!(world.bird, Bird { x: 216_000, y: 640_200, vy: 1_020 });
    assert!(world.is_wf());
}

#[test]
fn frame_without_collision_stays_in_play() {
    let mut world = playing(300_000, 0);
    for _ in 0..20 {
        let events = world.update_with(false, 10, draws());
        assert_eq!(events, quiet());
        assert_eq!(world.state, GameState::Gameplay);
    }
    assert_eq!(world.bird.vy, 400);
    assert_eq!(world.bird.y, 300_000 + 10 * (20 + 400) * 20 / 2);
}

#[test]
fn fallen_bird_lands_and_waits() {
    let mut world = World::new(screen(), 400_000, 400_000);
    world.update_with(true, 0, draws());
    let mut frames = 0;
    loop {
        let events = world.update_with(false, 16, draws());
        frames += 1;
        if world.state == GameState::GameOver {
            assert_eq!(events, FrameEvents { hit_bounds: true, ..quiet() });
            break;
        }
        assert_eq!(events, quiet());
    }
    assert_eq!(frames, 60);
    assert_eq!(world.bird, Bird { x: 216_000, y: 644_960, vy: 1_320 });
    assert_eq!(world.pipe1, Pipe { x: 388_000, y: 400_000 });
    assert_eq!(world.pipe2, Pipe { x: 638_000, y: 400_000 });
    assert_eq!(world.ground1.x, -144_000);
    assert_eq!(world.ground2.x, 192_000);

    let landed = world;
    let events = world.update_with(false, 16, draws());
    assert_eq!(events, quiet());
    assert_eq!(world, landed);

    let events = world.update_with(true, 16, draws());
    assert_eq!(events, FrameEvents { restarted: true, ..quiet() });
    assert_eq!(world.state, GameState::Start);
    assert_eq!(world.bird, Bird { x: 216_000, y: 284_000, vy: 0 });
    assert_eq!(world.pipe1, Pipe { x: 532_000, y: 270_000 });
    assert_eq!(world.pipe2, Pipe { x: 782_000, y: 280_000 });
    assert_eq!(world.ground1.x, -144_000);
    assert_eq!(world.ground2.x, 192_000);
    assert_eq!(world.score, 0);
}

#[test]
fn restart_waits_for_the_landing() {
    let mut world = World::new(screen(), 400_000, 400_000);
    world.state = GameState::GameOver;
    world.bird.y = 638_999;
    world.bird.vy = 0;
    world.score = 3;
    world.high_score = 7;
    assert!(world.is_wf());
    let events = world.update_with(true, 0, draws());
    assert_eq!(events, quiet());
    assert_eq!(world.state, GameState::GameOver);
    assert_eq!(world.score, 3);

    let events = world.update_with(true, 1, draws());
    assert_eq!(events, quiet());
    assert_eq!(world.state, GameState::GameOver);
    assert_eq!(world.bird, Bird { x: 216_000, y: 639_001, vy: 2 });

    let events = world.update_with(true, 1, draws());
    assert_eq!(events, FrameEvents { restarted: true, ..quiet() });
    assert_eq!(world.state, GameState::Start);
    assert_eq!(world.score, 0);
    assert_eq!(world.high_score, 7);
}

#[test]
fn restart_at_the_exact_ground_line() {
    let mut world = World::new(screen(), 400_000, 400_000);
    world.state = GameState::GameOver;
    world.bird.y = 639_000;
    world.score = 3;
    world.high_score = 3;
    assert!(world.is_wf());
    assert!(!world.falling());
    let events = world.update_with(true, 16, draws());
    assert!(events.restarted);
    assert_eq!(world, World { high_score: 3, ..World::new(screen(), 270_000, 280_000) });
}

#[test]
fn restart_from_the_generator_draws_gaps_in_range() {
    for _ in 0..200 {
        let mut world = World::new(screen(), 400_000, 400_000);
        world.state = GameState::GameOver;
        world.bird.y = 650_000;
        world.score = 2;
        world.high_score = 5;
        let events = world.update(true, 16);
        assert_eq!(events, FrameEvents { restarted: true, ..quiet() });
        assert!(world.is_wf());
        assert_eq!(
            world,
            World { high_score: 5, ..World::new(screen(), world.pipe1.y, world.pipe2.y) }
        );
    }
}

#[test]
fn high_score_keeps_the_best_round() {
    let mut world = playing(390_000, 0);
    world.pipe1.x = 200_000;
    world.pipe2.x = 450_000;
    world.score = 5;
    world.high_score = 3;
    world.update_with(false, 16, draws());
    assert_eq!(world.state, GameState::GameOver);
    assert_eq!(world.high_score, 5);
    while world.falling() {
        world.update_with(false, 16, draws());
    }
    world.update_with(true, 16, draws());
    assert_eq!(world.state, GameState::Start);
    assert_eq!(world.score, 0);
    assert_eq!(world.high_score, 5);

    // a weaker round leaves it alone
    world.update_with(true, 16, draws());
    assert_eq!(world.state, GameState::Gameplay);
    while world.state == GameState::Gameplay {
        world.update_with(false, 16, draws());
    }
    assert_eq!(world.score, 0);
    assert_eq!(world.high_score, 5);
}

#[test]
fn game_over_ignores_a_jump_in_the_air() {
    let mut world = World::new(screen(), 400_000, 400_000);
    world.state = GameState::GameOver;
    world.bird.y = 300_000;
    world.bird.vy = 100;
    assert!(world.is_wf());
    let before = world;
    let events = world.update_with(true, 10, draws());
    assert_eq!(events, quiet());
    assert_eq!(world.bird, Bird { x: 216_000, y: 301_200, vy: 120 });
    assert_eq!(world, World { bird: world.bird, ..before });
}

#[test]
fn ground_tiles_follow_each_other() {
    let mut world = World::new(screen(), 400_000, 400_000);
    world.ground1.x = -335_000;
    world.ground2.x = 1_000;
    assert!(world.is_wf());
    world.update_with(false, 10, draws());
    // the first tile scrolls out, the second takes the lead in the same frame
    assert_eq!(world.ground2.x, -2_000);
    assert_eq!(world.ground1.x, 334_000);
    world.update_with(false, 10, draws());
    assert_eq!(world.ground2.x, -3_500);
    assert_eq!(world.ground1.x, 332_500);
}

#[test]
fn ground_drag_moves_only_a_leading_tile() {
    let front = Ground { x: 0, y: 656_000 };
    let back = Ground { x: 336_000, y: 656_000 };
    assert_eq!(
        Ground::drag(front, back, 336_000, 10),
        (Ground { x: -1_500, y: 656_000 }, Ground { x: 334_500, y: 656_000 })
    );
    assert_eq!(Ground::drag(back, front, 336_000, 10), (back, front));
    let gone = Ground { x: -336_000, y: 656_000 };
    assert!(!gone.leads(336_000));
    assert!(Ground { x: -335_999, y: 0 }.leads(336_000));
    assert!(!Ground { x: 1, y: 0 }.leads(336_000));
    assert_eq!(Ground::drag(gone, back, 336_000, 10), (gone, back));
}

#[test]
fn ground_tiles_stay_joined() {
    let mut world = World::new(screen(), 400_000, 400_000);
    for frame in 0..5_000u32 {
        world.update_with(false, frame % 41, draws());
        let gap = world.ground2.x - world.ground1.x;
        assert!(gap == 336_000 || gap == -336_000);
        assert!(world.ground1.x <= 0 || world.ground2.x <= 0);
    }
}

#[test]
fn ground_stands_still_when_the_game_is_over() {
    let mut world = World::new(screen(), 400_000, 400_000);
    world.state = GameState::GameOver;
    world.bird.y = 650_000;
    assert!(world.is_wf());
    let before = world;
    world.update_with(false, 16, draws());
    assert_eq!(world, before);
}

#[test]
fn validity_test_rejects_broken_worlds() {
    let good = World::new(screen(), 400_000, 400_000);
    assert!(good.is_wf());
    assert!(!World { pipe2: Pipe { x: 782_001, y: 400_000 }, ..good }.is_wf());
    assert!(!World { pipe1: Pipe { x: 532_000, y: 239_999 }, ..good }.is_wf());
    assert!(!World { pipe2: Pipe { x: 782_000, y: 560_001 }, ..good }.is_wf());
    assert!(!World { bird: Bird { x: 216_001, ..good.bird }, ..good }.is_wf());
    assert!(!World { bird: Bird { vy: 1, ..good.bird }, ..good }.is_wf());
    assert!(!World { score: 1, ..good }.is_wf());
    assert!(!World { ground1: Ground { x: 0, y: 656_001 }, ..good }.is_wf());
    assert!(!World { ground2: Ground { x: 336_001, y: 656_000 }, ..good }.is_wf());
    assert!(!World { ground1: Ground { x: -10, y: 656_000 }, ..good }.is_wf());
    assert!(World {
        ground1: Ground { x: -10, y: 656_000 },
        ground2: Ground { x: 335_990, y: 656_000 },
        ..good
    }
    .is_wf());
    assert!(World {
        ground1: Ground { x: 300_000, y: 656_000 },
        ground2: Ground { x: -36_000, y: 656_000 },
        ..good
    }
    .is_wf());
    assert!(!World { screen: Screen { width: -2, ..screen() }, ..good }.is_wf());
    assert!(!World { state: GameState::Gameplay, bird: Bird { y: 16_999, ..good.bird }, ..good }
        .is_wf());
    assert!(!World { state: GameState::Gameplay, bird: Bird { vy: -601, ..good.bird }, ..good }
        .is_wf());
    assert!(!World { state: GameState::GameOver, score: 2, high_score: 1, ..good }.is_wf());
    assert!(World { state: GameState::GameOver, score: 2, high_score: 2, ..good }.is_wf());
    assert!(World { state: GameState::Gameplay, score: 7, ..good }.is_wf());
    assert!(!World {
        pipe1: Pipe { x: i64::MIN, y: 400_000 },
        pipe2: Pipe { x: i64::MAX, y: 400_000 },
        bird: Bird { x: 216_000, y: i64::MIN, vy: -1 },
        ..good
    }
    .is_wf());
}

#[test]
fn screen_sizes_have_limits() {
    assert!(screen().is_wf());
    assert!(Screen { width: 0, height: 0, ground_width: 0, ground_height: 0, pipe_width: 0 }
        .is_wf());
    assert!(Screen { pipe_width: 1_000_000_000, ..screen() }.is_wf());
    assert!(!Screen { pipe_width: 1_000_000_001, ..screen() }.is_wf());
    assert!(!Screen { height: -1, ..screen() }.is_wf());
    assert_eq!(screen().ground_top(), 656_000);
    assert_eq!(screen().spawn(), Bird { x: 216_000, y: 284_000, vy: 0 });
    assert_eq!(
        Screen { width: 433_001, height: 767_001, ..screen() }.spawn(),
        Bird { x: 216_500, y: 283_500, vy: 0 }
    );
}

#[test]
fn gap_draws_have_a_range() {
    assert!(draws().is_in_range());
    assert!(GapDraws { recycled_first: 240_000, restart_second: 560_000, ..draws() }
        .is_in_range());
    assert!(!GapDraws { recycled_first: 239_999, ..draws() }.is_in_range());
    assert!(!GapDraws { recycled_second: 560_001, ..draws() }.is_in_range());
    assert!(!GapDraws { restart_first: 0, ..draws() }.is_in_range());
    assert!(!GapDraws { restart_second: i64::MAX, ..draws() }.is_in_range());
}

#[test]
fn steady_flight_scores_a_point_per_pipe() {
    let gaps = GapDraws {
        recycled_first: 400_000,
        recycled_second: 400_000,
        restart_first: 400_000,
        restart_second: 400_000,
    };
    let mut world = World::new(screen(), 400_000, 400_000);
    let mut points = Vec::new();
    for frame in 0..3_000 {
        let jump = world.state == GameState::Start || world.bird.y >= 350_000;
        let before = world.score;
        let events = world.update_with(jump, 10, gaps);
        assert!(world.is_wf());
        assert_eq!(world.state, GameState::Gameplay);
        assert!(!(events.scored_first && events.scored_second));
        if events.scored_first {
            assert_eq!(before % 2, 0);
            assert_eq!(world.score, before + 1);
            points.push((frame, 1));
        } else if events.scored_second {
            assert_eq!(before % 2, 1);
            assert_eq!(world.score, before + 1);
            points.push((frame, 2));
        } else {
            assert_eq!(world.score, before);
        }
    }
    assert_eq!(points.len(), 17);
    assert_eq!(&points[..6], &[(244, 1), (411, 2), (578, 1), (744, 2), (911, 1), (1078, 2)]);
    assert_eq!(world.score, 17);
    assert_eq!(world.high_score, 0);
    assert_eq!(world.bird, Bird { x: 216_000, y: 277_000, vy: 200 });
    assert_eq!(world.pipe1, Pipe { x: 32_000, y: 400_000 });
    assert_eq!(world.pipe2, Pipe { x: 282_000, y: 400_000 });
    assert_eq!(world.ground1.x, 193_500);
    assert_eq!(world.ground2.x, -142_500);
}

#[test]
fn long_frames_can_carry_a_pipe_past_the_window() {
    let gaps = GapDraws {
        recycled_first: 400_000,
        recycled_second: 400_000,
        restart_first: 400_000,
        restart_second: 400_000,
    };
    let mut world = World::new(screen(), 400_000, 400_000);
    let mut points = Vec::new();
    for frame in 0..500 {
        let jump = world.state == GameState::Start || world.bird.y >= 350_000;
        let events = world.update_with(jump, 16, gaps);
        assert_eq!(world.state, GameState::Gameplay);
        if events.scored_first {
            points.push((frame, 1));
        }
        if events.scored_second {
            points.push((frame, 2));
        }
    }
    // the second pipe passes the bird near frame 257 without a point
    assert_eq!(points, vec![(152, 1), (465, 2)]);
    assert_eq!(world.score, 2);
}

#[test]
fn any_play_keeps_the_world_valid() {
    fn next(x: &mut u64) -> u64 {
        *x = x
            .wrapping_mul(6_364_136_223_846_793_005)
            .wrapping_add(1_442_695_040_888_963_407);
        *x >> 33
    }
    let mut x: u64 = 12_345;
    let mut world = World::new(screen(), 240_000, 560_000);
    let mut crashes = 0;
    let mut restarts = 0;
    for _ in 0..200_000 {
        let jump = next(&mut x) % 7 == 0;
        let dt = (next(&mut x) % 40) as u32;
        let a = 240_000 + (next(&mut x) % 320_001) as i64;
        let b = 240_000 + (next(&mut x) % 320_001) as i64;
        let gaps = GapDraws {
            recycled_first: a,
            recycled_second: b,
            restart_first: b,
            restart_second: a,
        };
        let before = world;
        let events = world.update_with(jump, dt, gaps);
        assert!(world.is_wf());
        assert!(world.score <= before.score + 1);
        assert!(world.high_score >= before.high_score);
        if events.hit_first || events.hit_second || events.hit_bounds {
            crashes += 1;
            assert_ne!(world.state, GameState::Gameplay);
            assert!(world.high_score >= before.score);
        }
        if events.restarted {
            restarts += 1;
            assert_eq!(world.state, GameState::Start);
            assert_eq!(world.score, 0);
        }
    }
    assert_eq!(crashes, 1_901);
    assert_eq!(restarts, 1_900);
    assert_eq!(world.state, GameState::GameOver);
    assert_eq!(world.bird, Bird { x: 216_000, y: -12_414, vy: -154 });
    assert_eq!(world.pipe1, Pipe { x: 421_450, y: 330_125 });
    assert_eq!(world.pipe2, Pipe { x: 671_450, y: 380_894 });
    assert_eq!(world.ground1.x, -204_000);
    assert_eq!(world.ground2.x, 132_000);
}

#[test]
fn longest_frames_keep_the_world_valid() {
    let mut world = World::new(screen(), 240_000, 560_000);
    for frame in 0..20_000 {
        let jump = frame % 3 == 0;
        world.update_with(jump, MAX_FRAME_MS, draws());
        assert!(world.is_wf());
    }
    let mut world = World::new(
        Screen {
            width: 1_000_000_000,
            height: 1_000_000_000,
            ground_width: 1,
            ground_height: 0,
            pipe_width: 1_000_000_000,
        },
        240_000,
        560_000,
    );
    for frame in 0..20_000 {
        let jump = frame % 5 == 0;
        world.update_with(jump, MAX_FRAME_MS, draws());
        assert!(world.is_wf());
    }
}

#[test]
fn random_play_keeps_the_world_valid() {
    let mut world = World::random(screen());
    for frame in 0..20_000 {
        let jump = frame % 11 == 0;
        world.update(jump, 16);
        assert!(world.is_wf());
        assert!(GAP_EDGE_MIN <= world.pipe1.y && world.pipe1.y <= GAP_EDGE_MAX);
        assert!(GAP_EDGE_MIN <= world.pipe2.y && world.pipe2.y <= GAP_EDGE_MAX);
    }
}
