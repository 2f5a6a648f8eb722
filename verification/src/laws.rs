//! What holds of every frame, proved from the rule that the world states.

use vstd::prelude::*;
use crate::bird::law_gravity_raises_speed;
use crate::random::gap_edge_in_range;
use crate::units::{
    BIRD_SIZE, GAME_SPEED, GRAVITY, JUMP_FORCE, MAX_FRAME_MS, PIPE1_START, PIPE_DISTANCE,
};
use crate::world::{FrameEvents, GameState, GapDraws, World};

verus! {

/// Whether a frame reports a crash of any kind.
pub open spec fn crashed(events: FrameEvents) -> bool {
    events.hit_first || events.hit_second || events.hit_bounds
}

/// A jump always takes: unless the game is over, a frame with a jump puts the
/// game into play and sets the bird's speed to the impulse before anything
/// moves, whatever the speed was; the bird then falls from that speed for the
/// length of the frame. Without a jump the input changes nothing, and a game
/// that waits for its first jump only scrolls its ground.
pub proof fn law_jump_starts_play(world: World, dt: int, draws: GapDraws)
    requires
        world.wf(),
        0 <= dt <= MAX_FRAME_MS,
        world.state != GameState::GameOver,
    ensures
        world.spec_input(true).state == GameState::Gameplay,
        world.spec_input(true).bird.vy == -JUMP_FORCE,
        world.spec_input(true).bird.y == world.bird.y,
        world.spec_input(false) == world,
        world.spec_prepared(true, dt).spec_move(dt).bird.vy == -JUMP_FORCE + GRAVITY * dt,
        world.state == GameState::Start ==> world.spec_next(false, dt, draws)
            == world.spec_scroll_ground(dt),
{
    law_gravity_raises_speed(world.spec_input(true).bird, dt);
}

/// In play, gravity acts in every frame. A frame of play that ends without a
/// crash has let the bird fall for the length of the frame, from the speed it
/// had or, where there was a jump, from the impulse. Without a jump the
/// bird's speed never goes down in a frame, and it goes up in every frame that
/// lasts, whether the frame ends in play or with the game over.
pub proof fn law_play_lets_the_bird_fall(world: World, jump: bool, dt: int, draws: GapDraws)
    requires
        world.wf(),
        0 <= dt <= MAX_FRAME_MS,
        draws.in_range(),
        world.score < u64::MAX,
        world.state == GameState::Gameplay,
    ensures
        ({
            let events = world.spec_events(jump, dt, draws);
            let next = world.spec_next(jump, dt, draws);
            &&& !crashed(events) && !jump ==> next.bird == world.bird.spec_fall(dt)
            &&& !crashed(events) && jump ==> next.bird == world.bird.spec_jump().spec_fall(dt)
            &&& !crashed(events) && !jump ==> next.bird.vy == world.bird.vy + GRAVITY * dt
                && next.bird.y == world.bird.y + next.bird.vy * dt
            &&& !jump && !events.restarted ==> next.bird.vy >= world.bird.vy + GRAVITY * dt
            &&& !jump && !events.restarted && dt > 0 ==> next.bird.vy > world.bird.vy
        }),
{
    let prepared = world.spec_prepared(jump, dt);
    law_gravity_raises_speed(prepared.bird, dt);
    let played = prepared.spec_play(dt, draws);
    law_gravity_raises_speed(played.bird, dt);
}

/// Pipes scroll and are recycled. In a frame of play each pipe first moves
/// left by exactly `GAME_SPEED * dt`. A pipe whose right edge is then left of
/// the screen's edge is put `PIPE_DISTANCE` to the right of its partner, with
/// the gap that was drawn for it, which is within the range; a pipe that is
/// still on the screen stays where the scroll took it. The first pipe is
/// looked at first, so the second follows the first pipe's new place.
pub proof fn law_recycled_pipe_follows_partner(world: World, jump: bool, dt: int, draws: GapDraws)
    requires
        world.wf(),
        0 <= dt <= MAX_FRAME_MS,
        draws.in_range(),
    ensures
        ({
            let moved = world.spec_prepared(jump, dt).spec_move(dt);
            let advanced = world.spec_prepared(jump, dt).spec_advance(dt, draws);
            let width = world.screen.pipe_width;
            &&& moved.pipe1.x == world.pipe1.x - GAME_SPEED * dt
            &&& moved.pipe2.x == world.pipe2.x - GAME_SPEED * dt
            &&& moved.pipe1.y == world.pipe1.y
            &&& moved.pipe2.y == world.pipe2.y
            &&& moved.pipe1.x + width < 0 ==> advanced.pipe1.x == moved.pipe2.x + PIPE_DISTANCE
                && advanced.pipe1.y == draws.recycled_first
            &&& moved.pipe1.x + width >= 0 ==> advanced.pipe1 == moved.pipe1
            &&& moved.pipe2.x + width < 0 ==> advanced.pipe2.x == advanced.pipe1.x + PIPE_DISTANCE
                && advanced.pipe2.y == draws.recycled_second
            &&& moved.pipe2.x + width >= 0 ==> advanced.pipe2 == moved.pipe2
            &&& gap_edge_in_range(advanced.pipe1.y as int)
            &&& gap_edge_in_range(advanced.pipe2.y as int)
            &&& advanced.pipes_wf()
        }),
{
}

/// The score goes up by single points, the pipes taking turns. In one frame
/// at most one pipe gives a point; the first gives one only when the score is
/// even and the second only when it is odd, so that a pipe that has given its
/// point gives none again before the other has. A frame that sets up a new
/// round ends with the score at zero; any other frame ends with the score
/// raised by the point given, if one was.
pub proof fn law_score_steps_by_one(world: World, jump: bool, dt: int, draws: GapDraws)
    requires
        world.wf(),
        0 <= dt <= MAX_FRAME_MS,
        draws.in_range(),
        world.score < u64::MAX,
    ensures
        ({
            let events = world.spec_events(jump, dt, draws);
            let next = world.spec_next(jump, dt, draws);
            let point = if events.scored_first || events.scored_second {
                1int
            } else {
                0int
            };
            &&& !(events.scored_first && events.scored_second)
            &&& events.scored_first ==> world.score % 2 == 0
            &&& events.scored_second ==> world.score % 2 == 1
            &&& events.scored_first || events.scored_second ==> world.spec_prepared(
                jump,
                dt,
            ).state == GameState::Gameplay
            &&& !events.restarted ==> next.score == world.score + point
            &&& events.restarted ==> next.score == 0
        }),
{
    let prepared = world.spec_prepared(jump, dt);
    law_gravity_raises_speed(prepared.bird, dt);
}

/// A crash ends play and nothing else does. In a frame of play, the game is
/// still in play afterwards exactly if the bird ran into neither pipe and
/// stayed inside the screen; after a crash the game is over, unless the same
/// frame already sets up the new round, and the high score is at least the
/// score that the round reached. A frame that is not one of play reports no
/// crash, and no frame sets up a new round unless the game was over or the
/// bird has just crashed.
pub proof fn law_crash_ends_play(world: World, jump: bool, dt: int, draws: GapDraws)
    requires
        world.wf(),
        0 <= dt <= MAX_FRAME_MS,
        draws.in_range(),
        world.score < u64::MAX,
    ensures
        ({
            let playing = world.spec_prepared(jump, dt).state == GameState::Gameplay;
            let reached = world.spec_prepared(jump, dt).spec_advance(dt, draws).spec_score();
            let events = world.spec_events(jump, dt, draws);
            let next = world.spec_next(jump, dt, draws);
            &&& playing == (world.state == GameState::Gameplay || (world.state
                == GameState::Start && jump))
            &&& crashed(events) == (playing && reached.spec_crashed())
            &&& playing && !crashed(events) ==> next.state == GameState::Gameplay && next
                == reached
            &&& crashed(events) && !events.restarted ==> next.state == GameState::GameOver
                && next.score == reached.score
            &&& crashed(events) && events.restarted ==> next.state == GameState::Start
            &&& crashed(events) ==> next.high_score >= reached.score && next.high_score
                >= world.high_score && (next.high_score == reached.score || next.high_score
                == world.high_score)
            &&& !crashed(events) ==> next.high_score == world.high_score
            &&& events.restarted ==> world.state == GameState::GameOver || crashed(events)
        }),
{
    let prepared = world.spec_prepared(jump, dt);
    law_gravity_raises_speed(prepared.bird, dt);
    let played = prepared.spec_play(dt, draws);
    law_gravity_raises_speed(played.bird, dt);
}

/// A new round starts only from the ground. When the game is over, the next
/// frame sets up a new round exactly if there is a jump and the bird's lower
/// edge has come down to both tiles of the ground. The new round has score
/// zero, the bird at rest where it spawns, the pipes where they start with
/// the gaps drawn for the restart, and the high score as it was, which is at
/// least the score of the round that ended. Without a new round the game
/// stays over, score and high score stay, and only the bird moves: it falls
/// while it is above the ground.
pub proof fn law_restart_needs_landing(world: World, jump: bool, dt: int, draws: GapDraws)
    requires
        world.wf(),
        0 <= dt <= MAX_FRAME_MS,
        draws.in_range(),
        world.state == GameState::GameOver,
    ensures
        ({
            let events = world.spec_events(jump, dt, draws);
            let next = world.spec_next(jump, dt, draws);
            let landed = world.bird.y + BIRD_SIZE >= world.ground1.y && world.bird.y + BIRD_SIZE
                >= world.ground2.y;
            &&& events.restarted == (jump && landed)
            &&& (next.state == GameState::Start) == events.restarted
            &&& events.restarted ==> {
                &&& next.score == 0
                &&& next.high_score == world.high_score
                &&& next.high_score >= world.score
                &&& next.bird == world.screen.spec_spawn()
                &&& next.pipe1.x == PIPE1_START
                &&& next.pipe2.x == PIPE1_START + PIPE_DISTANCE
                &&& next.pipe1.y == draws.restart_first
                &&& next.pipe2.y == draws.restart_second
            }
            &&& !events.restarted ==> {
                &&& next.state == GameState::GameOver
                &&& next.score == world.score
                &&& next.high_score == world.high_score
                &&& next.pipe1 == world.pipe1
                &&& next.pipe2 == world.pipe2
                &&& next.bird == if landed {
                    world.bird
                } else {
                    world.bird.spec_fall(dt)
                }
            }
            &&& !events.jumped && !crashed(events) && !events.scored_first
                && !events.scored_second
            &&& next.ground1 == world.ground1
            &&& next.ground2 == world.ground2
        }),
{
}

} // verus!
