//! The executable frame: the world's constructor, its test of validity and
//! its update, each proved against the rule that the world states.

use vstd::prelude::*;
use crate::bird::{law_gravity_raises_speed, Bird};
use crate::ground::Ground;
use crate::pipe::Pipe;
use crate::random::{gap_edge_in_range, random_gap_edge};
use crate::screen::Screen;
use crate::units::{
    AIR_SPEED_LIMIT, GAP_EDGE_MIN, GRAVITY, MAX_EXTENT, MAX_FRAME_MS, MAX_SCROLL, PIPE1_START,
    PIPE_DISTANCE, SPAWN_RISE,
};
use crate::world::{FrameEvents, GameState, GapDraws, World};

verus! {

/// Takes the position given, or draws one where none is given.
fn pick(fixed: Option<i64>) -> (y: i64)
    requires
        fixed matches Some(v) ==> gap_edge_in_range(v as int),
    ensures
        gap_edge_in_range(y as int),
        fixed matches Some(v) ==> y == v,
{
    match fixed {
        Some(v) => v,
        None => random_gap_edge(),
    }
}

impl World {
    /// What holds after input and ground, before play: as between frames, but
    /// a bird that has just taken off need not be inside the screen yet.
    spec fn ready(self) -> bool {
        &&& self.screen.wf()
        &&& self.ground_wf()
        &&& self.pipes_wf()
        &&& self.score_wf()
        &&& self.bird.x == self.screen.width / 2
        &&& self.bird.in_limits()
        &&& match self.state {
            GameState::Start => self.bird == self.screen.spec_spawn() && self.score == 0,
            GameState::Gameplay => self.bird.vy <= AIR_SPEED_LIMIT && -SPAWN_RISE <= self.bird.y
                <= MAX_EXTENT,
            GameState::GameOver => self.spec_falling() ==> self.bird.vy <= AIR_SPEED_LIMIT,
        }
    }

    /// What holds after play, before the crash is followed up: as between
    /// frames, but a bird that has just crashed may be faster by one frame's
    /// gravity.
    spec fn settling(self, dt: int) -> bool {
        &&& self.screen.wf()
        &&& self.ground_wf()
        &&& self.pipes_wf()
        &&& self.score_wf()
        &&& self.bird.x == self.screen.width / 2
        &&& self.bird.in_limits()
        &&& match self.state {
            GameState::Start => self.bird == self.screen.spec_spawn(),
            GameState::Gameplay => !self.bird.spec_out_of_bounds(self.screen.spec_ground_top())
                && self.bird.vy <= AIR_SPEED_LIMIT,
            GameState::GameOver => self.spec_falling() ==> self.bird.vy <= AIR_SPEED_LIMIT
                + GRAVITY * dt,
        }
    }

    /// Sets up the world for the first round, with the two gaps as given.
    pub fn new(screen: Screen, first_gap: i64, second_gap: i64) -> (w: World)
        requires
            screen.wf(),
            gap_edge_in_range(first_gap as int),
            gap_edge_in_range(second_gap as int),
        ensures
            w == World::spec_new(screen, first_gap, second_gap),
            w.wf(),
    {
        let top: i64 = screen.ground_top();
        World {
            screen,
            state: GameState::Start,
            bird: screen.spawn(),
            pipe1: Pipe { x: PIPE1_START, y: first_gap },
            pipe2: Pipe { x: PIPE1_START + PIPE_DISTANCE, y: second_gap },
            ground1: Ground { x: 0, y: top },
            ground2: Ground { x: screen.ground_width, y: top },
            score: 0,
            high_score: 0,
        }
    }

    /// Sets up the world for the first round, with gaps drawn at random.
    pub fn random(screen: Screen) -> (w: World)
        requires
            screen.wf(),
        ensures
            w == World::spec_new(screen, w.pipe1.y, w.pipe2.y),
            w.wf(),
    {
        let first_gap: i64 = random_gap_edge();
        let second_gap: i64 = random_gap_edge();
        World::new(screen, first_gap, second_gap)
    }

    /// Tests whether the bird's lower edge is above either tile of the ground.
    pub fn falling(&self) -> (r: bool)
        requires
            self.bird.in_limits(),
        ensures
            r == self.spec_falling(),
    {
        self.bird.above(self.ground1.y) || self.bird.above(self.ground2.y)
    }

    /// Tests whether the world is one that can stand between two frames.
    pub fn is_wf(&self) -> (r: bool)
        ensures
            r == self.wf(),
    {
        if !self.screen.is_wf() {
            return false;
        }
        let top: i64 = self.screen.ground_top();
        let reach: i64 = self.screen.pipe_width + MAX_SCROLL;
        let ground_ok: bool = self.ground1.y == top && self.ground2.y == top
            && self.ground1.is_in_limits(self.screen.ground_width) && self.ground2.is_in_limits(
            self.screen.ground_width,
        ) && (self.ground2.x - self.ground1.x == self.screen.ground_width || self.ground1.x
            - self.ground2.x == self.screen.ground_width);
        let pipes_ok: bool = self.pipe1.is_in_limits() && self.pipe2.is_in_limits() && -reach
            <= self.pipe1.x && -reach <= self.pipe2.x && (self.pipe2.x - self.pipe1.x
            == PIPE_DISTANCE || self.pipe1.x - self.pipe2.x == PIPE_DISTANCE);
        if !ground_ok || !pipes_ok || self.bird.x != self.screen.width / 2
            || !self.bird.is_in_limits() {
            return false;
        }
        match self.state {
            GameState::Start => {
                let spawn: Bird = self.screen.spawn();
                self.bird.y == spawn.y && self.bird.vy == spawn.vy && self.score == 0
            },
            GameState::Gameplay => !self.bird.out_of_bounds(top) && self.bird.vy
                <= AIR_SPEED_LIMIT,
            GameState::GameOver => (!self.falling() || self.bird.vy <= AIR_SPEED_LIMIT)
                && self.high_score >= self.score,
        }
    }

    /// Input and ground.
    fn prepared(self, jump: bool, dt: u32) -> (r: (World, bool))
        requires
            self.wf(),
            dt <= MAX_FRAME_MS,
        ensures
            r.0 == self.spec_prepared(jump, dt as int),
            r.1 == (jump && self.state != GameState::GameOver),
            r.0.ready(),
            r.0.score == self.score,
    {
        let mut w: World = self;
        let mut jumped: bool = false;
        match self.state {
            GameState::GameOver => {},
            _ => {
                if jump {
                    w.bird = w.bird.jump();
                    w.state = GameState::Gameplay;
                    jumped = true;
                }
                let width: i64 = w.screen.ground_width;
                let (g1, g2) = Ground::drag(w.ground1, w.ground2, width, dt);
                let (h2, h1) = Ground::drag(g2, g1, width, dt);
                w.ground1 = h1;
                w.ground2 = h2;
            },
        }
        (w, jumped)
    }

    /// What holds during play after motion and recycling: the bird has fallen
    /// for one frame, and if it is still inside the screen it is no faster
    /// than a bird in the air can be.
    spec fn aloft(self, dt: int) -> bool {
        &&& self.screen.wf()
        &&& self.ground_wf()
        &&& self.pipes_wf()
        &&& self.state == GameState::Gameplay
        &&& self.bird.x == self.screen.width / 2
        &&& self.bird.in_limits()
        &&& self.bird.vy <= AIR_SPEED_LIMIT + GRAVITY * dt
        &&& !self.bird.spec_out_of_bounds(self.screen.spec_ground_top()) ==> self.bird.vy
            <= AIR_SPEED_LIMIT
    }

    /// Motion and recycling.
    fn advanced(self, dt: u32, fixed: Option<GapDraws>) -> (r: (World, Ghost<GapDraws>))
        requires
            self.ready(),
            self.state == GameState::Gameplay,
            dt <= MAX_FRAME_MS,
            fixed matches Some(d) ==> d.in_range(),
        ensures
            r.1@.in_range(),
            fixed matches Some(d) ==> r.1@ == d,
            r.0 == self.spec_advance(dt as int, r.1@),
            r.0.aloft(dt as int),
            r.0.score == self.score,
            r.0.high_score == self.high_score,
    {
        let ghost mut used: GapDraws = match fixed {
            Some(d) => d,
            None => GapDraws {
                recycled_first: GAP_EDGE_MIN,
                recycled_second: GAP_EDGE_MIN,
                restart_first: GAP_EDGE_MIN,
                restart_second: GAP_EDGE_MIN,
            },
        };
        let mut w: World = self;
        let width: i64 = w.screen.pipe_width;
        w.bird = w.bird.fall(dt);
        w.pipe1 = w.pipe1.scroll(dt);
        w.pipe2 = w.pipe2.scroll(dt);
        if w.pipe1.off_screen(width) {
            let y: i64 = pick(
                match fixed {
                    Some(d) => Some(d.recycled_first),
                    None => None,
                },
            );
            proof {
                used = GapDraws { recycled_first: y, ..used };
            }
            w.pipe1 = Pipe::following(w.pipe2, y);
        }
        if w.pipe2.off_screen(width) {
            let y: i64 = pick(
                match fixed {
                    Some(d) => Some(d.recycled_second),
                    None => None,
                },
            );
            proof {
                used = GapDraws { recycled_second: y, ..used };
            }
            w.pipe2 = Pipe::following(w.pipe1, y);
        }
        (w, Ghost(used))
    }

    /// Scoring.
    fn scored(self) -> (r: (World, bool, bool))
        requires
            self.screen.wf(),
            self.pipes_wf(),
            self.bird.x == self.screen.width / 2,
            self.score < u64::MAX,
        ensures
            r.0 == self.spec_score(),
            r.1 == self.spec_scores_first(),
            r.2 == self.spec_scores_second(),
            !(r.1 && r.2),
            r.0 == (World { score: r.0.score, ..self }),
    {
        let mut w: World = self;
        let width: i64 = w.screen.pipe_width;
        let mut first: bool = false;
        let mut second: bool = false;
        if w.pipe1.passed_by(width, w.bird) && w.score % 2 == 0 {
            first = true;
            w.score = w.score + 1;
        }
        if w.pipe2.passed_by(width, w.bird) && w.score % 2 == 1 {
            second = true;
            w.score = w.score + 1;
        }
        (w, first, second)
    }

    /// The test for a crash.
    fn crashed(self) -> (r: (World, bool, bool, bool))
        requires
            self.screen.wf(),
            self.pipes_wf(),
            self.bird.x == self.screen.width / 2,
            self.bird.in_limits(),
        ensures
            r.0 == self.spec_crash(),
            r.1 == self.spec_hits_first(),
            r.2 == self.spec_hits_second(),
            r.3 == self.spec_hits_bounds(),
    {
        let mut w: World = self;
        let width: i64 = w.screen.pipe_width;
        let top: i64 = w.screen.ground_top();
        let first: bool = w.pipe1.hits(width, w.bird);
        let second: bool = w.pipe2.hits(width, w.bird);
        let bounds: bool = w.bird.out_of_bounds(top);
        if first || second || bounds {
            w.state = GameState::GameOver;
            if w.score > w.high_score {
                w.high_score = w.score;
            }
        }
        (w, first, second, bounds)
    }

    /// Play: motion, recycling, scoring and the test for a crash.
    fn played(self, dt: u32, fixed: Option<GapDraws>) -> (r: (World, FrameEvents, Ghost<GapDraws>))
        requires
            self.ready(),
            dt <= MAX_FRAME_MS,
            self.score < u64::MAX,
            fixed matches Some(d) ==> d.in_range(),
        ensures
            r.2@.in_range(),
            fixed matches Some(d) ==> r.2@ == d,
            r.0 == self.spec_play(dt as int, r.2@),
            r.0.settling(dt as int),
            !r.1.jumped && !r.1.restarted,
            r.1.scored_first == (self.state == GameState::Gameplay && self.spec_advance(
                dt as int,
                r.2@,
            ).spec_scores_first()),
            r.1.scored_second == (self.state == GameState::Gameplay && self.spec_advance(
                dt as int,
                r.2@,
            ).spec_scores_second()),
            r.1.hit_first == (self.state == GameState::Gameplay && self.spec_advance(
                dt as int,
                r.2@,
            ).spec_score().spec_hits_first()),
            r.1.hit_second == (self.state == GameState::Gameplay && self.spec_advance(
                dt as int,
                r.2@,
            ).spec_score().spec_hits_second()),
            r.1.hit_bounds == (self.state == GameState::Gameplay && self.spec_advance(
                dt as int,
                r.2@,
            ).spec_score().spec_hits_bounds()),
    {
        let mut events: FrameEvents = FrameEvents {
            jumped: false,
            scored_first: false,
            scored_second: false,
            hit_first: false,
            hit_second: false,
            hit_bounds: false,
            restarted: false,
        };
        match self.state {
            GameState::Gameplay => {},
            _ => {
                let ghost unused: GapDraws = match fixed {
                    Some(d) => d,
                    None => GapDraws {
                        recycled_first: GAP_EDGE_MIN,
                        recycled_second: GAP_EDGE_MIN,
                        restart_first: GAP_EDGE_MIN,
                        restart_second: GAP_EDGE_MIN,
                    },
                };
                return (self, events, Ghost(unused));
            },
        }
        let (advanced, Ghost(used)) = self.advanced(dt, fixed);
        let (scored, first, second) = advanced.scored();
        let (crashed, hit_first, hit_second, hit_bounds) = scored.crashed();
        events.scored_first = first;
        events.scored_second = second;
        events.hit_first = hit_first;
        events.hit_second = hit_second;
        events.hit_bounds = hit_bounds;
        (crashed, events, Ghost(used))
    }

    /// What follows a crash: the fall to the ground, and the new round.
    fn settled(self, jump: bool, dt: u32, fixed: Option<GapDraws>, Ghost(drawn): Ghost<GapDraws>) -> (r:
        (World, bool, Ghost<GapDraws>))
        requires
            self.settling(dt as int),
            dt <= MAX_FRAME_MS,
            drawn.in_range(),
            fixed matches Some(d) ==> d.in_range() && drawn == d,
        ensures
            r.2@.in_range(),
            fixed matches Some(d) ==> r.2@ == d,
            r.2@.recycled_first == drawn.recycled_first,
            r.2@.recycled_second == drawn.recycled_second,
            r.0 == self.spec_settle(jump, dt as int, r.2@),
            r.1 == self.spec_restarts(jump),
            r.0.wf(),
    {
        let ghost mut used: GapDraws = drawn;
        let mut w: World = self;
        match self.state {
            GameState::GameOver => {},
            _ => {
                return (w, false, Ghost(used));
            },
        }
        if w.falling() {
            w.bird = w.bird.fall(dt);
            (w, false, Ghost(used))
        } else if jump {
            let first_gap: i64 = pick(
                match fixed {
                    Some(d) => Some(d.restart_first),
                    None => None,
                },
            );
            let second_gap: i64 = pick(
                match fixed {
                    Some(d) => Some(d.restart_second),
                    None => None,
                },
            );
            proof {
                used = GapDraws { restart_first: first_gap, restart_second: second_gap, ..used };
            }
            w.state = GameState::Start;
            w.score = 0;
            w.bird = w.screen.spawn();
            w.pipe1 = Pipe { x: PIPE1_START, y: first_gap };
            w.pipe2 = Pipe { x: PIPE1_START + PIPE_DISTANCE, y: second_gap };
            (w, true, Ghost(used))
        } else {
            (w, false, Ghost(used))
        }
    }

    /// One frame, with the gaps taken from `fixed` where it is given and drawn
    /// at random, when one is needed, where it is not. The third result holds
    /// the gaps that the frame went by.
    fn stepped(self, jump: bool, dt: u32, fixed: Option<GapDraws>) -> (r: (
        World,
        FrameEvents,
        Ghost<GapDraws>,
    ))
        requires
            self.wf(),
            dt <= MAX_FRAME_MS,
            self.score < u64::MAX,
            fixed matches Some(d) ==> d.in_range(),
        ensures
            r.2@.in_range(),
            fixed matches Some(d) ==> r.2@ == d,
            r.0 == self.spec_next(jump, dt as int, r.2@),
            r.1 == self.spec_events(jump, dt as int, r.2@),
            r.0.wf(),
    {
        let (prepared, jumped) = self.prepared(jump, dt);
        let (played, mut events, Ghost(drawn)) = prepared.played(dt, fixed);
        let (settled, restarted, Ghost(used)) = played.settled(jump, dt, fixed, Ghost(drawn));
        events.jumped = jumped;
        events.restarted = restarted;
        proof {
            assert(prepared.spec_advance(dt as int, drawn) == prepared.spec_advance(
                dt as int,
                used,
            ));
            assert(prepared.spec_play(dt as int, drawn) == prepared.spec_play(dt as int, used));
        }
        (settled, events, Ghost(used))
    }

    /// Advances the world by one frame of `dt` milliseconds, with `jump`
    /// telling whether the jump was triggered, and takes from `draws` the gap
    /// of a pipe that is recycled and the gaps of a new round.
    pub fn update_with(&mut self, jump: bool, dt: u32, draws: GapDraws) -> (events: FrameEvents)
        requires
            old(self).wf(),
            dt <= MAX_FRAME_MS,
            old(self).score < u64::MAX,
            draws.in_range(),
        ensures
            *final(self) == old(self).spec_next(jump, dt as int, draws),
            events == old(self).spec_events(jump, dt as int, draws),
            final(self).wf(),
    {
        let (next, events, _) = (*self).stepped(jump, dt, Some(draws));
        *self = next;
        events
    }

    /// Advances the world by one frame of `dt` milliseconds, with `jump`
    /// telling whether the jump was triggered. The gap of a pipe that is
    /// recycled and the gaps of a new round are drawn at random, each when it
    /// is needed: the frame is the one that some gaps within the range give.
    pub fn update(&mut self, jump: bool, dt: u32) -> (events: FrameEvents)
        requires
            old(self).wf(),
            dt <= MAX_FRAME_MS,
            old(self).score < u64::MAX,
        ensures
            exists|draws: GapDraws|
                draws.in_range() && *final(self) == #[trigger] old(self).spec_next(
                    jump,
                    dt as int,
                    draws,
                ) && events == old(self).spec_events(jump, dt as int, draws),
            final(self).wf(),
    {
        let (next, events, Ghost(used)) = (*self).stepped(jump, dt, None);
        *self = next;
        assert(used.in_range() && next == old(self).spec_next(jump, dt as int, used) && events
            == old(self).spec_events(jump, dt as int, used));
        events
    }
}

/// Input and ground leave the world ready for play.
proof fn lemma_prepared_is_ready(world: World, jump: bool, dt: int)
    requires
        world.wf(),
        0 <= dt <= MAX_FRAME_MS,
    ensures
        world.spec_prepared(jump, dt).ready(),
        world.spec_prepared(jump, dt).score == world.score,
{
}

/// Motion and recycling leave the bird aloft and the pipes in order.
proof fn lemma_advanced_is_aloft(world: World, dt: int, draws: GapDraws)
    requires
        world.ready(),
        world.state == GameState::Gameplay,
        0 <= dt <= MAX_FRAME_MS,
        draws.in_range(),
    ensures
        world.spec_advance(dt, draws).aloft(dt),
        world.spec_advance(dt, draws).score == world.score,
        world.spec_advance(dt, draws).high_score == world.high_score,
{
    law_gravity_raises_speed(world.bird, dt);
}

/// Play leaves the world fit for what follows a crash.
proof fn lemma_played_is_settling(world: World, dt: int, draws: GapDraws)
    requires
        world.ready(),
        0 <= dt <= MAX_FRAME_MS,
        draws.in_range(),
        world.score < u64::MAX,
    ensures
        world.spec_play(dt, draws).settling(dt),
{
    if world.state == GameState::Gameplay {
        lemma_advanced_is_aloft(world, dt, draws);
    }
}

/// What follows a crash leaves the world valid.
proof fn lemma_settled_is_valid(world: World, jump: bool, dt: int, draws: GapDraws)
    requires
        world.settling(dt),
        0 <= dt <= MAX_FRAME_MS,
        draws.in_range(),
    ensures
        world.spec_settle(jump, dt, draws).wf(),
{
    law_gravity_raises_speed(world.bird, dt);
}

/// A world that can stand between two frames is followed by one that can:
/// whatever the input, the length of the frame and the gaps drawn, the next
/// world is valid again.
pub proof fn law_frame_keeps_world_valid(world: World, jump: bool, dt: int, draws: GapDraws)
    requires
        world.wf(),
        0 <= dt <= MAX_FRAME_MS,
        draws.in_range(),
        world.score < u64::MAX,
    ensures
        world.spec_next(jump, dt, draws).wf(),
{
    let prepared = world.spec_prepared(jump, dt);
    lemma_prepared_is_ready(world, jump, dt);
    lemma_played_is_settling(prepared, dt, draws);
    lemma_settled_is_valid(prepared.spec_play(dt, draws), jump, dt, draws);
}

} // verus!
