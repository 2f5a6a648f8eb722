//! The world: everything that one frame reads and changes, the rule that
//! takes it from one frame to the next, and what holds of it between frames.

use vstd::prelude::*;
use crate::bird::Bird;
use crate::ground::Ground;
use crate::pipe::Pipe;
use crate::random::{gap_edge_in_range, is_gap_edge};
use crate::screen::Screen;
use crate::units::{AIR_SPEED_LIMIT, MAX_SCROLL, PIPE1_START, PIPE_DISTANCE, PIPE_RIGHT_LIMIT};

verus! {

/// The phase of the game.
#[derive(Clone, Copy, Debug, PartialEq, Eq, Structural)]
pub enum GameState {
    /// Waiting for the first jump of a round.
    Start,
    /// The bird flies.
    Gameplay,
    /// The bird has crashed; it falls to the ground and waits there.
    GameOver,
}

/// The gap positions that one frame may use: one for each pipe in case it is
/// recycled, and one for each pipe in case the round restarts.
#[derive(Clone, Copy, Debug, PartialEq, Eq, Structural)]
pub struct GapDraws {
    pub recycled_first: i64,
    pub recycled_second: i64,
    pub restart_first: i64,
    pub restart_second: i64,
}

/// What happened in one frame, for whoever plays the sounds.
#[derive(Clone, Copy, Debug, PartialEq, Eq, Structural)]
pub struct FrameEvents {
    /// The bird jumped.
    pub jumped: bool,
    /// The bird passed the first pipe and a point was counted.
    pub scored_first: bool,
    /// The bird passed the second pipe and a point was counted.
    pub scored_second: bool,
    /// The bird ran into the first pipe.
    pub hit_first: bool,
    /// The bird ran into the second pipe.
    pub hit_second: bool,
    /// The bird left the screen at the top or touched the ground.
    pub hit_bounds: bool,
    /// A new round was set up.
    pub restarted: bool,
}

/// All that the game consists of.
#[derive(Clone, Copy, Debug, PartialEq, Eq, Structural)]
pub struct World {
    pub screen: Screen,
    pub state: GameState,
    pub bird: Bird,
    pub pipe1: Pipe,
    pub pipe2: Pipe,
    pub ground1: Ground,
    pub ground2: Ground,
    pub score: u64,
    pub high_score: u64,
}

impl GapDraws {
    /// Every position is one that a gap's lower edge may take.
    pub open spec fn in_range(self) -> bool {
        &&& gap_edge_in_range(self.recycled_first as int)
        &&& gap_edge_in_range(self.recycled_second as int)
        &&& gap_edge_in_range(self.restart_first as int)
        &&& gap_edge_in_range(self.restart_second as int)
    }

    /// Tests the four positions against the range.
    pub fn is_in_range(&self) -> (r: bool)
        ensures
            r == self.in_range(),
    {
        is_gap_edge(self.recycled_first) && is_gap_edge(self.recycled_second) && is_gap_edge(
            self.restart_first,
        ) && is_gap_edge(self.restart_second)
    }
}

impl World {
    // ------------------------------------------------------------------
    // What holds between frames
    // ------------------------------------------------------------------
    /// Both tiles of the ground lie at the ground's height and within reach
    /// of the screen, and one starts where the other ends.
    pub open spec fn ground_wf(self) -> bool {
        let width = self.screen.ground_width as int;
        &&& self.ground1.y == self.screen.spec_ground_top()
        &&& self.ground2.y == self.screen.spec_ground_top()
        &&& self.ground1.in_limits(width)
        &&& self.ground2.in_limits(width)
        &&& self.ground2.x - self.ground1.x == width || self.ground1.x - self.ground2.x == width
    }

    /// The pipes are exactly `PIPE_DISTANCE` apart, neither is further left
    /// than one frame's scroll beyond the screen, and each gap is in range.
    pub open spec fn pipes_wf(self) -> bool {
        let reach = self.screen.pipe_width + MAX_SCROLL;
        &&& self.pipe2.x - self.pipe1.x == PIPE_DISTANCE || self.pipe1.x - self.pipe2.x
            == PIPE_DISTANCE
        &&& -reach <= self.pipe1.x <= PIPE_RIGHT_LIMIT
        &&& -reach <= self.pipe2.x <= PIPE_RIGHT_LIMIT
        &&& gap_edge_in_range(self.pipe1.y as int)
        &&& gap_edge_in_range(self.pipe2.y as int)
    }

    /// The bird is in the middle of the screen's width and within its limits.
    /// Before a round it rests where it spawns; during play it is inside the
    /// screen; and as long as it is above the ground its speed is bounded by
    /// the way it can have fallen.
    pub open spec fn bird_wf(self) -> bool {
        &&& self.bird.x == self.screen.width / 2
        &&& self.bird.in_limits()
        &&& match self.state {
            GameState::Start => self.bird == self.screen.spec_spawn(),
            GameState::Gameplay => !self.bird.spec_out_of_bounds(self.screen.spec_ground_top())
                && self.bird.vy <= AIR_SPEED_LIMIT,
            GameState::GameOver => self.spec_falling() ==> self.bird.vy <= AIR_SPEED_LIMIT,
        }
    }

    /// Before a round the score is zero, and after a crash the high score is
    /// at least the score.
    pub open spec fn score_wf(self) -> bool {
        match self.state {
            GameState::Start => self.score == 0,
            GameState::Gameplay => true,
            GameState::GameOver => self.high_score >= self.score,
        }
    }

    /// What holds of the world between any two frames.
    pub open spec fn wf(self) -> bool {
        &&& self.screen.wf()
        &&& self.ground_wf()
        &&& self.pipes_wf()
        &&& self.bird_wf()
        &&& self.score_wf()
    }

    // ------------------------------------------------------------------
    // The frame, phase by phase
    // ------------------------------------------------------------------
    /// The world at the start of a round on `screen`, with the two gaps at
    /// `first_gap` and `second_gap`.
    pub open spec fn spec_new(screen: Screen, first_gap: i64, second_gap: i64) -> World {
        World {
            screen,
            state: GameState::Start,
            bird: screen.spec_spawn(),
            pipe1: Pipe { x: PIPE1_START, y: first_gap },
            pipe2: Pipe { x: (PIPE1_START + PIPE_DISTANCE) as i64, y: second_gap },
            ground1: Ground { x: 0, y: screen.spec_ground_top() as i64 },
            ground2: Ground { x: screen.ground_width, y: screen.spec_ground_top() as i64 },
            score: 0,
            high_score: 0,
        }
    }

    /// Input: unless the game is over, a jump gives the bird its impulse and
    /// starts or continues play.
    pub open spec fn spec_input(self, jump: bool) -> World {
        if jump && self.state != GameState::GameOver {
            World { state: GameState::Gameplay, bird: self.bird.spec_jump(), ..self }
        } else {
            self
        }
    }

    /// Ground: unless the game is over, the first tile drags the second and
    /// then the second drags the first.
    pub open spec fn spec_scroll_ground(self, dt: int) -> World {
        if self.state != GameState::GameOver {
            let width = self.screen.ground_width as int;
            let (g1, g2) = Ground::spec_drag(self.ground1, self.ground2, width, dt);
            let (h2, h1) = Ground::spec_drag(g2, g1, width, dt);
            World { ground1: h1, ground2: h2, ..self }
        } else {
            self
        }
    }

    /// Motion: the bird falls and both pipes scroll.
    pub open spec fn spec_move(self, dt: int) -> World {
        World {
            bird: self.bird.spec_fall(dt),
            pipe1: self.pipe1.spec_scroll(dt),
            pipe2: self.pipe2.spec_scroll(dt),
            ..self
        }
    }

    /// Recycling: a pipe that has left the screen is put behind the other one
    /// with a new gap, the first pipe before the second.
    pub open spec fn spec_recycle(self, first_gap: i64, second_gap: i64) -> World {
        let width = self.screen.pipe_width as int;
        let pipe1 = if self.pipe1.spec_off_screen(width) {
            Pipe::spec_following(self.pipe2, first_gap)
        } else {
            self.pipe1
        };
        let pipe2 = if self.pipe2.spec_off_screen(width) {
            Pipe::spec_following(pipe1, second_gap)
        } else {
            self.pipe2
        };
        World { pipe1, pipe2, ..self }
    }

    /// Whether the first pipe gives a point: the bird is passing it and the
    /// score is even.
    pub open spec fn spec_scores_first(self) -> bool {
        self.pipe1.spec_passed_by(self.screen.pipe_width as int, self.bird) && self.score % 2 == 0
    }

    /// Whether the second pipe gives a point: the bird is passing it and the
    /// score, with the first pipe's point counted, is odd.
    pub open spec fn spec_scores_second(self) -> bool {
        let counted = self.score + if self.spec_scores_first() { 1int } else { 0int };
        self.pipe2.spec_passed_by(self.screen.pipe_width as int, self.bird) && counted % 2 == 1
    }

    /// Scoring: each pipe that gives a point adds one to the score.
    pub open spec fn spec_score(self) -> World {
        let first = if self.spec_scores_first() { 1int } else { 0int };
        let second = if self.spec_scores_second() { 1int } else { 0int };
        World { score: (self.score + first + second) as u64, ..self }
    }

    /// Whether the bird has run into the first pipe.
    pub open spec fn spec_hits_first(self) -> bool {
        self.pipe1.spec_hits(self.screen.pipe_width as int, self.bird)
    }

    /// Whether the bird has run into the second pipe.
    pub open spec fn spec_hits_second(self) -> bool {
        self.pipe2.spec_hits(self.screen.pipe_width as int, self.bird)
    }

    /// Whether the bird has left the screen at the top or touched the ground.
    pub open spec fn spec_hits_bounds(self) -> bool {
        self.bird.spec_out_of_bounds(self.screen.spec_ground_top())
    }

    /// Whether the bird has run into anything.
    pub open spec fn spec_crashed(self) -> bool {
        self.spec_hits_first() || self.spec_hits_second() || self.spec_hits_bounds()
    }

    /// Collision: a crash ends the round and raises the high score to the
    /// score where that is higher.
    pub open spec fn spec_crash(self) -> World {
        if self.spec_crashed() {
            World {
                state: GameState::GameOver,
                high_score: if self.score > self.high_score {
                    self.score
                } else {
                    self.high_score
                },
                ..self
            }
        } else {
            self
        }
    }

    /// The world during play, after motion and recycling and before scoring.
    pub open spec fn spec_advance(self, dt: int, draws: GapDraws) -> World {
        self.spec_move(dt).spec_recycle(draws.recycled_first, draws.recycled_second)
    }

    /// Play: during play the frame moves bird and pipes, recycles, scores and
    /// tests for a crash; in the other phases it does none of these.
    pub open spec fn spec_play(self, dt: int, draws: GapDraws) -> World {
        if self.state == GameState::Gameplay {
            self.spec_advance(dt, draws).spec_score().spec_crash()
        } else {
            self
        }
    }

    /// Whether the bird's lower edge is above either tile of the ground.
    pub open spec fn spec_falling(self) -> bool {
        self.bird.spec_above(self.ground1.y as int) || self.bird.spec_above(self.ground2.y as int)
    }

    /// A new round: the score is zero, the bird is where it spawns and the
    /// pipes are where they start, with the gaps given. The high score stays.
    pub open spec fn spec_restart(self, first_gap: i64, second_gap: i64) -> World {
        World {
            state: GameState::Start,
            score: 0,
            bird: self.screen.spec_spawn(),
            pipe1: Pipe { x: PIPE1_START, y: first_gap },
            pipe2: Pipe { x: (PIPE1_START + PIPE_DISTANCE) as i64, y: second_gap },
            ..self
        }
    }

    /// Whether this frame sets up a new round: the game is over, the bird has
    /// come down to the ground, and there is a jump.
    pub open spec fn spec_restarts(self, jump: bool) -> bool {
        self.state == GameState::GameOver && !self.spec_falling() && jump
    }

    /// After the crash: the bird falls until it is down; once it is down, a
    /// jump sets up a new round.
    pub open spec fn spec_settle(self, jump: bool, dt: int, draws: GapDraws) -> World {
        if self.state != GameState::GameOver {
            self
        } else if self.spec_falling() {
            World { bird: self.bird.spec_fall(dt), ..self }
        } else if jump {
            self.spec_restart(draws.restart_first, draws.restart_second)
        } else {
            self
        }
    }

    /// The world before the play of this frame: after input and ground.
    pub open spec fn spec_prepared(self, jump: bool, dt: int) -> World {
        self.spec_input(jump).spec_scroll_ground(dt)
    }

    /// The world one frame later: input, ground, play, and what follows a
    /// crash, in this order. A crash is followed up in the frame in which it
    /// happens.
    pub open spec fn spec_next(self, jump: bool, dt: int, draws: GapDraws) -> World {
        self.spec_prepared(jump, dt).spec_play(dt, draws).spec_settle(jump, dt, draws)
    }

    /// What the frame reports.
    pub open spec fn spec_events(self, jump: bool, dt: int, draws: GapDraws) -> FrameEvents {
        let prepared = self.spec_prepared(jump, dt);
        let playing = prepared.state == GameState::Gameplay;
        let advanced = prepared.spec_advance(dt, draws);
        let scored = advanced.spec_score();
        FrameEvents {
            jumped: jump && self.state != GameState::GameOver,
            scored_first: playing && advanced.spec_scores_first(),
            scored_second: playing && advanced.spec_scores_second(),
            hit_first: playing && scored.spec_hits_first(),
            hit_second: playing && scored.spec_hits_second(),
            hit_bounds: playing && scored.spec_hits_bounds(),
            restarted: prepared.spec_play(dt, draws).spec_restarts(jump),
        }
    }
}

} // verus!
