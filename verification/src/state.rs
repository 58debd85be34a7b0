use vstd::prelude::*;

use bracket_lib::prelude::RandomNumberGenerator;

use crate::obstacle::{div_nonneg, gap_size_spec, hit_spec, Obstacle, ObstacleSpans, ObstacleV};
use crate::player::{advanced, Player, PlayerV};
use crate::rng::{rng_from_entropy, rng_from_seed};
use crate::{
    FLAP_IMPULSE, FRAME_DURATION, GAP_CENTER_MAX, GAP_CENTER_MIN, MAX_PLAYER_X, PLAYER_START_X,
    PLAYER_START_Y, SCALE, SCREEN_HEIGHT, SCREEN_WIDTH,
};

verus! {

/// Which screen the session is on.
#[derive(Clone, Copy, PartialEq, Eq, Structural, Debug)]
pub enum GameMode {
    Menu,
    Playing,
    End,
}

/// The one discrete input event a tick may carry, already decoded by the
/// host: at most one event per tick, and one event means one action.
#[derive(Clone, Copy, PartialEq, Eq, Structural, Debug)]
pub enum Input {
    Idle,
    Flap,
    Start,
    Quit,
}

/// The whole game session: mode, player, the one live obstacle, score, the
/// fixed-step time accumulator, and the quit flag the host observes.
pub struct State {
    pub mode: GameMode,
    pub player: Player,
    pub obstacle: Obstacle,
    pub score: i64,
    pub frame_time: u64,
    pub quitting: bool,
    pub rng: RandomNumberGenerator,
}

/// Mathematical value of a session; the random generator is not part of it.
pub ghost struct StateV {
    pub mode: GameMode,
    pub player: PlayerV,
    pub obstacle: ObstacleV,
    pub score: int,
    pub frame_time: int,
    pub quitting: bool,
}

impl View for State {
    type V = StateV;

    open spec fn view(&self) -> StateV {
        StateV {
            mode: self.mode,
            player: self.player@,
            obstacle: self.obstacle@,
            score: self.score as int,
            frame_time: self.frame_time as int,
            quitting: self.quitting,
        }
    }
}

/// Accumulate the elapsed time; once it exceeds the threshold, reset the
/// accumulator and run exactly one physics step — overdue steps are dropped,
/// never caught up — while the column bound holds.
pub open spec fn step_phase(s: StateV, elapsed: int) -> StateV {
    let ft = s.frame_time + elapsed;
    if ft > FRAME_DURATION as int {
        if s.player.x < MAX_PLAYER_X as int {
            StateV { frame_time: 0, player: advanced(s.player), ..s }
        } else {
            StateV { frame_time: 0, ..s }
        }
    } else {
        StateV { frame_time: ft, ..s }
    }
}

/// Apply a flap if one was reported and the impulse cannot underflow.
pub open spec fn flap_phase(s: StateV, input: Input) -> StateV {
    if input == Input::Flap && i64::MIN + FLAP_IMPULSE as int <= s.player.velocity {
        StateV {
            player: PlayerV { velocity: s.player.velocity - FLAP_IMPULSE as int, ..s.player },
            ..s
        }
    } else {
        s
    }
}

/// Once the player's column has advanced past the obstacle's, score the
/// point and replace the obstacle with a fresh one (gap center `gap`) one
/// screen ahead, sized by the updated score.
pub open spec fn pass_phase(s: StateV, gap: int) -> StateV {
    if s.player.x > s.obstacle.x {
        StateV {
            score: s.score + 1,
            obstacle: ObstacleV {
                x: s.player.x + SCREEN_WIDTH as int,
                gap_y: gap,
                size: gap_size_spec(s.score + 1),
            },
            ..s
        }
    } else {
        s
    }
}

/// End the session when the player's floored row fell below the screen or
/// the player collides with the obstacle.
pub open spec fn death_phase(s: StateV) -> StateV {
    if s.player.y / (SCALE as int) > SCREEN_HEIGHT as int || hit_spec(s.obstacle, s.player) {
        StateV { mode: GameMode::End, ..s }
    } else {
        s
    }
}

/// A full Playing tick: time and physics, then flap, then obstacle
/// replacement, then the termination check.
pub open spec fn play_transition(s: StateV, elapsed: int, input: Input, gap: int) -> StateV {
    death_phase(pass_phase(flap_phase(step_phase(s, elapsed), input), gap))
}

/// The player's world column never decreases: whatever a Playing tick
/// carries — time, input, gap draw — it leaves the column where it was or
/// one step further.
pub proof fn lemma_world_x_monotone(s: StateV, elapsed: int, input: Input, gap: int)
    ensures
        s.player.x <= play_transition(s, elapsed, input, gap).player.x <= s.player.x + 1,
{
}

/// The fixed state a restart produces, up to the random gap center: only the
/// quit flag survives from the old session.
pub open spec fn restart_transition(s: StateV, gap: int) -> StateV {
    StateV {
        mode: GameMode::Playing,
        player: PlayerV {
            x: PLAYER_START_X as int,
            y: SCREEN_WIDTH as int / 2 * SCALE as int,
            velocity: 0,
            frame: 0,
        },
        obstacle: ObstacleV { x: SCREEN_WIDTH as int, gap_y: gap, size: gap_size_spec(0) },
        score: 0,
        frame_time: 0,
        quitting: s.quitting,
    }
}

/// The menu and game-over screens react alike: start restarts the session,
/// quit raises the quit flag, anything else changes nothing.
pub open spec fn menu_transition(s: StateV, input: Input, gap: int) -> StateV {
    if input == Input::Start {
        restart_transition(s, gap)
    } else if input == Input::Quit {
        StateV { quitting: true, ..s }
    } else {
        s
    }
}

/// One tick, dispatched on the current mode.
pub open spec fn tick_transition(s: StateV, elapsed: int, input: Input, gap: int) -> StateV {
    match s.mode {
        GameMode::Playing => play_transition(s, elapsed, input, gap),
        _ => menu_transition(s, input, gap),
    }
}

/// Everything the rendering host needs for one frame.
pub struct RenderFrame {
    pub mode: GameMode,
    pub score: i64,
    /// The player's vertical screen position, in tenths of a row; its screen
    /// column is always zero, the world scrolls underneath.
    pub player_y: i64,
    pub player_frame: usize,
    pub spans: ObstacleSpans,
}

impl State {
    /// Session invariant: it holds of every session the constructors return
    /// and is preserved by every public mutator.
    pub open spec fn wf(self) -> bool {
        &&& self.player.wf()
        &&& 0 <= self.player.x <= MAX_PLAYER_X
        &&& self.obstacle.wf()
        &&& 0 <= self.score
        &&& self.score < self.obstacle.x
        &&& self.obstacle.x <= self.player.x + SCREEN_WIDTH as int
        &&& self.frame_time <= FRAME_DURATION
        &&& (self.mode == GameMode::Playing ==> self.player.y as int / SCALE as int
            <= SCREEN_HEIGHT as int)
    }

    /// A fresh session at the menu, seeded from entropy.
    pub fn new() -> (s: State)
        ensures
            s.wf(),
            s.mode == GameMode::Menu,
            s.score == 0,
            s.frame_time == 0,
            !s.quitting,
            s.player.x == PLAYER_START_X,
            s.player.y == PLAYER_START_Y as int * SCALE as int,
            s.player.velocity == 0,
            s.player.frame == 0,
            s.obstacle.x == SCREEN_WIDTH,
            s.obstacle.size == gap_size_spec(0),
            GAP_CENTER_MIN <= s.obstacle.gap_y < GAP_CENTER_MAX,
    {
        let rng = rng_from_entropy();
        Self::with_rng(rng)
    }

    /// A fresh session at the menu, seeded with the given value for
    /// reproducible runs; otherwise identical to `new`.
    pub fn seeded(seed: u64) -> (s: State)
        ensures
            s.wf(),
            s.mode == GameMode::Menu,
            s.score == 0,
            s.frame_time == 0,
            !s.quitting,
            s.player.x == PLAYER_START_X,
            s.player.y == PLAYER_START_Y as int * SCALE as int,
            s.player.velocity == 0,
            s.player.frame == 0,
            s.obstacle.x == SCREEN_WIDTH,
            s.obstacle.size == gap_size_spec(0),
            GAP_CENTER_MIN <= s.obstacle.gap_y < GAP_CENTER_MAX,
    {
        let rng = rng_from_seed(seed);
        Self::with_rng(rng)
    }

    /// The shared body of the two constructors.
    fn with_rng(rng: RandomNumberGenerator) -> (s: State)
        ensures
            s.wf(),
            s.mode == GameMode::Menu,
            s.score == 0,
            s.frame_time == 0,
            !s.quitting,
            s.player.x == PLAYER_START_X,
            s.player.y == PLAYER_START_Y as int * SCALE as int,
            s.player.velocity == 0,
            s.player.frame == 0,
            s.obstacle.x == SCREEN_WIDTH,
            s.obstacle.size == gap_size_spec(0),
            GAP_CENTER_MIN <= s.obstacle.gap_y < GAP_CENTER_MAX,
    {
        let mut rng = rng;
        let obstacle = Obstacle::new(SCREEN_WIDTH, 0, &mut rng);
        State {
            mode: GameMode::Menu,
            player: Player::new(PLAYER_START_X, PLAYER_START_Y),
            obstacle,
            score: 0,
            frame_time: 0,
            quitting: false,
            rng,
        }
    }

    /// Full session reset into Playing: fixed fresh player, score zero,
    /// accumulator zero, fresh obstacle at the right edge of the view with
    /// score-zero difficulty. Works from any state; only the quit flag
    /// survives.
    pub fn restart(&mut self)
        ensures
            final(self)@ == restart_transition(old(self)@, final(self)@.obstacle.gap_y),
            GAP_CENTER_MIN <= final(self).obstacle.gap_y < GAP_CENTER_MAX,
            final(self).wf(),
    {
        self.player = Player::new(PLAYER_START_X, SCREEN_WIDTH / 2);
        self.frame_time = 0;
        self.obstacle = Obstacle::new(SCREEN_WIDTH, 0, &mut self.rng);
        self.mode = GameMode::Playing;
        self.score = 0;
    }

    /// The menu screen's reaction to this tick's input.
    pub fn main_menu(&mut self, input: Input)
        requires
            old(self).wf(),
        ensures
            final(self)@ == menu_transition(old(self)@, input, final(self)@.obstacle.gap_y),
            GAP_CENTER_MIN <= final(self).obstacle.gap_y < GAP_CENTER_MAX,
            final(self).wf(),
    {
        match input {
            Input::Start => self.restart(),
            Input::Quit => self.quitting = true,
            _ => {},
        }
    }

    /// The game-over screen's reaction to this tick's input; it reacts
    /// exactly as the menu does.
    pub fn dead(&mut self, input: Input)
        requires
            old(self).wf(),
        ensures
            final(self)@ == menu_transition(old(self)@, input, final(self)@.obstacle.gap_y),
            GAP_CENTER_MIN <= final(self).obstacle.gap_y < GAP_CENTER_MAX,
            final(self).wf(),
    {
        match input {
            Input::Start => self.restart(),
            Input::Quit => self.quitting = true,
            _ => {},
        }
    }

    /// One Playing tick: accumulate time and run at most one physics step,
    /// apply a reported flap, score and replace a passed obstacle, then
    /// check the termination conditions.
    pub fn play(&mut self, elapsed: u32, input: Input)
        requires
            old(self).wf(),
            old(self).mode == GameMode::Playing,
        ensures
            final(self)@ == play_transition(
                old(self)@,
                elapsed as int,
                input,
                final(self)@.obstacle.gap_y,
            ),
            GAP_CENTER_MIN <= final(self).obstacle.gap_y < GAP_CENTER_MAX,
            final(self).wf(),
            final(self).mode == GameMode::Playing || final(self).mode == GameMode::End,
            final(self).quitting == old(self).quitting,
    {
        self.frame_time = self.frame_time + (elapsed as u64);
        if self.frame_time > FRAME_DURATION {
            self.frame_time = 0;
            if self.player.x < MAX_PLAYER_X {
                self.player.grav_and_move();
            }
        }
        if input == Input::Flap && i64::MIN + FLAP_IMPULSE <= self.player.velocity {
            self.player.flap();
        }
        if self.player.x > self.obstacle.x {
            self.score = self.score + 1;
            self.obstacle = Obstacle::new(self.player.x + SCREEN_WIDTH, self.score, &mut self.rng);
        }
        let row = div_nonneg(self.player.y, SCALE);
        if row > SCREEN_HEIGHT || self.obstacle.hit_obstacle(&self.player) {
            self.mode = GameMode::End;
        }
    }

    /// One host tick: dispatch on the current mode.
    pub fn tick(&mut self, elapsed: u32, input: Input)
        requires
            old(self).wf(),
        ensures
            final(self)@ == tick_transition(
                old(self)@,
                elapsed as int,
                input,
                final(self)@.obstacle.gap_y,
            ),
            GAP_CENTER_MIN <= final(self).obstacle.gap_y < GAP_CENTER_MAX,
            final(self).wf(),
    {
        match self.mode {
            GameMode::Menu => self.main_menu(input),
            GameMode::Playing => self.play(elapsed, input),
            GameMode::End => self.dead(input),
        }
    }

    /// Assemble the per-frame render data; a pure projection of the session.
    pub fn render_frame(&self) -> (f: RenderFrame)
        requires
            self.wf(),
        ensures
            f.mode == self.mode,
            f.score == self.score,
            f.player_y == self.player.y,
            f.player_frame == self.player.frame,
            f.spans.screen_x == self.obstacle.x - self.player.x,
            f.spans.top_end == self.obstacle.gap_y - self.obstacle.size / 2,
            f.spans.bottom_start == self.obstacle.gap_y + self.obstacle.size / 2,
            f.spans.floor_row == SCREEN_HEIGHT - 1,
    {
        RenderFrame {
            mode: self.mode,
            score: self.score,
            player_y: self.player.y,
            player_frame: self.player.frame,
            spans: self.obstacle.render_spans(self.player.x),
        }
    }
}

} // verus!
