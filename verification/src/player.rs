use vstd::prelude::*;

use crate::{FLAP_IMPULSE, FRAME_COUNT, GRAVITY, SCALE, TERMINAL_VELOCITY};

verus! {

/// The player sprite: world column, vertical position and velocity in tenths
/// of a row, and the sprite animation frame.
pub struct Player {
    pub x: i64,
    pub y: i64,
    pub velocity: i64,
    pub frame: usize,
}

/// Mathematical value of a `Player`, over unbounded integers.
pub ghost struct PlayerV {
    pub x: int,
    pub y: int,
    pub velocity: int,
    pub frame: int,
}

impl View for Player {
    type V = PlayerV;

    open spec fn view(&self) -> PlayerV {
        PlayerV {
            x: self.x as int,
            y: self.y as int,
            velocity: self.velocity as int,
            frame: self.frame as int,
        }
    }
}

/// One physics step: gravity up to the terminal velocity, fall by the
/// velocity, clamp at the floor, scroll one column, advance the animation
/// frame cyclically.
pub open spec fn advanced(p: PlayerV) -> PlayerV {
    let velocity = if p.velocity < TERMINAL_VELOCITY as int {
        p.velocity + GRAVITY as int
    } else {
        p.velocity
    };
    let fallen = p.y + velocity;
    let y = if fallen < 0 { 0 } else { fallen };
    PlayerV { x: p.x + 1, y, velocity, frame: (p.frame + 1) % (FRAME_COUNT as int) }
}

/// The player after `n` physics steps with no flap in between.
pub open spec fn advanced_n(p: PlayerV, n: nat) -> PlayerV
    decreases n,
{
    if n == 0 {
        p
    } else {
        advanced(advanced_n(p, (n - 1) as nat))
    }
}

impl Player {
    /// Well-formedness: at or above the floor, velocity at or below the
    /// terminal value, animation frame in range.
    pub open spec fn wf(self) -> bool {
        &&& 0 <= self.y
        &&& self.velocity <= TERMINAL_VELOCITY
        &&& self.frame < FRAME_COUNT
    }

    /// A fresh player at column `x`, `y_rows` rows below the top, at rest.
    pub fn new(x: i64, y_rows: i64) -> (p: Player)
        requires
            0 <= y_rows,
            y_rows * SCALE as int <= i64::MAX,
        ensures
            p.x == x,
            p.y == y_rows * SCALE as int,
            p.velocity == 0,
            p.frame == 0,
            p.wf(),
    {
        Player { x, y: y_rows * SCALE, velocity: 0, frame: 0 }
    }

    /// One physics step; the result is `advanced` of the old value.
    pub fn grav_and_move(&mut self)
        requires
            old(self).wf(),
            old(self).x < i64::MAX,
            old(self).y + TERMINAL_VELOCITY <= i64::MAX,
        ensures
            final(self)@ == advanced(old(self)@),
            final(self).wf(),
            0 <= final(self).y,
            final(self).x == old(self).x + 1,
            old(self).velocity <= final(self).velocity,
    {
        if self.velocity < TERMINAL_VELOCITY {
            self.velocity = self.velocity + GRAVITY;
        }
        self.y = self.y + self.velocity;
        if self.y < 0 {
            self.y = 0;
        }
        self.x = self.x + 1;
        self.frame = (self.frame + 1) % FRAME_COUNT;
    }

    /// A flap: subtract the fixed impulse from the velocity; nothing else
    /// changes.
    pub fn flap(&mut self)
        requires
            i64::MIN + FLAP_IMPULSE <= old(self).velocity,
        ensures
            final(self).velocity == old(self).velocity - FLAP_IMPULSE,
            final(self).x == old(self).x,
            final(self).y == old(self).y,
            final(self).frame == old(self).frame,
    {
        self.velocity = self.velocity - FLAP_IMPULSE;
    }
}

/// Gravity cap: starting at or below the terminal velocity, any number of
/// physics steps leaves the velocity at or below the terminal velocity.
pub proof fn lemma_gravity_cap(p: PlayerV, n: nat)
    requires
        p.velocity <= TERMINAL_VELOCITY as int,
    ensures
        advanced_n(p, n).velocity <= TERMINAL_VELOCITY as int,
    decreases n,
{
    if n > 0 {
        lemma_gravity_cap(p, (n - 1) as nat);
    }
}

/// With no flaps the velocity never decreases: over any two step counts the
/// later velocity is at least the earlier one.
pub proof fn lemma_velocity_monotone(p: PlayerV, n1: nat, n2: nat)
    requires
        n1 <= n2,
    ensures
        advanced_n(p, n1).velocity <= advanced_n(p, n2).velocity,
    decreases n2,
{
    if n1 < n2 {
        lemma_velocity_monotone(p, n1, (n2 - 1) as nat);
    }
}

/// Floor clamp: from any state at or above the floor, every later state is
/// at or above the floor.
pub proof fn lemma_floor_clamp(p: PlayerV, n: nat)
    requires
        0 <= p.y,
    ensures
        0 <= advanced_n(p, n).y,
    decreases n,
{
    if n > 0 {
        lemma_floor_clamp(p, (n - 1) as nat);
    }
}

/// Animation wrap: after `n` steps the frame is the start frame plus `n`
/// modulo the frame count, hence always in range.
pub proof fn lemma_animation_wrap(p: PlayerV, n: nat)
    requires
        0 <= p.frame < FRAME_COUNT as int,
    ensures
        advanced_n(p, n).frame == (p.frame + n) % (FRAME_COUNT as int),
        0 <= advanced_n(p, n).frame < FRAME_COUNT as int,
    decreases n,
{
    if n > 0 {
        lemma_animation_wrap(p, (n - 1) as nat);
    }
}

} // verus!
