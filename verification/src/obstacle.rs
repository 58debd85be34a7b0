use vstd::prelude::*;

use bracket_lib::prelude::RandomNumberGenerator;

use crate::player::{Player, PlayerV};
use crate::rng::roll_gap_center;
use crate::{BASE_GAP_SIZE, GAP_CENTER_MAX, GAP_CENTER_MIN, MIN_GAP_SIZE, SCALE, SCREEN_HEIGHT};

verus! {

/// One gap obstacle: its fixed world column, the row of the gap's center,
/// and the gap's total height in rows.
pub struct Obstacle {
    pub x: i64,
    pub gap_y: i64,
    pub size: i64,
}

/// Mathematical value of an `Obstacle`, over unbounded integers.
pub ghost struct ObstacleV {
    pub x: int,
    pub gap_y: int,
    pub size: int,
}

impl View for Obstacle {
    type V = ObstacleV;

    open spec fn view(&self) -> ObstacleV {
        ObstacleV { x: self.x as int, gap_y: self.gap_y as int, size: self.size as int }
    }
}

/// The gap size earned at a score: the base size shrunk by one row per
/// point, floored at the minimum so the gap never closes.
pub open spec fn gap_size_spec(score: int) -> int {
    if BASE_GAP_SIZE - score < MIN_GAP_SIZE as int {
        MIN_GAP_SIZE as int
    } else {
        BASE_GAP_SIZE - score
    }
}

/// Collision: the player sits exactly in the obstacle's column and its
/// floored row lies strictly outside the gap span
/// `[gap_y - size / 2, gap_y + size / 2]`.
pub open spec fn hit_spec(o: ObstacleV, p: PlayerV) -> bool {
    let half = o.size / 2;
    let row = p.y / (SCALE as int);
    p.x == o.x && (row < o.gap_y - half || row > o.gap_y + half)
}

/// Truncating division of a nonnegative value by a positive one, computed in
/// unsigned arithmetic.
pub(crate) fn div_nonneg(a: i64, b: i64) -> (r: i64)
    requires
        0 <= a,
        0 < b,
    ensures
        r == a as int / b as int,
{
    ((a as u64) / (b as u64)) as i64
}

impl Obstacle {
    /// Well-formedness: gap center in the fixed range, gap size between the
    /// minimum and the base size.
    pub open spec fn wf(self) -> bool {
        &&& GAP_CENTER_MIN <= self.gap_y < GAP_CENTER_MAX
        &&& MIN_GAP_SIZE <= self.size <= BASE_GAP_SIZE
    }

    /// A fresh obstacle at column `x`: the gap center is drawn at random
    /// from the fixed range, the gap size follows from the score.
    pub fn new(x: i64, score: i64, rng: &mut RandomNumberGenerator) -> (o: Obstacle)
        requires
            0 <= score,
        ensures
            o.x == x,
            o.size == gap_size_spec(score as int),
            GAP_CENTER_MIN <= o.gap_y < GAP_CENTER_MAX,
            o.wf(),
    {
        let gap_y = roll_gap_center(rng);
        let shrunk = BASE_GAP_SIZE - score;
        let size = if shrunk < MIN_GAP_SIZE {
            MIN_GAP_SIZE
        } else {
            shrunk
        };
        Obstacle { x, gap_y, size }
    }

    /// Collision query against the given player; pure, per `hit_spec`.
    pub fn hit_obstacle(&self, player: &Player) -> (r: bool)
        requires
            self.wf(),
            0 <= player.y,
        ensures
            r == hit_spec(self@, player@),
    {
        let half_size = div_nonneg(self.size, 2);
        let row = div_nonneg(player.y, SCALE);
        player.x == self.x && (row < self.gap_y - half_size || row > self.gap_y + half_size)
    }

    /// Screen-space projection of the obstacle relative to the player's
    /// column; pure, mutates nothing.
    pub fn render_spans(&self, player_x: i64) -> (g: ObstacleSpans)
        requires
            self.wf(),
            0 <= self.x,
            0 <= player_x,
        ensures
            g.screen_x == self.x - player_x,
            g.top_end == self.gap_y - self.size / 2,
            g.bottom_start == self.gap_y + self.size / 2,
            g.floor_row == SCREEN_HEIGHT - 1,
    {
        let half_size = div_nonneg(self.size, 2);
        ObstacleSpans {
            screen_x: self.x - player_x,
            top_end: self.gap_y - half_size,
            bottom_start: self.gap_y + half_size,
            floor_row: SCREEN_HEIGHT - 1,
        }
    }
}

/// Screen-space drawing data for an obstacle: the column it occupies, the
/// solid span above the gap (rows `0 .. top_end`), the solid span below it
/// (rows `bottom_start .. floor_row`), and the full-width ground row.
pub struct ObstacleSpans {
    pub screen_x: i64,
    pub top_end: i64,
    pub bottom_start: i64,
    pub floor_row: i64,
}

/// Difficulty monotonicity: a higher score never widens the gap.
pub proof fn lemma_difficulty_monotone(s1: int, s2: int)
    requires
        0 <= s1 < s2,
    ensures
        gap_size_spec(s2) <= gap_size_spec(s1),
{
}

/// The gap never closes: at every score the gap size stays at or above the
/// minimum.
pub proof fn lemma_gap_floor(score: int)
    ensures
        gap_size_spec(score) >= MIN_GAP_SIZE as int,
{
}

} // verus!
