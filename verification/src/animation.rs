//! The animation clock, the choice of sprite frame, and the step that moves
//! the player inside the arena.

use vstd::prelude::*;
use crate::motion::PlayerState;
use crate::units::{
    ARENA_BOTTOM, ARENA_LEFT, ARENA_RIGHT, ARENA_TOP, FRAME_INTERVAL, IDLE_END, IDLE_FIRST,
    MOVING_END, MOVING_FIRST,
};

verus! {

/// The animation of the player's sprite.
#[derive(Clone, Copy, Debug, PartialEq, Eq, Structural)]
pub struct AnimationState {
    /// The cell of the sprite sheet that is shown.
    pub frame_index: u32,
    /// Nanoseconds gathered since the last frame.
    pub frame_timer: u64,
    /// Whether the sprite is drawn mirrored.
    pub flip_x: bool,
    /// The number of cells in the sprite sheet.
    pub frame_count: u32,
}

/// Whether a timer at `timer` reaches the frame interval after `elapsed`
/// more nanoseconds.
pub open spec fn timer_fires(timer: int, elapsed: int) -> bool {
    timer + elapsed >= FRAME_INTERVAL
}

/// The cell a frame starts from: `index` itself where it belongs to the
/// cycle of the motion state, else the first cell of that cycle.
pub open spec fn cycle_frame(index: u32, idle: bool) -> u32 {
    if idle {
        if IDLE_FIRST <= index < IDLE_END {
            index
        } else {
            IDLE_FIRST
        }
    } else {
        if MOVING_FIRST <= index < MOVING_END {
            index
        } else {
            MOVING_FIRST
        }
    }
}

/// The cell shown after a frame: one past [`cycle_frame`], wrapped over the
/// whole sheet.
pub open spec fn next_frame(index: u32, idle: bool, frame_count: u32) -> int
    recommends
        frame_count > 0,
{
    (cycle_frame(index, idle) + 1) % (frame_count as int)
}

/// One axis of the position after a step at velocity `v`: the step is taken
/// only where it ends strictly between `low` and `high`.
pub open spec fn axis_position(p: int, v: int, low: int, high: int) -> int {
    if low < p + v < high {
        p + v
    } else {
        p
    }
}

impl AnimationState {
    /// The sprite sheet has at least one cell.
    pub open spec fn wf(self) -> bool {
        self.frame_count > 0
    }

    /// An animation at cell 0 with an empty timer, not mirrored. `None` for
    /// a sheet without cells.
    pub fn new(frame_count: u32) -> (made: Option<AnimationState>)
        ensures
            made.is_some() <==> frame_count > 0,
            made matches Some(a) ==> a == (AnimationState {
                frame_index: 0,
                frame_timer: 0,
                flip_x: false,
                frame_count,
            }),
    {
        if frame_count == 0 {
            None
        } else {
            Some(AnimationState { frame_index: 0, frame_timer: 0, flip_x: false, frame_count })
        }
    }

    /// Adds `elapsed` nanoseconds to the timer. Where that reaches the frame
    /// interval the timer starts again from zero and the result is `true`.
    pub fn advance_timer(&mut self, elapsed: u64) -> (fired: bool)
        ensures
            fired == timer_fires(old(self).frame_timer as int, elapsed as int),
            fired ==> final(self).frame_timer == 0,
            !fired ==> final(self).frame_timer == old(self).frame_timer + elapsed,
            final(self).frame_index == old(self).frame_index,
            final(self).flip_x == old(self).flip_x,
            final(self).frame_count == old(self).frame_count,
    {
        if elapsed >= FRAME_INTERVAL || self.frame_timer >= FRAME_INTERVAL - elapsed {
            self.frame_timer = 0;
            true
        } else {
            self.frame_timer = self.frame_timer + elapsed;
            false
        }
    }

    /// Brings the frame index into the cycle of the motion state: a cell
    /// outside the cycle gives way to the cycle's first cell.
    pub fn enter_cycle(&mut self, idle: bool)
        ensures
            final(self).frame_index == cycle_frame(old(self).frame_index, idle),
            idle ==> IDLE_FIRST <= final(self).frame_index < IDLE_END,
            !idle ==> MOVING_FIRST <= final(self).frame_index < MOVING_END,
            final(self).frame_timer == old(self).frame_timer,
            final(self).flip_x == old(self).flip_x,
            final(self).frame_count == old(self).frame_count,
    {
        if idle {
            if self.frame_index < IDLE_FIRST || self.frame_index >= IDLE_END {
                self.frame_index = IDLE_FIRST;
            }
        } else {
            if self.frame_index < MOVING_FIRST || self.frame_index >= MOVING_END {
                self.frame_index = MOVING_FIRST;
            }
        }
    }

    /// Moves on to the next cell, wrapping over the whole sheet.
    pub fn advance_frame(&mut self)
        requires
            old(self).wf(),
        ensures
            final(self).frame_index == (old(self).frame_index + 1) % (old(self).frame_count as int),
            final(self).frame_index < old(self).frame_count,
            final(self).frame_timer == old(self).frame_timer,
            final(self).flip_x == old(self).flip_x,
            final(self).frame_count == old(self).frame_count,
    {
        let next: u64 = (self.frame_index as u64 + 1) % (self.frame_count as u64);
        self.frame_index = next as u32;
    }
}

impl PlayerState {
    /// The player after one step at its velocity. Each axis moves on its
    /// own: a step that would end on or beyond a border of the arena is not
    /// taken on that axis, and the velocity stays as it is.
    pub open spec fn moved(self) -> PlayerState {
        PlayerState {
            x: axis_position(self.x as int, self.vx as int, ARENA_LEFT as int, ARENA_RIGHT as int)
                as i64,
            y: axis_position(self.y as int, self.vy as int, ARENA_BOTTOM as int, ARENA_TOP as int)
                as i64,
            ..self
        }
    }

    /// Takes one step at the current velocity, inside the arena.
    pub fn integrate(&mut self)
        ensures
            *final(self) == old(self).moved(),
            final(self).x == axis_position(
                old(self).x as int,
                old(self).vx as int,
                ARENA_LEFT as int,
                ARENA_RIGHT as int,
            ),
            final(self).y == axis_position(
                old(self).y as int,
                old(self).vy as int,
                ARENA_BOTTOM as int,
                ARENA_TOP as int,
            ),
            old(self).wf() ==> final(self).wf(),
    {
        self.x = step_position(self.x, self.vx, ARENA_LEFT, ARENA_RIGHT);
        self.y = step_position(self.y, self.vy, ARENA_BOTTOM, ARENA_TOP);
    }
}

/// One axis of a step: `p + v` where that lies strictly between `low` and
/// `high`, else `p`.
pub fn step_position(p: i64, v: i64, low: i64, high: i64) -> (q: i64)
    ensures
        q == axis_position(p as int, v as int, low as int, high as int),
{
    let target: i128 = p as i128 + v as i128;
    if (low as i128) < target && target < (high as i128) {
        target as i64
    } else {
        p
    }
}

/// Right after the frame index has entered the cycle of the motion state it
/// lies in the idle cycle for a player at rest and in the moving cycle
/// otherwise.
pub proof fn lemma_cycle_frame_in_range(index: u32, idle: bool)
    ensures
        idle ==> IDLE_FIRST <= cycle_frame(index, idle) < IDLE_END,
        !idle ==> MOVING_FIRST <= cycle_frame(index, idle) < MOVING_END,
{
}

/// A cell that belongs to the cycle already is kept.
pub proof fn lemma_cycle_frame_keeps_member(index: u32, idle: bool)
    requires
        idle ==> IDLE_FIRST <= index < IDLE_END,
        !idle ==> MOVING_FIRST <= index < MOVING_END,
    ensures
        cycle_frame(index, idle) == index,
{
}

/// A position that changed on an axis lies strictly between the bounds of
/// that axis; a step that would end on a bound or beyond leaves it alone.
pub proof fn lemma_step_commits_only_inside(p: int, v: int, low: int, high: int)
    ensures
        axis_position(p, v, low, high) != p ==> low < axis_position(p, v, low, high) < high,
        !(low < p + v < high) ==> axis_position(p, v, low, high) == p,
        low < p < high ==> low < axis_position(p, v, low, high) < high,
{
}

/// A player inside the arena is inside the arena after a step.
pub proof fn lemma_moved_stays_in_arena(player: PlayerState)
    requires
        player.wf(),
    ensures
        player.moved().wf(),
        crate::units::in_arena(player.moved().x as int, player.moved().y as int),
{
}

} // verus!
