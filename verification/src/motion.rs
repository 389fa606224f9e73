//! The motion controller: from the state of four direction keys to the
//! player's velocity and facing.

use vstd::prelude::*;

verus! {

/// What is known of one key during one tick.
#[derive(Clone, Copy, Debug, PartialEq, Eq, Structural)]
pub struct KeyState {
    /// The key is down.
    pub held: bool,
    /// The key went up during this tick.
    pub released: bool,
}

/// The four direction keys.
#[derive(Clone, Copy, Debug, PartialEq, Eq, Structural)]
pub struct DirectionKeys {
    pub left: KeyState,
    pub right: KeyState,
    pub up: KeyState,
    pub down: KeyState,
}

/// The player: where it is, how fast it moves, which way it looks.
#[derive(Clone, Copy, Debug, PartialEq, Eq, Structural)]
pub struct PlayerState {
    pub x: i64,
    pub y: i64,
    pub vx: i64,
    pub vy: i64,
    pub facing_left: bool,
    /// The speed at which a held key stops accelerating.
    pub max_speed: i64,
    /// What one tick of a held key adds to the speed.
    pub acceleration: i64,
}

/// A held key of the positive direction: one step faster, unless the speed
/// has reached `max_speed` already. The test comes before the step, so the
/// result may pass `max_speed` by less than one step.
pub open spec fn pushed_up(v: int, max_speed: int, acceleration: int) -> int {
    if v < max_speed {
        v + acceleration
    } else {
        v
    }
}

/// A held key of the negative direction, the mirror image of [`pushed_up`].
pub open spec fn pushed_down(v: int, max_speed: int, acceleration: int) -> int {
    if v > -max_speed {
        v - acceleration
    } else {
        v
    }
}

/// The velocity on one axis after a tick. A release of either key stops the
/// axis at once, whatever else is held. Otherwise each held key pushes, the
/// negative one first where `negative_first` is set.
pub open spec fn axis_velocity(
    v: int,
    max_speed: int,
    acceleration: int,
    negative: KeyState,
    positive: KeyState,
    negative_first: bool,
) -> int {
    if negative.released || positive.released {
        0
    } else if negative_first {
        let w = if negative.held {
            pushed_down(v, max_speed, acceleration)
        } else {
            v
        };
        if positive.held {
            pushed_up(w, max_speed, acceleration)
        } else {
            w
        }
    } else {
        let w = if positive.held {
            pushed_up(v, max_speed, acceleration)
        } else {
            v
        };
        if negative.held {
            pushed_down(w, max_speed, acceleration)
        } else {
            w
        }
    }
}

/// Which way the player looks after a tick: towards the horizontal key that
/// is held, to the right where both are, and as before where neither is.
pub open spec fn facing_after(facing_left: bool, left: KeyState, right: KeyState) -> bool {
    if right.held {
        false
    } else if left.held {
        true
    } else {
        facing_left
    }
}

/// Whether `v` is within one step of acceleration of the speed limit.
pub open spec fn speed_bounded(v: int, max_speed: int, acceleration: int) -> bool {
    -(max_speed + acceleration) <= v <= max_speed + acceleration
}

impl PlayerState {
    /// The configuration is usable and both velocities are within one step
    /// of the speed limit; the position is inside the arena.
    pub open spec fn wf(self) -> bool {
        &&& 0 <= self.max_speed
        &&& 0 <= self.acceleration
        &&& self.max_speed + self.acceleration <= i64::MAX
        &&& speed_bounded(self.vx as int, self.max_speed as int, self.acceleration as int)
        &&& speed_bounded(self.vy as int, self.max_speed as int, self.acceleration as int)
        &&& crate::units::in_arena(self.x as int, self.y as int)
    }

    /// The player after the motion controller has seen `keys`. On the
    /// horizontal axis the left key pushes before the right one, on the
    /// vertical axis the up key before the down one.
    pub open spec fn steered(self, keys: DirectionKeys) -> PlayerState {
        PlayerState {
            vx: axis_velocity(
                self.vx as int,
                self.max_speed as int,
                self.acceleration as int,
                keys.left,
                keys.right,
                true,
            ) as i64,
            vy: axis_velocity(
                self.vy as int,
                self.max_speed as int,
                self.acceleration as int,
                keys.down,
                keys.up,
                false,
            ) as i64,
            facing_left: facing_after(self.facing_left, keys.left, keys.right),
            ..self
        }
    }

    /// A player at rest at the arena's origin, looking right. `None` where
    /// the configuration is unusable: a negative number, or two whose sum
    /// no velocity could hold.
    pub fn new(max_speed: i64, acceleration: i64) -> (made: Option<PlayerState>)
        ensures
            made.is_some() <==> 0 <= max_speed && 0 <= acceleration && max_speed + acceleration
                <= i64::MAX,
            made matches Some(p) ==> p == (PlayerState {
                x: 0,
                y: 0,
                vx: 0,
                vy: 0,
                facing_left: false,
                max_speed,
                acceleration,
            }) && p.wf(),
    {
        if max_speed < 0 || acceleration < 0 || max_speed > i64::MAX - acceleration {
            None
        } else {
            Some(
                PlayerState {
                    x: 0,
                    y: 0,
                    vx: 0,
                    vy: 0,
                    facing_left: false,
                    max_speed,
                    acceleration,
                },
            )
        }
    }

    /// Whether the state is one the other methods accept.
    pub fn is_valid(&self) -> (ok: bool)
        ensures
            ok == self.wf(),
    {
        if self.max_speed < 0 || self.acceleration < 0 || self.max_speed > i64::MAX
            - self.acceleration {
            return false;
        }
        let limit: i64 = self.max_speed + self.acceleration;
        -limit <= self.vx && self.vx <= limit && -limit <= self.vy && self.vy <= limit
            && crate::units::ARENA_LEFT < self.x && self.x < crate::units::ARENA_RIGHT
            && crate::units::ARENA_BOTTOM < self.y && self.y < crate::units::ARENA_TOP
    }

    /// The motion controller: takes one tick's keys and updates velocity and
    /// facing. Position and configuration stay as they are.
    pub fn apply_keys(&mut self, keys: &DirectionKeys)
        requires
            old(self).wf(),
        ensures
            *final(self) == old(self).steered(*keys),
            final(self).vx == axis_velocity(
                old(self).vx as int,
                old(self).max_speed as int,
                old(self).acceleration as int,
                keys.left,
                keys.right,
                true,
            ),
            final(self).vy == axis_velocity(
                old(self).vy as int,
                old(self).max_speed as int,
                old(self).acceleration as int,
                keys.down,
                keys.up,
                false,
            ),
            final(self).wf(),
    {
        proof {
            lemma_speed_stays_bounded(
                self.vx as int,
                self.max_speed as int,
                self.acceleration as int,
                keys.left,
                keys.right,
                true,
            );
            lemma_speed_stays_bounded(
                self.vy as int,
                self.max_speed as int,
                self.acceleration as int,
                keys.down,
                keys.up,
                false,
            );
        }
        self.vx = step_axis(self.vx, self.max_speed, self.acceleration, &keys.left, &keys.right, true);
        self.vy = step_axis(self.vy, self.max_speed, self.acceleration, &keys.down, &keys.up, false);
        if keys.right.held {
            self.facing_left = false;
        } else if keys.left.held {
            self.facing_left = true;
        }
    }

    /// Whether the player stands still: both velocities are exactly zero.
    pub fn is_idle(&self) -> (idle: bool)
        ensures
            idle == self.at_rest(),
    {
        self.vx == 0 && self.vy == 0
    }

    /// The player stands still: both velocities are exactly zero.
    pub open spec fn at_rest(self) -> bool {
        self.vx == 0 && self.vy == 0
    }
}

/// One tick of one axis.
pub fn step_axis(
    v: i64,
    max_speed: i64,
    acceleration: i64,
    negative: &KeyState,
    positive: &KeyState,
    negative_first: bool,
) -> (next: i64)
    requires
        0 <= max_speed,
        0 <= acceleration,
        max_speed + acceleration <= i64::MAX,
        speed_bounded(v as int, max_speed as int, acceleration as int),
    ensures
        next == axis_velocity(
            v as int,
            max_speed as int,
            acceleration as int,
            *negative,
            *positive,
            negative_first,
        ),
        speed_bounded(next as int, max_speed as int, acceleration as int),
{
    if negative.released || positive.released {
        return 0;
    }
    let mut w: i64 = v;
    if negative_first {
        if negative.held && w > -max_speed {
            w = w - acceleration;
        }
        if positive.held && w < max_speed {
            w = w + acceleration;
        }
    } else {
        if positive.held && w < max_speed {
            w = w + acceleration;
        }
        if negative.held && w > -max_speed {
            w = w - acceleration;
        }
    }
    w
}

/// With no key of an axis held and none released, the axis keeps its
/// velocity.
pub proof fn lemma_untouched_axis_keeps_velocity(
    v: int,
    max_speed: int,
    acceleration: int,
    negative: KeyState,
    positive: KeyState,
    negative_first: bool,
)
    requires
        !negative.held,
        !positive.held,
        !negative.released,
        !positive.released,
    ensures
        axis_velocity(v, max_speed, acceleration, negative, positive, negative_first) == v,
{
}

/// A release of either key of an axis leaves the axis at velocity zero,
/// whatever it was before and whatever else is held.
pub proof fn lemma_release_stops_axis(
    v: int,
    max_speed: int,
    acceleration: int,
    negative: KeyState,
    positive: KeyState,
    negative_first: bool,
)
    requires
        negative.released || positive.released,
    ensures
        axis_velocity(v, max_speed, acceleration, negative, positive, negative_first) == 0,
{
}

/// A velocity within one step of the speed limit stays within one step of
/// it, whatever the keys do.
pub proof fn lemma_speed_stays_bounded(
    v: int,
    max_speed: int,
    acceleration: int,
    negative: KeyState,
    positive: KeyState,
    negative_first: bool,
)
    requires
        0 <= max_speed,
        0 <= acceleration,
        speed_bounded(v, max_speed, acceleration),
    ensures
        speed_bounded(
            axis_velocity(v, max_speed, acceleration, negative, positive, negative_first),
            max_speed,
            acceleration,
        ),
{
}

/// A velocity that is less than one step of acceleration past the speed
/// limit stays so: the test before the step lets no more through.
pub proof fn lemma_overshoot_is_less_than_one_step(
    v: int,
    max_speed: int,
    acceleration: int,
    negative: KeyState,
    positive: KeyState,
    negative_first: bool,
)
    requires
        0 <= max_speed,
        0 < acceleration,
        -(max_speed + acceleration) < v < max_speed + acceleration,
    ensures
        ({
            let w = axis_velocity(v, max_speed, acceleration, negative, positive, negative_first);
            -(max_speed + acceleration) < w < max_speed + acceleration
        }),
{
}

} // verus!
