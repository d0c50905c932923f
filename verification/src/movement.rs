//! Steering the player: the keys that are held push the velocity along each
//! axis, and the velocity never exceeds the top speed.

use vstd::prelude::*;
use crate::measure::{distance, snap, travel, Vector2};

verus! {

/// The steering keys that are held down during one tick.
#[derive(Clone, Copy, Debug, PartialEq, Eq, Structural)]
pub struct Keys {
    pub right: bool,
    pub left: bool,
    pub up: bool,
    pub down: bool,
}

impl Keys {
    /// Some steering key is held.
    pub open spec fn any(self) -> bool {
        self.right || self.left || self.up || self.down
    }

    /// The push along `x`: `1` to the right, `-1` to the left, `0` when
    /// neither or both keys are held.
    pub open spec fn push_x(self) -> int {
        (if self.right {
            1int
        } else {
            0int
        }) - (if self.left {
            1int
        } else {
            0int
        })
    }

    /// The push along `y`: `1` upwards, `-1` downwards, `0` when neither or
    /// both keys are held.
    pub open spec fn push_y(self) -> int {
        (if self.up {
            1int
        } else {
            0int
        }) - (if self.down {
            1int
        } else {
            0int
        })
    }
}

/// The velocity that the player has built up, in units per second.
#[derive(Clone, Copy, Debug, PartialEq, Eq, Structural)]
pub struct Player {
    pub x_velocity: i64,
    pub y_velocity: i64,
}

/// One component of the velocity after a tick: pushed by `push` times the
/// distance that the top speed covers in the tick, then held within the top
/// speed in both directions.
pub open spec fn steered_component(
    velocity: i64,
    push: int,
    elapsed_micros: u64,
    top_speed: i64,
) -> int {
    snap(
        velocity + push * travel(top_speed as u64, elapsed_micros),
        -top_speed as int,
        top_speed as int,
    )
}

impl Player {
    /// The player after a tick of `elapsed_micros` microseconds with `keys`
    /// held.
    pub open spec fn steered(self, keys: Keys, elapsed_micros: u64, top_speed: Vector2) -> Player {
        Player {
            x_velocity: steered_component(
                self.x_velocity,
                keys.push_x(),
                elapsed_micros,
                top_speed.x,
            ) as i64,
            y_velocity: steered_component(
                self.y_velocity,
                keys.push_y(),
                elapsed_micros,
                top_speed.y,
            ) as i64,
        }
    }

    /// The velocity as a vector.
    pub open spec fn velocity(self) -> Vector2 {
        Vector2 { x: self.x_velocity, y: self.y_velocity }
    }

    /// A player at rest.
    pub fn new() -> (player: Player)
        ensures
            player == (Player { x_velocity: 0, y_velocity: 0 }),
    {
        Player { x_velocity: 0, y_velocity: 0 }
    }

    /// Applies one tick of steering and returns the velocity to hand to the
    /// physics body, if any key was held.
    ///
    /// Each held key pushes the velocity along its axis by the distance that
    /// the top speed of that axis covers in the tick; opposite keys cancel.
    /// The velocity is then held within the top speed on each axis, whether or
    /// not a key was held. With no key held the body is left alone.
    pub fn steer(&mut self, keys: Keys, elapsed_micros: u64, top_speed: Vector2) -> (velocity:
        Option<Vector2>)
        requires
            top_speed.x >= 0,
            top_speed.y >= 0,
        ensures
            *final(self) == old(self).steered(keys, elapsed_micros, top_speed),
            -top_speed.x <= final(self).x_velocity <= top_speed.x,
            -top_speed.y <= final(self).y_velocity <= top_speed.y,
            velocity == if keys.any() {
                Some(final(self).velocity())
            } else {
                None::<Vector2>
            },
    {
        let push_x: i128 = distance(top_speed.x as u64, elapsed_micros);
        let push_y: i128 = distance(top_speed.y as u64, elapsed_micros);
        let mut x: i128 = self.x_velocity as i128;
        let mut y: i128 = self.y_velocity as i128;
        let mut changed = false;
        if keys.right {
            x = x + push_x;
            changed = true;
        }
        if keys.left {
            x = x - push_x;
            changed = true;
        }
        if keys.up {
            y = y + push_y;
            changed = true;
        }
        if keys.down {
            y = y - push_y;
            changed = true;
        }
        proof {
            lemma_unit_push(keys.push_x(), push_x as int);
            lemma_unit_push(keys.push_y(), push_y as int);
        }
        self.x_velocity = limit(x, top_speed.x);
        self.y_velocity = limit(y, top_speed.y);
        if changed {
            Some(Vector2 { x: self.x_velocity, y: self.y_velocity })
        } else {
            None
        }
    }
}

/// A push of one step, forwards or backwards, or none at all.
proof fn lemma_unit_push(push: int, step: int)
    requires
        -1 <= push <= 1,
    ensures
        push == 1 ==> push * step == step,
        push == 0 ==> push * step == 0,
        push == -1 ==> push * step == -step,
{
    assert(push == 1 ==> push * step == step) by (nonlinear_arith);
    assert(push == 0 ==> push * step == 0) by (nonlinear_arith);
    assert(push == -1 ==> push * step == -step) by (nonlinear_arith);
}

/// `value` held within `top_speed` in both directions.
fn limit(value: i128, top_speed: i64) -> (held: i64)
    requires
        top_speed >= 0,
    ensures
        held == snap(value as int, -top_speed as int, top_speed as int),
{
    let top: i128 = top_speed as i128;
    if value > top {
        top_speed
    } else if value < -top {
        -top_speed
    } else {
        value as i64
    }
}

} // verus!
