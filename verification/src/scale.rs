//! A scale that swings between two bounds: it moves at a steady speed along
//! its direction and turns round whenever it leaves the range, coming to rest
//! exactly on the bound it passed.

use vstd::prelude::*;
use crate::measure::{distance, snap, travel, Vector2};

verus! {

/// Why a scale state was not built.
#[derive(Clone, Copy, Debug, PartialEq, Eq, Structural)]
pub enum ScaleError {
    /// The lower bound is not positive, or not below the upper bound.
    InvalidScaleBounds,
}

/// The way one component of the scale moves.
#[derive(Clone, Copy, Debug, PartialEq, Eq, Structural)]
pub enum Sign {
    /// The component shrinks.
    Negative,
    /// The component grows.
    Positive,
}

impl Sign {
    /// The sign as a factor, `1` or `-1`.
    pub open spec fn value(self) -> int {
        match self {
            Sign::Negative => -1,
            Sign::Positive => 1,
        }
    }

    /// The opposite sign.
    pub open spec fn reversed(self) -> Sign {
        match self {
            Sign::Negative => Sign::Positive,
            Sign::Positive => Sign::Negative,
        }
    }

    /// The sign as a factor, `1` or `-1`.
    pub fn factor(self) -> (f: i64)
        ensures
            f == self.value(),
    {
        match self {
            Sign::Negative => -1,
            Sign::Positive => 1,
        }
    }

    /// The opposite sign.
    pub fn flip(self) -> (s: Sign)
        ensures
            s == self.reversed(),
    {
        match self {
            Sign::Negative => Sign::Positive,
            Sign::Positive => Sign::Negative,
        }
    }
}

/// The sign pattern along which the scale moves, one sign per axis.
#[derive(Clone, Copy, Debug, PartialEq, Eq, Structural)]
pub struct Direction {
    pub x: Sign,
    pub y: Sign,
}

impl Direction {
    /// The direction with both signs reversed.
    pub open spec fn reversed(self) -> Direction {
        Direction { x: self.x.reversed(), y: self.y.reversed() }
    }

    /// This direction after turning round `turns` times.
    pub open spec fn turned(self, turns: nat) -> Direction {
        if turns % 2 == 0 {
            self
        } else {
            self.reversed()
        }
    }

    /// Whether both axes move the same way.
    pub open spec fn uniform(self) -> bool {
        self.x == self.y
    }

    /// The direction with both signs reversed.
    pub fn flip(self) -> (d: Direction)
        ensures
            d == self.reversed(),
    {
        Direction { x: self.x.flip(), y: self.y.flip() }
    }
}

/// A scale state as plain values.
pub struct ScaleModel {
    pub direction: Direction,
    pub speed: u64,
    pub min_extent: i64,
    pub max_extent: i64,
    pub current_scale: Vector2,
}

impl ScaleModel {
    /// The bounds form a range of positive scales.
    pub open spec fn wf(self) -> bool {
        0 < self.min_extent < self.max_extent
    }

    /// Both components of the current scale lie within the bounds.
    pub open spec fn in_bounds(self) -> bool {
        &&& self.min_extent <= self.current_scale.x <= self.max_extent
        &&& self.min_extent <= self.current_scale.y <= self.max_extent
    }

    /// Where the `x` component stands after `elapsed_micros` microseconds,
    /// before the bounds are looked at.
    pub open spec fn moved_x(self, elapsed_micros: u64) -> int {
        self.current_scale.x + self.direction.x.value() * travel(self.speed, elapsed_micros)
    }

    /// Where the `y` component stands after `elapsed_micros` microseconds,
    /// before the bounds are looked at.
    pub open spec fn moved_y(self, elapsed_micros: u64) -> int {
        self.current_scale.y + self.direction.y.value() * travel(self.speed, elapsed_micros)
    }

    /// Some component moves past the upper bound.
    pub open spec fn crosses_max(self, elapsed_micros: u64) -> bool {
        self.moved_x(elapsed_micros) > self.max_extent || self.moved_y(elapsed_micros)
            > self.max_extent
    }

    /// Some component moves past the lower bound.
    pub open spec fn crosses_min(self, elapsed_micros: u64) -> bool {
        self.moved_x(elapsed_micros) < self.min_extent || self.moved_y(elapsed_micros)
            < self.min_extent
    }

    /// How often the direction turns round in one tick: once for each bound
    /// that is crossed.
    pub open spec fn turns(self, elapsed_micros: u64) -> nat {
        let at_max: nat = if self.crosses_max(elapsed_micros) {
            1
        } else {
            0
        };
        let at_min: nat = if self.crosses_min(elapsed_micros) {
            1
        } else {
            0
        };
        at_max + at_min
    }

    /// The state after a tick of `elapsed_micros` microseconds.
    pub open spec fn advanced(self, elapsed_micros: u64) -> ScaleModel {
        ScaleModel {
            direction: self.direction.turned(self.turns(elapsed_micros)),
            speed: self.speed,
            min_extent: self.min_extent,
            max_extent: self.max_extent,
            current_scale: Vector2 {
                x: snap(
                    self.moved_x(elapsed_micros),
                    self.min_extent as int,
                    self.max_extent as int,
                ) as i64,
                y: snap(
                    self.moved_y(elapsed_micros),
                    self.min_extent as int,
                    self.max_extent as int,
                ) as i64,
            },
        }
    }

    /// The state after the ticks of `ticks`, one after the other.
    pub open spec fn after(self, ticks: Seq<u64>) -> ScaleModel
        decreases ticks.len(),
    {
        if ticks.len() == 0 {
            self
        } else {
            self.after(ticks.drop_last()).advanced(ticks.last())
        }
    }
}

/// A scale that swings between `min_extent` and `max_extent`.
pub struct ScaleState {
    direction: Direction,
    speed: u64,
    min_extent: i64,
    max_extent: i64,
    current_scale: Vector2,
}

impl View for ScaleState {
    type V = ScaleModel;

    closed spec fn view(&self) -> ScaleModel {
        ScaleModel {
            direction: self.direction,
            speed: self.speed,
            min_extent: self.min_extent,
            max_extent: self.max_extent,
            current_scale: self.current_scale,
        }
    }
}

impl ScaleState {
    #[verifier::type_invariant]
    spec fn bounds_ordered(self) -> bool {
        0 < self.min_extent < self.max_extent
    }

    /// A scale that starts at `current_scale` and moves along `direction` at
    /// `speed` units per second between the two bounds.
    ///
    /// The bounds are rejected unless `0 < min_extent < max_extent`.
    pub fn new(
        direction: Direction,
        speed: u64,
        min_extent: i64,
        max_extent: i64,
        current_scale: Vector2,
    ) -> (result: Result<ScaleState, ScaleError>)
        ensures
            result is Ok <==> 0 < min_extent < max_extent,
            result matches Ok(state) ==> state@ == (ScaleModel {
                direction,
                speed,
                min_extent,
                max_extent,
                current_scale,
            }),
            result matches Err(e) ==> e == ScaleError::InvalidScaleBounds,
    {
        if min_extent <= 0 || min_extent >= max_extent {
            return Err(ScaleError::InvalidScaleBounds);
        }
        Ok(ScaleState { direction, speed, min_extent, max_extent, current_scale })
    }

    /// Moves the scale on by `elapsed_micros` microseconds and returns the new
    /// scale.
    ///
    /// Each component moves by `speed` times the elapsed time along its sign.
    /// The upper bound is looked at first: if a component has passed it, the
    /// direction turns round and that component comes to rest on the bound.
    /// Then the lower bound is treated the same way.
    pub fn advance(&mut self, elapsed_micros: u64) -> (scale: Vector2)
        ensures
            old(self)@.wf(),
            final(self)@ == old(self)@.advanced(elapsed_micros),
            scale == final(self)@.current_scale,
            // Whatever the tick, the scale ends within the bounds.
            final(self)@.in_bounds(),
            // The direction turns round once for each bound that was passed.
            final(self)@.direction == old(self)@.direction.turned(
                old(self)@.turns(elapsed_micros),
            ),
    {
        proof {
            use_type_invariant(&*self);
        }
        let step: i128 = distance(self.speed, elapsed_micros);
        let min: i128 = self.min_extent as i128;
        let max: i128 = self.max_extent as i128;
        let mut x: i128 = match self.direction.x {
            Sign::Positive => self.current_scale.x as i128 + step,
            Sign::Negative => self.current_scale.x as i128 - step,
        };
        let mut y: i128 = match self.direction.y {
            Sign::Positive => self.current_scale.y as i128 + step,
            Sign::Negative => self.current_scale.y as i128 - step,
        };
        assert(x == old(self)@.moved_x(elapsed_micros));
        assert(y == old(self)@.moved_y(elapsed_micros));
        let mut direction = self.direction;
        if x > max || y > max {
            direction = direction.flip();
            if x > max {
                x = max;
            }
            if y > max {
                y = max;
            }
        }
        if x < min || y < min {
            direction = direction.flip();
            if x < min {
                x = min;
            }
            if y < min {
                y = min;
            }
        }
        let scale = Vector2 { x: x as i64, y: y as i64 };
        self.direction = direction;
        self.current_scale = scale;
        scale
    }

    /// The sign pattern along which the scale moves.
    pub fn direction(&self) -> (direction: Direction)
        ensures
            direction == self@.direction,
    {
        self.direction
    }

    /// The speed of the scale, in units per second.
    pub fn speed(&self) -> (speed: u64)
        ensures
            speed == self@.speed,
    {
        self.speed
    }

    /// The lower bound of the scale.
    pub fn min_extent(&self) -> (bound: i64)
        ensures
            bound == self@.min_extent,
            self@.wf(),
    {
        proof {
            use_type_invariant(self);
        }
        self.min_extent
    }

    /// The upper bound of the scale.
    pub fn max_extent(&self) -> (bound: i64)
        ensures
            bound == self@.max_extent,
            self@.wf(),
    {
        proof {
            use_type_invariant(self);
        }
        self.max_extent
    }

    /// The scale as it stands.
    pub fn current_scale(&self) -> (scale: Vector2)
        ensures
            scale == self@.current_scale,
    {
        self.current_scale
    }
}

/// After a tick, whatever its length and wherever the scale stood, both
/// components of the scale lie within the bounds, and the bounds and the speed
/// are what they were.
pub proof fn lemma_advance_keeps_bounds(state: ScaleModel, elapsed_micros: u64)
    requires
        state.wf(),
    ensures
        state.advanced(elapsed_micros).in_bounds(),
        state.advanced(elapsed_micros).wf(),
        state.advanced(elapsed_micros).min_extent == state.min_extent,
        state.advanced(elapsed_micros).max_extent == state.max_extent,
        state.advanced(elapsed_micros).speed == state.speed,
{
}

/// After any run of ticks, of whatever lengths, both components of the scale
/// lie within the bounds: once a tick has brought the scale into the range, no
/// later tick takes it out.
pub proof fn lemma_bounds_hold_after_every_tick(state: ScaleModel, ticks: Seq<u64>)
    requires
        state.wf(),
        ticks.len() > 0,
    ensures
        state.after(ticks).in_bounds(),
        state.after(ticks).wf(),
        state.after(ticks).min_extent == state.min_extent,
        state.after(ticks).max_extent == state.max_extent,
        state.after(ticks).speed == state.speed,
    decreases ticks.len(),
{
    if ticks.len() > 1 {
        lemma_bounds_hold_after_every_tick(state, ticks.drop_last());
    }
    lemma_advance_keeps_bounds(state.after(ticks.drop_last()), ticks.last());
}

/// A component that has passed a bound comes to rest exactly on it, and one
/// that has not is moved and otherwise left alone.
pub proof fn lemma_advance_snaps_to_bound(state: ScaleModel, elapsed_micros: u64)
    requires
        state.wf(),
    ensures
        state.moved_x(elapsed_micros) > state.max_extent ==> state.advanced(
            elapsed_micros,
        ).current_scale.x == state.max_extent,
        state.moved_x(elapsed_micros) < state.min_extent ==> state.advanced(
            elapsed_micros,
        ).current_scale.x == state.min_extent,
        state.min_extent <= state.moved_x(elapsed_micros) <= state.max_extent ==> state.advanced(
            elapsed_micros,
        ).current_scale.x == state.moved_x(elapsed_micros),
        state.moved_y(elapsed_micros) > state.max_extent ==> state.advanced(
            elapsed_micros,
        ).current_scale.y == state.max_extent,
        state.moved_y(elapsed_micros) < state.min_extent ==> state.advanced(
            elapsed_micros,
        ).current_scale.y == state.min_extent,
        state.min_extent <= state.moved_y(elapsed_micros) <= state.max_extent ==> state.advanced(
            elapsed_micros,
        ).current_scale.y == state.moved_y(elapsed_micros),
{
}

/// Unless both bounds are crossed in one tick, the direction turns round at
/// most once in it: once if a bound is crossed, however many components
/// crossed it, and not at all otherwise.
pub proof fn lemma_one_turn_per_crossing(state: ScaleModel, elapsed_micros: u64)
    requires
        state.wf(),
        !(state.crosses_max(elapsed_micros) && state.crosses_min(elapsed_micros)),
    ensures
        state.turns(elapsed_micros) <= 1,
        state.turns(elapsed_micros) == 1 <==> (state.crosses_max(elapsed_micros)
            || state.crosses_min(elapsed_micros)),
        state.turns(elapsed_micros) == 1 ==> state.advanced(elapsed_micros).direction
            == state.direction.reversed(),
        state.turns(elapsed_micros) == 0 ==> state.advanced(elapsed_micros).direction
            == state.direction,
{
}

/// The direction turns round twice in one tick only when one component passes
/// the upper bound while the other passes the lower one; the two turns then
/// cancel.
pub proof fn lemma_two_turns_cancel(state: ScaleModel, elapsed_micros: u64)
    requires
        state.wf(),
    ensures
        state.turns(elapsed_micros) <= 2,
        state.turns(elapsed_micros) == 2 <==> (state.crosses_max(elapsed_micros)
            && state.crosses_min(elapsed_micros)),
        state.turns(elapsed_micros) == 2 ==> state.advanced(elapsed_micros).direction
            == state.direction,
        state.turns(elapsed_micros) == 2 ==> (state.moved_x(elapsed_micros) > state.max_extent
            && state.moved_y(elapsed_micros) < state.min_extent) || (state.moved_y(elapsed_micros)
            > state.max_extent && state.moved_x(elapsed_micros) < state.min_extent),
{
}

/// A scale that starts within its bounds and moves the same way on both axes
/// goes on doing so: after any run of ticks, the next tick turns its direction
/// round at most once.
pub proof fn lemma_uniform_scale_never_turns_twice(
    state: ScaleModel,
    ticks: Seq<u64>,
    elapsed_micros: u64,
)
    requires
        state.wf(),
        state.in_bounds(),
        state.direction.uniform(),
    ensures
        state.after(ticks).wf(),
        state.after(ticks).in_bounds(),
        state.after(ticks).direction.uniform(),
        state.after(ticks).turns(elapsed_micros) <= 1,
    decreases ticks.len(),
{
    if ticks.len() > 0 {
        lemma_uniform_scale_never_turns_twice(state, ticks.drop_last(), ticks.last());
        lemma_advance_keeps_bounds(state.after(ticks.drop_last()), ticks.last());
        lemma_uniform_scale_turns_once(state.after(ticks.drop_last()), ticks.last());
    }
    lemma_uniform_scale_turns_once(state.after(ticks), elapsed_micros);
}

/// A scale that stands within its bounds and moves the same way on both axes
/// never crosses both bounds in one tick, so its direction turns round at most
/// once per tick.
pub proof fn lemma_uniform_scale_turns_once(state: ScaleModel, elapsed_micros: u64)
    requires
        state.wf(),
        state.in_bounds(),
        state.direction.uniform(),
    ensures
        !(state.crosses_max(elapsed_micros) && state.crosses_min(elapsed_micros)),
        state.turns(elapsed_micros) <= 1,
        state.advanced(elapsed_micros).direction.uniform(),
{
    assert(travel(state.speed, elapsed_micros) >= 0) by (nonlinear_arith)
        requires
            travel(state.speed, elapsed_micros) == (state.speed * elapsed_micros) / 1_000_000,
            state.speed >= 0,
            elapsed_micros >= 0,
    ;
}

} // verus!
