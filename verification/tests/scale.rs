use limited_space::measure::Vector2;
use limited_space::scale::{Direction, ScaleError, ScaleState, Sign};

const UNIT: i64 = 1_000_000;
const GROWING: Direction = Direction { x: Sign::Positive, y: Sign::Positive };
const SHRINKING: Direction = Direction { x: Sign::Negative, y: Sign::Negative };

fn vector(x: i64, y: i64) -> Vector2 {
    Vector2 { x, y }
}

fn in_bounds(state: &ScaleState) -> bool {
    let scale = state.current_scale();
    state.min_extent() <= scale.x
        && scale.x <= state.max_extent()
        && state.min_extent() <= scale.y
        && scale.y <= state.max_extent()
}

#[test]
fn growing_past_the_upper_bound_snaps_and_turns() {
    let mut state =
        ScaleState::new(GROWING, 2 * UNIT as u64, UNIT, 5 * UNIT, vector(4_900_000, 4_900_000))
            .unwrap();
    let scale = state.advance(100_000);
    assert_eq!(scale, vector(5 * UNIT, 5 * UNIT));
    assert_eq!(state.current_scale(), vector(5 * UNIT, 5 * UNIT));
    assert_eq!(state.direction(), SHRINKING);
    assert_eq!((state.direction().x.factor(), state.direction().y.factor()), (-1, -1));
}

#[test]
fn shrinking_past_the_lower_bound_snaps_and_turns() {
    let mut state =
        ScaleState::new(SHRINKING, 2 * UNIT as u64, UNIT, 5 * UNIT, vector(1_050_000, 1_050_000))
            .unwrap();
    let scale = state.advance(100_000);
    assert_eq!(scale, vector(UNIT, UNIT));
    assert_eq!(state.direction(), GROWING);
    assert_eq!((state.direction().x.factor(), state.direction().y.factor()), (1, 1));
}

#[test]
fn inside_the_range_the_scale_moves_by_speed_times_time() {
    let mut state =
        ScaleState::new(GROWING, 100_000, UNIT / 2, 3 * UNIT, vector(UNIT, 2 * UNIT)).unwrap();
    // 100 000 units per second for 16 667 microseconds: 1666.7, rounded down.
    assert_eq!(state.advance(16_667), vector(UNIT + 1_666, 2 * UNIT + 1_666));
    assert_eq!(state.direction(), GROWING);
    let mut state =
        ScaleState::new(SHRINKING, 100_000, UNIT / 2, 3 * UNIT, vector(UNIT, 2 * UNIT)).unwrap();
    assert_eq!(state.advance(1_000_000), vector(UNIT - 100_000, 2 * UNIT - 100_000));
    assert_eq!(state.direction(), SHRINKING);
}

#[test]
fn reaching_a_bound_exactly_does_not_turn() {
    let mut state = ScaleState::new(GROWING, 100, 10, 50, vector(40, 40)).unwrap();
    assert_eq!(state.advance(100_000), vector(50, 50));
    assert_eq!(state.direction(), GROWING);
    // The next tick passes the bound and turns.
    assert_eq!(state.advance(100_000), vector(50, 50));
    assert_eq!(state.direction(), SHRINKING);
    assert_eq!(state.advance(100_000), vector(40, 40));
}

#[test]
fn only_the_component_that_passed_the_bound_is_snapped() {
    let mut state = ScaleState::new(GROWING, 200, 100, 500, vector(490, 300)).unwrap();
    assert_eq!(state.advance(100_000), vector(500, 320));
    assert_eq!(state.direction(), SHRINKING);
    let mut state = ScaleState::new(SHRINKING, 200, 100, 500, vector(300, 105)).unwrap();
    assert_eq!(state.advance(100_000), vector(280, 100));
    assert_eq!(state.direction(), GROWING);
}

#[test]
fn two_components_past_one_bound_turn_once() {
    let mut state = ScaleState::new(GROWING, 200, 100, 500, vector(490, 495)).unwrap();
    assert_eq!(state.advance(100_000), vector(500, 500));
    assert_eq!(state.direction(), SHRINKING);
}

#[test]
fn crossing_both_bounds_in_one_tick_turns_twice() {
    let apart = Direction { x: Sign::Positive, y: Sign::Negative };
    let mut state = ScaleState::new(apart, 200, 100, 500, vector(490, 105)).unwrap();
    // x passes the upper bound, y the lower one: both come to rest on their
    // bound, and the two turns cancel.
    assert_eq!(state.advance(100_000), vector(500, 100));
    assert_eq!(state.direction(), apart);
}

#[test]
fn a_scale_outside_the_range_is_brought_in() {
    let mut state = ScaleState::new(GROWING, 0, 100, 500, vector(900, -7)).unwrap();
    assert_eq!(state.advance(0), vector(500, 100));
    assert_eq!(state.direction(), GROWING);
    let mut state = ScaleState::new(GROWING, 0, 100, 500, vector(900, 200)).unwrap();
    assert_eq!(state.advance(0), vector(500, 200));
    assert_eq!(state.direction(), SHRINKING);
}

#[test]
fn a_tick_of_no_time_leaves_the_scale_alone() {
    let mut state = ScaleState::new(GROWING, 2_000_000, 100, 500, vector(300, 400)).unwrap();
    assert_eq!(state.advance(0), vector(300, 400));
    assert_eq!(state.direction(), GROWING);
}

#[test]
fn the_longest_tick_at_the_highest_speed_ends_on_a_bound() {
    let mut state =
        ScaleState::new(GROWING, u64::MAX, 1, i64::MAX, vector(i64::MAX, i64::MAX)).unwrap();
    assert_eq!(state.advance(u64::MAX), vector(i64::MAX, i64::MAX));
    assert_eq!(state.direction(), SHRINKING);
    assert_eq!(state.advance(u64::MAX), vector(1, 1));
    assert_eq!(state.direction(), GROWING);
    let mut state =
        ScaleState::new(SHRINKING, u64::MAX, 1, 2, vector(i64::MIN, i64::MIN)).unwrap();
    assert_eq!(state.advance(u64::MAX), vector(1, 1));
    assert_eq!(state.direction(), GROWING);
}

#[test]
fn the_scale_stays_in_range_tick_after_tick() {
    let mut state =
        ScaleState::new(GROWING, 100_000, UNIT / 2, 3 * UNIT, vector(3 * UNIT, 3 * UNIT)).unwrap();
    let mut elapsed: u64 = 1;
    for _ in 0..20_000 {
        elapsed = (elapsed * 6_364_136 + 1_442_695) % 2_000_000;
        state.advance(elapsed);
        assert!(in_bounds(&state));
        assert_eq!(state.min_extent(), UNIT / 2);
        assert_eq!(state.max_extent(), 3 * UNIT);
        assert_eq!(state.speed(), 100_000);
    }
}

#[test]
fn the_direction_turns_once_for_each_bound_that_is_passed() {
    let mut state = ScaleState::new(GROWING, 1_000, 100, 500, vector(100, 100)).unwrap();
    let mut turns = 0;
    for _ in 0..1_000 {
        let before = state.direction();
        let stood = state.current_scale();
        let scale = state.advance(30_000);
        let moved = stood.x + before.x.factor() * 30;
        let passed = moved > 500 || moved < 100;
        assert_eq!(state.direction() != before, passed);
        if passed {
            turns += 1;
            assert!(scale.x == 500 || scale.x == 100);
            assert_eq!(state.direction(), Direction { x: before.x.flip(), y: before.y.flip() });
        } else {
            assert_eq!(scale.x, moved);
        }
        assert_eq!(scale.x, scale.y);
    }
    // 400 units at 30 per tick: a bound is passed every fourteenth tick.
    assert_eq!(turns, 71);
}

#[test]
fn bounds_that_are_not_a_positive_range_are_rejected() {
    for (min, max) in [(0, 5), (-1, 5), (5, 5), (6, 5), (i64::MIN, i64::MAX), (1, 1), (3, -3)] {
        let result = ScaleState::new(GROWING, 1, min, max, vector(1, 1));
        assert_eq!(result.err(), Some(ScaleError::InvalidScaleBounds));
    }
}

#[test]
fn a_new_state_holds_what_it_was_given() {
    let apart = Direction { x: Sign::Negative, y: Sign::Positive };
    let state = ScaleState::new(apart, 7, 1, 2, vector(-3, 40)).unwrap();
    assert_eq!(state.direction(), apart);
    assert_eq!(state.speed(), 7);
    assert_eq!(state.min_extent(), 1);
    assert_eq!(state.max_extent(), 2);
    assert_eq!(state.current_scale(), vector(-3, 40));
}

#[test]
fn signs_and_directions_flip() {
    assert_eq!(Sign::Positive.flip(), Sign::Negative);
    assert_eq!(Sign::Negative.flip(), Sign::Positive);
    assert_eq!(Sign::Positive.factor(), 1);
    assert_eq!(Sign::Negative.factor(), -1);
    assert_eq!(GROWING.flip(), SHRINKING);
    let apart = Direction { x: Sign::Positive, y: Sign::Negative };
    assert_eq!(apart.flip(), Direction { x: Sign::Negative, y: Sign::Positive });
    assert_eq!(apart.flip().flip(), apart);
}
