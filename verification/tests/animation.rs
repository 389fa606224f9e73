use squirrel_core::animation::{step_position, AnimationState};
use squirrel_core::motion::PlayerState;
use squirrel_core::units::{
    ARENA_BOTTOM, ARENA_LEFT, ARENA_RIGHT, ARENA_TOP, FRAME_INTERVAL, UNIT,
};

fn sheet() -> AnimationState {
    AnimationState::new(56).unwrap()
}

fn player() -> PlayerState {
    PlayerState::new(20 * UNIT, 2_500).unwrap()
}

#[test]
fn new_animation_starts_at_cell_zero() {
    assert_eq!(
        sheet(),
        AnimationState { frame_index: 0, frame_timer: 0, flip_x: false, frame_count: 56 }
    );
}

#[test]
fn new_animation_refuses_an_empty_sheet() {
    assert_eq!(AnimationState::new(0), None);
    assert!(AnimationState::new(1).is_some());
}

#[test]
fn timer_gathers_time_below_the_interval() {
    let mut a = sheet();
    assert!(!a.advance_timer(16_666_667));
    assert_eq!(a.frame_timer, 16_666_667);
    assert!(!a.advance_timer(16_666_667));
    assert_eq!(a.frame_timer, 33_333_334);
    assert!(!a.advance_timer(FRAME_INTERVAL - 33_333_334 - 1));
    assert_eq!(a.frame_timer, FRAME_INTERVAL - 1);
}

#[test]
fn timer_fires_exactly_at_the_interval_and_starts_again() {
    let mut a = sheet();
    assert!(!a.advance_timer(60_000_000));
    assert!(a.advance_timer(40_000_000));
    assert_eq!(a.frame_timer, 0);
    assert!(a.advance_timer(FRAME_INTERVAL));
    assert_eq!(a.frame_timer, 0);
}

#[test]
fn timer_fires_on_a_very_long_tick() {
    let mut a = sheet();
    a.frame_timer = 99_999_999;
    assert!(a.advance_timer(u64::MAX));
    assert_eq!(a.frame_timer, 0);
    let mut b = sheet();
    b.frame_timer = u64::MAX;
    assert!(b.advance_timer(u64::MAX));
    assert_eq!(b.frame_timer, 0);
    let mut c = sheet();
    c.frame_timer = u64::MAX;
    assert!(c.advance_timer(0));
}

#[test]
fn timer_leaves_the_frame_alone() {
    let mut a = AnimationState { frame_index: 19, frame_timer: 5, flip_x: true, frame_count: 56 };
    assert!(a.advance_timer(FRAME_INTERVAL));
    assert_eq!((a.frame_index, a.flip_x, a.frame_count), (19, true, 56));
}

#[test]
fn idle_cycle_is_entered_at_its_first_cell() {
    for index in [0u32, 7, 12, 13, 17, 24, 55, u32::MAX] {
        let mut a = sheet();
        a.frame_index = index;
        a.enter_cycle(true);
        assert_eq!(a.frame_index, 8);
    }
}

#[test]
fn idle_cycle_keeps_its_own_cells() {
    for index in 8u32..12 {
        let mut a = sheet();
        a.frame_index = index;
        a.enter_cycle(true);
        assert_eq!(a.frame_index, index);
    }
}

#[test]
fn moving_cycle_is_entered_at_its_first_cell() {
    for index in [0u32, 8, 11, 16, 25, 26, 55, u32::MAX] {
        let mut a = sheet();
        a.frame_index = index;
        a.enter_cycle(false);
        assert_eq!(a.frame_index, 17);
    }
}

#[test]
fn moving_cycle_keeps_its_own_cells() {
    for index in 17u32..25 {
        let mut a = sheet();
        a.frame_index = index;
        a.enter_cycle(false);
        assert_eq!(a.frame_index, index);
    }
}

#[test]
fn frame_advances_and_wraps_over_the_whole_sheet() {
    let mut a = sheet();
    a.frame_index = 11;
    a.advance_frame();
    assert_eq!(a.frame_index, 12);
    a.frame_index = 55;
    a.advance_frame();
    assert_eq!(a.frame_index, 0);
    let mut small = AnimationState::new(20).unwrap();
    small.frame_index = 24;
    small.advance_frame();
    assert_eq!(small.frame_index, 5);
    let mut huge = AnimationState::new(7).unwrap();
    huge.frame_index = u32::MAX;
    huge.advance_frame();
    assert_eq!(huge.frame_index, ((u32::MAX as u64 + 1) % 7) as u32);
}

#[test]
fn step_near_right_border_is_rejected() {
    // x = 298, vx = 5: the step would end at 303.
    let mut p = player();
    p.x = 298 * UNIT;
    p.vx = 5 * UNIT;
    p.integrate();
    assert_eq!(p.x, 298 * UNIT);
    assert_eq!(p.vx, 5 * UNIT);
}

#[test]
fn step_onto_a_border_is_rejected() {
    assert_eq!(step_position(295_000, 5_000, ARENA_LEFT, ARENA_RIGHT), 295_000);
    assert_eq!(step_position(-295_000, -5_000, ARENA_LEFT, ARENA_RIGHT), -295_000);
    assert_eq!(step_position(420_000, 5_000, ARENA_BOTTOM, ARENA_TOP), 420_000);
    assert_eq!(step_position(-345_000, -5_000, ARENA_BOTTOM, ARENA_TOP), -345_000);
}

#[test]
fn step_just_inside_a_border_is_taken() {
    assert_eq!(step_position(295_000, 4_999, ARENA_LEFT, ARENA_RIGHT), 299_999);
    assert_eq!(step_position(-295_000, -4_999, ARENA_LEFT, ARENA_RIGHT), -299_999);
    assert_eq!(step_position(420_000, 4_999, ARENA_BOTTOM, ARENA_TOP), 424_999);
    assert_eq!(step_position(-345_000, -4_999, ARENA_BOTTOM, ARENA_TOP), -349_999);
}

#[test]
fn step_at_the_ends_of_the_number_range() {
    assert_eq!(step_position(i64::MAX, i64::MAX, ARENA_LEFT, ARENA_RIGHT), i64::MAX);
    assert_eq!(step_position(i64::MIN, i64::MIN, ARENA_LEFT, ARENA_RIGHT), i64::MIN);
    assert_eq!(step_position(i64::MAX, -i64::MAX, ARENA_LEFT, ARENA_RIGHT), 0);
}

#[test]
fn axes_move_independently() {
    let mut p = player();
    p.x = 298_000;
    p.y = 10_000;
    p.vx = 5_000;
    p.vy = 5_000;
    p.integrate();
    assert_eq!((p.x, p.y), (298_000, 15_000));
    let mut q = player();
    q.x = 10_000;
    q.y = 424_000;
    q.vx = -5_000;
    q.vy = 5_000;
    q.integrate();
    assert_eq!((q.x, q.y), (5_000, 424_000));
}

#[test]
fn integrate_keeps_velocity_facing_and_configuration() {
    let mut p = player();
    p.vx = -2_500;
    p.vy = 7_500;
    p.facing_left = true;
    p.integrate();
    assert_eq!(
        p,
        PlayerState {
            x: -2_500,
            y: 7_500,
            vx: -2_500,
            vy: 7_500,
            facing_left: true,
            max_speed: 20_000,
            acceleration: 2_500,
        }
    );
}

#[test]
fn player_never_leaves_the_arena() {
    let mut p = player();
    p.vx = 22_500;
    p.vy = -22_500;
    for _ in 0..100 {
        p.integrate();
        assert!(ARENA_LEFT < p.x && p.x < ARENA_RIGHT);
        assert!(ARENA_BOTTOM < p.y && p.y < ARENA_TOP);
    }
    assert_eq!(p.x, 292_500);
    assert_eq!(p.y, -337_500);
}
