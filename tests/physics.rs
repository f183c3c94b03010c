use breakout::ball::{floor_sqrt, scale_to_speed, Ball};
use breakout::collision::{detect, resolve, Side};
use breakout::game_layout::{create_initial_layout, GameLayout};
use breakout::geometry::IVec2;
use breakout::paddle::{move_paddle, paddle_bounds, Paddle};
use breakout::simulation::{obstacles_of, Simulation};

fn v(x: i64, y: i64) -> IVec2 {
    IVec2::new(x, y)
}

#[test]
fn floor_sqrt_rounds_down() {
    assert_eq!(floor_sqrt(0), 0);
    assert_eq!(floor_sqrt(1), 1);
    assert_eq!(floor_sqrt(80000), 282);
    assert_eq!(floor_sqrt(81), 9);
    assert_eq!(floor_sqrt(80), 8);
    assert_eq!(floor_sqrt(u128::MAX), u64::MAX);
}

#[test]
fn scale_to_speed_keeps_direction_and_length() {
    assert_eq!(scale_to_speed(v(3, 4), 500), v(300, 400));
    assert_eq!(scale_to_speed(v(-3, 4), 500), v(-300, 400));
    assert_eq!(scale_to_speed(v(0, -7), 400), v(0, -400));
    assert_eq!(scale_to_speed(v(1, -1), 400), v(282, -282));
}

#[test]
fn bottom_wall_far_below_circle_is_no_hit() {
    assert_eq!(detect(v(0, 0), 15, v(0, -310), v(450, 5)), None);
}

#[test]
fn circle_resting_on_bottom_wall_hits_its_top_side() {
    assert_eq!(detect(v(0, -292), 15, v(0, -310), v(450, 5)), Some(Side::Top));
}

#[test]
fn axis_aligned_sides() {
    let c = v(0, 0);
    let h = v(10, 10);
    assert_eq!(detect(v(-20, 0), 15, c, h), Some(Side::Left));
    assert_eq!(detect(v(22, 3), 15, c, h), Some(Side::Right));
    assert_eq!(detect(v(4, 21), 15, c, h), Some(Side::Top));
    assert_eq!(detect(v(0, -20), 15, c, h), Some(Side::Bottom));
}

#[test]
fn equal_gaps_resolve_to_top_or_bottom() {
    let c = v(0, 0);
    let h = v(10, 10);
    assert_eq!(detect(v(15, 15), 10, c, h), Some(Side::Top));
    assert_eq!(detect(v(-15, 15), 10, c, h), Some(Side::Top));
    assert_eq!(detect(v(-15, -15), 10, c, h), Some(Side::Bottom));
    assert_eq!(detect(v(15, -15), 10, c, h), Some(Side::Bottom));
}

#[test]
fn disjoint_shapes_do_not_collide() {
    let c = v(0, 0);
    let h = v(10, 10);
    assert_eq!(detect(v(26, 0), 15, c, h), None);
    assert_eq!(detect(v(22, 22), 15, c, h), None);
    assert_eq!(detect(v(0, 1000), 15, c, h), None);
}

#[test]
fn touching_at_exactly_the_radius_is_a_hit() {
    assert_eq!(detect(v(25, 0), 15, v(0, 0), v(10, 10)), Some(Side::Right));
}

#[test]
fn center_inside_the_rectangle_counts_as_bottom() {
    assert_eq!(detect(v(3, -2), 15, v(0, 0), v(10, 10)), Some(Side::Bottom));
}

#[test]
fn extreme_coordinates_do_not_overflow() {
    assert_eq!(
        detect(v(i64::MAX, i64::MIN), i64::MAX, v(i64::MIN, i64::MAX), v(0, 0)),
        None
    );
    assert_eq!(
        detect(v(i64::MAX, 0), i64::MAX, v(0, 0), v(0, 0)),
        Some(Side::Right)
    );
}

#[test]
fn resolve_flips_only_when_moving_into_the_side() {
    assert_eq!(resolve(Side::Left, v(5, 7)), v(-5, 7));
    assert_eq!(resolve(Side::Left, v(-5, 7)), v(-5, 7));
    assert_eq!(resolve(Side::Right, v(-5, 7)), v(5, 7));
    assert_eq!(resolve(Side::Right, v(5, 7)), v(5, 7));
    assert_eq!(resolve(Side::Top, v(5, -7)), v(5, 7));
    assert_eq!(resolve(Side::Top, v(5, 7)), v(5, 7));
    assert_eq!(resolve(Side::Bottom, v(5, 7)), v(5, -7));
    assert_eq!(resolve(Side::Bottom, v(5, -7)), v(5, -7));
    assert_eq!(resolve(Side::Left, v(0, 0)), v(0, 0));
}

#[test]
fn resolving_twice_changes_nothing_more() {
    for side in [Side::Left, Side::Right, Side::Top, Side::Bottom] {
        for vel in [v(3, 4), v(-3, 4), v(3, -4), v(-3, -4), v(0, 0)] {
            let once = resolve(side, vel);
            assert_eq!(resolve(side, once), once);
        }
    }
}

#[test]
fn paddle_bounds_of_initial_layout() {
    let layout = create_initial_layout();
    assert_eq!(paddle_bounds(&layout), (-24000, 24000));
}

#[test]
fn paddle_moves_by_its_speed_per_tick() {
    let layout = create_initial_layout();
    assert_eq!(move_paddle(0, 1, 1, &layout), 500);
    assert_eq!(move_paddle(0, -1, 3, &layout), -1500);
    assert_eq!(move_paddle(100, 0, 10, &layout), 100);
}

#[test]
fn paddle_stays_within_bounds() {
    let layout = create_initial_layout();
    assert_eq!(move_paddle(0, 1, 100, &layout), 24000);
    assert_eq!(move_paddle(0, -1, 100, &layout), -24000);
    assert_eq!(move_paddle(1234, 1, 0, &layout), 1234);
    assert_eq!(move_paddle(0, i32::MAX, u32::MAX, &layout), 24000);
    assert_eq!(move_paddle(0, i32::MIN, u32::MAX, &layout), -24000);
    assert_eq!(move_paddle(i64::MAX, 0, 0, &layout), 24000);
    assert_eq!(move_paddle(i64::MIN, 1, 1, &layout), -24000);
}

#[test]
fn narrow_arena_is_refused() {
    let narrow = GameLayout::from_bounds(-50, 50, -50, 50, 4, 20).unwrap();
    assert!(Simulation::new(narrow).is_none());
    assert!(Simulation::new(create_initial_layout()).is_some());
}

#[test]
fn obstacles_are_walls_then_paddle() {
    let layout = create_initial_layout();
    let obs = obstacles_of(&layout, 640);
    assert_eq!(obs.len(), 5);
    assert_eq!(obs[0].center, v(-450 * 64, 0));
    assert_eq!(obs[0].half, v(5 * 64, 305 * 64));
    assert_eq!(obs[2].center, v(0, -300 * 64));
    assert_eq!(obs[2].half, v(455 * 64, 5 * 64));
    assert_eq!(obs[4].center, v(640, -240 * 64));
    assert_eq!(obs[4].half, v(60 * 64, 10 * 64));
}

fn initial_simulation() -> Simulation {
    Simulation::new(create_initial_layout()).unwrap()
}

#[test]
fn zero_ticks_change_nothing() {
    let mut s = initial_simulation();
    s.run(1, 0);
    assert_eq!(s.ball, Ball::new());
    assert_eq!(s.paddle, Paddle::new());
    assert_eq!(s.layout.bottom_wall_y, -300);
}

#[test]
fn one_tick_moves_ball_and_paddle() {
    let mut s = initial_simulation();
    let hits = s.step(1);
    assert_eq!(hits, 0);
    assert_eq!(s.ball.position, v(282, -3200 - 282));
    assert_eq!(s.ball.velocity, v(282, -282));
    assert_eq!(s.paddle.x, 500);
}

#[test]
fn run_equals_repeated_steps() {
    let mut a = initial_simulation();
    let mut b = initial_simulation();
    a.run(-1, 20);
    for _ in 0..20 {
        b.step(-1);
    }
    assert_eq!(a.ball, b.ball);
    assert_eq!(a.paddle, b.paddle);
}

#[test]
fn ball_bounces_off_the_bottom_wall() {
    let mut s = initial_simulation();
    let contact_y = (-300 + 5 + 15) * 64;
    let mut tick = 0;
    let mut previous_y = s.ball.position.y;
    loop {
        tick += 1;
        let hits = s.step(0);
        if s.ball.velocity.y > 0 {
            assert_eq!(hits, 1);
            break;
        }
        assert_eq!(hits, 0);
        assert!(s.ball.position.y > contact_y);
        previous_y = s.ball.position.y;
        assert!(tick < 1000);
    }
    assert_eq!(tick, 53);
    assert!(previous_y > contact_y);
    assert!(s.ball.position.y <= contact_y);
    assert_eq!(s.ball.velocity, v(282, 282));
    let mut y = s.ball.position.y;
    for _ in 0..10 {
        s.step(0);
        assert!(s.ball.position.y > y);
        assert!(s.ball.velocity.y > 0);
        y = s.ball.position.y;
    }
}

#[test]
fn ball_against_left_wall_turns_right() {
    let mut s = initial_simulation();
    s.ball = Ball { position: v(-430 * 64, 0), velocity: v(-300, 50) };
    let hits = s.step(0);
    assert_eq!(hits, 1);
    assert_eq!(s.ball.position, v(-430 * 64 - 300, 50));
    assert_eq!(s.ball.velocity, v(300, 50));
}

#[test]
fn ball_in_a_corner_reflects_both_axes() {
    let mut s = initial_simulation();
    s.ball = Ball { position: v(435 * 64, 285 * 64), velocity: v(10, 10) };
    let hits = s.step(0);
    assert_eq!(hits, 2);
    assert_eq!(s.ball.velocity, v(-10, -10));
}

#[test]
fn ball_bounces_off_the_paddle() {
    let mut s = initial_simulation();
    s.ball = Ball { position: v(0, -220 * 64), velocity: v(0, -200) };
    let hits = s.step(0);
    assert_eq!(hits, 1);
    assert_eq!(s.ball.velocity, v(0, 200));
}
