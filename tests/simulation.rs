use beverage::{
    clamp_target, collide, div_toward_zero, draw_offset, ease_toward, get_world_position, isqrt,
    CameraTransform, Collision, FrameInput, GamePlugin, GameState, KittyPlugin, PaddlePlugin,
    PixelPos, RepeatingTimer, Spawner, Vec2, Viewport, Yarn, YarnPlugin, HEIGHT, KITTY_Y,
    PADDLE_MAX_X, PADDLE_MIN_X, PADDLE_Y, WIDTH,
};
use beverage::{direction, move_yarn, settle_offset, wall_check};

fn window() -> Viewport {
    Viewport { width: 500, height: 800 }
}

fn yarn(px: i64, py: i64, vx: i64, vy: i64) -> Yarn {
    Yarn { position: Vec2::new(px, py), velocity: Vec2::new(vx, vy) }
}

fn yarn_world(yarns: Vec<Yarn>, tunas: Vec<Vec2>, elapsed: u64) -> YarnPlugin {
    let count = yarns.len() as u8;
    YarnPlugin {
        tracker: Spawner { count, cap: 3, timer: RepeatingTimer { period: 3_000_000, elapsed } },
        yarns,
        tunas,
    }
}

#[test]
fn pointer_at_viewport_center_maps_to_origin() {
    let r = get_world_position(PixelPos { x: 250, y: 400 }, window(), &CameraTransform::identity());
    assert_eq!(r, Vec2::new(0, 0));
}

#[test]
fn pointer_corners_map_to_field_corners() {
    let cam = CameraTransform::identity();
    assert_eq!(get_world_position(PixelPos { x: 0, y: 0 }, window(), &cam), Vec2::new(-WIDTH / 2, -HEIGHT / 2));
    assert_eq!(get_world_position(PixelPos { x: 500, y: 800 }, window(), &cam), Vec2::new(WIDTH / 2, HEIGHT / 2));
}

#[test]
fn camera_transform_scales_rotates_and_translates() {
    // scale by two, then translate by one unit right
    let cam = CameraTransform { m00: 2000, m01: 0, m10: 0, m11: 2000, translation: Vec2::new(1000, 0) };
    let r = get_world_position(PixelPos { x: 500, y: 800 }, window(), &cam);
    assert_eq!(r, Vec2::new(91_000, 144_000));
    // a quarter turn: x' = -y, y' = x
    let quarter = CameraTransform { m00: 0, m01: -1000, m10: 1000, m11: 0, translation: Vec2::new(0, 0) };
    let r = get_world_position(PixelPos { x: 500, y: 800 }, window(), &quarter);
    assert_eq!(r, Vec2::new(-72_000, 45_000));
}

#[test]
fn mapping_twice_gives_the_same_position() {
    let cam = CameraTransform { m00: 1500, m01: 300, m10: -300, m11: 1500, translation: Vec2::new(-7, 9) };
    let p = PixelPos { x: 123, y: 77 };
    assert_eq!(get_world_position(p, window(), &cam), get_world_position(p, window(), &cam));
}

#[test]
fn yarn_at_left_wall_moving_left_is_reflected() {
    let r = wall_check(yarn(-WIDTH / 2 + 100, 0, -1000, 0));
    assert_eq!(r, Some(yarn(-WIDTH / 2 + 100, 0, 1000, 0)));
}

#[test]
fn yarn_at_left_wall_moving_away_is_left_alone() {
    let r = wall_check(yarn(-WIDTH / 2 + 100, 0, 1000, 0));
    assert_eq!(r, Some(yarn(-WIDTH / 2 + 100, 0, 1000, 0)));
}

#[test]
fn yarn_at_right_and_top_walls_is_reflected_on_both_axes() {
    let r = wall_check(yarn(WIDTH / 2 - 1000, HEIGHT / 2 - 1000, 600, 800));
    assert_eq!(r, Some(yarn(WIDTH / 2 - 1000, HEIGHT / 2 - 1000, -600, -800)));
}

#[test]
fn yarn_below_bottom_moving_down_leaves_and_is_counted_out() {
    let mut w = yarn_world(vec![yarn(0, -HEIGHT / 2 + 4000, 0, -1000), yarn(0, 0, 0, -1000)], vec![], 0);
    w.wall_system();
    assert_eq!(w.yarns, vec![yarn(0, 0, 0, -1000)]);
    assert_eq!(w.tracker.count, 1);
}

#[test]
fn yarn_below_bottom_moving_up_stays() {
    let mut w = yarn_world(vec![yarn(0, -HEIGHT / 2 + 4000, 0, 1000)], vec![], 0);
    w.wall_system();
    assert_eq!(w.yarns.len(), 1);
    assert_eq!(w.tracker.count, 1);
}

#[test]
fn count_never_drops_below_zero() {
    let mut s = Spawner::new(3, 3_000_000);
    s.record_exit();
    assert_eq!(s.count, 0);
}

#[test]
fn yarn_striking_tuna_removes_it_and_reflects_once() {
    let mut w = yarn_world(vec![yarn(0, 27_000, 0, 1000)], vec![Vec2::new(0, 36_000), Vec2::new(22_500, 26_000)], 0);
    w.collision_system(0);
    assert_eq!(w.tunas, vec![Vec2::new(22_500, 26_000)]);
    assert_eq!(w.yarns, vec![yarn(0, 27_000, 0, -1000)]);
}

#[test]
fn two_yarns_striking_one_tuna_both_bounce() {
    let mut w = yarn_world(
        vec![yarn(0, 27_000, 0, 1000), yarn(0, 45_000, 0, -1000)],
        vec![Vec2::new(0, 36_000)],
        0,
    );
    w.collision_system(0);
    assert!(w.tunas.is_empty());
    assert_eq!(w.yarns, vec![yarn(0, 27_000, 0, -1000), yarn(0, 45_000, 0, 1000)]);
}

#[test]
fn yarn_bounces_off_paddle_which_stays() {
    let mut w = yarn_world(vec![yarn(0, PADDLE_Y + 7000, 0, -1000)], vec![Vec2::new(0, 36_000)], 0);
    w.collision_system(0);
    assert_eq!(w.yarns, vec![yarn(0, PADDLE_Y + 7000, 0, 1000)]);
    assert_eq!(w.tunas, vec![Vec2::new(0, 36_000)]);
}

#[test]
fn yarn_already_leaving_a_tuna_is_not_reflected() {
    let mut w = yarn_world(vec![yarn(0, 27_000, 0, -1000)], vec![Vec2::new(0, 36_000)], 0);
    w.collision_system(0);
    assert!(w.tunas.is_empty());
    assert_eq!(w.yarns, vec![yarn(0, 27_000, 0, -1000)]);
}

#[test]
fn full_spawner_completing_its_timer_spawns_nothing() {
    let ys = vec![yarn(0, 0, 1000, 0), yarn(0, 0, 0, 1000), yarn(0, 0, -1000, 0)];
    let mut w = yarn_world(ys.clone(), vec![], 2_999_000);
    w.spawning_system(5_000, Vec2::new(300, 400));
    assert_eq!(w.yarns, ys);
    assert_eq!(w.tracker.count, 3);
    assert_eq!(w.tracker.timer.elapsed, 4_000);
}

#[test]
fn spawner_completing_its_timer_spawns_one_yarn() {
    let mut w = yarn_world(vec![], vec![], 2_000_000);
    w.spawning_system(1_000_000, Vec2::new(300, -400));
    assert_eq!(w.yarns, vec![yarn(0, 0, 600, -800)]);
    assert_eq!(w.tracker.count, 1);
    assert_eq!(w.tracker.timer.elapsed, 0);
}

#[test]
fn spawn_with_zero_offset_is_skipped() {
    let mut w = yarn_world(vec![], vec![], 2_000_000);
    w.spawning_system(1_000_000, Vec2::new(0, 0));
    assert!(w.yarns.is_empty());
    assert_eq!(w.tracker.count, 0);
}

#[test]
fn spawner_before_period_spawns_nothing() {
    let mut w = yarn_world(vec![], vec![], 0);
    w.spawning_system(2_999_999, Vec2::new(300, 400));
    assert!(w.yarns.is_empty());
}

#[test]
fn repeating_timer_counts_several_periods_once() {
    let mut t = RepeatingTimer::new(3_000_000);
    assert!(t.tick(4_000_000) );
    assert_eq!(t.elapsed, 1_000_000);
    assert!(t.tick(u32::MAX));
    assert_eq!(t.elapsed, (1_000_000u64 + u32::MAX as u64) % 3_000_000);
    assert!(!RepeatingTimer::new(3_000_000).tick(2_999_999));
}

#[test]
fn direction_is_scaled_to_unit_length() {
    assert_eq!(direction(Vec2::new(3, 4)), Vec2::new(600, 800));
    assert_eq!(direction(Vec2::new(-500, 0)), Vec2::new(-1000, 0));
    assert_eq!(direction(Vec2::new(1, 1)), Vec2::new(707, 707));
    assert_eq!(direction(Vec2::new(1, 2)), Vec2::new(447, 894));
    assert_eq!(direction(Vec2::new(500, 500)), Vec2::new(707, 707));
    assert_eq!(direction(Vec2::new(-1, 0)), Vec2::new(-1000, 0));
    for (x, y) in [(1, 1), (1, 2), (-7, 3), (499, -500), (0, 1), (13, 17)] {
        let v = direction(Vec2::new(x, y));
        let n = v.x * v.x + v.y * v.y;
        assert!(997 * 997 <= n && n < 1002 * 1002, "{:?} -> {:?}", (x, y), v);
    }
}

#[test]
fn yarn_moves_by_speed_times_time() {
    assert_eq!(move_yarn(yarn(0, 0, 1000, 0), 1_000_000), yarn(20_000, 0, 1000, 0));
    assert_eq!(move_yarn(yarn(5, 5, -600, 800), 16_667), yarn(5 - 200, 5 + 266, -600, 800));
}

#[test]
fn overlap_sides_follow_penetration_depth() {
    let s = Vec2::new(10, 10);
    assert_eq!(collide(Vec2::new(-8, 0), s, Vec2::new(0, 0), s), Some(Collision::Left));
    assert_eq!(collide(Vec2::new(8, 0), s, Vec2::new(0, 0), s), Some(Collision::Right));
    assert_eq!(collide(Vec2::new(0, 8), s, Vec2::new(0, 0), s), Some(Collision::Top));
    assert_eq!(collide(Vec2::new(0, -8), s, Vec2::new(0, 0), s), Some(Collision::Bottom));
    assert_eq!(collide(Vec2::new(0, 0), s, Vec2::new(0, 0), s), Some(Collision::Inside));
    assert_eq!(collide(Vec2::new(8, 9), s, Vec2::new(0, 0), s), Some(Collision::Top));
    assert_eq!(collide(Vec2::new(9, 8), s, Vec2::new(0, 0), s), Some(Collision::Right));
    // touching edges do not overlap
    assert_eq!(collide(Vec2::new(10, 0), s, Vec2::new(0, 0), s), None);
}

#[test]
fn easing_closes_a_share_of_the_gap() {
    assert_eq!(ease_toward(0, 10_000, 16_000, 10), 1_600);
    assert_eq!(ease_toward(10_000, 0, 16_000, 10), 8_400);
    assert_eq!(ease_toward(0, -10_000, 16_000, 1), -160);
    assert_eq!(ease_toward(0, 10_000, 100_000, 10), 10_000);
}

#[test]
fn easing_over_a_long_frame_overshoots_by_the_law() {
    assert_eq!(ease_toward(0, 10_000, 200_000, 10), 20_000);
    assert_eq!(ease_toward(0, 10_000, 5_000_000, 10), 500_000);
    let mut p = PaddlePlugin::setup();
    p.movement_system(200_000, Some(Vec2::new(10_000, 0)));
    assert_eq!(p.target_position, 10_000);
    assert_eq!(p.x, 20_000);
    p.movement_system(200_000, None);
    assert_eq!(p.target_position, 10_000);
    assert_eq!(p.x, 0);
}

#[test]
fn paddle_target_is_clamped_inside_the_margins() {
    assert_eq!(clamp_target(1_000_000_000), PADDLE_MAX_X);
    assert_eq!(clamp_target(-1_000_000_000), PADDLE_MIN_X);
    assert_eq!(clamp_target(1234), 1234);
    assert_eq!(PADDLE_MAX_X, WIDTH / 2 - 15_000 - 4_000);
    let mut p = PaddlePlugin::setup();
    p.movement_system(16_000, Some(Vec2::new(44_000, 0)));
    assert_eq!(p.target_position, PADDLE_MAX_X);
    assert_eq!(p.x, 26_000 * 16 / 100);
    p.movement_system(16_000, None);
    assert_eq!(p.target_position, PADDLE_MAX_X);
    assert!(PADDLE_MIN_X <= p.x && p.x <= PADDLE_MAX_X);
}

#[test]
fn kitty_follows_pointer_x_only_and_keeps_its_target_without_one() {
    let mut k = KittyPlugin::setup();
    k.mover(50_000, Some(Vec2::new(10_000, -50_000)));
    assert_eq!(k.position, Vec2::new(5_000, KITTY_Y));
    assert_eq!(k.target_x, 10_000);
    k.mover(50_000, None);
    assert_eq!(k.position, Vec2::new(7_500, KITTY_Y));
    assert_eq!(k.target_x, 10_000);
    // the kitty's target is not clamped to the field
    k.mover(50_000, Some(Vec2::new(200_000, 0)));
    assert_eq!(k.target_x, 200_000);
    assert_eq!(k.position.x, 7_500 + (200_000 - 7_500) / 2);
    k.spawner(3_000_000);
    k.spawner(3_000_000);
    assert_eq!(k.tracker.count, 1);
}

#[test]
fn isqrt_and_division_round_down() {
    assert_eq!(isqrt(0), 0);
    assert_eq!(isqrt(24), 4);
    assert_eq!(isqrt(25), 5);
    assert_eq!(isqrt(u64::MAX), 4_294_967_295);
    assert_eq!(div_toward_zero(-7, 2), -3);
    assert_eq!(div_toward_zero(7, 2), 3);
}

#[test]
fn zero_offset_settles_on_straight_up() {
    assert_eq!(settle_offset(Vec2::new(0, 0)), Vec2::new(0, 500));
    assert_eq!(settle_offset(Vec2::new(0, -3)), Vec2::new(0, -3));
    assert_eq!(settle_offset(Vec2::new(-500, 500)), Vec2::new(-500, 500));
}

#[test]
fn drawn_offsets_lie_in_range_and_vary() {
    let draws: Vec<Vec2> = (0..200).map(|_| draw_offset()).collect();
    assert!(draws.iter().all(|o| -500 <= o.x && o.x <= 500 && -500 <= o.y && o.y <= 500));
    assert!(draws.iter().all(|o| o.x != 0 || o.y != 0));
    assert!(draws.iter().any(|o| o.x != -500 && o.x != 500));
    assert!(draws.iter().any(|o| o.x != draws[0].x));
}

fn frame(delta: u32, pointer: Option<PixelPos>) -> FrameInput {
    FrameInput { delta, pointer, window: window(), camera: CameraTransform::identity() }
}

#[test]
fn nothing_runs_while_loading() {
    let mut g = GamePlugin::new();
    assert_eq!(g.state(), GameState::Load);
    g.tick(frame(16_000, None), Vec2::new(1, 1));
    assert_eq!(g.state(), GameState::Load);
    assert!(g.field.is_none());
}

#[test]
fn entering_play_sets_up_the_field_once() {
    let mut g = GamePlugin::new();
    g.assets_ready();
    assert_eq!(g.state(), GameState::Play);
    let f = g.field.as_ref().unwrap();
    assert_eq!(f.yarn.tunas.len(), 6);
    assert!(f.yarn.yarns.is_empty());
    g.tick(frame(16_000, Some(PixelPos { x: 500, y: 0 })), Vec2::new(1, 1));
    g.assets_ready();
    let f = g.field.as_ref().unwrap();
    assert_eq!(f.paddle.target_position, PADDLE_MAX_X);
}

#[test]
fn a_frame_spawns_moves_and_tracks() {
    let mut g = GamePlugin::new();
    g.assets_ready();
    g.tick(frame(3_000_000, Some(PixelPos { x: 250, y: 400 })), Vec2::new(0, 500));
    let f = g.field.as_ref().unwrap();
    // spawned at the centre heading up, then moved for three seconds
    assert_eq!(f.yarn.yarns, vec![yarn(0, 60_000, 0, 1000)]);
    assert_eq!(f.yarn.tracker.count, 1);
    assert_eq!(f.kitty.tracker.count, 1);
    assert_eq!(f.paddle.x, 0);
    assert_eq!(f.yarn.tracker.timer.elapsed, 0);
    assert_eq!(f.kitty.tracker.timer.elapsed, 0);
}

#[test]
fn a_game_stepped_with_drawn_offsets_spawns_when_due() {
    let mut g = GamePlugin::new();
    g.assets_ready();
    let input = frame(3_000_000, None);
    assert!(g.frame_fits(input));
    g.step(input);
    let f = g.field.as_ref().unwrap();
    assert_eq!(f.yarn.tracker.count, 1);
    assert_eq!(f.yarn.yarns.len(), 1);
}

#[test]
fn frames_that_would_drive_the_paddle_out_of_range_are_refused() {
    let mut g = GamePlugin::new();
    assert!(g.frame_fits(frame(u32::MAX, Some(PixelPos { x: 500, y: 0 }))));
    g.assets_ready();
    assert!(g.frame_fits(frame(16_000, Some(PixelPos { x: 500, y: 0 }))));
    // 4295 s at 10/s multiplies the gap by about 43 000
    let mut p = PaddlePlugin::setup();
    p.x = 2_000_000_000_000;
    g.field.as_mut().unwrap().paddle = p;
    assert!(!g.frame_fits(frame(u32::MAX, Some(PixelPos { x: 250, y: 400 }))));
}
