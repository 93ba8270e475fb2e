use mascot_look::angle::{lerp, look_target, wrap, Orientation, PI_URAD, TAU_URAD};
use mascot_look::canvas::{fit_canvas, RES_HEIGHT, RES_WIDTH};
use mascot_look::config::{draw_idle, IdleDraw, LookConfig, IDLE_YAW_FAR, IDLE_YAW_NEAR};
use mascot_look::controller::{Cube, CubeState, Frame, LookController, FIRST_EASE_NANOS};
use mascot_look::timer::OneShotTimer;

const MS: u64 = 1_000_000;

fn present(delta: u64, x: i32, y: i32) -> Frame {
    Frame { delta, cursor: Some((x, y)), window_width: 640, window_height: 360 }
}

fn absent(delta: u64) -> Frame {
    Frame { delta, cursor: None, window_width: 640, window_height: 360 }
}

#[test]
fn timer_saturates_and_resets() {
    let mut t = OneShotTimer::from_nanos(500 * MS);
    assert!(!t.finished());
    t.tick(200 * MS);
    assert_eq!(t.elapsed, 200 * MS);
    t.tick(u64::MAX);
    assert_eq!(t.elapsed, 500 * MS);
    assert!(t.finished());
    t.reset();
    assert_eq!(t, OneShotTimer { duration: 500 * MS, elapsed: 0 });
    assert!(!t.finished());
}

#[test]
fn zero_duration_timer_is_finished() {
    let t = OneShotTimer::from_nanos(0);
    assert!(t.finished());
}

#[test]
fn wrap_brings_yaw_into_half_turns() {
    assert_eq!(wrap(0), 0);
    assert_eq!(wrap(PI_URAD), PI_URAD);
    assert_eq!(wrap(-PI_URAD), PI_URAD);
    assert_eq!(wrap(4_000_000), 4_000_000 - TAU_URAD);
    assert_eq!(wrap(-4_000_000), -4_000_000 + TAU_URAD);
    assert_eq!(wrap(3 * TAU_URAD + 5), 5);
}

#[test]
fn lerp_takes_the_completed_fraction() {
    assert_eq!(lerp(0, 1000, 1, 4), 250);
    assert_eq!(lerp(1000, 0, 1, 4), 750);
    assert_eq!(lerp(0, -5, 1, 2), -3);
    assert_eq!(lerp(7, 9, 0, 3), 7);
    assert_eq!(lerp(7, 9, 3, 3), 9);
}

#[test]
fn cursor_target_scales_offset_from_centre() {
    // (100, 40) pixels from the centre, 20 pixels per degree: 5 and 2 degrees.
    let o = look_target(420, 220, 640, 360, 20);
    assert_eq!(o, Orientation { yaw: 87_266, pitch: 34_906 });
    let centre = look_target(320, 180, 640, 360, 20);
    assert_eq!(centre, Orientation { yaw: 0, pitch: 0 });
    let left = look_target(0, 180, 640, 360, 20);
    assert_eq!(left.yaw, -279_253);
}

#[test]
fn default_cube_eases_for_half_a_second() {
    let c = Cube::default();
    assert_eq!(c.rotate_timer, OneShotTimer { duration: FIRST_EASE_NANOS, elapsed: 0 });
    assert_eq!(c.random_look_x, 0);
    assert_eq!(c.random_look_y, 0);
    assert_eq!(FIRST_EASE_NANOS, 500 * MS);
}

#[test]
fn new_controller_starts_happy_and_level() {
    let c = LookController::new(LookConfig::single_arc());
    assert_eq!(c.state, CubeState::Happy);
    assert_eq!(c.orientation, Orientation { yaw: 0, pitch: 0 });
    assert_eq!(c.cube, Cube::default());
}

#[test]
fn halfway_after_a_quarter_second() {
    let mut c = LookController::new(LookConfig::single_arc());
    c.orientation = Orientation { yaw: 10_000, pitch: -20_000 };
    c.update(&present(250 * MS, 420, 220));
    assert_eq!(c.cube.rotate_timer.elapsed, 250 * MS);
    assert_eq!(c.orientation, Orientation { yaw: 48_633, pitch: 7_453 });
    assert_eq!(c.state, CubeState::Happy);
}

#[test]
fn tracking_locks_on_once_the_timer_runs_out() {
    let mut c = LookController::new(LookConfig::single_arc());
    c.orientation = Orientation { yaw: -1_000_000, pitch: 500_000 };
    c.update(&present(600 * MS, 420, 220));
    assert!(c.cube.rotate_timer.finished());
    assert_eq!(c.orientation, Orientation { yaw: 87_266, pitch: 34_906 });
    c.update(&present(16 * MS, 100, 300));
    assert_eq!(c.orientation, look_target(100, 300, 640, 360, 20));
}

#[test]
fn zero_duration_happy_timer_snaps() {
    let mut c = LookController::new(LookConfig::single_arc());
    c.cube.rotate_timer = OneShotTimer::from_nanos(0);
    c.update(&present(16 * MS, 420, 220));
    assert_eq!(c.orientation, Orientation { yaw: 87_266, pitch: 34_906 });
}

#[test]
fn leaving_turns_sad_and_resets_timer() {
    let mut c = LookController::new(LookConfig::single_arc());
    c.update(&present(100 * MS, 420, 220));
    let before = c.orientation;
    assert_eq!(c.cube.rotate_timer.elapsed, 100 * MS);
    c.update(&absent(16 * MS));
    assert_eq!(c.state, CubeState::Sad);
    assert_eq!(c.cube.rotate_timer, OneShotTimer { duration: 500 * MS, elapsed: 0 });
    // Half a turn on from 0.017453, wrapped.
    assert_eq!(c.cube.random_look_y, before.yaw + PI_URAD - TAU_URAD);
    assert_eq!(c.cube.random_look_y, -3_124_140);
    assert_eq!(c.cube.random_look_x, -before.pitch);
    assert_eq!(c.orientation, before);
}

#[test]
fn returning_turns_happy_and_resets_timer() {
    let mut c = LookController::new(LookConfig::single_arc());
    c.state = CubeState::Sad;
    c.cube.rotate_timer = OneShotTimer { duration: 2_000 * MS, elapsed: 700 * MS };
    c.orientation = Orientation { yaw: 2_000_000, pitch: 100_000 };
    c.update(&present(16 * MS, 10, 10));
    assert_eq!(c.state, CubeState::Happy);
    assert_eq!(c.cube.rotate_timer, OneShotTimer { duration: 2_000 * MS, elapsed: 0 });
    assert_eq!(c.orientation, Orientation { yaw: 2_000_000, pitch: 100_000 });
}

#[test]
fn sad_eases_on_the_far_side_of_the_turn() {
    let mut c = LookController::new(LookConfig::single_arc());
    c.state = CubeState::Sad;
    c.cube = Cube {
        rotate_timer: OneShotTimer { duration: 1_000, elapsed: 0 },
        random_look_x: 200_000,
        random_look_y: 3_000_000,
    };
    c.orientation = Orientation { yaw: -3_000_000, pitch: 0 };
    let unused = IdleDraw { yaw: 2_600_000, pitch: 0, duration: 300 * MS };
    c.step(&absent(500), &unused);
    // From -3.0 the short way to 3.0 is 0.283186 backward; half of it lands on PI.
    assert_eq!(c.orientation, Orientation { yaw: 3_141_593, pitch: 100_000 });
    assert_eq!(c.cube.random_look_y, 3_000_000);
}

#[test]
fn finished_sad_timer_draws_without_snapping() {
    let mut c = LookController::new(LookConfig::single_arc());
    c.state = CubeState::Sad;
    c.cube = Cube {
        rotate_timer: OneShotTimer { duration: 400 * MS, elapsed: 400 * MS },
        random_look_x: 10_000,
        random_look_y: 3_000_000,
    };
    c.orientation = Orientation { yaw: -3_000_000, pitch: 10_000 };
    let draw = IdleDraw { yaw: 3_500_000, pitch: -250_000, duration: 2_000 * MS };
    c.step(&absent(16 * MS), &draw);
    // 3.5 is stored wrapped, as -2.783186.
    assert_eq!(c.cube.random_look_y, -2_783_186);
    assert_eq!(c.cube.random_look_x, -250_000);
    assert_eq!(c.cube.rotate_timer, OneShotTimer { duration: 2_000 * MS, elapsed: 0 });
    assert_eq!(c.orientation, Orientation { yaw: -3_000_000, pitch: 10_000 });
    // The next frame eases from t near zero: a small move only.
    c.step(&absent(20 * MS), &draw);
    // 0.216814 of the short way to -2.783186, by 1/100; pitch 0.01 toward -0.25.
    assert_eq!(c.orientation, Orientation { yaw: -2_997_832, pitch: 7_400 });
}

#[test]
fn finished_sad_timer_draws_randomly_in_range() {
    let mut c = LookController::new(LookConfig::single_arc());
    c.state = CubeState::Sad;
    c.cube.rotate_timer = OneShotTimer { duration: 10, elapsed: 10 };
    c.orientation = Orientation { yaw: 1_000_000, pitch: 0 };
    c.update(&absent(16 * MS));
    assert_eq!(c.orientation, Orientation { yaw: 1_000_000, pitch: 0 });
    assert_eq!(c.cube.rotate_timer.elapsed, 0);
    assert!(c.cube.rotate_timer.duration >= 300 * MS);
    assert!(c.cube.rotate_timer.duration < 2_500 * MS);
    let y = c.cube.random_look_y;
    assert!(y > -PI_URAD && y <= PI_URAD);
    assert!(y >= IDLE_YAW_NEAR || y < IDLE_YAW_FAR - TAU_URAD);
    assert!(c.cube.random_look_x >= -300_000 && c.cube.random_look_x < 300_000);
}

#[test]
fn twin_arc_draws_look_away() {
    let cfg = LookConfig::twin_arcs();
    for _ in 0..2_000 {
        let d = draw_idle(&cfg);
        assert!(d.yaw <= -2_600_000 || d.yaw >= 2_600_000);
        assert!(d.yaw >= -PI_URAD && d.yaw < PI_URAD);
        assert!(d.pitch >= -300_000 && d.pitch < 300_000);
        assert!(d.duration >= 300 * MS && d.duration < 2_500 * MS);
    }
}

#[test]
fn single_arc_draws_look_back() {
    let cfg = LookConfig::single_arc();
    for _ in 0..2_000 {
        let d = draw_idle(&cfg);
        assert!(d.yaw >= 2_600_000 && d.yaw <= 3_600_000);
        assert!(d.duration >= 300 * MS && d.duration < 2_500 * MS);
    }
}

#[test]
fn narrow_ranges_draw_their_only_value() {
    let mut cfg = LookConfig::single_arc();
    cfg.idle_yaw_first.hi = cfg.idle_yaw_first.lo + 1;
    cfg.idle_yaw_second.hi = cfg.idle_yaw_second.lo + 1;
    cfg.idle_pitch.lo = 7;
    cfg.idle_pitch.hi = 8;
    cfg.idle_duration_lo = 42;
    cfg.idle_duration_hi = 43;
    let d = draw_idle(&cfg);
    assert_eq!(d, IdleDraw { yaw: 2_600_000, pitch: 7, duration: 42 });
}

#[test]
fn repeated_frame_after_lock_on_changes_nothing() {
    let mut c = LookController::new(LookConfig::single_arc());
    c.update(&present(500 * MS, 420, 220));
    let first = c;
    c.update(&present(0, 420, 220));
    assert_eq!(c, first);
}

#[test]
fn repeated_frame_after_draw_changes_nothing() {
    let mut c = LookController::new(LookConfig::twin_arcs());
    c.state = CubeState::Sad;
    c.cube.rotate_timer = OneShotTimer { duration: 10, elapsed: 10 };
    c.update(&absent(16 * MS));
    let first = c;
    c.update(&absent(0));
    assert_eq!(c, first);
}

#[test]
fn repeated_frame_after_leaving_changes_nothing() {
    let mut c = LookController::new(LookConfig::single_arc());
    c.update(&present(100 * MS, 420, 220));
    c.update(&absent(16 * MS));
    let first = c;
    c.update(&absent(0));
    assert_eq!(c, first);
}

#[test]
fn canvas_scales_by_whole_multiples() {
    assert_eq!(fit_canvas(1920, 1080, RES_WIDTH, RES_HEIGHT), 3);
    assert_eq!(fit_canvas(1280, 720, RES_WIDTH, RES_HEIGHT), 2);
    assert_eq!(fit_canvas(1000, 1000, RES_WIDTH, RES_HEIGHT), 2);
    assert_eq!(fit_canvas(960, 540, RES_WIDTH, RES_HEIGHT), 2);
    assert_eq!(fit_canvas(640, 360, RES_WIDTH, RES_HEIGHT), 1);
    assert_eq!(fit_canvas(100, 100, RES_WIDTH, RES_HEIGHT), 0);
}

#[test]
fn repeated_frame_mid_ease_changes_nothing() {
    let mut c = LookController::new(LookConfig::single_arc());
    c.update(&present(250 * MS, 420, 220));
    assert_eq!(c.orientation.yaw, 43_633);
    let first = c;
    c.update(&present(0, 420, 220));
    assert_eq!(c, first);
}

#[test]
fn repeated_sad_frame_mid_ease_changes_nothing() {
    let mut c = LookController::new(LookConfig::single_arc());
    c.state = CubeState::Sad;
    c.cube = Cube {
        rotate_timer: OneShotTimer { duration: 1_000, elapsed: 0 },
        random_look_x: 0,
        random_look_y: 3_000_000,
    };
    c.orientation = Orientation { yaw: 1_000_000, pitch: 0 };
    c.update(&absent(500));
    assert_eq!(c.orientation.yaw, 2_000_000);
    let first = c;
    c.update(&absent(0));
    assert_eq!(c, first);
}

#[test]
fn zero_delta_frame_after_sad_timer_runs_out_draws_nothing() {
    let mut c = LookController::new(LookConfig::twin_arcs());
    c.state = CubeState::Sad;
    c.cube = Cube {
        rotate_timer: OneShotTimer { duration: 1_000, elapsed: 0 },
        random_look_x: 0,
        random_look_y: 3_000_000,
    };
    c.update(&absent(1_000));
    assert!(c.cube.rotate_timer.finished());
    assert_eq!(c.orientation.yaw, 3_000_000);
    let first = c;
    c.update(&absent(0));
    assert_eq!(c, first);
}

#[test]
fn idle_ease_goes_the_short_way_round() {
    let mut c = LookController::new(LookConfig::twin_arcs());
    c.state = CubeState::Sad;
    c.cube = Cube {
        rotate_timer: OneShotTimer { duration: 1_000, elapsed: 0 },
        random_look_x: 0,
        random_look_y: -3_000_000,
    };
    c.orientation = Orientation { yaw: 3_000_000, pitch: 0 };
    c.update(&absent(500));
    // Halfway across the back, not through straight ahead.
    assert_eq!(c.orientation.yaw, PI_URAD);
    c.update(&absent(500));
    assert_eq!(c.orientation.yaw, -3_000_000);
}

#[test]
fn tracking_ease_goes_the_short_way_round() {
    let mut c = LookController::new(LookConfig::single_arc());
    c.orientation = Orientation { yaw: PI_URAD, pitch: 0 };
    // A window wide enough for the target to lie near -3.0 radians.
    let frame = Frame { delta: 250 * MS, cursor: Some((0, 180)), window_width: 6_876, window_height: 360 };
    let target = look_target(0, 180, 6_876, 360, 20);
    assert_eq!(target.yaw, -3_000_222);
    c.update(&frame);
    // Half of the 0.141371 gap across the back, wrapped.
    assert_eq!(c.orientation.yaw, -3_070_908);
}

#[test]
fn run_of_frames_converges_on_the_cursor() {
    let mut c = LookController::new(LookConfig::single_arc());
    c.orientation = Orientation { yaw: -2_000_000, pitch: 300_000 };
    for delta in [16 * MS, 0, 33 * MS, 100 * MS, 0, 200 * MS, 151 * MS] {
        c.update(&present(delta, 420, 220));
    }
    assert!(c.cube.rotate_timer.finished());
    assert_eq!(c.state, CubeState::Happy);
    assert_eq!(c.orientation, Orientation { yaw: 87_266, pitch: 34_906 });
}
