//! Properties of the controller over whole frames.
use vstd::prelude::*;
use crate::angle::{
    canonical, lemma_ease_yaw, lemma_lerp_ends, lemma_wrap_canonical, target_spec, wrap_spec,
    Orientation, PI_URAD, TAU_URAD,
};
use crate::config::{IdleDraw, LookConfig, IDLE_YAW_FAR, IDLE_YAW_NEAR};
use crate::controller::{CubeState, Frame, LookController};

verus! {

/// Tracking converges: on a Happy frame with the cursor in the window and
/// time passed, once the easing timer has run out (on this frame or before),
/// the mascot looks exactly at the cursor target, with no lag left; its yaw is
/// the target's, wrapped into `(-PI_URAD, PI_URAD]`, and equal to it when it
/// already lies there.
pub proof fn lemma_tracking_converges(c: LookController, frame: Frame, x: i32, y: i32, draw: IdleDraw)
    requires
        c.wf(),
        c.state == CubeState::Happy,
        frame.cursor == Some((x, y)),
        frame.delta > 0,
        c.cube.rotate_timer.ticked(frame.delta).is_finished(),
    ensures
        ({
            let target = c.cursor_target(x, y, frame);
            let n = c.next(frame, draw);
            &&& n.state == CubeState::Happy
            &&& n.cube.rotate_timer.is_finished()
            &&& n.orientation.yaw == wrap_spec(target.yaw as int)
            &&& n.orientation.pitch == target.pitch
            &&& -PI_URAD < target.yaw <= PI_URAD ==> n.orientation.yaw == target.yaw
        }),
{
    let target = c.cursor_target(x, y, frame);
    let timer = c.cube.rotate_timer.ticked(frame.delta);
    if !c.cube.rotate_timer.is_finished() {
        lemma_ease_yaw(
            c.orientation.yaw as int,
            target.yaw as int,
            timer.duration as int,
            timer.duration as int,
        );
        lemma_lerp_ends(c.orientation.pitch as int, target.pitch as int, timer.duration as int);
    }
    if -PI_URAD < target.yaw <= PI_URAD {
        lemma_wrap_canonical(target.yaw as int);
    }
}

/// The time that a run of frames covers.
pub open spec fn total_delta(frames: Seq<Frame>) -> int
    decreases frames.len(),
{
    if frames.len() == 0 {
        0
    } else {
        frames[0].delta + total_delta(frames.drop_first())
    }
}

proof fn total_delta_nonneg(frames: Seq<Frame>)
    ensures
        total_delta(frames) >= 0,
    decreases frames.len(),
{
    if frames.len() > 0 {
        total_delta_nonneg(frames.drop_first());
    }
}

/// The controller after the frames of `frames`, in order, with `draw` offered
/// whenever an idle target is needed.
pub open spec fn run(c: LookController, frames: Seq<Frame>, draw: IdleDraw) -> LookController
    decreases frames.len(),
{
    if frames.len() == 0 {
        c
    } else {
        run(c.next(frames[0], draw), frames.drop_first(), draw)
    }
}

/// Every frame of `frames` has the cursor at `(x, y)` in a `width` by `height` window.
pub open spec fn steady_cursor(frames: Seq<Frame>, x: i32, y: i32, width: u32, height: u32) -> bool {
    forall|i: int|
        0 <= i < frames.len() ==> {
            &&& (#[trigger] frames[i]).cursor == Some((x, y))
            &&& frames[i].window_width == width
            &&& frames[i].window_height == height
        }
}

/// Looking exactly at `target`, up to whole turns of yaw.
pub open spec fn looks_at(c: LookController, target: Orientation) -> bool {
    c.orientation == Orientation { yaw: wrap_spec(target.yaw as int) as i64, pitch: target.pitch }
}

/// Tracking converges over a run of frames: starting Happy with the easing
/// timer still running, a run of frames with the cursor held at one place,
/// whose times add up to at least what the timer has left, ends Happy, with
/// the timer finished and the mascot looking exactly at the cursor target.
pub proof fn lemma_run_converges(
    c: LookController,
    frames: Seq<Frame>,
    x: i32,
    y: i32,
    width: u32,
    height: u32,
    draw: IdleDraw,
)
    requires
        c.wf(),
        c.state == CubeState::Happy,
        !c.cube.rotate_timer.is_finished(),
        steady_cursor(frames, x, y, width, height),
        c.cube.rotate_timer.elapsed + total_delta(frames) >= c.cube.rotate_timer.duration,
    ensures
        ({
            let n = run(c, frames, draw);
            let target = target_spec(x as int, y as int, width as int, height as int, c.config.sensitivity as int);
            &&& n.state == CubeState::Happy
            &&& n.cube.rotate_timer.is_finished()
            &&& looks_at(n, target)
        }),
{
    run_converges(c, frames, x, y, width, height, draw);
}

proof fn run_converges(
    c: LookController,
    frames: Seq<Frame>,
    x: i32,
    y: i32,
    width: u32,
    height: u32,
    draw: IdleDraw,
)
    requires
        canonical(c.orientation.yaw as int),
        c.cube.rotate_timer.wf(),
        c.state == CubeState::Happy,
        steady_cursor(frames, x, y, width, height),
        c.cube.rotate_timer.elapsed + total_delta(frames) >= c.cube.rotate_timer.duration,
        c.cube.rotate_timer.is_finished() ==> looks_at(
            c,
            target_spec(x as int, y as int, width as int, height as int, c.config.sensitivity as int),
        ),
    ensures
        ({
            let n = run(c, frames, draw);
            let target = target_spec(x as int, y as int, width as int, height as int, c.config.sensitivity as int);
            &&& n.state == CubeState::Happy
            &&& n.cube.rotate_timer.is_finished()
            &&& looks_at(n, target)
            &&& n.config == c.config
        }),
    decreases frames.len(),
{
    if frames.len() > 0 {
        let f = frames[0];
        let rest = frames.drop_first();
        let target = target_spec(x as int, y as int, width as int, height as int, c.config.sensitivity as int);
        assert(f.cursor == Some((x, y)) && f.window_width == width && f.window_height == height);
        assert(steady_cursor(rest, x, y, width, height)) by {
            assert forall|i: int| 0 <= i < rest.len() implies {
                &&& (#[trigger] rest[i]).cursor == Some((x, y))
                &&& rest[i].window_width == width
                &&& rest[i].window_height == height
            } by {
                assert(rest[i] == frames[i + 1]);
            }
        }
        assert(total_delta(frames) == f.delta + total_delta(rest));
        total_delta_nonneg(rest);
        let n = c.next(f, draw);
        let timer = c.cube.rotate_timer.ticked(f.delta);
        if f.delta > 0 && !c.cube.rotate_timer.is_finished() {
            lemma_ease_yaw(
                c.orientation.yaw as int,
                target.yaw as int,
                timer.elapsed as int,
                timer.duration as int,
            );
            if timer.is_finished() {
                lemma_lerp_ends(c.orientation.pitch as int, target.pitch as int, timer.duration as int);
            }
        }
        if f.delta > 0 && c.cube.rotate_timer.is_finished() {
            assert(-PI_URAD < wrap_spec(target.yaw as int) <= PI_URAD);
        }
        run_converges(n, rest, x, y, width, height, draw);
    }
}

/// Running a frame a second time with no more time passed changes nothing:
/// neither the state, the timer, the idle target nor the orientation, and no
/// idle target is drawn, whatever draw either run is offered.
pub proof fn lemma_repeated_frame_is_stable(
    c: LookController,
    frame: Frame,
    draw: IdleDraw,
    again: IdleDraw,
)
    requires
        c.wf(),
    ensures
        ({
            let n = c.next(frame, draw);
            let same = Frame { delta: 0, ..frame };
            &&& !n.needs_draw(same)
            &&& n.next(same, again) == n
        }),
{
}

/// With the two-arc settings, every idle yaw that a Sad frame draws lies
/// strictly outside `(-2.6, 2.6)` radians, and so does the stored target
/// (the draw wrapped into `(-PI_URAD, PI_URAD]`).
pub proof fn lemma_twin_arcs_look_away(c: LookController, frame: Frame, draw: IdleDraw)
    requires
        c.wf(),
        c.config == LookConfig::twin_arcs_spec(),
        c.needs_draw(frame),
        draw.allowed_by(c.config),
    ensures
        draw.yaw <= -IDLE_YAW_NEAR || draw.yaw >= IDLE_YAW_NEAR,
        ({
            let yaw = c.next(frame, draw).cube.random_look_y;
            yaw <= -IDLE_YAW_NEAR || yaw >= IDLE_YAW_NEAR
        }),
{
}

/// With the single-arc settings, every idle yaw that a Sad frame draws lies
/// within `[2.6, 3.6]` radians; the stored target is that direction wrapped
/// into `(-PI_URAD, PI_URAD]`, the draw itself or one turn less.
pub proof fn lemma_single_arc_looks_back(c: LookController, frame: Frame, draw: IdleDraw)
    requires
        c.wf(),
        c.config == LookConfig::single_arc_spec(),
        c.needs_draw(frame),
        draw.allowed_by(c.config),
    ensures
        IDLE_YAW_NEAR <= draw.yaw <= IDLE_YAW_FAR,
        ({
            let yaw = c.next(frame, draw).cube.random_look_y;
            yaw == wrap_spec(draw.yaw as int) && (yaw == draw.yaw || yaw == draw.yaw - TAU_URAD)
        }),
{
}

} // verus!
