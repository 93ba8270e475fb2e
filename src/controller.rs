//! The Happy/Sad look controller, advanced once per rendered frame.
use vstd::prelude::*;
use crate::angle::{
    bounded, canonical, circ_dist, ease_yaw, ease_yaw_spec, lerp, lerp_spec, look_target,
    target_spec, wrap, wrap_spec, Orientation, PI_URAD,
};
use crate::config::{draw_idle, IdleDraw, LookConfig};
use crate::timer::OneShotTimer;

verus! {

/// Whether the mascot is tracking the cursor (Happy) or idly looking away (Sad).
#[derive(Clone, Copy, Debug, PartialEq, Eq, Structural)]
pub enum CubeState {
    Happy,
    Sad,
}

/// Length of the first easing toward the cursor: half a second.
pub const FIRST_EASE_NANOS: u64 = 500_000_000;

/// The mascot's look properties: the easing timer and the current idle target.
#[derive(Clone, Copy, Debug, PartialEq, Eq, Structural)]
pub struct Cube {
    pub rotate_timer: OneShotTimer,
    /// Idle pitch target.
    pub random_look_x: i64,
    /// Idle yaw target, wrapped like every stored yaw.
    pub random_look_y: i64,
}

impl Default for Cube {
    fn default() -> (c: Cube)
        ensures
            c == (Cube {
                rotate_timer: OneShotTimer { duration: FIRST_EASE_NANOS, elapsed: 0 },
                random_look_x: 0,
                random_look_y: 0,
            }),
    {
        Cube {
            rotate_timer: OneShotTimer::from_nanos(FIRST_EASE_NANOS),
            random_look_x: 0,
            random_look_y: 0,
        }
    }
}

/// What the controller reads each frame: the time since the previous frame,
/// the window's size and the cursor's position in it, if it is in the window.
/// A frame with no time passed eases nothing and draws nothing; it only
/// switches between Happy and Sad.
#[derive(Clone, Copy, Debug, PartialEq, Eq)]
pub struct Frame {
    pub delta: u64,
    pub cursor: Option<(i32, i32)>,
    pub window_width: u32,
    pub window_height: u32,
}

/// The whole controller: discrete state, look properties, current orientation
/// and settings.
#[derive(Clone, Copy, Debug, PartialEq, Eq, Structural)]
pub struct LookController {
    pub state: CubeState,
    pub cube: Cube,
    pub orientation: Orientation,
    pub config: LookConfig,
}

impl LookController {
    /// Stored angles are in range, and both stored yaws (the orientation's and
    /// the idle target's) lie in the one canonical range `(-PI_URAD, PI_URAD]`.
    pub open spec fn wf(self) -> bool {
        &&& self.config.wf()
        &&& self.cube.rotate_timer.wf()
        &&& bounded(self.cube.random_look_x as int)
        &&& canonical(self.cube.random_look_y as int)
        &&& canonical(self.orientation.yaw as int)
        &&& bounded(self.orientation.pitch as int)
    }

    /// Where the cursor of `frame` asks the mascot to look.
    pub open spec fn cursor_target(self, x: i32, y: i32, frame: Frame) -> Orientation {
        target_spec(
            x as int,
            y as int,
            frame.window_width as int,
            frame.window_height as int,
            self.config.sensitivity as int,
        )
    }

    /// One Happy frame. With the cursor in the window and time passed: while
    /// the timer runs, tick it and ease toward the cursor target by the
    /// completed fraction (yaw the short way round); once it has finished,
    /// look straight at the target. With the cursor gone: turn Sad, reset the
    /// timer, and aim the idle target at the mirrored direction (yaw half a
    /// turn on, wrapped; pitch negated).
    pub open spec fn happy_next(self, frame: Frame) -> LookController {
        match frame.cursor {
            Some((x, y)) => {
                let target = self.cursor_target(x, y, frame);
                if frame.delta == 0 {
                    self
                } else if !self.cube.rotate_timer.is_finished() {
                    let timer = self.cube.rotate_timer.ticked(frame.delta);
                    let yaw = ease_yaw_spec(
                        self.orientation.yaw as int,
                        target.yaw as int,
                        timer.elapsed as int,
                        timer.duration as int,
                    );
                    let pitch = lerp_spec(
                        self.orientation.pitch as int,
                        target.pitch as int,
                        timer.elapsed as int,
                        timer.duration as int,
                    );
                    LookController {
                        cube: Cube { rotate_timer: timer, ..self.cube },
                        orientation: Orientation { yaw: yaw as i64, pitch: pitch as i64 },
                        ..self
                    }
                } else {
                    LookController {
                        orientation: Orientation {
                            yaw: wrap_spec(target.yaw as int) as i64,
                            pitch: target.pitch,
                        },
                        ..self
                    }
                }
            },
            None => LookController {
                state: CubeState::Sad,
                cube: Cube {
                    rotate_timer: OneShotTimer {
                        duration: self.cube.rotate_timer.duration,
                        elapsed: 0,
                    },
                    random_look_x: (-self.orientation.pitch) as i64,
                    random_look_y: wrap_spec(PI_URAD + self.orientation.yaw) as i64,
                },
                ..self
            },
        }
    }

    /// One Sad frame. With the cursor away and time passed: while the timer
    /// runs, tick it and ease toward the idle target by the completed fraction
    /// (yaw the short way round); once it has finished, take `draw` as the
    /// next idle target (yaw wrapped) and cycle length, leaving the orientation
    /// where it is. With the cursor back: turn Happy and reset the timer.
    pub open spec fn sad_next(self, frame: Frame, draw: IdleDraw) -> LookController {
        match frame.cursor {
            None => {
                if frame.delta == 0 {
                    self
                } else if !self.cube.rotate_timer.is_finished() {
                    let timer = self.cube.rotate_timer.ticked(frame.delta);
                    let yaw = ease_yaw_spec(
                        self.orientation.yaw as int,
                        self.cube.random_look_y as int,
                        timer.elapsed as int,
                        timer.duration as int,
                    );
                    let pitch = lerp_spec(
                        self.orientation.pitch as int,
                        self.cube.random_look_x as int,
                        timer.elapsed as int,
                        timer.duration as int,
                    );
                    LookController {
                        cube: Cube { rotate_timer: timer, ..self.cube },
                        orientation: Orientation { yaw: yaw as i64, pitch: pitch as i64 },
                        ..self
                    }
                } else {
                    LookController {
                        cube: Cube {
                            rotate_timer: OneShotTimer { duration: draw.duration, elapsed: 0 },
                            random_look_x: draw.pitch,
                            random_look_y: wrap_spec(draw.yaw as int) as i64,
                        },
                        ..self
                    }
                }
            },
            Some(_) => LookController {
                state: CubeState::Happy,
                cube: Cube {
                    rotate_timer: OneShotTimer {
                        duration: self.cube.rotate_timer.duration,
                        elapsed: 0,
                    },
                    ..self.cube
                },
                ..self
            },
        }
    }

    /// One frame in whichever state the controller is in.
    pub open spec fn next(self, frame: Frame, draw: IdleDraw) -> LookController {
        match self.state {
            CubeState::Happy => self.happy_next(frame),
            CubeState::Sad => self.sad_next(frame, draw),
        }
    }

    /// The frame is one on which a new idle target is drawn.
    pub open spec fn needs_draw(self, frame: Frame) -> bool {
        &&& self.state == CubeState::Sad
        &&& frame.cursor is None
        &&& frame.delta > 0
        &&& self.cube.rotate_timer.is_finished()
    }

    /// A Happy controller looking straight ahead, with the default look properties.
    pub fn new(config: LookConfig) -> (c: LookController)
        requires
            config.wf(),
        ensures
            c.wf(),
            c == (LookController {
                state: CubeState::Happy,
                cube: Cube {
                    rotate_timer: OneShotTimer { duration: FIRST_EASE_NANOS, elapsed: 0 },
                    random_look_x: 0,
                    random_look_y: 0,
                },
                orientation: Orientation { yaw: 0, pitch: 0 },
                config,
            }),
    {
        LookController {
            state: CubeState::Happy,
            cube: Cube::default(),
            orientation: Orientation { yaw: 0, pitch: 0 },
            config,
        }
    }

    /// Runs the Happy logic for one frame.
    pub fn happy_cube_update(&mut self, frame: &Frame)
        requires
            old(self).wf(),
        ensures
            final(self).wf(),
            *final(self) == old(self).happy_next(*frame),
            frame.cursor is None ==> {
                &&& final(self).state == CubeState::Sad
                &&& final(self).cube.rotate_timer.elapsed == 0
                &&& final(self).cube.rotate_timer.duration == old(self).cube.rotate_timer.duration
                &&& old(self).cube.rotate_timer.duration > 0
                    ==> !final(self).cube.rotate_timer.is_finished()
            },
    {
        match frame.cursor {
            Some((x, y)) => {
                if frame.delta > 0 {
                    let target = look_target(
                        x,
                        y,
                        frame.window_width,
                        frame.window_height,
                        self.config.sensitivity,
                    );
                    if !self.cube.rotate_timer.finished() {
                        self.cube.rotate_timer.tick(frame.delta);
                        let e = self.cube.rotate_timer.elapsed;
                        let d = self.cube.rotate_timer.duration;
                        let yaw = ease_yaw(self.orientation.yaw, target.yaw, e, d);
                        let pitch = lerp(self.orientation.pitch, target.pitch, e, d);
                        self.orientation = Orientation { yaw, pitch };
                    } else {
                        self.orientation = Orientation { yaw: wrap(target.yaw), pitch: target.pitch };
                    }
                }
            },
            None => {
                self.state = CubeState::Sad;
                self.cube.rotate_timer.reset();
                self.cube.random_look_y = wrap(PI_URAD + self.orientation.yaw);
                self.cube.random_look_x = -self.orientation.pitch;
            },
        }
    }

    /// Runs the Sad logic for one frame; `draw` is used only if time has
    /// passed, the timer has finished and the cursor is still away.
    pub fn sad_cube_update(&mut self, frame: &Frame, draw: &IdleDraw)
        requires
            old(self).wf(),
            draw.allowed_by(old(self).config),
        ensures
            final(self).wf(),
            *final(self) == old(self).sad_next(*frame, *draw),
            frame.cursor is Some ==> {
                &&& final(self).state == CubeState::Happy
                &&& final(self).cube.rotate_timer.elapsed == 0
                &&& final(self).cube.rotate_timer.duration == old(self).cube.rotate_timer.duration
                &&& old(self).cube.rotate_timer.duration > 0
                    ==> !final(self).cube.rotate_timer.is_finished()
            },
            frame.cursor is None && !old(self).cube.rotate_timer.is_finished() ==> circ_dist(
                final(self).orientation.yaw as int,
                old(self).cube.random_look_y as int,
            ) <= circ_dist(old(self).orientation.yaw as int, old(self).cube.random_look_y as int),
            old(self).needs_draw(*frame) ==> {
                &&& final(self).cube.random_look_y == wrap_spec(draw.yaw as int)
                &&& final(self).cube.random_look_x == draw.pitch
                &&& final(self).cube.rotate_timer == (OneShotTimer {
                    duration: draw.duration,
                    elapsed: 0,
                })
                &&& !final(self).cube.rotate_timer.is_finished()
                &&& final(self).orientation == old(self).orientation
                &&& final(self).state == CubeState::Sad
            },
    {
        match frame.cursor {
            None => {
                if frame.delta > 0 {
                    if !self.cube.rotate_timer.finished() {
                        self.cube.rotate_timer.tick(frame.delta);
                        let e = self.cube.rotate_timer.elapsed;
                        let d = self.cube.rotate_timer.duration;
                        let yaw = ease_yaw(self.orientation.yaw, self.cube.random_look_y, e, d);
                        let pitch = lerp(self.orientation.pitch, self.cube.random_look_x, e, d);
                        self.orientation = Orientation { yaw, pitch };
                    } else {
                        self.cube.random_look_y = wrap(draw.yaw);
                        self.cube.random_look_x = draw.pitch;
                        self.cube.rotate_timer = OneShotTimer::from_nanos(draw.duration);
                    }
                }
            },
            Some(_) => {
                self.cube.rotate_timer.reset();
                self.state = CubeState::Happy;
            },
        }
    }

    /// Advances the controller by one frame, with `draw` as the idle target
    /// should one be needed.
    pub fn step(&mut self, frame: &Frame, draw: &IdleDraw)
        requires
            old(self).wf(),
            draw.allowed_by(old(self).config),
        ensures
            final(self).wf(),
            *final(self) == old(self).next(*frame, *draw),
    {
        match self.state {
            CubeState::Happy => self.happy_cube_update(frame),
            CubeState::Sad => self.sad_cube_update(frame, draw),
        }
    }

    /// Advances the controller by one frame, drawing a random idle target only
    /// on a frame that needs one.
    pub fn update(&mut self, frame: &Frame)
        requires
            old(self).wf(),
        ensures
            final(self).wf(),
            old(self).needs_draw(*frame) ==> exists|d: IdleDraw|
                #[trigger] d.allowed_by(old(self).config) && *final(self) == old(self).next(
                    *frame,
                    d,
                ),
            !old(self).needs_draw(*frame) ==> *final(self) == old(self).next(
                *frame,
                IdleDraw { yaw: 0, pitch: 0, duration: 0 },
            ),
            !old(self).needs_draw(*frame) ==> forall|d: IdleDraw|
                #[trigger] old(self).next(*frame, d) == *final(self),
    {
        if self.state == CubeState::Sad && frame.cursor.is_none() && frame.delta > 0
            && self.cube.rotate_timer.finished() {
            let draw = draw_idle(&self.config);
            self.sad_cube_update(frame, &draw);
        } else {
            let placeholder = IdleDraw {
                yaw: self.config.idle_yaw_first.lo,
                pitch: self.config.idle_pitch.lo,
                duration: self.config.idle_duration_lo,
            };
            self.step(frame, &placeholder);
        }
    }
}

} // verus!
