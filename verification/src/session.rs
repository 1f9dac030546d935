//! The sandbox's per-frame decisions as a state machine over plain values.
//!
//! The host loop samples real time, pumps window events and issues draw
//! calls; everything it decides — when a tick is owed, what an event does to
//! the camera, when the loop stops, when a diagnostics report is due — is a
//! verified transition of this session state.

use crate::camera::target_camera::{MovementFlags, TargetCamera};
use crate::clock::Clock;
use crate::math::clamp_i;
use crate::metrics::Metrics;
use vstd::prelude::*;

verus! {

/// Semantic keys the sandbox reacts to; the host maps physical keys here.
#[derive(Clone, Copy, Debug, PartialEq, Eq, Structural)]
pub enum Key {
    Escape,
    Forward,
    Backward,
    StrafeLeft,
    StrafeRight,
    Rise,
    Fall,
    Faster,
    Other,
}

/// The discriminated union of window events the sandbox consumes.
#[derive(Clone, Copy, Debug, PartialEq, Eq, Structural)]
pub enum InputEvent {
    Quit,
    KeyDown(Key),
    KeyUp(Key),
    MouseMotion { dx: i32, dy: i32, rotating: bool },
    MouseWheel { y: i32 },
    WindowResized { w: i32, h: i32 },
    Other,
}

/// What the host must do after handing an event to the session.
#[derive(Clone, Copy, Debug, PartialEq, Eq, Structural)]
pub enum FrameAction {
    /// Terminate the loop.
    Stop,
    /// Reapply the viewport to the new drawable size.
    ApplyViewport { w: i32, h: i32 },
    /// Nothing beyond the state change already made.
    Proceed,
}

pub struct Session {
    pub camera: TargetCamera,
    pub clock: Clock,
    pub metrics: Metrics,
    pub running: bool,
}

/// The movement flags with the flag a key controls set to `held`; keys that
/// control no flag leave them unchanged.
pub open spec fn set_flag(f: MovementFlags, k: Key, held: bool) -> MovementFlags {
    match k {
        Key::Forward => MovementFlags { forward: held, ..f },
        Key::Backward => MovementFlags { backward: held, ..f },
        Key::StrafeLeft => MovementFlags { left: held, ..f },
        Key::StrafeRight => MovementFlags { right: held, ..f },
        Key::Rise => MovementFlags { up: held, ..f },
        Key::Fall => MovementFlags { down: held, ..f },
        Key::Faster => MovementFlags { faster: held, ..f },
        Key::Escape => f,
        Key::Other => f,
    }
}

fn flag_with(f: MovementFlags, k: Key, held: bool) -> (r: MovementFlags)
    ensures
        r == set_flag(f, k, held),
{
    match k {
        Key::Forward => MovementFlags { forward: held, ..f },
        Key::Backward => MovementFlags { backward: held, ..f },
        Key::StrafeLeft => MovementFlags { left: held, ..f },
        Key::StrafeRight => MovementFlags { right: held, ..f },
        Key::Rise => MovementFlags { up: held, ..f },
        Key::Fall => MovementFlags { down: held, ..f },
        Key::Faster => MovementFlags { faster: held, ..f },
        Key::Escape => f,
        Key::Other => f,
    }
}

/// Successor camera of a resize event, with a negative width floored at zero
/// before it reaches the camera.
pub open spec fn resized_camera(c: TargetCamera, w: int, h: int) -> TargetCamera {
    TargetCamera {
        aspect_w: clamp_i(w, 0, 2_147_483_647) as i64,
        aspect_h: clamp_i(h, 1, 2_147_483_647) as i64,
        ..c
    }
}

/// Whether an event signals termination: a quit event or the escape key.
pub open spec fn is_stop_event(ev: InputEvent) -> bool {
    ev == InputEvent::Quit || ev == InputEvent::KeyDown(Key::Escape)
}

/// Successor camera of one event.
pub open spec fn event_camera(c: TargetCamera, ev: InputEvent) -> TargetCamera {
    match ev {
        InputEvent::Quit => c,
        InputEvent::KeyDown(k) => if k == Key::Escape {
            c
        } else {
            TargetCamera { flags: set_flag(c.flags, k, true), ..c }
        },
        InputEvent::KeyUp(k) => TargetCamera { flags: set_flag(c.flags, k, false), ..c },
        InputEvent::MouseMotion { dx, dy, rotating } => if rotating {
            c.rotate_step(dx as int, dy as int)
        } else {
            c
        },
        InputEvent::MouseWheel { y } => c.zoom_step(y as int),
        InputEvent::WindowResized { w, h } => resized_camera(c, w as int, h as int),
        InputEvent::Other => c,
    }
}

/// The action an event asks of the host.
pub open spec fn event_action(ev: InputEvent) -> FrameAction {
    match ev {
        InputEvent::WindowResized { w, h } => FrameAction::ApplyViewport { w, h },
        _ => if is_stop_event(ev) {
            FrameAction::Stop
        } else {
            FrameAction::Proceed
        },
    }
}

impl Session {
    pub open spec fn wf(self) -> bool {
        &&& self.camera.wf()
        &&& self.clock.wf()
        &&& self.metrics.wf()
    }

    pub fn new(tick_ns: u64, updates_per_second: u8, initial_distance: i64) -> (s: Session)
        requires
            tick_ns > 0,
            updates_per_second > 0,
        ensures
            s.camera == TargetCamera::initial_spec(initial_distance as int),
            s.clock.tick_ns == tick_ns && s.clock.acc_ns == 0,
            s.metrics.updates == 0 && s.metrics.frames == 0 && s.metrics.clk == 0
                && s.metrics.wrap == updates_per_second,
            s.running,
            s.wf(),
    {
        Session {
            camera: TargetCamera::new(0, initial_distance),
            clock: Clock::new(tick_ns),
            metrics: Metrics::new(updates_per_second),
            running: true,
        }
    }

    /// Credit elapsed real time to the tick accumulator.
    pub fn advance_time(&mut self, elapsed_ns: u64)
        requires
            old(self).wf(),
            old(self).clock.acc_ns + elapsed_ns <= u64::MAX,
        ensures
            final(self).clock.acc_ns == old(self).clock.acc_ns + elapsed_ns,
            final(self).clock.tick_ns == old(self).clock.tick_ns,
            final(self).camera == old(self).camera,
            final(self).metrics == old(self).metrics,
            final(self).running == old(self).running,
            final(self).wf(),
    {
        self.clock.advance(elapsed_ns);
    }

    /// Whether another update/render cycle is owed before the frame ends.
    pub fn tick_pending(&self) -> (r: bool)
        ensures
            r == (self.clock.acc_ns >= self.clock.tick_ns),
    {
        self.clock.has_pending_tick()
    }

    /// Finish one update/render cycle: pay one tick down and count the cycle.
    pub fn complete_cycle(&mut self)
        requires
            old(self).wf(),
            old(self).clock.acc_ns >= old(self).clock.tick_ns,
        ensures
            final(self).clock.acc_ns == old(self).clock.acc_ns - old(self).clock.tick_ns,
            final(self).clock.tick_ns == old(self).clock.tick_ns,
            final(self).metrics.updates == if old(self).metrics.updates < u32::MAX {
                old(self).metrics.updates + 1
            } else {
                old(self).metrics.updates as int
            },
            final(self).metrics.frames == if old(self).metrics.frames < u32::MAX {
                old(self).metrics.frames + 1
            } else {
                old(self).metrics.frames as int
            },
            final(self).metrics.clk == if old(self).metrics.clk + 1 >= old(self).metrics.wrap {
                0
            } else {
                old(self).metrics.clk + 1
            },
            final(self).metrics.wrap == old(self).metrics.wrap,
            final(self).camera == old(self).camera,
            final(self).running == old(self).running,
            final(self).wf(),
    {
        self.clock.consume_tick();
        self.metrics.count_update();
        self.metrics.count_render();
    }

    /// Feed one window event through the session: the camera state changes
    /// exactly as `event_camera` says, the loop keeps running unless the
    /// event is a stop event, and the returned action is exactly
    /// `event_action`.
    pub fn handle_event(&mut self, ev: &InputEvent) -> (a: FrameAction)
        requires
            old(self).wf(),
        ensures
            final(self).camera == event_camera(old(self).camera, *ev),
            final(self).running == (old(self).running && !is_stop_event(*ev)),
            a == event_action(*ev),
            final(self).clock == old(self).clock,
            final(self).metrics == old(self).metrics,
            final(self).wf(),
    {
        match *ev {
            InputEvent::Quit => {
                self.running = false;
                FrameAction::Stop
            },
            InputEvent::KeyDown(k) => {
                if let Key::Escape = k {
                    self.running = false;
                    FrameAction::Stop
                } else {
                    self.camera.flags = flag_with(self.camera.flags, k, true);
                    FrameAction::Proceed
                }
            },
            InputEvent::KeyUp(k) => {
                self.camera.flags = flag_with(self.camera.flags, k, false);
                FrameAction::Proceed
            },
            InputEvent::MouseMotion { dx, dy, rotating } => {
                if rotating {
                    self.camera.rotate(dx, dy);
                }
                FrameAction::Proceed
            },
            InputEvent::MouseWheel { y } => {
                self.camera.zoom(y);
                FrameAction::Proceed
            },
            InputEvent::WindowResized { w, h } => {
                let wc: i32 = if w < 0 {
                    0
                } else {
                    w
                };
                self.camera.resize(wc, h);
                FrameAction::ApplyViewport { w, h }
            },
            InputEvent::Other => FrameAction::Proceed,
        }
    }

    /// Integrate the held movement flags for one tick.
    pub fn tick_movement(&mut self)
        requires
            old(self).wf(),
        ensures
            final(self).camera == old(self).camera.move_step(),
            final(self).clock == old(self).clock,
            final(self).metrics == old(self).metrics,
            final(self).running == old(self).running,
            final(self).wf(),
    {
        self.camera.tick_movement();
    }
}

} // verus!
