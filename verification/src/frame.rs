//! The frame loop as a state machine: what the host does, and in which
//! order, for each event of the window system.

use crate::clock::{monotonic_now, time_between, whole_nanos};
use crate::controls::cameracontroller::{
    CameraController, ControllerState, ElementState, KeyCode, MouseButton,
};
use crate::gpu::raytracer::compute_pipeline::{ComputeState, EnvDimensions};
use crate::gpu::raytracer::fragment_pipeline::{RenderState, QUAD_INDICES};
use crate::gpu::wgpu_init::{Init, PhysicalSize};
use crate::scalar::{Scalar, Vec3};
use crate::scene::scene::{start_position, Camera, Scene};
use std::time::Instant;
use vstd::prelude::*;

verus! {

/// Bit pattern of the camera's speed, 100 units a second.
pub const SPEED_BITS: u32 = 0x42C8_0000;

/// Bit pattern of the pointer's sensitivity, 0.6.
pub const SENSITIVITY_BITS: u32 = 0x3F19_999A;

/// Times the frames. It counts nanoseconds from the moment it was made.
pub struct Timer {
    /// When the timer was made.
    pub started: Instant,
    /// Nanoseconds from `started` to the last lap.
    pub last_render_time: u128,
}

impl Timer {
    /// The length of a lap that ends `reading` nanoseconds after the timer
    /// was made: the time since the last lap, and nothing where the reading
    /// lies before it.
    pub open spec fn lap_length(self, reading: u128) -> int {
        if reading > self.last_render_time {
            reading - self.last_render_time
        } else {
            0
        }
    }

    /// A timer started now: its first lap runs from this moment.
    pub fn new() -> (timer: Timer)
        ensures
            timer.last_render_time == 0,
    {
        Timer { started: monotonic_now(), last_render_time: 0 }
    }

    /// Ends a lap at `reading` nanoseconds after the timer was made and
    /// returns its length. The next lap starts where this one ended; a
    /// reading that lies before the last lap moves nothing.
    pub fn advance(&mut self, reading: u128) -> (elapsed: u128)
        ensures
            elapsed == old(self).lap_length(reading),
            final(self).last_render_time == old(self).last_render_time + elapsed,
            final(self).started == old(self).started,
    {
        if reading > self.last_render_time {
            let elapsed: u128 = reading - self.last_render_time;
            self.last_render_time = reading;
            elapsed
        } else {
            0
        }
    }

    /// Ends a lap now and returns its length in nanoseconds: the time since
    /// the last lap, or since the timer was made. The next lap starts where
    /// this one ended, so that the laps add up to the time on the timer.
    pub fn lap(&mut self) -> (elapsed: u128)
        ensures
            final(self).last_render_time == old(self).last_render_time + elapsed,
            final(self).started == old(self).started,
    {
        let now = monotonic_now();
        let since_start = time_between(&self.started, &now);
        let reading = whole_nanos(&since_start);
        self.advance(reading)
    }
}

/// What the window tells the loop.
#[derive(Clone, Copy, Debug, PartialEq, Eq, Structural)]
pub enum WindowEvent {
    CloseRequested,
    Resized(PhysicalSize),
    RedrawRequested,
    /// Any other event.
    Other,
}

/// What the input devices tell the loop.
#[derive(Clone, Copy, Debug, PartialEq, Eq, Structural)]
pub enum DeviceEvent {
    Key { key: KeyCode, state: ElementState },
    MouseMotion { dx: Scalar, dy: Scalar },
    Button { button: MouseButton, state: ElementState },
    /// The wheel turned by `amount` pixels.
    MouseWheel { amount: Scalar },
    /// Any other event.
    Other,
}

/// One step of the host, to be carried out in the order given.
#[derive(Clone, Copy, Debug, PartialEq, Eq, Structural)]
pub enum Action {
    /// Leave the event loop.
    Exit,
    /// Configure the surface with the session's configuration.
    ConfigureSurface,
    /// Give the compute side the aspect ratio of this size and write the
    /// camera buffer.
    ResizeCamera(PhysicalSize),
    /// Take the time since the last frame.
    MeasureFrameTime,
    /// Run the kernel.
    Dispatch,
    /// Present the traced image; a frame that cannot be acquired is skipped.
    Present,
    /// Integrate the frame's input into the camera and its uniform.
    IntegrateCamera,
    /// Write the camera buffer.
    WriteCamera,
    /// Write a fresh seed into the seed buffer.
    WriteSeed,
    /// Ask the window for the next frame.
    RequestRedraw,
}

/// What the host brings to the start of a session: the window's size and its
/// aspect ratio, the unit direction from the camera's starting position to
/// its target with the yaw and pitch of that direction, and the size of the
/// environment map.
#[derive(Clone, Copy, Debug, PartialEq, Eq, Structural)]
pub struct Startup {
    pub size: PhysicalSize,
    pub aspect_ratio: Scalar,
    pub forward: Vec3,
    pub yaw: Scalar,
    pub pitch: Scalar,
    pub env_dimensions: EnvDimensions,
}

/// Everything a running loop owns.
pub struct Session {
    pub init: Init,
    pub compute_state: ComputeState,
    pub fragment_state: RenderState,
    pub controller: CameraController,
    pub scene: Scene,
    pub timer: Timer,
}

/// The loop: waiting for its surface, or running.
pub enum App {
    Uninitialized,
    Running(Session),
}

/// The steps of one frame: the frame is timed, traced and presented, then
/// the camera is advanced and uploaded with a fresh seed for the frame that
/// follows, which is requested last.
pub open spec fn frame_actions() -> Seq<Action> {
    seq![
        Action::MeasureFrameTime,
        Action::Dispatch,
        Action::Present,
        Action::IntegrateCamera,
        Action::WriteCamera,
        Action::WriteSeed,
        Action::RequestRedraw,
    ]
}

/// Within a frame the kernel runs before its image is presented, the
/// camera is advanced only after both, its buffers are written after that,
/// and the next frame is requested last. Over two frames in a row, the
/// camera and the seed that the first frame wrote are in place before the
/// kernel of the second runs.
pub proof fn lemma_frame_order()
    ensures
        frame_actions().len() == 7,
        frame_actions().first() == Action::MeasureFrameTime,
        frame_actions().index_of(Action::Dispatch) < frame_actions().index_of(Action::Present),
        frame_actions().index_of(Action::Present) < frame_actions().index_of(
            Action::IntegrateCamera,
        ),
        frame_actions().index_of(Action::IntegrateCamera) < frame_actions().index_of(
            Action::WriteCamera,
        ),
        frame_actions().index_of(Action::WriteCamera) < frame_actions().index_of(Action::WriteSeed),
        frame_actions().last() == Action::RequestRedraw,
        forall|i: int, j: int|
            0 <= i < j < 7 ==> #[trigger] frame_actions()[i] != #[trigger] frame_actions()[j],
        (frame_actions() + frame_actions())[4] == Action::WriteCamera,
        (frame_actions() + frame_actions())[5] == Action::WriteSeed,
        (frame_actions() + frame_actions())[8] == Action::Dispatch,
{
    let f = frame_actions();
    assert(f[0] == Action::MeasureFrameTime);
    assert(f[1] == Action::Dispatch);
    assert(f[2] == Action::Present);
    assert(f[3] == Action::IntegrateCamera);
    assert(f[4] == Action::WriteCamera);
    assert(f[5] == Action::WriteSeed);
    assert(f[6] == Action::RequestRedraw);
    assert forall|a: Action, k: int| 0 <= k < 7 && f[k] == a implies f.index_of(a) == k by {
        assert(f.contains(a));
        let found = f.index_of(a);
        assert(0 <= found < 7 && f[found] == a);
    }
}

/// A running loop keeps itself going: whatever else a redraw does, it ends
/// by asking for the next one; and a close request always ends the loop.
pub proof fn lemma_loop_is_self_perpetuating(running: bool)
    ensures
        actions_for(true, WindowEvent::RedrawRequested).last() == Action::RequestRedraw,
        actions_for(running, WindowEvent::CloseRequested) == seq![Action::Exit],
        !actions_for(false, WindowEvent::RedrawRequested).contains(Action::RequestRedraw),
{
}

/// What the loop does for a window event. Before the session has started
/// there is nothing to drive, and only a request to close is followed.
pub open spec fn actions_for(running: bool, event: WindowEvent) -> Seq<Action> {
    match event {
        WindowEvent::CloseRequested => seq![Action::Exit],
        WindowEvent::Resized(size) => if running {
            seq![Action::ConfigureSurface, Action::ResizeCamera(size)]
        } else {
            seq![]
        },
        WindowEvent::RedrawRequested => if running {
            frame_actions()
        } else {
            seq![]
        },
        WindowEvent::Other => seq![],
    }
}

/// The controller after a device event.
pub open spec fn controller_after(state: ControllerState, event: DeviceEvent) -> ControllerState {
    match event {
        DeviceEvent::Key { key, state: pressed } => state.after_key(key, pressed),
        DeviceEvent::MouseMotion { dx, dy } => state.after_motion(dx, dy),
        DeviceEvent::Button { button, state: pressed } => state.after_button(button, pressed),
        DeviceEvent::MouseWheel { amount } => state.after_scroll(amount),
        DeviceEvent::Other => state,
    }
}

impl Session {
    /// What a new session holds; its timer is at the start of its first lap.
    pub open spec fn starts_from(self, startup: Startup) -> bool {
        &&& self.init == Init::configured(startup.size)
        &&& self.compute_state.camera_uniform == ComputeState::initial_uniform(
            startup.forward,
            startup.aspect_ratio,
        )
        &&& self.compute_state.env_dimensions == startup.env_dimensions
        &&& self.fragment_state == (RenderState { num_indices: QUAD_INDICES })
        &&& self.controller@ == ControllerState::initial(
            Scalar { bits: SPEED_BITS },
            Scalar { bits: SENSITIVITY_BITS },
        )
        &&& self.scene.camera == (Camera {
            position: start_position(),
            pitch: startup.pitch,
            yaw: startup.yaw,
        })
        &&& self.timer.last_render_time == 0
    }

    /// A session at its start: the surface configured, then the two sides of
    /// the renderer, then controller, scene and timer.
    pub fn new(startup: Startup) -> (session: Session)
        ensures
            session.starts_from(startup),
    {
        let init = Init::new(startup.size);
        let compute_state = ComputeState::new(
            startup.forward,
            startup.aspect_ratio,
            startup.env_dimensions,
        );
        let fragment_state = RenderState::new();
        let controller = CameraController::new(
            Scalar { bits: SPEED_BITS },
            Scalar { bits: SENSITIVITY_BITS },
        );
        let scene = Scene::new(startup.yaw, startup.pitch);
        let timer = Timer::new();
        Session { init, compute_state, fragment_state, controller, scene, timer }
    }
}

impl App {
    pub open spec fn is_running(self) -> bool {
        self is Running
    }

    /// The session of a running loop.
    pub open spec fn session(self) -> Session
        recommends
            self.is_running(),
    {
        self->Running_0
    }

    /// A loop that waits for its surface.
    pub fn new() -> (app: App)
        ensures
            !app.is_running(),
    {
        App::Uninitialized
    }

    /// The surface is ready. A waiting loop starts its session and returns
    /// `true`; a running one is left as it is.
    pub fn resumed(&mut self, startup: Startup) -> (started: bool)
        ensures
            started == !old(self).is_running(),
            final(self).is_running(),
            started ==> final(self).session().starts_from(startup),
            !started ==> *final(self) == *old(self),
    {
        match self {
            App::Uninitialized => {
                *self = App::Running(Session::new(startup));
                true
            },
            App::Running(_) => false,
        }
    }

    /// Takes a window event and returns what the host is to do, in order. A
    /// resize enters the session's surface configuration; nothing else
    /// changes.
    pub fn window_event(&mut self, event: WindowEvent) -> (actions: Vec<Action>)
        ensures
            actions@ == actions_for(old(self).is_running(), event),
            final(self).is_running() == old(self).is_running(),
            match (*old(self), event) {
                (App::Running(before), WindowEvent::Resized(size)) => {
                    &&& final(self).session().init.size == size
                    &&& final(self).session().init.config.width == size.width
                    &&& final(self).session().init.config.height == size.height
                    &&& final(self).session().init.config.desired_maximum_frame_latency
                        == before.init.config.desired_maximum_frame_latency
                    &&& final(self).session().compute_state == before.compute_state
                    &&& final(self).session().fragment_state == before.fragment_state
                    &&& final(self).session().controller == before.controller
                    &&& final(self).session().scene == before.scene
                    &&& final(self).session().timer == before.timer
                },
                _ => *final(self) == *old(self),
            },
    {
        let mut actions: Vec<Action> = Vec::new();
        match event {
            WindowEvent::CloseRequested => {
                actions.push(Action::Exit);
            },
            WindowEvent::Resized(size) => {
                match self {
                    App::Running(session) => {
                        session.init.resize(size);
                        actions.push(Action::ConfigureSurface);
                        actions.push(Action::ResizeCamera(size));
                    },
                    App::Uninitialized => {},
                }
            },
            WindowEvent::RedrawRequested => {
                match self {
                    App::Running(_) => {
                        actions.push(Action::MeasureFrameTime);
                        actions.push(Action::Dispatch);
                        actions.push(Action::Present);
                        actions.push(Action::IntegrateCamera);
                        actions.push(Action::WriteCamera);
                        actions.push(Action::WriteSeed);
                        actions.push(Action::RequestRedraw);
                    },
                    App::Uninitialized => {},
                }
            },
            WindowEvent::Other => {},
        }
        assert(actions@ =~= actions_for(old(self).is_running(), event));
        actions
    }

    /// Takes a device event. A running loop hands it to its controller and
    /// returns `true`; a waiting one drops it.
    pub fn device_event(&mut self, event: DeviceEvent) -> (taken: bool)
        ensures
            taken == old(self).is_running(),
            final(self).is_running() == old(self).is_running(),
            match *old(self) {
                App::Running(before) => {
                    &&& final(self).session().controller@ == controller_after(
                        before.controller@,
                        event,
                    )
                    &&& final(self).session().init == before.init
                    &&& final(self).session().compute_state == before.compute_state
                    &&& final(self).session().fragment_state == before.fragment_state
                    &&& final(self).session().scene == before.scene
                    &&& final(self).session().timer == before.timer
                },
                App::Uninitialized => *final(self) == *old(self),
            },
    {
        match self {
            App::Running(session) => {
                match event {
                    DeviceEvent::Key { key, state } => {
                        session.controller.process_keyboard(key, state);
                    },
                    DeviceEvent::MouseMotion { dx, dy } => {
                        session.controller.process_mouse(dx, dy);
                    },
                    DeviceEvent::Button { button, state } => {
                        session.controller.process_mouse_button(button, state);
                    },
                    DeviceEvent::MouseWheel { amount } => {
                        session.controller.process_scroll(amount);
                    },
                    DeviceEvent::Other => {},
                }
                true
            },
            App::Uninitialized => false,
        }
    }
}

} // verus!
