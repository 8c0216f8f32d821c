//! The compositor: the calls of the application that make up its frames.

use vstd::prelude::*;

use crate::action::Action;
use crate::action::Outcome;
use crate::controller::CompositorSessionData;
use crate::controller::FrameController;
use crate::controller::TempBackendData;
use crate::frame_state::FrameState;
use crate::poses::GetLastPoses;
use crate::swapchain::SwapchainCreateInfo;
use crate::texture::EVRCompositorError;
use crate::texture::EVRCompositorTimingMode;
use crate::texture::EVREye;
use crate::texture::Texture;
use crate::texture::TextureBounds;

#[allow(unused_imports)]
use crate::poses::pose_actions;

#[allow(unused_imports)]
use crate::history::Step;

verus! {

/// How many frames were handed to the runtime, and when the last one was: the time since the
/// compositor started, in seconds, as the bit pattern of a double-precision number.
#[derive(Clone, Copy, Debug, PartialEq, Eq)]
pub struct FrameMetrics {
    pub index: u32,
    pub time: u64,
}

/// What a `Submit` that is under way waits for.
#[derive(Clone, Copy, Debug, PartialEq, Eq)]
pub enum SubmitStage {
    /// A graphics backend for the first texture.
    OpeningBackend,
    /// A session for the new graphics backend.
    RestartingSession,
    /// Whether the graphics backend can read the texture.
    ResolvingTexture,
    /// The swapchain that the texture needs.
    DescribingTexture,
    /// The format of a new swapchain.
    CheckingFormat { info: SwapchainCreateInfo },
    /// The first image of a new swapchain.
    AcquiringImage,
    /// The copy of the texture.
    CopyingTexture,
}

/// A `Submit` that is under way.
#[derive(Clone, Copy, Debug, PartialEq, Eq)]
pub struct Submission {
    pub eye: EVREye,
    pub texture: Texture,
    pub bounds: TextureBounds,
    pub submit_flags: i32,
    pub stage: SubmitStage,
}

impl Submission {
    pub open spec fn spec_at(self, stage: SubmitStage) -> Submission {
        Submission { stage, ..self }
    }
}

/// The compositor. `B` is the graphics backend of the host, which the library only hands on.
#[derive(Debug)]
pub struct Compositor<B> {
    /// What belongs to the current session.
    pub session: CompositorSessionData<B>,
    /// The graphics backend between two sessions.
    pub tmp_backend: Option<TempBackendData<B>>,
    pub metrics: FrameMetrics,
    pub timing_mode: EVRCompositorTimingMode,
    pub frame_state: FrameState,
    /// The application has waited for a frame at least once.
    pub focused: bool,
    /// When the frame that was waited for last will be shown, in nanoseconds.
    pub display_time: i64,
    /// A `WaitGetPoses` that asks for this many poses waits for the events of the runtime.
    pub polling: Option<u32>,
    /// The answer to a `WaitFrame` is outstanding.
    pub awaiting_frame: bool,
    /// The swapchain of a new session is being made with these parameters.
    pub restart_info: Option<SwapchainCreateInfo>,
    /// The `Submit` that is under way.
    pub submission: Option<Submission>,
}

/// In this mode `WaitGetPoses` hands the frame before over.
pub open spec fn waits_present(mode: EVRCompositorTimingMode) -> bool {
    mode is Implicit || mode is Explicit_RuntimePerformsPostPresentHandoff
}

/// The number of the next frame: after the largest number the count starts again at zero.
pub open spec fn next_index(index: u32) -> u32 {
    if index == u32::MAX {
        0
    } else {
        (index + 1) as u32
    }
}

impl<B> Compositor<B> {
    /// The session has a controller for its frames.
    pub open spec fn has_controller(self) -> bool {
        self.session.0 is Some
    }

    pub open spec fn controller(self) -> FrameController<B> {
        self.session.0->0
    }

    pub open spec fn with_controller(self, controller: FrameController<B>) -> Compositor<B> {
        Compositor { session: CompositorSessionData(Some(controller)), ..self }
    }

    /// No answer is outstanding: the application can make its next call.
    pub open spec fn idle(self) -> bool {
        self.polling is None && self.is_quiet() && self.submission is None
    }

    /// Neither a frame nor the swapchain of a new session is waited for.
    pub open spec fn is_quiet(self) -> bool {
        !self.awaiting_frame && self.restart_info is None
    }

    /// The session can be replaced: nothing is under way but, perhaps, the handling of events, or a
    /// `Submit` that waits for just this.
    pub open spec fn may_restart(self) -> bool {
        &&& self.is_quiet()
        &&& self.submission is Some ==> self.submission->0.stage is RestartingSession
    }

    /// The frames of the session agree with the step of the cycle: a begun frame has an image for
    /// every texture that is still to come, and what was submitted to be shown can be shown.
    pub open spec fn frame_wf(self) -> bool {
        self.has_controller() && self.restart_info is None && self.frame_state is Begun ==> {
            &&& self.controller().image_ready()
            &&& self.controller().can_show()
            &&& self.awaiting_frame ==> !self.controller().eyes_submitted.any()
        }
    }

    /// The swapchain of a new session is made before the session has any frame.
    pub open spec fn restart_wf(self) -> bool {
        self.restart_info is Some ==> {
            &&& self.restart_info->0.has_area()
            &&& self.has_controller()
            &&& self.controller() == FrameController::fresh(self.controller().backend, None)
            &&& !self.awaiting_frame
        }
    }

    /// A `Submit` that is under way has the controller, the swapchain and the answers that its
    /// stage builds on.
    pub open spec fn submission_wf(self) -> bool {
        self.submission is Some ==> {
            let s = self.submission->0;
            let c = self.controller();
            &&& s.bounds.is_valid()
            &&& self.focused
            &&& self.polling is None
            &&& !(s.stage is RestartingSession) ==> self.is_quiet()
            &&& match s.stage {
                SubmitStage::OpeningBackend => !self.has_controller(),
                SubmitStage::RestartingSession => true,
                SubmitStage::ResolvingTexture => self.has_controller(),
                SubmitStage::DescribingTexture => {
                    &&& self.has_controller()
                    &&& c.eyes_submitted.at(s.eye) is None
                    &&& c.should_render
                },
                SubmitStage::CheckingFormat { info } => {
                    &&& self.has_controller()
                    &&& c.eyes_submitted.at(s.eye) is None
                    &&& c.should_render
                    &&& !c.submitting_null
                    &&& info.has_area()
                },
                SubmitStage::AcquiringImage | SubmitStage::CopyingTexture => {
                    &&& self.has_controller()
                    &&& c.eyes_submitted.at(s.eye) is None
                    &&& c.should_render
                    &&& !c.submitting_null
                    &&& c.swapchain_data is Some
                },
            }
        }
    }

    /// What every call keeps.
    pub open spec fn wf(self) -> bool {
        &&& self.has_controller() ==> self.controller().wf()
        &&& self.awaiting_frame ==> self.has_controller()
        &&& self.frame_wf()
        &&& self.restart_wf()
        &&& self.submission_wf()
    }

    /// The compositor after waiting for the next frame.
    pub open spec fn waited(self) -> Compositor<B> {
        Compositor {
            frame_state: self.frame_state.advanced(FrameState::Waited),
            awaiting_frame: self.has_controller(),
            ..self
        }
    }

    pub open spec fn wait_actions(self) -> Seq<Action> {
        if self.has_controller() {
            seq![Action::WaitFrame]
        } else {
            seq![]
        }
    }

    /// The compositor after beginning the frame that was waited for. If none was, nothing happens.
    pub open spec fn begun(self) -> Compositor<B> {
        if self.frame_state is Waited {
            let next = Compositor { frame_state: FrameState::Begun, ..self };
            if self.has_controller() {
                next.with_controller(self.controller().begun())
            } else {
                next
            }
        } else {
            self
        }
    }

    pub open spec fn begin_actions(self) -> Seq<Action> {
        if self.frame_state is Waited && self.has_controller() {
            self.controller().begin_actions()
        } else {
            seq![]
        }
    }

    /// There is a begun frame to hand over.
    pub open spec fn can_present(self) -> bool {
        self.has_controller() && self.frame_state is Begun
    }

    /// The compositor after handing the begun frame over. If there is none, nothing happens.
    pub open spec fn presented(self) -> Compositor<B> {
        if self.can_present() {
            Compositor {
                frame_state: FrameState::Submitted,
                metrics: FrameMetrics { index: next_index(self.metrics.index), ..self.metrics },
                ..self
            }
        } else {
            self
        }
    }

    pub open spec fn present_actions(self) -> Seq<Action> {
        if self.can_present() {
            seq![
                Action::EndFrame {
                    display_time: self.display_time,
                    eyes: self.controller().shown_eyes(),
                    fade_grid: self.controller().app_fade_grid,
                },
            ]
        } else {
            seq![]
        }
    }

    /// The compositor of a session that has just begun, brought back to the step of the cycle that
    /// the application had reached before.
    pub open spec fn replayed(self) -> Compositor<B> {
        let start = Compositor { frame_state: FrameState::Submitted, ..self };
        match self.frame_state {
            FrameState::Submitted => start,
            FrameState::Waited => start.waited(),
            FrameState::Begun => start.waited().begun(),
        }
    }

    pub open spec fn replay_actions(self) -> Seq<Action> {
        let start = Compositor { frame_state: FrameState::Submitted, ..self };
        match self.frame_state {
            FrameState::Submitted => seq![],
            FrameState::Waited => start.wait_actions(),
            FrameState::Begun => start.wait_actions() + start.waited().begin_actions(),
        }
    }

    /// A compositor before the first frame. `display_time` is the display time of the frame that
    /// has not been waited for yet.
    pub fn new(display_time: i64) -> (compositor: Compositor<B>)
        ensures
            compositor.wf(),
            compositor.idle(),
            !compositor.has_controller(),
            compositor.tmp_backend is None,
            compositor.metrics == (FrameMetrics { index: 0, time: 0 }),
            compositor.timing_mode is Implicit,
            compositor.frame_state is Submitted,
            !compositor.focused,
            compositor.display_time == display_time,
    {
        Compositor {
            session: CompositorSessionData::default(),
            tmp_backend: None,
            metrics: FrameMetrics { index: 0, time: 0 },
            timing_mode: EVRCompositorTimingMode::Implicit,
            frame_state: FrameState::Submitted,
            focused: false,
            display_time,
            polling: None,
            awaiting_frame: false,
            restart_info: None,
            submission: None,
        }
    }

    /// Waits for the next frame. Where one is waited for already, the runtime is asked once more.
    pub(crate) fn maybe_wait_frame(&mut self, actions: &mut Vec<Action>)
        requires
            old(self).wf(),
            old(self).may_restart(),
        ensures
            *final(self) == old(self).waited(),
            final(self).frame_state is Waited,
            final(self).wf(),
            final(actions)@ == old(actions)@ + old(self).wait_actions(),
    {
        self.frame_state.advance_to(FrameState::Waited);
        if self.session.0.is_some() {
            self.awaiting_frame = true;
            actions.push(Action::WaitFrame);
        }
    }

    /// Begins the frame that was waited for, if there is one.
    pub(crate) fn maybe_begin_frame(&mut self, actions: &mut Vec<Action>)
        requires
            old(self).wf(),
            old(self).restart_info is None,
            old(self).submission is Some ==> old(self).submission->0.stage is RestartingSession,
        ensures
            *final(self) == old(self).begun(),
            final(self).wf(),
            final(actions)@ == old(actions)@ + old(self).begin_actions(),
    {
        if self.frame_state.advance_to(FrameState::Begun) {
            match &mut self.session.0 {
                Some(controller) => {
                    let mut begin: Vec<Action> = controller.begin_frame();
                    actions.append(&mut begin);
                },
                None => {},
            }
        }
    }

    /// Hands the begun frame over, if there is one. To be called for every frame by an application
    /// that has taken this on in its timing mode.
    #[allow(non_snake_case)]
    pub fn PostPresentHandoff(&mut self) -> (actions: Vec<Action>)
        requires
            old(self).wf(),
            old(self).idle(),
        ensures
            *final(self) == old(self).take_step(Step::PostPresentHandoff).0,
            actions@ == old(self).take_step(Step::PostPresentHandoff).1,
            *final(self) == old(self).presented(),
            final(self).wf(),
            final(self).idle(),
            actions@ == old(self).present_actions(),
    {
        let mut actions: Vec<Action> = Vec::new();
        match &self.session.0 {
            Some(controller) => {
                if self.frame_state == FrameState::Begun {
                    actions.push(
                        Action::EndFrame {
                            display_time: self.display_time,
                            eyes: controller.end_frame(),
                            fade_grid: controller.app_fade_grid,
                        },
                    );
                    self.frame_state.advance_to(FrameState::Submitted);
                    self.metrics.index = self.metrics.index.wrapping_add(1);
                }
            },
            None => {},
        }
        actions
    }

    /// Notes when the frame was handed over; the answer to `EndFrame`. `time` is the time since the
    /// compositor started, in seconds, as the bit pattern of a double-precision number.
    pub fn frame_presented(&mut self, time: u64)
        requires
            old(self).wf(),
        ensures
            *final(self) == old(self).take_step(Step::FramePresented { time }).0,
            *final(self) == (Compositor {
                metrics: FrameMetrics { time, ..old(self).metrics },
                ..*old(self)
            }),
            final(self).wf(),
    {
        self.metrics.time = time;
    }

    /// The answer to `WaitFrame`: whether the runtime wants the frame to be rendered, and when it
    /// will be shown.
    pub fn frame_waited(&mut self, should_render: bool, display_time: i64)
        requires
            old(self).wf(),
            old(self).awaiting_frame,
        ensures
            *final(self) == old(self).take_step(Step::FrameWaited { should_render, display_time }).0,
            *final(self) == (Compositor {
                awaiting_frame: false,
                display_time,
                ..*old(self)
            }).with_controller(
                FrameController {
                    should_render: should_render && !old(self).controller().app_suspend_render,
                    ..old(self).controller()
                },
            ),
            final(self).wf(),
    {
        self.awaiting_frame = false;
        self.display_time = display_time;
        match &mut self.session.0 {
            Some(controller) => {
                controller.wait_frame(should_render);
            },
            None => {},
        }
    }

    /// The compositor after `WaitGetPoses` has gone on to the next frame, and the calls of the
    /// runtime in between: the frame before is handed over, unless the application does that; a
    /// frame that was waited for and never begun is discarded by beginning it; the next frame is
    /// waited for, and begun, unless the application announces that.
    pub open spec fn frame_cycle(self) -> (Compositor<B>, Seq<Action>) {
        let focused = Compositor { focused: true, ..self };
        let (handed, a) = if waits_present(self.timing_mode) {
            (focused.presented(), focused.present_actions())
        } else {
            (focused, seq![])
        };
        let (discarded, b) = (handed.begun(), handed.begin_actions());
        let (waited, c) = (discarded.waited(), discarded.wait_actions());
        if self.timing_mode is Implicit {
            (waited.begun(), a + b + c + waited.begin_actions())
        } else {
            (waited, a + b + c)
        }
    }

    fn next_frame(&mut self) -> (actions: Vec<Action>)
        requires
            old(self).wf(),
            old(self).idle(),
        ensures
            *final(self) == old(self).frame_cycle().0,
            final(self).wf(),
            actions@ == old(self).frame_cycle().1,
    {
        self.focused = true;
        let timing_mode = self.timing_mode;
        let mut actions: Vec<Action> = match timing_mode {
            EVRCompositorTimingMode::Implicit
            | EVRCompositorTimingMode::Explicit_RuntimePerformsPostPresentHandoff => {
                self.PostPresentHandoff()
            },
            EVRCompositorTimingMode::Explicit_ApplicationPerformsPostPresentHandoff => Vec::new(),
        };
        self.maybe_begin_frame(&mut actions);
        self.maybe_wait_frame(&mut actions);
        if timing_mode == EVRCompositorTimingMode::Implicit {
            self.maybe_begin_frame(&mut actions);
        }
        actions
    }

    /// Takes the application to its next frame and gives it `render_pose_count` poses. The events
    /// of the runtime have to be handled regularly, so this comes first in every frame.
    #[allow(non_snake_case)]
    pub fn WaitGetPoses(&mut self, render_pose_count: u32) -> (outcome: Outcome)
        requires
            old(self).wf(),
            old(self).idle(),
        ensures
            *final(self) == old(self).take_step(Step::WaitGetPoses { render_pose_count }).0,
            outcome.actions@ == old(self).take_step(Step::WaitGetPoses { render_pose_count }).1,
            *final(self) == (Compositor { polling: Some(render_pose_count), ..*old(self) }),
            final(self).wf(),
            final(self).may_restart(),
            outcome.is_waiting_for(Action::PollEvents),
    {
        self.polling = Some(render_pose_count);
        Outcome::waiting_for(Action::PollEvents)
    }

    /// The answer to `PollEvents`: the pending events of the runtime were handled. The session may
    /// be another one now.
    pub fn events_polled(&mut self) -> (outcome: Outcome)
        requires
            old(self).wf(),
            old(self).polling is Some,
            old(self).is_quiet(),
        ensures
            *final(self) == old(self).take_step(Step::EventsPolled).0,
            outcome.actions@ == old(self).take_step(Step::EventsPolled).1,
            *final(self) == (Compositor { polling: None, ..*old(self) }).frame_cycle().0,
            final(self).wf(),
            outcome.actions@ == (Compositor { polling: None, ..*old(self) }).frame_cycle().1
                + seq![Action::ResetViews, Action::StartInputFrame] + pose_actions(
                old(self).polling->0,
            ),
            outcome.result == Some(EVRCompositorError::NoError),
    {
        let render_pose_count: u32 = self.polling.take().unwrap();
        let mut actions: Vec<Action> = self.next_frame();
        actions.push(Action::ResetViews);
        actions.push(Action::StartInputFrame);
        let mut poses = GetLastPoses(render_pose_count);
        actions.append(&mut poses.actions);
        Outcome { actions, result: poses.result }
    }

    /// Announces that the application begins to render the frame that was waited for. Only for
    /// explicit timing. An application that has not waited for any frame yet is not told off.
    #[allow(non_snake_case)]
    pub fn SubmitExplicitTimingData(&mut self) -> (outcome: Outcome)
        requires
            old(self).wf(),
            old(self).idle(),
        ensures
            *final(self) == old(self).take_step(Step::SubmitExplicitTimingData).0,
            outcome.actions@ == old(self).take_step(Step::SubmitExplicitTimingData).1,
            final(self).wf(),
            final(self).idle(),
            old(self).timing_mode is Implicit ==> {
                &&& *final(self) == *old(self)
                &&& outcome.is_done(EVRCompositorError::RequestFailed)
            },
            !(old(self).timing_mode is Implicit) && !old(self).focused ==> {
                &&& *final(self) == *old(self)
                &&& outcome.is_done(EVRCompositorError::NoError)
            },
            !(old(self).timing_mode is Implicit) && old(self).focused ==> {
                &&& *final(self) == old(self).begun()
                &&& outcome.actions@ == old(self).begin_actions()
                &&& outcome.result == Some(EVRCompositorError::NoError)
            },
    {
        if self.timing_mode == EVRCompositorTimingMode::Implicit {
            return Outcome::done(EVRCompositorError::RequestFailed);
        }
        if !self.focused {
            return Outcome::done(EVRCompositorError::NoError);
        }
        let mut actions: Vec<Action> = Vec::new();
        self.maybe_begin_frame(&mut actions);
        Outcome { actions, result: Some(EVRCompositorError::NoError) }
    }

    /// Sets who begins the frames and who hands them over.
    #[allow(non_snake_case)]
    pub fn SetExplicitTimingMode(&mut self, timing_mode: EVRCompositorTimingMode)
        requires
            old(self).wf(),
        ensures
            *final(self) == old(self).take_step(Step::SetExplicitTimingMode { timing_mode }).0,
            *final(self) == (Compositor { timing_mode, ..*old(self) }),
            final(self).wf(),
    {
        self.timing_mode = timing_mode;
    }

    /// Sets the timing mode as older applications do, which know only two: explicit timing stands
    /// for the mode in which the application does both.
    pub fn set_explicit_timing(&mut self, explicit: bool)
        requires
            old(self).wf(),
        ensures
            *final(self) == (Compositor {
                timing_mode: if explicit {
                    EVRCompositorTimingMode::Explicit_ApplicationPerformsPostPresentHandoff
                } else {
                    EVRCompositorTimingMode::Implicit
                },
                ..*old(self)
            }),
            final(self).wf(),
    {
        let mode = if explicit {
            EVRCompositorTimingMode::Explicit_ApplicationPerformsPostPresentHandoff
        } else {
            EVRCompositorTimingMode::Implicit
        };
        self.SetExplicitTimingMode(mode);
    }

    /// The session with another controller of its frames, if it has one.
    pub open spec fn if_controlled(self, controller: FrameController<B>) -> Compositor<B> {
        if self.has_controller() {
            self.with_controller(controller)
        } else {
            self
        }
    }

    /// Lets the application suspend rendering, from the next frame that is waited for.
    #[allow(non_snake_case)]
    pub fn SuspendRendering(&mut self, suspend: bool)
        requires
            old(self).wf(),
            old(self).restart_info is None,
        ensures
            *final(self) == old(self).take_step(Step::SuspendRendering { suspend }).0,
            *final(self) == old(self).if_controlled(
                FrameController { app_suspend_render: suspend, ..old(self).controller() },
            ),
            final(self).wf(),
    {
        match &mut self.session.0 {
            Some(controller) => {
                controller.app_suspend_render = suspend;
            },
            None => {},
        }
    }

    /// Lets the application fade to the grid, or back to its scene.
    #[allow(non_snake_case)]
    pub fn FadeGrid(&mut self, fade_in: bool)
        requires
            old(self).wf(),
            old(self).restart_info is None,
        ensures
            *final(self) == old(self).take_step(Step::FadeGrid { fade_in }).0,
            *final(self) == old(self).if_controlled(
                FrameController { app_fade_grid: fade_in, ..old(self).controller() },
            ),
            final(self).wf(),
    {
        match &mut self.session.0 {
            Some(controller) => {
                controller.app_fade_grid = fade_in;
            },
            None => {},
        }
    }
}

} // verus!
