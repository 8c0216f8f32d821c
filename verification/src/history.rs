//! Any sequence of calls of the application and answers of the host, and the proof that the
//! runtime accepts all that the compositor asks of it on the way.

use vstd::prelude::*;

use crate::action::Action;
use crate::compositor::Compositor;
use crate::compositor::FrameMetrics;
use crate::compositor::Submission;
use crate::compositor::SubmitStage;
use crate::controller::FrameController;
use crate::controller::TempBackendData;
use crate::poses::pose_actions;
use crate::projection::Extent2Di;
use crate::projection::SubmittedEye;
use crate::runtime::law_explicit_begin_keeps_the_order;
use crate::runtime::law_first_swapchain_keeps_the_order;
use crate::runtime::law_handoff_keeps_the_order;
use crate::runtime::law_new_swapchain_keeps_the_order;
use crate::runtime::law_restart_keeps_the_order;
use crate::runtime::law_submitted_eye_keeps_the_order;
use crate::runtime::law_wait_get_poses_keeps_the_order;
use crate::runtime::lemma_single;
use crate::runtime::RuntimeSession;
use crate::submit::bounds_or_full;
use crate::submit::refusal;
use crate::swapchain::SwapchainCreateInfo;
use crate::texture::EVRCompositorTimingMode;
use crate::texture::EVREye;
use crate::texture::Texture;
use crate::texture::TextureBounds;

verus! {

/// A call of the application or an answer of the host.
pub enum Step<B> {
    WaitGetPoses { render_pose_count: u32 },
    EventsPolled,
    FrameWaited { should_render: bool, display_time: i64 },
    FramePresented { time: u64 },
    SubmitExplicitTimingData,
    PostPresentHandoff,
    SetExplicitTimingMode { timing_mode: EVRCompositorTimingMode },
    SuspendRendering { suspend: bool },
    FadeGrid { fade_in: bool },
    Submit {
        eye: EVREye,
        texture: Option<Texture>,
        bounds: Option<TextureBounds>,
        submit_flags: i32,
    },
    BackendOpened { backend: Option<B>, info: Option<SwapchainCreateInfo> },
    SessionRestarted,
    TextureResolved { readable: bool },
    TextureDescribed { needed: SwapchainCreateInfo },
    FormatChecked { format: i64 },
    ImageAcquired { image_index: u32 },
    TextureCopied { extent: Extent2Di },
    InitializeRealSession { backend: Option<B>, info: Option<SwapchainCreateInfo> },
    GetSessionCreateInfo,
    PostSessionRestart,
}

impl<B> Compositor<B> {
    /// The step is possible: a call where no answer is outstanding, or an answer that is.
    pub open spec fn may_take(self, step: Step<B>) -> bool {
        match step {
            Step::WaitGetPoses { .. } => self.idle(),
            Step::EventsPolled => self.polling is Some && self.is_quiet(),
            Step::FrameWaited { .. } => self.awaiting_frame,
            Step::FramePresented { .. } => true,
            Step::SubmitExplicitTimingData => self.idle(),
            Step::PostPresentHandoff => self.idle(),
            Step::SetExplicitTimingMode { .. } => true,
            Step::SuspendRendering { .. } => self.restart_info is None,
            Step::FadeGrid { .. } => self.restart_info is None,
            Step::Submit { .. } => self.idle(),
            Step::BackendOpened { .. } => self.submitting_at(SubmitStage::OpeningBackend),
            Step::SessionRestarted => {
                &&& self.submitting_at(SubmitStage::RestartingSession)
                &&& self.has_controller()
                &&& self.is_quiet()
            },
            Step::TextureResolved { .. } => self.submitting_at(SubmitStage::ResolvingTexture),
            Step::TextureDescribed { needed: info } => {
                &&& self.submitting_at(SubmitStage::DescribingTexture)
                &&& !(self.controller().submitting_null && info.has_area())
            },
            Step::FormatChecked { .. } => self.restart_info is Some || self.checking_format(),
            Step::ImageAcquired { .. } => self.has_controller() && self.restart_info is None,
            Step::TextureCopied { .. } => self.submitting_at(SubmitStage::CopyingTexture),
            Step::InitializeRealSession { .. } => true,
            Step::GetSessionCreateInfo => {
                &&& self.may_restart()
                &&& self.tmp_backend is Some || self.has_controller()
            },
            Step::PostSessionRestart => self.may_restart() && self.tmp_backend is Some,
        }
    }

    /// A `Submit` waits for the format of a new swapchain.
    pub open spec fn checking_format(self) -> bool {
        self.submission is Some && self.submission->0.stage is CheckingFormat
    }

    /// A `Submit` waits for the copy of its texture, or for the image that it goes to.
    pub open spec fn copying(self) -> bool {
        self.submitting_at(SubmitStage::AcquiringImage) || self.submitting_at(
            SubmitStage::CopyingTexture,
        )
    }

    /// The step has a texture copied into the image of the frame that is there, or completes the
    /// frame without a copy, so that the image is released.
    pub open spec fn needs_image(self, step: Step<B>) -> bool {
        match step {
            Step::TextureResolved { readable } => {
                &&& readable && !self.already_submitted()
                &&& !self.controller().should_render && self.completes_frame()
            },
            Step::TextureDescribed { needed: info } => if info.has_area() {
                self.controller().has_room_for(info)
            } else {
                self.completes_frame()
            },
            _ => false,
        }
    }

    /// The compositor after the step, and what it asks of the host.
    pub open spec fn take_step(self, step: Step<B>) -> (Compositor<B>, Seq<Action>) {
        match step {
            Step::WaitGetPoses { render_pose_count } => (
                Compositor { polling: Some(render_pose_count), ..self },
                seq![Action::PollEvents],
            ),
            Step::EventsPolled => {
                let (next, actions) = (Compositor { polling: None, ..self }).frame_cycle();
                (
                    next,
                    actions + seq![Action::ResetViews, Action::StartInputFrame] + pose_actions(
                        self.polling->0,
                    ),
                )
            },
            Step::FrameWaited { should_render, display_time } => (
                (Compositor { awaiting_frame: false, display_time, ..self }).with_controller(
                    FrameController {
                        should_render: should_render && !self.controller().app_suspend_render,
                        ..self.controller()
                    },
                ),
                seq![],
            ),
            Step::FramePresented { time } => (
                Compositor { metrics: FrameMetrics { time, ..self.metrics }, ..self },
                seq![],
            ),
            Step::SubmitExplicitTimingData => if self.timing_mode is Implicit || !self.focused {
                (self, seq![])
            } else {
                (self.begun(), self.begin_actions())
            },
            Step::PostPresentHandoff => (self.presented(), self.present_actions()),
            Step::SetExplicitTimingMode { timing_mode } => (
                Compositor { timing_mode, ..self },
                seq![],
            ),
            Step::SuspendRendering { suspend } => (
                self.if_controlled(
                    FrameController { app_suspend_render: suspend, ..self.controller() },
                ),
                seq![],
            ),
            Step::FadeGrid { fade_in } => (
                self.if_controlled(
                    FrameController { app_fade_grid: fade_in, ..self.controller() },
                ),
                seq![],
            ),
            Step::Submit { eye, texture, bounds, submit_flags } => {
                let bounds_used = bounds_or_full(bounds);
                let submission = Submission {
                    eye,
                    texture: texture->0,
                    bounds: bounds_used,
                    submit_flags,
                    stage: SubmitStage::ResolvingTexture,
                };
                if refusal(self.focused, texture, bounds) is Some {
                    (self, seq![])
                } else if self.has_controller() {
                    (
                        Compositor { submission: Some(submission), ..self },
                        seq![Action::ResolveTexture { texture: texture->0 }],
                    )
                } else {
                    (
                        Compositor {
                            submission: Some(submission.spec_at(SubmitStage::OpeningBackend)),
                            ..self
                        },
                        seq![Action::OpenBackend { texture: texture->0, bounds: bounds_used }],
                    )
                }
            },
            Step::BackendOpened { backend, info } => if backend is Some && info is Some {
                (
                    Compositor {
                        tmp_backend: Some(
                            TempBackendData { backend: backend->0, swapchain_create_info: info },
                        ),
                        ..self.at_stage(SubmitStage::RestartingSession)
                    },
                    seq![Action::RestartSession],
                )
            } else {
                (self.without_submission(), seq![])
            },
            Step::SessionRestarted => (
                self.at_stage(SubmitStage::ResolvingTexture),
                seq![Action::ResolveTexture { texture: self.submission->0.texture }],
            ),
            Step::TextureResolved { readable } => if !readable || self.already_submitted() {
                (self.without_submission(), seq![])
            } else if !self.controller().should_render {
                self.submitted_blank()
            } else {
                (
                    self.at_stage(SubmitStage::DescribingTexture),
                    seq![
                        Action::DescribeTexture {
                            texture: self.submission->0.texture,
                            bounds: self.submission->0.bounds,
                        },
                    ],
                )
            },
            Step::TextureDescribed { needed: info } => if !info.has_area() {
                self.with_controller(
                    FrameController { submitting_null: true, ..self.controller() },
                ).submitted_blank()
            } else if self.controller().has_room_for(info) {
                (
                    self.at_stage(SubmitStage::CopyingTexture),
                    seq![self.copy_action(self.controller().image_index)],
                )
            } else {
                (
                    self.at_stage(SubmitStage::CheckingFormat { info }),
                    seq![Action::CheckFormat { info }],
                )
            },
            Step::FormatChecked { format } => if self.restart_info is Some {
                let info = self.restart_info->0;
                let next = self.with_first_swapchain(info, format);
                (
                    next.replayed(),
                    seq![
                        Action::CreateSwapchain { info: info.spec_in_format(format) },
                        Action::StoreImages { format },
                    ] + next.replay_actions(),
                )
            } else {
                let info = self.submission->0.stage->CheckingFormat_info;
                (
                    self.at_stage(SubmitStage::AcquiringImage).with_controller(
                        self.controller().with_new_swapchain(info, format),
                    ),
                    seq![
                        Action::CreateSwapchain { info: info.spec_in_format(format) },
                        Action::StoreImages { format },
                        Action::AcquireImage,
                    ],
                )
            },
            Step::ImageAcquired { image_index } => {
                let next = self.with_controller(
                    FrameController { image_index: image_index as usize, ..self.controller() },
                );
                if self.submitting_at(SubmitStage::AcquiringImage) {
                    (
                        next.at_stage(SubmitStage::CopyingTexture),
                        seq![self.copy_action(image_index as usize)],
                    )
                } else {
                    (next, seq![])
                }
            },
            Step::TextureCopied { extent } => {
                let submitted = SubmittedEye {
                    extent,
                    flip_vertically: self.submission->0.bounds.is_flipped(),
                };
                (
                    self.with_submitted(submitted),
                    self.controller().with_eye_actions(self.submission->0.eye, submitted),
                )
            },
            Step::InitializeRealSession { backend, info } => if backend is Some && info is Some {
                (
                    Compositor {
                        tmp_backend: Some(
                            TempBackendData { backend: backend->0, swapchain_create_info: info },
                        ),
                        ..self
                    },
                    seq![Action::RestartSession],
                )
            } else {
                (self, seq![])
            },
            Step::GetSessionCreateInfo => (self.between_sessions(), seq![]),
            Step::PostSessionRestart => if self.restarts_with_swapchain() {
                let info = self.tmp_backend->0.swapchain_create_info->0;
                (
                    Compositor { restart_info: Some(info), ..self.in_new_session() },
                    seq![Action::CheckFormat { info }],
                )
            } else {
                (self.in_new_session().replayed(), self.in_new_session().replay_actions())
            },
        }
    }

    /// The `Submit` under way ends with an eye that shows nothing.
    pub open spec fn submitted_blank(self) -> (Compositor<B>, Seq<Action>) {
        let blank = SubmittedEye::spec_blank();
        (
            self.with_submitted(blank),
            self.controller().with_eye_actions(self.submission->0.eye, blank),
        )
    }
}

/// The session that the runtime has when it gets the calls of a step: the one before, or, where the
/// step takes a new session into use, one that has just started.
pub open spec fn session_for<B>(rt: RuntimeSession, step: Step<B>) -> RuntimeSession {
    if step is PostSessionRestart {
        RuntimeSession::start()
    } else {
        rt
    }
}

/// The compositor after a history.
pub open spec fn after_history<B>(c: Compositor<B>, steps: Seq<Step<B>>) -> Compositor<B>
    decreases steps.len(),
{
    if steps.len() == 0 {
        c
    } else {
        after_history(c, steps.drop_last()).take_step(steps.last()).0
    }
}

/// The session of the runtime after a history.
pub open spec fn session_after<B>(
    c: Compositor<B>,
    rt: RuntimeSession,
    steps: Seq<Step<B>>,
) -> RuntimeSession
    decreases steps.len(),
{
    if steps.len() == 0 {
        rt
    } else {
        let before = after_history(c, steps.drop_last());
        session_for(session_after(c, rt, steps.drop_last()), steps.last()).after_all(
            before.take_step(steps.last()).1,
        )
    }
}

/// Every step of the history is possible where it is taken.
pub open spec fn is_history<B>(c: Compositor<B>, steps: Seq<Step<B>>) -> bool
    decreases steps.len(),
{
    steps.len() > 0 ==> {
        let before = after_history(c, steps.drop_last());
        &&& is_history(c, steps.drop_last())
        &&& before.may_take(steps.last())
    }
}

/// Every step of the history that needs an image of the swapchain has one.
pub open spec fn has_images<B>(c: Compositor<B>, steps: Seq<Step<B>>) -> bool
    decreases steps.len(),
{
    steps.len() > 0 ==> {
        let before = after_history(c, steps.drop_last());
        &&& has_images(c, steps.drop_last())
        &&& before.needs_image(steps.last()) ==> before.controller().image_acquired
    }
}

/// The runtime accepted every call of the history.
pub open spec fn all_accepted<B>(
    c: Compositor<B>,
    rt: RuntimeSession,
    steps: Seq<Step<B>>,
) -> bool
    decreases steps.len(),
{
    steps.len() > 0 ==> {
        let before = after_history(c, steps.drop_last());
        &&& all_accepted(c, rt, steps.drop_last())
        &&& session_for(session_after(c, rt, steps.drop_last()), steps.last()).accepts_all(
            before.take_step(steps.last()).1,
        )
    }
}

/// What holds between the steps of a history.
spec fn in_order<B>(c: Compositor<B>, rt: RuntimeSession) -> bool {
    &&& c.wf()
    &&& c.agrees_with(rt)
    &&& c.copying() ==> c.controller().image_acquired
}

proof fn lemma_step_is_wf<B>(c: Compositor<B>, step: Step<B>)
    requires
        c.wf(),
        c.may_take(step),
    ensures
        c.take_step(step).0.wf(),
{
}

proof fn lemma_copies_have_an_image<B>(c: Compositor<B>, step: Step<B>)
    requires
        c.copying() ==> c.controller().image_acquired,
        c.may_take(step),
        c.needs_image(step) ==> c.controller().image_acquired,
    ensures
        c.take_step(step).0.copying() ==> c.take_step(step).0.controller().image_acquired,
{
}

#[verifier::rlimit(30)]
proof fn lemma_step_is_accepted<B>(c: Compositor<B>, rt: RuntimeSession, step: Step<B>)
    requires
        in_order(c, rt),
        c.may_take(step),
        c.needs_image(step) ==> c.controller().image_acquired,
    ensures
        session_for(rt, step).accepts_all(c.take_step(step).1),
        c.take_step(step).0.agrees_with(session_for(rt, step).after_all(c.take_step(step).1)),
{
    let (next, actions) = c.take_step(step);
    match step {
        Step::EventsPolled => {
            law_wait_get_poses_keeps_the_order(
                Compositor { polling: None, ..c },
                rt,
                c.polling->0,
            );
        },
        Step::SubmitExplicitTimingData => {
            law_explicit_begin_keeps_the_order(c, rt);
            lemma_nothing(rt);
        },
        Step::PostPresentHandoff => {
            law_handoff_keeps_the_order(c, rt);
        },
        Step::TextureResolved { readable } => {
            lemma_nothing(rt);
            if readable && !c.already_submitted() {
                if c.controller().should_render {
                    lemma_single(rt, actions[0]);
                    assert(actions == seq![actions[0]]);
                } else {
                    law_submitted_eye_keeps_the_order(c, rt, SubmittedEye::spec_blank());
                }
            }
        },
        Step::TextureDescribed { needed: info } => {
            if info.has_area() {
                lemma_single(rt, actions[0]);
                assert(actions == seq![actions[0]]);
            } else {
                let null = c.with_controller(
                    FrameController { submitting_null: true, ..c.controller() },
                );
                assert(null.wf());
                law_submitted_eye_keeps_the_order(null, rt, SubmittedEye::spec_blank());
            }
        },
        Step::FormatChecked { format } => {
            if c.restart_info is Some {
                law_first_swapchain_keeps_the_order(c, rt, format);
            } else {
                let info = c.submission->0.stage->CheckingFormat_info;
                law_new_swapchain_keeps_the_order(c, rt, info, format, 0);
            }
        },
        Step::ImageAcquired { .. } => {
            lemma_nothing(rt);
            if c.submitting_at(SubmitStage::AcquiringImage) {
                lemma_single(rt, actions[0]);
                assert(actions == seq![actions[0]]);
            }
        },
        Step::TextureCopied { extent } => {
            let submitted = SubmittedEye {
                extent,
                flip_vertically: c.submission->0.bounds.is_flipped(),
            };
            law_submitted_eye_keeps_the_order(c, rt, submitted);
        },
        Step::PostSessionRestart => {
            let start = RuntimeSession::start();
            law_restart_keeps_the_order(c);
            if c.restarts_with_swapchain() {
                lemma_single(start, actions[0]);
                assert(actions == seq![actions[0]]);
            }
        },
        _ => {
            lemma_nothing(rt);
            if actions.len() > 0 {
                lemma_single(rt, actions[0]);
                assert(actions == seq![actions[0]]);
            }
        },
    }
}

proof fn lemma_nothing(rt: RuntimeSession)
    ensures
        rt.accepts_all(Seq::<Action>::empty()),
        rt.after_all(Seq::<Action>::empty()) == rt,
{
}

/// In a frame that was begun there is an image for every step that needs one.
pub proof fn law_begun_frame_has_an_image<B>(c: Compositor<B>, step: Step<B>)
    requires
        c.wf(),
        c.frame_state is Begun,
        c.may_take(step),
        c.needs_image(step),
    ensures
        c.controller().image_acquired,
{
}

/// Every step of a history keeps the invariant.
pub proof fn law_every_history_keeps_the_invariant<B>(c: Compositor<B>, steps: Seq<Step<B>>)
    requires
        c.wf(),
        is_history(c, steps),
    ensures
        after_history(c, steps).wf(),
    decreases steps.len(),
{
    if steps.len() > 0 {
        law_every_history_keeps_the_invariant(c, steps.drop_last());
        lemma_step_is_wf(after_history(c, steps.drop_last()), steps.last());
    }
}

/// In every history of calls and answers the compositor agrees with the runtime, and never makes a call that the runtime would not accept. Where a texture is submitted
/// there must be an image for it, which is so in every frame that was begun. A compositor without a
/// session of its own, as it is at first, agrees with any runtime.
pub proof fn law_every_history_keeps_the_order<B>(
    c: Compositor<B>,
    rt: RuntimeSession,
    steps: Seq<Step<B>>,
)
    requires
        c.wf(),
        c.idle(),
        c.agrees_with(rt),
        is_history(c, steps),
        has_images(c, steps),
    ensures
        after_history(c, steps).agrees_with(session_after(c, rt, steps)),
        all_accepted(c, rt, steps),
{
    lemma_history(c, rt, steps);
}

proof fn lemma_history<B>(c: Compositor<B>, rt: RuntimeSession, steps: Seq<Step<B>>)
    requires
        c.wf(),
        c.idle(),
        c.agrees_with(rt),
        is_history(c, steps),
        has_images(c, steps),
    ensures
        in_order(after_history(c, steps), session_after(c, rt, steps)),
        all_accepted(c, rt, steps),
    decreases steps.len(),
{
    if steps.len() > 0 {
        let earlier = steps.drop_last();
        lemma_history(c, rt, earlier);
        let before = after_history(c, earlier);
        lemma_step_is_wf(before, steps.last());
        lemma_copies_have_an_image(before, steps.last());
        lemma_step_is_accepted(before, session_after(c, rt, earlier), steps.last());
    }
}

} // verus!
