//! `Submit`: how the texture of an eye gets into the swapchain.
//!
//! The call goes through several answers of the host. `Submission::stage` tells which one it waits
//! for.

use vstd::prelude::*;

use crate::action::Action;
use crate::action::Outcome;
use crate::compositor::Compositor;
use crate::compositor::Submission;
use crate::compositor::SubmitStage;
use crate::projection::Extent2Di;
use crate::projection::SubmittedEye;
use crate::swapchain::is_valid_swapchain_info;
use crate::swapchain::SwapchainCreateInfo;
use crate::texture::EVRCompositorError;
use crate::texture::EVREye;
use crate::texture::Texture;
use crate::texture::TextureBounds;

#[allow(unused_imports)]
use crate::controller::FrameController;

#[allow(unused_imports)]
use crate::history::Step;

verus! {

/// The bounds that a `Submit` is about: the whole texture, unless others are given.
pub open spec fn bounds_or_full(bounds: Option<TextureBounds>) -> TextureBounds {
    if bounds is Some {
        bounds->0
    } else {
        TextureBounds::spec_full()
    }
}

/// Why a `Submit` is refused before anything is done, in the order in which the reasons count.
pub open spec fn refusal(
    focused: bool,
    texture: Option<Texture>,
    bounds: Option<TextureBounds>,
) -> Option<EVRCompositorError> {
    if !bounds_or_full(bounds).is_valid() {
        Some(EVRCompositorError::InvalidBounds)
    } else if texture is None {
        Some(EVRCompositorError::InvalidTexture)
    } else if !focused {
        Some(EVRCompositorError::DoNotHaveFocus)
    } else {
        None
    }
}

impl<B> Compositor<B> {
    /// The `Submit` under way goes on to another stage.
    pub open spec fn at_stage(self, stage: SubmitStage) -> Compositor<B> {
        Compositor { submission: Some(self.submission->0.spec_at(stage)), ..self }
    }

    /// A `Submit` is under way and waits for the given stage.
    pub open spec fn submitting_at(self, stage: SubmitStage) -> bool {
        self.submission is Some && self.submission->0.stage == stage
    }

    /// The `Submit` under way is over.
    pub open spec fn without_submission(self) -> Compositor<B> {
        Compositor { submission: None, ..self }
    }

    /// The eye of the `Submit` under way has been submitted before.
    pub open spec fn already_submitted(self) -> bool {
        self.controller().eyes_submitted.at(self.submission->0.eye) is Some
    }

    /// The `Submit` under way is over, and its eye is submitted.
    pub open spec fn with_submitted(self, submitted: SubmittedEye) -> Compositor<B> {
        self.without_submission().with_controller(
            self.controller().with_eye(self.submission->0.eye, submitted),
        )
    }

    /// The answer to the `Submit` that ends with its eye submitted.
    pub open spec fn is_submitted(self, submitted: SubmittedEye, outcome: Outcome) -> bool {
        &&& outcome.actions@ == self.controller().with_eye_actions(
            self.submission->0.eye,
            submitted,
        )
        &&& outcome.result == Some(EVRCompositorError::NoError)
    }

    /// The copy that the `Submit` under way asks for, into the given image.
    pub open spec fn copy_action(self, image_index: usize) -> Action {
        let s = self.submission->0;
        Action::CopyTexture {
            eye: s.eye,
            texture: s.texture,
            bounds: s.bounds,
            image_index,
            submit_flags: s.submit_flags,
        }
    }

    /// Submits the texture of an eye for the current frame. Without bounds the whole texture is
    /// meant. The first texture chooses the graphics backend, and starts a session for it.
    #[allow(non_snake_case)]
    pub fn Submit(
        &mut self,
        eye: EVREye,
        texture: Option<Texture>,
        bounds: Option<TextureBounds>,
        submit_flags: i32,
    ) -> (outcome: Outcome)
        requires
            old(self).wf(),
            old(self).idle(),
        ensures
            *final(self) == old(self).take_step(Step::Submit { eye, texture, bounds, submit_flags }).0,
            outcome.actions@ == old(self).take_step(Step::Submit { eye, texture, bounds, submit_flags }).1,
            final(self).wf(),
            ({
                let refused = refusal(old(self).focused, texture, bounds);
                let stage = if old(self).has_controller() {
                    SubmitStage::ResolvingTexture
                } else {
                    SubmitStage::OpeningBackend
                };
                &&& refused is Some ==> {
                    &&& *final(self) == *old(self)
                    &&& outcome.is_done(refused->0)
                }
                &&& refused is None ==> {
                    &&& *final(self) == (Compositor {
                        submission: Some(
                            Submission {
                                eye,
                                texture: texture->0,
                                bounds: bounds_or_full(bounds),
                                submit_flags,
                                stage,
                            },
                        ),
                        ..*old(self)
                    })
                    &&& old(self).has_controller() ==> outcome.is_waiting_for(
                        Action::ResolveTexture { texture: texture->0 },
                    )
                    &&& !old(self).has_controller() ==> outcome.is_waiting_for(
                        Action::OpenBackend {
                            texture: texture->0,
                            bounds: bounds_or_full(bounds),
                        },
                    )
                }
            }),
    {
        let bounds = match bounds {
            Some(given) => given,
            None => TextureBounds::full(),
        };
        if !bounds.valid() {
            return Outcome::done(EVRCompositorError::InvalidBounds);
        }
        let texture = match texture {
            Some(given) => given,
            None => {
                return Outcome::done(EVRCompositorError::InvalidTexture);
            },
        };
        if !self.focused {
            return Outcome::done(EVRCompositorError::DoNotHaveFocus);
        }
        if self.session.0.is_some() {
            self.submission = Some(
                Submission {
                    eye,
                    texture,
                    bounds,
                    submit_flags,
                    stage: SubmitStage::ResolvingTexture,
                },
            );
            Outcome::waiting_for(Action::ResolveTexture { texture })
        } else {
            self.submission = Some(
                Submission {
                    eye,
                    texture,
                    bounds,
                    submit_flags,
                    stage: SubmitStage::OpeningBackend,
                },
            );
            Outcome::waiting_for(Action::OpenBackend { texture, bounds })
        }
    }

    fn go_on_at(&mut self, stage: SubmitStage)
        requires
            old(self).submission is Some,
        ensures
            *final(self) == old(self).at_stage(stage),
    {
        match &mut self.submission {
            Some(submission) => {
                submission.stage = stage;
            },
            None => {},
        }
    }

    /// The answer to `OpenBackend`: the graphics backend that can read the texture, and the
    /// swapchain that the texture needs.
    pub fn backend_opened(&mut self, backend: Option<B>, info: Option<SwapchainCreateInfo>) -> (
        outcome: Outcome)
        requires
            old(self).wf(),
            old(self).submitting_at(SubmitStage::OpeningBackend),
        ensures
            *final(self) == old(self).take_step(Step::BackendOpened { backend, info }).0,
            outcome.actions@ == old(self).take_step(Step::BackendOpened { backend, info }).1,
            final(self).wf(),
            backend is None || info is None ==> {
                &&& *final(self) == old(self).without_submission()
                &&& outcome.is_done(EVRCompositorError::InvalidTexture)
            },
            backend is Some && info is Some ==> {
                &&& *final(self) == (Compositor {
                    tmp_backend: Some(
                        crate::controller::TempBackendData {
                            backend: backend->0,
                            swapchain_create_info: info,
                        },
                    ),
                    ..old(self).at_stage(SubmitStage::RestartingSession)
                })
                &&& final(self).may_restart()
                &&& outcome.is_waiting_for(Action::RestartSession)
            },
    {
        match self.initialize_real_session(backend, info) {
            (Ok(_), actions) => {
                self.go_on_at(SubmitStage::RestartingSession);
                Outcome { actions, result: None }
            },
            (Err(error), actions) => {
                self.submission = None;
                Outcome { actions, result: Some(error) }
            },
        }
    }

    /// The answer to `RestartSession`: the new session is in use.
    pub fn session_restarted(&mut self) -> (outcome: Outcome)
        requires
            old(self).wf(),
            old(self).submitting_at(SubmitStage::RestartingSession),
            old(self).has_controller(),
            !old(self).awaiting_frame,
            old(self).restart_info is None,
        ensures
            *final(self) == old(self).take_step(Step::SessionRestarted).0,
            outcome.actions@ == old(self).take_step(Step::SessionRestarted).1,
            *final(self) == old(self).at_stage(SubmitStage::ResolvingTexture),
            final(self).wf(),
            outcome.is_waiting_for(
                Action::ResolveTexture { texture: old(self).submission->0.texture },
            ),
    {
        self.go_on_at(SubmitStage::ResolvingTexture);
        let texture = self.submission.as_ref().unwrap().texture;
        Outcome::waiting_for(Action::ResolveTexture { texture })
    }

    fn finish_submit(&mut self, submitted: SubmittedEye) -> (outcome: Outcome)
        requires
            old(self).wf(),
            old(self).submission is Some,
            !(old(self).submission->0.stage is RestartingSession),
            old(self).has_controller(),
            !old(self).already_submitted(),
            old(self).controller().should_render && !old(self).controller().submitting_null
                ==> old(self).controller().swapchain_data is Some,
        ensures
            *final(self) == old(self).with_submitted(submitted),
            final(self).wf(),
            old(self).is_submitted(submitted, outcome),
    {
        let eye = self.submission.as_ref().unwrap().eye;
        self.submission = None;
        let actions = match &mut self.session.0 {
            Some(controller) => controller.submit_eye(eye, submitted),
            None => Vec::new(),
        };
        Outcome { actions, result: Some(EVRCompositorError::NoError) }
    }

    /// The answer to `ResolveTexture`: whether the graphics backend can read the texture. An eye
    /// can be submitted once in a frame. In a frame that is not rendered nothing is copied.
    pub fn texture_resolved(&mut self, readable: bool) -> (outcome: Outcome)
        requires
            old(self).wf(),
            old(self).submitting_at(SubmitStage::ResolvingTexture),
        ensures
            *final(self) == old(self).take_step(Step::TextureResolved { readable }).0,
            outcome.actions@ == old(self).take_step(Step::TextureResolved { readable }).1,
            final(self).wf(),
            !readable ==> {
                &&& *final(self) == old(self).without_submission()
                &&& outcome.is_done(EVRCompositorError::InvalidTexture)
            },
            readable && old(self).already_submitted() ==> {
                &&& *final(self) == old(self).without_submission()
                &&& outcome.is_done(EVRCompositorError::AlreadySubmitted)
            },
            readable && !old(self).already_submitted() && !old(self).controller().should_render
                ==> {
                &&& *final(self) == old(self).with_submitted(SubmittedEye::spec_blank())
                &&& old(self).is_submitted(SubmittedEye::spec_blank(), outcome)
            },
            readable && !old(self).already_submitted() && old(self).controller().should_render
                ==> {
                &&& *final(self) == old(self).at_stage(SubmitStage::DescribingTexture)
                &&& outcome.is_waiting_for(
                    Action::DescribeTexture {
                        texture: old(self).submission->0.texture,
                        bounds: old(self).submission->0.bounds,
                    },
                )
            },
    {
        let submission = self.submission.unwrap();
        if !readable {
            self.submission = None;
            return Outcome::done(EVRCompositorError::InvalidTexture);
        }
        let controller = self.session.0.as_ref().unwrap();
        if controller.eyes_submitted.is_submitted(submission.eye) {
            self.submission = None;
            return Outcome::done(EVRCompositorError::AlreadySubmitted);
        }
        if !controller.should_render {
            return self.finish_submit(SubmittedEye::blank());
        }
        self.go_on_at(SubmitStage::DescribingTexture);
        Outcome::waiting_for(
            Action::DescribeTexture { texture: submission.texture, bounds: submission.bounds },
        )
    }

    /// The answer to `DescribeTexture`: the swapchain that the texture needs. A texture without
    /// area is not copied, and nothing is shown in this frame. The swapchain is made anew if it has
    /// no room for the texture. An application must not submit a texture with an area after one
    /// without in the same frame.
    pub fn texture_described(&mut self, info: SwapchainCreateInfo) -> (outcome: Outcome)
        requires
            old(self).wf(),
            old(self).submitting_at(SubmitStage::DescribingTexture),
            !(old(self).controller().submitting_null && info.has_area()),
        ensures
            *final(self) == old(self).take_step(Step::TextureDescribed { needed: info }).0,
            outcome.actions@ == old(self).take_step(Step::TextureDescribed { needed: info }).1,
            final(self).wf(),
            !info.has_area() ==> {
                let null = old(self).with_controller(
                    FrameController { submitting_null: true, ..old(self).controller() },
                );
                &&& *final(self) == null.with_submitted(SubmittedEye::spec_blank())
                &&& old(self).is_submitted(SubmittedEye::spec_blank(), outcome)
            },
            info.has_area() && old(self).controller().has_room_for(info) ==> {
                &&& *final(self) == old(self).at_stage(SubmitStage::CopyingTexture)
                &&& outcome.is_waiting_for(
                    old(self).copy_action(old(self).controller().image_index),
                )
            },
            info.has_area() && !old(self).controller().has_room_for(info) ==> {
                &&& *final(self) == old(self).at_stage(SubmitStage::CheckingFormat { info })
                &&& outcome.is_waiting_for(Action::CheckFormat { info })
            },
    {
        let submission = self.submission.unwrap();
        if !is_valid_swapchain_info(&info) {
            match &mut self.session.0 {
                Some(controller) => {
                    controller.submitting_null = true;
                },
                None => {},
            }
            return self.finish_submit(SubmittedEye::blank());
        }
        let controller = self.session.0.as_ref().unwrap();
        if controller.can_hold(&info) {
            let image_index: usize = controller.image_index;
            self.go_on_at(SubmitStage::CopyingTexture);
            Outcome::waiting_for(
                Action::CopyTexture {
                    eye: submission.eye,
                    texture: submission.texture,
                    bounds: submission.bounds,
                    image_index,
                    submit_flags: submission.submit_flags,
                },
            )
        } else {
            self.go_on_at(SubmitStage::CheckingFormat { info });
            Outcome::waiting_for(Action::CheckFormat { info })
        }
    }

    fn new_format_checked(&mut self, format: i64) -> (actions: Vec<Action>)
        requires
            old(self).wf(),
            old(self).submission is Some,
            old(self).submission->0.stage is CheckingFormat,
        ensures
            ({
                let info = old(self).submission->0.stage->CheckingFormat_info;
                &&& *final(self) == old(self).at_stage(
                    SubmitStage::AcquiringImage,
                ).with_controller(old(self).controller().with_new_swapchain(info, format))
                &&& actions@ == seq![
                    Action::CreateSwapchain { info: info.spec_in_format(format) },
                    Action::StoreImages { format },
                    Action::AcquireImage,
                ]
            }),
            final(self).wf(),
    {
        let submission = self.submission.unwrap();
        self.go_on_at(SubmitStage::AcquiringImage);
        match (submission.stage, &mut self.session.0) {
            (
                SubmitStage::CheckingFormat { info },
                Some(controller),
            ) => controller.recreate_swapchain(info, format),
            _ => Vec::new(),
        }
    }

    /// The answer to `CheckFormat`: the format that the new swapchain has. It is the first one of a
    /// session, which then takes up the frame cycle, or one that a `Submit` needs.
    pub fn format_checked(&mut self, format: i64) -> (actions: Vec<Action>)
        requires
            old(self).wf(),
            old(self).restart_info is Some || (old(self).submission is Some && old(
                self,
            ).submission->0.stage is CheckingFormat),
        ensures
            *final(self) == old(self).take_step(Step::FormatChecked { format }).0,
            actions@ == old(self).take_step(Step::FormatChecked { format }).1,
            final(self).wf(),
            old(self).restart_info is Some ==> {
                let info = old(self).restart_info->0;
                let next = old(self).with_first_swapchain(info, format);
                &&& *final(self) == next.replayed()
                &&& actions@ == seq![
                    Action::CreateSwapchain { info: info.spec_in_format(format) },
                    Action::StoreImages { format },
                ] + next.replay_actions()
            },
            old(self).restart_info is None ==> {
                let info = old(self).submission->0.stage->CheckingFormat_info;
                &&& *final(self) == old(self).at_stage(
                    SubmitStage::AcquiringImage,
                ).with_controller(old(self).controller().with_new_swapchain(info, format))
                &&& actions@ == seq![
                    Action::CreateSwapchain { info: info.spec_in_format(format) },
                    Action::StoreImages { format },
                    Action::AcquireImage,
                ]
            },
    {
        if self.restart_info.is_some() {
            self.first_format_checked(format)
        } else {
            self.new_format_checked(format)
        }
    }

    /// The answer to `AcquireImage`: which image of the swapchain was acquired. A `Submit` that
    /// waited for the image of its new swapchain copies its texture there.
    pub fn image_acquired(&mut self, image_index: u32) -> (actions: Vec<Action>)
        requires
            old(self).wf(),
            old(self).has_controller(),
            old(self).restart_info is None,
        ensures
            *final(self) == old(self).take_step(Step::ImageAcquired { image_index }).0,
            actions@ == old(self).take_step(Step::ImageAcquired { image_index }).1,
            final(self).wf(),
            ({
                let next = old(self).with_controller(
                    FrameController {
                        image_index: image_index as usize,
                        ..old(self).controller()
                    },
                );
                &&& old(self).submitting_at(SubmitStage::AcquiringImage) ==> {
                    &&& *final(self) == next.at_stage(SubmitStage::CopyingTexture)
                    &&& actions@ == seq![old(self).copy_action(image_index as usize)]
                }
                &&& !old(self).submitting_at(SubmitStage::AcquiringImage) ==> {
                    &&& *final(self) == next
                    &&& actions@ == Seq::<Action>::empty()
                }
            }),
    {
        match &mut self.session.0 {
            Some(controller) => {
                controller.image_index = image_index as usize;
            },
            None => {},
        }
        let mut actions: Vec<Action> = Vec::new();
        if let Some(submission) = self.submission {
            if let SubmitStage::AcquiringImage = submission.stage {
                self.go_on_at(SubmitStage::CopyingTexture);
                actions.push(
                    Action::CopyTexture {
                        eye: submission.eye,
                        texture: submission.texture,
                        bounds: submission.bounds,
                        image_index: image_index as usize,
                        submit_flags: submission.submit_flags,
                    },
                );
            }
        }
        actions
    }

    /// The answer to `CopyTexture`: the size of the region that holds the copy.
    pub fn texture_copied(&mut self, extent: Extent2Di) -> (outcome: Outcome)
        requires
            old(self).wf(),
            old(self).submitting_at(SubmitStage::CopyingTexture),
        ensures
            *final(self) == old(self).take_step(Step::TextureCopied { extent }).0,
            outcome.actions@ == old(self).take_step(Step::TextureCopied { extent }).1,
            final(self).wf(),
            ({
                let submitted = SubmittedEye {
                    extent,
                    flip_vertically: old(self).submission->0.bounds.is_flipped(),
                };
                &&& *final(self) == old(self).with_submitted(submitted)
                &&& old(self).is_submitted(submitted, outcome)
            }),
    {
        let flip_vertically = self.submission.as_ref().unwrap().bounds.vertically_flipped();
        self.finish_submit(SubmittedEye { extent, flip_vertically })
    }
}

} // verus!
