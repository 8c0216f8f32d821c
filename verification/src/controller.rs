//! The state of the frames of one session.

use vstd::prelude::*;

use crate::action::Action;
use crate::projection::EyePair;
use crate::projection::SubmittedEye;
use crate::swapchain::is_usable_swapchain;
use crate::swapchain::SwapchainCreateInfo;
use crate::texture::EVREye;

#[allow(unused_imports)]
use crate::swapchain::usable_swapchain;

verus! {

/// What has been submitted for the current frame.
#[derive(Clone, Copy, Debug, PartialEq, Eq)]
pub struct EyesSubmitted {
    pub left: Option<SubmittedEye>,
    pub right: Option<SubmittedEye>,
}

impl EyesSubmitted {
    pub open spec fn spec_none() -> EyesSubmitted {
        EyesSubmitted { left: None, right: None }
    }

    /// What was submitted for an eye.
    pub open spec fn at(self, eye: EVREye) -> Option<SubmittedEye> {
        match eye {
            EVREye::Left => self.left,
            EVREye::Right => self.right,
        }
    }

    /// The same with one eye submitted.
    pub open spec fn with(self, eye: EVREye, submitted: SubmittedEye) -> EyesSubmitted {
        match eye {
            EVREye::Left => EyesSubmitted { left: Some(submitted), ..self },
            EVREye::Right => EyesSubmitted { right: Some(submitted), ..self },
        }
    }

    pub open spec fn both(self) -> bool {
        self.left is Some && self.right is Some
    }

    pub open spec fn any(self) -> bool {
        self.left is Some || self.right is Some
    }

    /// Both eyes, where both were submitted.
    pub open spec fn pair(self) -> Option<EyePair> {
        if self.both() {
            Some(EyePair { left: self.left->0, right: self.right->0 })
        } else {
            None
        }
    }

    /// No eye was submitted.
    pub fn none() -> (eyes: EyesSubmitted)
        ensures
            eyes == EyesSubmitted::spec_none(),
    {
        EyesSubmitted { left: None, right: None }
    }

    /// Tells whether the eye was submitted.
    pub fn is_submitted(&self, eye: EVREye) -> (submitted: bool)
        ensures
            submitted == self.at(eye) is Some,
    {
        match eye {
            EVREye::Left => self.left.is_some(),
            EVREye::Right => self.right.is_some(),
        }
    }

    /// Tells whether both eyes were submitted.
    pub fn all(&self) -> (all: bool)
        ensures
            all == self.both(),
    {
        self.left.is_some() && self.right.is_some()
    }

    /// Notes what was submitted for an eye.
    pub fn submit(&mut self, eye: EVREye, submitted: SubmittedEye)
        ensures
            *final(self) == old(self).with(eye, submitted),
    {
        match eye {
            EVREye::Left => {
                self.left = Some(submitted);
            },
            EVREye::Right => {
                self.right = Some(submitted);
            },
        }
    }

    /// Both eyes, where both were submitted.
    pub fn as_pair(&self) -> (pair: Option<EyePair>)
        ensures
            pair == self.pair(),
    {
        match (self.left, self.right) {
            (Some(left), Some(right)) => Some(EyePair { left, right }),
            _ => None,
        }
    }
}

/// The swapchain of a session: the parameters it was made with, and the format that was asked for.
#[derive(Clone, Copy, Debug, PartialEq, Eq)]
pub struct SwapchainData {
    pub info: SwapchainCreateInfo,
    pub initial_format: i64,
}

/// The frames of one session, which shows the images of the graphics backend `B`.
#[derive(Debug)]
pub struct FrameController<B> {
    pub swapchain_data: Option<SwapchainData>,
    /// The image of the swapchain that was acquired last.
    pub image_index: usize,
    /// An image of the swapchain is acquired and not yet released.
    pub image_acquired: bool,
    /// The frame that was waited for last is to be rendered.
    pub should_render: bool,
    /// The application wants nothing to be rendered.
    pub app_suspend_render: bool,
    /// The application wants the grid in place of its scene.
    pub app_fade_grid: bool,
    pub eyes_submitted: EyesSubmitted,
    /// The application submitted a texture without area for the current frame.
    pub submitting_null: bool,
    pub backend: B,
}

impl<B> FrameController<B> {
    /// Only an image of the swapchain is acquired; the swapchain has an area; and once both eyes
    /// are submitted the image is released.
    pub open spec fn wf(self) -> bool {
        &&& self.image_acquired ==> self.swapchain_data is Some
        &&& self.swapchain_data is Some ==> self.swapchain_data->0.info.has_area()
        &&& self.eyes_submitted.both() ==> !self.image_acquired
    }

    /// A texture can be copied: there is an image for it, unless the frame is complete.
    pub open spec fn image_ready(self) -> bool {
        self.swapchain_data is Some && !self.eyes_submitted.both() ==> self.image_acquired
    }

    /// What was submitted to be shown can be shown.
    pub open spec fn can_show(self) -> bool {
        self.should_render && !self.submitting_null && self.eyes_submitted.any()
            ==> self.swapchain_data is Some
    }

    /// The controller of a session that has no frame yet.
    pub open spec fn fresh(backend: B, swapchain_data: Option<SwapchainData>) -> FrameController<
        B,
    > {
        FrameController {
            swapchain_data,
            image_index: 0,
            image_acquired: false,
            should_render: false,
            app_suspend_render: false,
            app_fade_grid: false,
            eyes_submitted: EyesSubmitted::spec_none(),
            submitting_null: false,
            backend,
        }
    }

    /// The swapchain can show what `info` describes.
    pub open spec fn has_room_for(self, info: SwapchainCreateInfo) -> bool {
        self.swapchain_data is Some && usable_swapchain(
            self.swapchain_data->0.info,
            self.swapchain_data->0.initial_format,
            info,
        )
    }

    /// The calls that begin a frame: the image of the frame before, if it was never released, is
    /// given back, the next image is acquired, and rendering begins.
    pub open spec fn begin_actions(self) -> Seq<Action> {
        (if self.image_acquired {
            seq![Action::ReleaseImage]
        } else {
            seq![]
        }) + (if self.swapchain_data is Some {
            seq![Action::AcquireImage]
        } else {
            seq![]
        }) + seq![Action::BeginFrame]
    }

    /// The controller once a frame is begun: nothing is submitted for it yet.
    pub open spec fn begun(self) -> FrameController<B> {
        FrameController {
            image_acquired: self.image_acquired || self.swapchain_data is Some,
            eyes_submitted: EyesSubmitted::spec_none(),
            submitting_null: false,
            ..self
        }
    }

    /// The controller with one more eye submitted. With the second eye the frame is complete and
    /// its image is given back.
    pub open spec fn with_eye(self, eye: EVREye, submitted: SubmittedEye) -> FrameController<B> {
        let eyes = self.eyes_submitted.with(eye, submitted);
        FrameController {
            eyes_submitted: eyes,
            image_acquired: self.image_acquired && !eyes.both(),
            ..self
        }
    }

    /// The calls that follow the submission of an eye.
    pub open spec fn with_eye_actions(self, eye: EVREye, submitted: SubmittedEye) -> Seq<Action> {
        if self.eyes_submitted.with(eye, submitted).both() && self.swapchain_data is Some {
            seq![Action::ReleaseImage]
        } else {
            seq![]
        }
    }

    /// The controller with a new swapchain, for which `info` was asked and which has the given
    /// format: what was submitted before is lost with the old one.
    pub open spec fn with_new_swapchain(
        self,
        info: SwapchainCreateInfo,
        format: i64,
    ) -> FrameController<B> {
        FrameController {
            swapchain_data: Some(
                SwapchainData { info: info.spec_in_format(format), initial_format: info.format },
            ),
            image_acquired: true,
            eyes_submitted: EyesSubmitted::spec_none(),
            ..self
        }
    }

    /// The eyes that the frame shows: both, if both were submitted with something to see and the
    /// frame is rendered at all.
    pub open spec fn shown_eyes(self) -> Option<EyePair> {
        if self.should_render && !self.submitting_null {
            self.eyes_submitted.pair()
        } else {
            None
        }
    }

    /// A controller without a frame.
    pub fn new(backend: B, swapchain_data: Option<SwapchainData>) -> (controller: FrameController<
        B,
    >)
        ensures
            controller == FrameController::fresh(backend, swapchain_data),
    {
        FrameController {
            swapchain_data,
            image_index: 0,
            image_acquired: false,
            should_render: false,
            app_suspend_render: false,
            app_fade_grid: false,
            eyes_submitted: EyesSubmitted::none(),
            submitting_null: false,
            backend,
        }
    }

    /// Notes whether the frame that was waited for is to be rendered: the runtime wants it and the
    /// application did not suspend rendering.
    pub fn wait_frame(&mut self, runtime_should_render: bool)
        ensures
            *final(self) == (FrameController {
                should_render: runtime_should_render && !old(self).app_suspend_render,
                ..*old(self)
            }),
    {
        self.should_render = runtime_should_render && !self.app_suspend_render;
    }

    /// Begins a frame.
    pub fn begin_frame(&mut self) -> (actions: Vec<Action>)
        requires
            old(self).image_acquired ==> old(self).swapchain_data is Some,
        ensures
            *final(self) == old(self).begun(),
            actions@ == old(self).begin_actions(),
    {
        let mut actions: Vec<Action> = Vec::new();
        if self.image_acquired {
            actions.push(Action::ReleaseImage);
        }
        if self.swapchain_data.is_some() {
            actions.push(Action::AcquireImage);
            self.image_acquired = true;
        }
        actions.push(Action::BeginFrame);
        self.eyes_submitted = EyesSubmitted::none();
        self.submitting_null = false;
        actions
    }

    /// Submits an eye.
    pub fn submit_eye(&mut self, eye: EVREye, submitted: SubmittedEye) -> (actions: Vec<Action>)
        ensures
            *final(self) == old(self).with_eye(eye, submitted),
            actions@ == old(self).with_eye_actions(eye, submitted),
    {
        let mut actions: Vec<Action> = Vec::new();
        self.eyes_submitted.submit(eye, submitted);
        if self.eyes_submitted.all() {
            if self.swapchain_data.is_some() {
                actions.push(Action::ReleaseImage);
            }
            self.image_acquired = false;
        }
        actions
    }

    /// Tells whether the swapchain can show what `info` describes.
    pub fn can_hold(&self, info: &SwapchainCreateInfo) -> (usable: bool)
        ensures
            usable == self.has_room_for(*info),
    {
        match &self.swapchain_data {
            Some(data) => is_usable_swapchain(&data.info, data.initial_format, info),
            None => false,
        }
    }

    /// Takes a new swapchain into use.
    pub fn recreate_swapchain(&mut self, info: SwapchainCreateInfo, format: i64) -> (actions: Vec<
        Action,
    >)
        requires
            info.has_area(),
        ensures
            *final(self) == old(self).with_new_swapchain(info, format),
            actions@ == seq![
                Action::CreateSwapchain { info: info.spec_in_format(format) },
                Action::StoreImages { format },
                Action::AcquireImage,
            ],
    {
        let made = info.in_format(format);
        self.swapchain_data = Some(SwapchainData { info: made, initial_format: info.format });
        self.image_acquired = true;
        self.eyes_submitted = EyesSubmitted::none();
        let mut actions: Vec<Action> = Vec::new();
        actions.push(Action::CreateSwapchain { info: made });
        actions.push(Action::StoreImages { format });
        actions.push(Action::AcquireImage);
        actions
    }

    /// The eyes that the frame shows.
    pub fn end_frame(&self) -> (eyes: Option<EyePair>)
        requires
            self.should_render && !self.submitting_null && self.eyes_submitted.both()
                ==> self.swapchain_data is Some,
        ensures
            eyes == self.shown_eyes(),
    {
        if self.should_render && !self.submitting_null {
            self.eyes_submitted.as_pair()
        } else {
            None
        }
    }
}

/// A graphics backend between two sessions, and the swapchain that the next one starts with.
#[derive(Debug)]
pub struct TempBackendData<B> {
    pub backend: B,
    pub swapchain_create_info: Option<SwapchainCreateInfo>,
}

/// What a session holds for the compositor: the controller of its frames, once the application has
/// shown which graphics backend it renders with.
#[derive(Debug)]
pub struct CompositorSessionData<B>(pub Option<FrameController<B>>);

impl<B> Default for CompositorSessionData<B> {
    fn default() -> (data: CompositorSessionData<B>)
        ensures
            data.0 is None,
    {
        CompositorSessionData(None)
    }
}

} // verus!
