//! What the compositor asks of its host.

use vstd::prelude::*;

use crate::projection::EyePair;
use crate::swapchain::SwapchainCreateInfo;
use crate::texture::EVRCompositorError;
use crate::texture::EVREye;
use crate::texture::Texture;
use crate::texture::TextureBounds;

verus! {

/// One piece of work for the host. The host performs the actions of a list in order. Where an
/// action has an answer, the host hands it to the method of `Compositor` that the action names and
/// performs the actions that this method yields before the rest of the list.
#[derive(Clone, Copy, Debug, PartialEq, Eq)]
pub enum Action {
    /// Wait until the runtime wants the next frame; answered by `frame_waited`.
    WaitFrame,
    /// Tell the runtime that rendering of the frame that was waited for begins.
    BeginFrame,
    /// Hand the begun frame to the runtime, for the given display time; answered by
    /// `frame_presented`. The eyes are shown in a projection layer; `fade_grid` is for the
    /// overlays.
    EndFrame { display_time: i64, eyes: Option<EyePair>, fade_grid: bool },
    /// Release the oldest acquired image of the swapchain.
    ReleaseImage,
    /// Acquire the next image of the swapchain and wait, for as long as it takes, until it can be
    /// written; answered by `image_acquired`.
    AcquireImage,
    /// Find out which format a swapchain with these parameters can have; answered by
    /// `format_checked`.
    CheckFormat { info: SwapchainCreateInfo },
    /// Make a swapchain, which takes the place of the one before it.
    CreateSwapchain { info: SwapchainCreateInfo },
    /// Hand the images of the new swapchain, and their format, to the graphics backend.
    StoreImages { format: i64 },
    /// Choose a graphics backend by the texture, and ask it for the swapchain that the texture
    /// needs; answered by `backend_opened`.
    OpenBackend { texture: Texture, bounds: TextureBounds },
    /// Replace the session by one for the new graphics backend; answered by `session_restarted` if
    /// it is a `Submit` that asked for it.
    RestartSession,
    /// Find out whether the graphics backend can read the texture; answered by `texture_resolved`.
    ResolveTexture { texture: Texture },
    /// Ask the graphics backend for the swapchain that the texture needs; answered by
    /// `texture_described`.
    DescribeTexture { texture: Texture, bounds: TextureBounds },
    /// Copy the texture into an image of the swapchain; answered by `texture_copied`.
    CopyTexture {
        eye: EVREye,
        texture: Texture,
        bounds: TextureBounds,
        image_index: usize,
        submit_flags: i32,
    },
    /// Handle the pending events of the runtime; answered by `events_polled`.
    PollEvents,
    /// Let the part of the host that locates views, if it exists, forget those of the last frame.
    ResetViews,
    /// Let the input, if it exists, start a new frame.
    StartInputFrame,
    /// Fetch the poses of the devices, as many as asked for; answered by `poses_fetched`.
    FetchPoses { count: u32 },
    /// Show the given number of textures as the skybox; answered by `skybox_set`.
    SetSkybox { count: u32 },
}

/// What a step of a call comes to: the actions to perform, and the answer of the call. Where there
/// is no answer yet, the call goes on with the answer to the last action.
#[derive(Debug)]
pub struct Outcome {
    pub actions: Vec<Action>,
    pub result: Option<EVRCompositorError>,
}

impl Outcome {
    /// The call is over, with nothing to do.
    pub open spec fn is_done(self, result: EVRCompositorError) -> bool {
        self.actions@ == Seq::<Action>::empty() && self.result == Some(result)
    }

    /// The call goes on once the action is performed.
    pub open spec fn is_waiting_for(self, action: Action) -> bool {
        self.actions@ == seq![action] && self.result is None
    }

    pub fn done(result: EVRCompositorError) -> (outcome: Outcome)
        ensures
            outcome.is_done(result),
    {
        Outcome { actions: Vec::new(), result: Some(result) }
    }

    pub fn waiting_for(action: Action) -> (outcome: Outcome)
        ensures
            outcome.is_waiting_for(action),
    {
        let mut actions: Vec<Action> = Vec::new();
        actions.push(action);
        Outcome { actions, result: None }
    }
}

} // verus!
