//! The change from one session to the next: the graphics backend moves over, the swapchain is made
//! anew, and the frame cycle is taken up where the application left it.

use vstd::prelude::*;

use crate::action::Action;
use crate::compositor::Compositor;
use crate::controller::CompositorSessionData;
use crate::controller::FrameController;
use crate::controller::SwapchainData;
use crate::controller::TempBackendData;
use crate::frame_state::FrameState;
use crate::swapchain::is_valid_swapchain_info;
use crate::swapchain::SwapchainCreateInfo;
use crate::texture::EVRCompositorError;

#[allow(unused_imports)]
use crate::history::Step;

verus! {

impl<B> FrameController<B> {
    /// What the next session takes over from this one.
    pub open spec fn left_behind(self) -> TempBackendData<B> {
        TempBackendData {
            backend: self.backend,
            swapchain_create_info: if self.swapchain_data is Some {
                Some(self.swapchain_data->0.info)
            } else {
                None
            },
        }
    }
}

impl<B> Compositor<B> {
    /// The session is over. What it leaves behind waits for the next one, unless a new graphics
    /// backend was chosen in the meantime.
    pub open spec fn between_sessions(self) -> Compositor<B> {
        Compositor {
            session: CompositorSessionData(None),
            tmp_backend: if self.tmp_backend is Some {
                self.tmp_backend
            } else {
                Some(self.controller().left_behind())
            },
            ..self
        }
    }

    /// The next session has begun, without a swapchain so far.
    pub open spec fn in_new_session(self) -> Compositor<B> {
        (Compositor { tmp_backend: None, ..self }).with_controller(
            FrameController::fresh(self.tmp_backend->0.backend, None),
        )
    }

    /// The next session starts with a swapchain.
    pub open spec fn restarts_with_swapchain(self) -> bool {
        let info = self.tmp_backend->0.swapchain_create_info;
        info is Some && info->0.has_area()
    }

    /// The swapchain of the next session was made.
    pub open spec fn with_first_swapchain(
        self,
        info: SwapchainCreateInfo,
        format: i64,
    ) -> Compositor<B> {
        (Compositor { restart_info: None, ..self }).with_controller(
            FrameController {
                swapchain_data: Some(
                    SwapchainData { info: info.spec_in_format(format), initial_format: info.format },
                ),
                ..self.controller()
            },
        )
    }

    /// Chooses the graphics backend that the application renders with, so that the next session is
    /// one for it. `backend` is the one that can read the first texture, and `info` the swapchain
    /// that the texture needs; where either is missing, the texture is not one that can be shown.
    /// After a success, and only then, the session is to be replaced.
    pub fn initialize_real_session(
        &mut self,
        backend: Option<B>,
        info: Option<SwapchainCreateInfo>,
    ) -> (answer: (Result<(), EVRCompositorError>, Vec<Action>))
        requires
            old(self).wf(),
        ensures
            *final(self) == old(self).take_step(Step::InitializeRealSession { backend, info }).0,
            answer.1@ == old(self).take_step(Step::InitializeRealSession { backend, info }).1,
            final(self).wf(),
            answer.0 is Ok <==> backend is Some && info is Some,
            answer.0 is Err ==> {
                &&& answer.0->Err_0 is InvalidTexture
                &&& *final(self) == *old(self)
                &&& answer.1@ == Seq::<Action>::empty()
            },
            answer.0 is Ok ==> {
                &&& *final(self) == (Compositor {
                    tmp_backend: Some(
                        TempBackendData { backend: backend->0, swapchain_create_info: info },
                    ),
                    ..*old(self)
                })
                &&& answer.1@ == seq![Action::RestartSession]
            },
    {
        let mut actions: Vec<Action> = Vec::new();
        match (backend, info) {
            (Some(backend), Some(info)) => {
                self.tmp_backend = Some(
                    TempBackendData { backend, swapchain_create_info: Some(info) },
                );
                actions.push(Action::RestartSession);
                (Ok(()), actions)
            },
            _ => (Err(EVRCompositorError::InvalidTexture), actions),
        }
    }

    /// Ends the session and tells which graphics backend the next one is made for. There is one:
    /// either a new one was chosen, or the session had a controller.
    pub fn get_session_create_info(&mut self) -> (backend: &B)
        requires
            old(self).wf(),
            old(self).may_restart(),
            old(self).tmp_backend is Some || old(self).has_controller(),
        ensures
            *final(self) == old(self).take_step(Step::GetSessionCreateInfo).0,
            *final(self) == old(self).between_sessions(),
            final(self).wf(),
            final(self).may_restart(),
            *backend == final(self).tmp_backend->0.backend,
    {
        let old_controller = self.session.0.take();
        if self.tmp_backend.is_none() {
            if let Some(controller) = old_controller {
                self.tmp_backend = Some(
                    TempBackendData {
                        backend: controller.backend,
                        swapchain_create_info: match controller.swapchain_data {
                            Some(data) => Some(data.info),
                            None => None,
                        },
                    },
                );
            }
        }
        &self.tmp_backend.as_ref().unwrap().backend
    }

    /// Takes the next session into use. The frame cycle is brought back to the step that the
    /// application had reached; where the session starts with a swapchain, this waits for the
    /// answer to `CheckFormat`.
    pub fn post_session_restart(&mut self) -> (actions: Vec<Action>)
        requires
            old(self).wf(),
            old(self).may_restart(),
            old(self).tmp_backend is Some,
        ensures
            *final(self) == old(self).take_step(Step::PostSessionRestart).0,
            actions@ == old(self).take_step(Step::PostSessionRestart).1,
            final(self).wf(),
            old(self).restarts_with_swapchain() ==> {
                let info = old(self).tmp_backend->0.swapchain_create_info->0;
                &&& *final(self) == (Compositor {
                    restart_info: Some(info),
                    ..old(self).in_new_session()
                })
                &&& actions@ == seq![Action::CheckFormat { info }]
            },
            !old(self).restarts_with_swapchain() ==> {
                &&& *final(self) == old(self).in_new_session().replayed()
                &&& actions@ == old(self).in_new_session().replay_actions()
            },
    {
        let data = self.tmp_backend.take().unwrap();
        self.session = CompositorSessionData(Some(FrameController::new(data.backend, None)));
        match data.swapchain_create_info {
            Some(info) => {
                if is_valid_swapchain_info(&info) {
                    self.restart_info = Some(info);
                    let mut actions: Vec<Action> = Vec::new();
                    actions.push(Action::CheckFormat { info });
                    return actions;
                }
            },
            None => {},
        }
        let mut actions: Vec<Action> = Vec::new();
        self.replay(&mut actions);
        actions
    }

    fn replay(&mut self, actions: &mut Vec<Action>)
        requires
            old(self).has_controller(),
            old(self).controller().wf(),
            old(self).may_restart(),
            old(self).submission_wf(),
        ensures
            *final(self) == old(self).replayed(),
            final(self).wf(),
            final(actions)@ == old(actions)@ + old(self).replay_actions(),
    {
        let old_state = self.frame_state;
        self.frame_state = FrameState::Submitted;
        match old_state {
            FrameState::Submitted => {},
            FrameState::Waited => {
                self.maybe_wait_frame(actions);
            },
            FrameState::Begun => {
                self.maybe_wait_frame(actions);
                self.maybe_begin_frame(actions);
            },
        }
    }

    /// The first swapchain of the session has the given format.
    pub(crate) fn first_format_checked(&mut self, format: i64) -> (actions: Vec<Action>)
        requires
            old(self).wf(),
            old(self).restart_info is Some,
        ensures
            ({
                let info = old(self).restart_info->0;
                let next = old(self).with_first_swapchain(info, format);
                &&& *final(self) == next.replayed()
                &&& actions@ == seq![
                    Action::CreateSwapchain { info: info.spec_in_format(format) },
                    Action::StoreImages { format },
                ] + next.replay_actions()
            }),
            final(self).wf(),
    {
        let info = self.restart_info.take().unwrap();
        let made = info.in_format(format);
        match &mut self.session.0 {
            Some(controller) => {
                controller.swapchain_data = Some(
                    SwapchainData { info: made, initial_format: info.format },
                );
            },
            None => {},
        }
        let mut actions: Vec<Action> = Vec::new();
        actions.push(Action::CreateSwapchain { info: made });
        actions.push(Action::StoreImages { format });
        self.replay(&mut actions);
        actions
    }
}

} // verus!
