//! The order in which an OpenXR runtime accepts calls, and the proof that the compositor keeps to
//! it.

use vstd::prelude::*;

use crate::action::Action;
use crate::compositor::Compositor;
use crate::compositor::SubmitStage;
use crate::frame_state::FrameState;
use crate::poses::pose_actions;
use crate::projection::SubmittedEye;
use crate::swapchain::SwapchainCreateInfo;

verus! {

/// What the runtime knows of a session.
pub struct RuntimeSession {
    /// A frame was waited for and not begun yet.
    pub waited: bool,
    /// A frame was begun and not ended yet.
    pub begun: bool,
    /// There is a swapchain.
    pub swapchain: bool,
    /// An image of the swapchain is acquired.
    pub image: bool,
}

impl RuntimeSession {
    /// A session that has just started.
    pub open spec fn start() -> RuntimeSession {
        RuntimeSession { waited: false, begun: false, swapchain: false, image: false }
    }

    /// The runtime accepts the call. A frame is waited for once before it is begun, and begun
    /// before it is ended; images are acquired and released in turn, and written in between; and a
    /// frame that shows the swapchain is ended only after the image was released. Actions that are
    /// no business of the runtime are always fine.
    pub open spec fn accepts(self, action: Action) -> bool {
        match action {
            Action::WaitFrame => !self.waited,
            Action::BeginFrame => self.waited,
            Action::EndFrame { eyes, .. } => {
                &&& self.begun
                &&& eyes is Some ==> self.swapchain && !self.image
            },
            Action::ReleaseImage => self.image,
            Action::AcquireImage => self.swapchain && !self.image,
            Action::CopyTexture { .. } => self.image,
            _ => true,
        }
    }

    /// The session after the call.
    pub open spec fn after(self, action: Action) -> RuntimeSession {
        match action {
            Action::WaitFrame => RuntimeSession { waited: true, ..self },
            Action::BeginFrame => RuntimeSession { waited: false, begun: true, ..self },
            Action::EndFrame { .. } => RuntimeSession { begun: false, ..self },
            Action::ReleaseImage => RuntimeSession { image: false, ..self },
            Action::AcquireImage => RuntimeSession { image: true, ..self },
            Action::CreateSwapchain { .. } => RuntimeSession {
                swapchain: true,
                image: false,
                ..self
            },
            _ => self,
        }
    }

    /// The session after a list of calls.
    pub open spec fn after_all(self, actions: Seq<Action>) -> RuntimeSession
        decreases actions.len(),
    {
        if actions.len() == 0 {
            self
        } else {
            self.after_all(actions.drop_last()).after(actions.last())
        }
    }

    /// The runtime accepts every call of the list, each after the ones before it.
    pub open spec fn accepts_all(self, actions: Seq<Action>) -> bool
        decreases actions.len(),
    {
        actions.len() > 0 ==> {
            &&& self.accepts_all(actions.drop_last())
            &&& self.after_all(actions.drop_last()).accepts(actions.last())
        }
    }
}

impl<B> Compositor<B> {
    /// With the eye of the `Submit` under way the frame is complete, and its image is released.
    pub open spec fn completes_frame(self) -> bool {
        let c = self.controller();
        &&& c.swapchain_data is Some
        &&& c.eyes_submitted.with(self.submission->0.eye, SubmittedEye::spec_blank()).both()
    }

    /// The compositor and the runtime have the same idea of the session.
    pub open spec fn agrees_with(self, rt: RuntimeSession) -> bool {
        self.has_controller() ==> {
            &&& rt.swapchain == self.controller().swapchain_data is Some
            &&& rt.image == self.controller().image_acquired
            &&& if self.restart_info is Some {
                rt == RuntimeSession::start()
            } else {
                &&& rt.waited == self.frame_state is Waited
                &&& self.frame_state is Begun ==> rt.begun
                &&& self.frame_state is Submitted ==> !rt.begun
            }
        }
    }
}

proof fn lemma_concat(rt: RuntimeSession, first: Seq<Action>, second: Seq<Action>)
    ensures
        rt.after_all(first + second) == rt.after_all(first).after_all(second),
        rt.accepts_all(first + second) <==> rt.accepts_all(first) && rt.after_all(
            first,
        ).accepts_all(second),
    decreases second.len(),
{
    if second.len() == 0 {
        assert(first + second == first);
    } else {
        assert((first + second).drop_last() == first + second.drop_last());
        lemma_concat(rt, first, second.drop_last());
    }
}

pub proof fn lemma_single(rt: RuntimeSession, action: Action)
    ensures
        rt.after_all(seq![action]) == rt.after(action),
        rt.accepts_all(seq![action]) == rt.accepts(action),
{
    assert(seq![action].drop_last() == Seq::<Action>::empty());
    assert(rt.after_all(Seq::<Action>::empty()) == rt);
    assert(rt.accepts_all(Seq::<Action>::empty()));
}

proof fn lemma_begin<B>(c: Compositor<B>, rt: RuntimeSession)
    requires
        c.has_controller() ==> c.controller().wf(),
        c.restart_info is None,
        c.agrees_with(rt),
    ensures
        rt.accepts_all(c.begin_actions()),
        c.begun().agrees_with(rt.after_all(c.begin_actions())),
{
    if c.frame_state is Waited && c.has_controller() {
        let k = c.controller();
        let release = if k.image_acquired {
            seq![Action::ReleaseImage]
        } else {
            seq![]
        };
        let acquire = if k.swapchain_data is Some {
            seq![Action::AcquireImage]
        } else {
            seq![]
        };
        lemma_single(rt, Action::ReleaseImage);
        lemma_single(rt.after_all(release), Action::AcquireImage);
        lemma_concat(rt, release, acquire);
        lemma_single(rt.after_all(release + acquire), Action::BeginFrame);
        lemma_concat(rt, release + acquire, seq![Action::BeginFrame]);
    }
}

proof fn lemma_wait<B>(c: Compositor<B>, rt: RuntimeSession)
    requires
        c.restart_info is None,
        !(c.frame_state is Waited),
        c.agrees_with(rt),
    ensures
        rt.accepts_all(c.wait_actions()),
        c.waited().agrees_with(rt.after_all(c.wait_actions())),
{
    lemma_single(rt, Action::WaitFrame);
}

proof fn lemma_present<B>(c: Compositor<B>, rt: RuntimeSession)
    requires
        c.wf(),
        c.restart_info is None,
        c.agrees_with(rt),
    ensures
        rt.accepts_all(c.present_actions()),
        c.presented().agrees_with(rt.after_all(c.present_actions())),
{
    if c.can_present() {
        lemma_single(rt, c.present_actions()[0]);
        assert(c.present_actions() == seq![c.present_actions()[0]]);
    }
}

proof fn lemma_replay<B>(c: Compositor<B>, rt: RuntimeSession)
    requires
        c.has_controller(),
        c.controller().wf(),
        !c.controller().image_acquired,
        c.restart_info is None,
        rt == (RuntimeSession {
            swapchain: c.controller().swapchain_data is Some,
            ..RuntimeSession::start()
        }),
    ensures
        rt.accepts_all(c.replay_actions()),
        c.replayed().agrees_with(rt.after_all(c.replay_actions())),
{
    let start = Compositor { frame_state: FrameState::Submitted, ..c };
    assert(start.agrees_with(rt));
    lemma_wait(start, rt);
    let mid = rt.after_all(start.wait_actions());
    lemma_begin(start.waited(), mid);
    lemma_concat(rt, start.wait_actions(), start.waited().begin_actions());
}

/// Whatever the timing mode and wherever the application stands, the runtime accepts the calls of
/// `WaitGetPoses`.
pub proof fn law_wait_get_poses_keeps_the_order<B>(
    c: Compositor<B>,
    rt: RuntimeSession,
    poses: u32,
)
    requires
        c.wf(),
        c.idle(),
        c.agrees_with(rt),
    ensures
        ({
            let actions = c.frame_cycle().1 + seq![Action::ResetViews, Action::StartInputFrame]
                + pose_actions(poses);
            &&& rt.accepts_all(actions)
            &&& c.frame_cycle().0.agrees_with(rt.after_all(actions))
        }),
{
    let focused = Compositor { focused: true, ..c };
    let (handed, a) = if crate::compositor::waits_present(c.timing_mode) {
        (focused.presented(), focused.present_actions())
    } else {
        (focused, seq![])
    };
    lemma_present(focused, rt);
    let rt1 = rt.after_all(a);
    lemma_begin(handed, rt1);
    let b = handed.begin_actions();
    lemma_concat(rt, a, b);
    let rt2 = rt.after_all(a + b);
    let discarded = handed.begun();
    lemma_wait(discarded, rt2);
    let w = discarded.wait_actions();
    lemma_concat(rt, a + b, w);
    let rt3 = rt.after_all(a + b + w);
    let waited = discarded.waited();
    lemma_begin(waited, rt3);
    lemma_concat(rt, a + b + w, waited.begin_actions());
    let cycle = c.frame_cycle().1;
    let updates = seq![Action::ResetViews, Action::StartInputFrame];
    lemma_pose_actions(rt.after_all(cycle), poses);
    lemma_concat(rt, cycle, updates);
    lemma_concat(rt, cycle + updates, pose_actions(poses));
}

proof fn lemma_pose_actions(rt: RuntimeSession, poses: u32)
    ensures
        rt.accepts_all(seq![Action::ResetViews, Action::StartInputFrame]),
        rt.after_all(seq![Action::ResetViews, Action::StartInputFrame]) == rt,
        rt.accepts_all(pose_actions(poses)),
        rt.after_all(pose_actions(poses)) == rt,
{
    let a = seq![Action::ResetViews];
    let b = seq![Action::StartInputFrame];
    lemma_single(rt, Action::ResetViews);
    lemma_single(rt, Action::StartInputFrame);
    lemma_single(rt, Action::FetchPoses { count: poses });
    lemma_concat(rt, a, b);
    assert(a + b == seq![Action::ResetViews, Action::StartInputFrame]);
}

/// The runtime accepts the calls of `SubmitExplicitTimingData`.
pub proof fn law_explicit_begin_keeps_the_order<B>(c: Compositor<B>, rt: RuntimeSession)
    requires
        c.wf(),
        c.idle(),
        c.agrees_with(rt),
    ensures
        rt.accepts_all(c.begin_actions()),
        c.begun().agrees_with(rt.after_all(c.begin_actions())),
{
    lemma_begin(c, rt);
}

/// The runtime accepts the call of `PostPresentHandoff`. In particular, where the frame shows the
/// eyes there is a swapchain for them, and its image was released.
pub proof fn law_handoff_keeps_the_order<B>(c: Compositor<B>, rt: RuntimeSession)
    requires
        c.wf(),
        c.idle(),
        c.agrees_with(rt),
    ensures
        rt.accepts_all(c.present_actions()),
        c.presented().agrees_with(rt.after_all(c.present_actions())),
{
    lemma_present(c, rt);
}

/// The runtime accepts the calls that follow the start of a session without a swapchain, and the
/// session is then where the application left the one before. One with a swapchain waits for the
/// format first.
pub proof fn law_restart_keeps_the_order<B>(c: Compositor<B>)
    requires
        c.wf(),
        c.may_restart(),
        c.tmp_backend is Some,
    ensures
        ({
            let rt = RuntimeSession::start();
            let fresh = c.in_new_session();
            let info = c.tmp_backend->0.swapchain_create_info->0;
            &&& c.restarts_with_swapchain() ==> (Compositor {
                restart_info: Some(info),
                ..fresh
            }).agrees_with(rt)
            &&& !c.restarts_with_swapchain() ==> {
                &&& rt.accepts_all(fresh.replay_actions())
                &&& fresh.replayed().agrees_with(rt.after_all(fresh.replay_actions()))
            }
        }),
{
    if !c.restarts_with_swapchain() {
        lemma_replay(c.in_new_session(), RuntimeSession::start());
    }
}

/// The runtime accepts that the first swapchain of a session is made, and the calls that then take
/// the session to where the application left the one before.
pub proof fn law_first_swapchain_keeps_the_order<B>(
    c: Compositor<B>,
    rt: RuntimeSession,
    format: i64,
)
    requires
        c.wf(),
        c.restart_info is Some,
        c.agrees_with(rt),
    ensures
        ({
            let info = c.restart_info->0;
            let next = c.with_first_swapchain(info, format);
            let actions = seq![
                Action::CreateSwapchain { info: info.spec_in_format(format) },
                Action::StoreImages { format },
            ] + next.replay_actions();
            &&& rt.accepts_all(actions)
            &&& next.replayed().agrees_with(rt.after_all(actions))
        }),
{
    let info = c.restart_info->0;
    let next = c.with_first_swapchain(info, format);
    lemma_create(rt, info.spec_in_format(format), format);
    let create = seq![
        Action::CreateSwapchain { info: info.spec_in_format(format) },
        Action::StoreImages { format },
    ];
    lemma_replay(next, rt.after_all(create));
    lemma_concat(rt, create, next.replay_actions());
}

proof fn lemma_create(rt: RuntimeSession, info: SwapchainCreateInfo, format: i64)
    ensures
        ({
            let create = seq![Action::CreateSwapchain { info }, Action::StoreImages { format }];
            &&& rt.accepts_all(create)
            &&& rt.after_all(create) == (RuntimeSession { swapchain: true, image: false, ..rt })
        }),
{
    let a = seq![Action::CreateSwapchain { info }];
    let b = seq![Action::StoreImages { format }];
    lemma_single(rt, Action::CreateSwapchain { info });
    lemma_single(rt.after_all(a), Action::StoreImages { format });
    lemma_concat(rt, a, b);
    assert(a + b == seq![Action::CreateSwapchain { info }, Action::StoreImages { format }]);
}

/// The runtime accepts what follows the submission of an eye: the image is released with the second
/// eye, if there is a swapchain. The image must have been acquired for that.
pub proof fn law_submitted_eye_keeps_the_order<B>(
    c: Compositor<B>,
    rt: RuntimeSession,
    submitted: SubmittedEye,
)
    requires
        c.wf(),
        c.submission is Some,
        c.has_controller(),
        c.restart_info is None,
        c.agrees_with(rt),
        !c.already_submitted(),
        c.completes_frame() ==> c.controller().image_acquired,
    ensures
        ({
            let actions = c.controller().with_eye_actions(c.submission->0.eye, submitted);
            &&& rt.accepts_all(actions)
            &&& c.with_submitted(submitted).agrees_with(rt.after_all(actions))
        }),
{
    lemma_single(rt, Action::ReleaseImage);
}

/// The runtime accepts that the swapchain is made anew in the middle of a frame, and that the
/// texture is then copied into the first image of the new one.
pub proof fn law_new_swapchain_keeps_the_order<B>(
    c: Compositor<B>,
    rt: RuntimeSession,
    info: SwapchainCreateInfo,
    format: i64,
    image_index: usize,
)
    requires
        c.wf(),
        c.submitting_at(SubmitStage::CheckingFormat { info }),
        c.agrees_with(rt),
    ensures
        ({
            let next = c.at_stage(SubmitStage::AcquiringImage).with_controller(
                c.controller().with_new_swapchain(info, format),
            );
            let actions = seq![
                Action::CreateSwapchain { info: info.spec_in_format(format) },
                Action::StoreImages { format },
                Action::AcquireImage,
            ];
            &&& rt.accepts_all(actions)
            &&& next.agrees_with(rt.after_all(actions))
            &&& rt.after_all(actions).accepts(next.copy_action(image_index))
        }),
{
    let made = info.spec_in_format(format);
    lemma_create(rt, made, format);
    let create = seq![Action::CreateSwapchain { info: made }, Action::StoreImages { format }];
    lemma_single(rt.after_all(create), Action::AcquireImage);
    lemma_concat(rt, create, seq![Action::AcquireImage]);
    assert(create + seq![Action::AcquireImage] == seq![
        Action::CreateSwapchain { info: made },
        Action::StoreImages { format },
        Action::AcquireImage,
    ]);
}

} // verus!
