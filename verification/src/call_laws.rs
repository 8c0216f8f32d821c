//! What each call of the compositor, and each answer of the host, does: in terms of the state
//! before it, its arguments, the state after it, and what it returns.
//!
//! `call_ensures(f, arguments, result)` stands for a call of `f` that returned `result`. The laws
//! speak of the fields of the state alone, whatever spec functions the contract of `f` is made of.

use vstd::prelude::*;

use crate::action::Action;
use crate::action::Outcome;
use crate::compositor::Compositor;
use crate::compositor::FrameMetrics;
use crate::compositor::Submission;
use crate::compositor::SubmitStage;
use crate::controller::CompositorSessionData;
use crate::controller::EyesSubmitted;
use crate::controller::FrameController;
use crate::controller::SwapchainData;
use crate::controller::TempBackendData;
use crate::frame_state::FrameState;
use crate::numbers::is_nan;
use crate::numbers::law_bounds_mean_numbers;
use crate::numbers::number;
use crate::numbers::one;
use crate::projection::EyePair;
use crate::projection::Extent2Di;
use crate::projection::SubmittedEye;
use crate::swapchain::SwapchainCreateInfo;
use crate::texture::EVRCompositorError;
use crate::texture::EVRCompositorTimingMode;
use crate::texture::EVREye;
use crate::texture::Texture;
use crate::texture::TextureBounds;

verus! {

/// A new compositor has no session, has counted no frame and waits for nothing.
pub proof fn law_a_new_compositor_is_empty<B>(display_time: i64, c: Compositor<B>)
    requires
        call_ensures(Compositor::<B>::new, (display_time,), c),
    ensures
        c == (Compositor::<B> {
            session: CompositorSessionData(None),
            tmp_backend: None,
            metrics: FrameMetrics { index: 0, time: 0 },
            timing_mode: EVRCompositorTimingMode::Implicit,
            frame_state: FrameState::Submitted,
            focused: false,
            display_time,
            polling: None,
            awaiting_frame: false,
            restart_info: None,
            submission: None,
        }),
{
}

/// A frame that was begun is ended once, at the display time of the frame that was waited for last,
/// and counted. It shows the eyes exactly if it is rendered, both were submitted and neither without
/// area, and then each as it was submitted.
pub proof fn law_handoff_ends_the_begun_frame<B>(c: &mut Compositor<B>, actions: Vec<Action>)
    requires
        call_ensures(Compositor::<B>::PostPresentHandoff, (c,), actions),
    ensures
        ({
            let k = old(c).session.0->0;
            let ends = old(c).session.0 is Some && old(c).frame_state is Begun;
            &&& !ends ==> actions@.len() == 0 && *final(c) == *old(c)
            &&& ends ==> {
                &&& actions@.len() == 1
                &&& actions@[0] is EndFrame
                &&& actions@[0]->display_time == old(c).display_time
                &&& actions@[0]->fade_grid == k.app_fade_grid
                &&& actions@[0]->eyes is Some <==> k.should_render && !k.submitting_null
                    && k.eyes_submitted.left is Some && k.eyes_submitted.right is Some
                &&& actions@[0]->eyes is Some ==> {
                    &&& Some(actions@[0]->eyes->0.left) == k.eyes_submitted.left
                    &&& Some(actions@[0]->eyes->0.right) == k.eyes_submitted.right
                }
                &&& final(c).frame_state is Submitted
                &&& final(c).metrics.time == old(c).metrics.time
                &&& final(c).metrics.index == (old(c).metrics.index + 1) % 0x1_0000_0000
                &&& *final(c) == (Compositor {
                    frame_state: FrameState::Submitted,
                    metrics: final(c).metrics,
                    ..*old(c)
                })
            }
        }),
{
}

/// The eyes that a frame shows are those that were noted for it.
pub proof fn law_shown_eyes_are_the_noted_ones<B>(k: FrameController<B>, eyes: Option<EyePair>)
    requires
        call_ensures(FrameController::<B>::end_frame, (&k,), eyes),
    ensures
        eyes is Some <==> k.should_render && !k.submitting_null && k.eyes_submitted.left is Some
            && k.eyes_submitted.right is Some,
        eyes is Some ==> Some(eyes->0.left) == k.eyes_submitted.left && Some(eyes->0.right)
            == k.eyes_submitted.right,
{
}

/// The time of a frame is noted, and nothing else changes.
pub proof fn law_the_time_of_a_frame_is_noted<B>(c: &mut Compositor<B>, time: u64)
    requires
        call_ensures(Compositor::<B>::frame_presented, (c, time), ()),
    ensures
        final(c).metrics.time == time,
        final(c).metrics.index == old(c).metrics.index,
        *final(c) == (Compositor { metrics: final(c).metrics, ..*old(c) }),
{
}

/// A frame that was waited for is rendered exactly if the runtime wants it and the application does
/// not suspend rendering, and is shown at the time that the runtime predicts.
pub proof fn law_what_is_rendered<B>(c: &mut Compositor<B>, should_render: bool, display_time: i64)
    requires
        call_ensures(Compositor::<B>::frame_waited, (c, should_render, display_time), ()),
        old(c).session.0 is Some,
    ensures
        ({
            let k = old(c).session.0->0;
            let after = final(c).session.0->0;
            &&& final(c).display_time == display_time
            &&& after.should_render <==> should_render && !k.app_suspend_render
            &&& after == (FrameController { should_render: after.should_render, ..k })
            &&& *final(c) == (Compositor {
                session: CompositorSessionData(Some(after)),
                display_time,
                awaiting_frame: false,
                ..*old(c)
            })
        }),
{
}

/// `WaitGetPoses` has the events handled, and remembers how many poses are asked for.
pub proof fn law_events_come_first<B>(c: &mut Compositor<B>, count: u32, outcome: Outcome)
    requires
        call_ensures(Compositor::<B>::WaitGetPoses, (c, count), outcome),
    ensures
        outcome.actions@ == seq![Action::PollEvents],
        outcome.result is None,
        *final(c) == (Compositor { polling: Some(count), ..*old(c) }),
{
}

/// Once the events are handled, an application without a session only moves on in the frame cycle.
pub proof fn law_next_frame_without_a_session<B>(c: &mut Compositor<B>, outcome: Outcome)
    requires
        call_ensures(Compositor::<B>::events_polled, (c,), outcome),
        old(c).session.0 is None,
    ensures
        outcome.actions@ == seq![Action::ResetViews, Action::StartInputFrame] + if old(c).polling->0
            != 0 {
            seq![Action::FetchPoses { count: old(c).polling->0 }]
        } else {
            seq![]
        },
        outcome.result == Some(EVRCompositorError::NoError),
        *final(c) == (Compositor {
            polling: None,
            focused: true,
            awaiting_frame: false,
            frame_state: if old(c).timing_mode is Implicit {
                FrameState::Begun
            } else {
                FrameState::Waited
            },
            ..*old(c)
        }),
{
}

/// Once the events are handled, the runtime is called in this order: the begun frame is ended, unless
/// the application does that by itself; a frame that was waited for and not begun is begun, which
/// discards it; the next frame is waited for; with implicit timing it is begun. Wherever a frame is
/// begun, the image of the one before is released if it still is acquired, and an image is acquired
/// if there is a swapchain. Then the views and the input start anew, and all the poses that were
/// asked for are fetched.
pub proof fn law_order_of_the_next_frame<B>(c: &mut Compositor<B>, outcome: Outcome)
    requires
        call_ensures(Compositor::<B>::events_polled, (c,), outcome),
        old(c).session.0 is Some,
        old(c).session.0->0.image_acquired ==> old(c).session.0->0.swapchain_data is Some,
    ensures
        ({
            let k = old(c).session.0->0;
            let swapchain = k.swapchain_data is Some;
            let ends = old(c).frame_state is Begun && !(old(
                c,
            ).timing_mode is Explicit_ApplicationPerformsPostPresentHandoff);
            let discards = old(c).frame_state is Waited;
            let begins = old(c).timing_mode is Implicit;
            let eyes = if k.should_render && !k.submitting_null && k.eyes_submitted.left is Some
                && k.eyes_submitted.right is Some {
                Some(EyePair { left: k.eyes_submitted.left->0, right: k.eyes_submitted.right->0 })
            } else {
                None
            };
            let end = if ends {
                seq![
                    Action::EndFrame {
                        display_time: old(c).display_time,
                        eyes,
                        fade_grid: k.app_fade_grid,
                    },
                ]
            } else {
                seq![]
            };
            let release = if k.image_acquired {
                seq![Action::ReleaseImage]
            } else {
                seq![]
            };
            let release_again = if swapchain {
                seq![Action::ReleaseImage]
            } else {
                seq![]
            };
            let acquire = if swapchain {
                seq![Action::AcquireImage]
            } else {
                seq![]
            };
            let discard = if discards {
                release + acquire + seq![Action::BeginFrame]
            } else {
                seq![]
            };
            let begin = if begins {
                (if discards {
                    release_again
                } else {
                    release
                }) + acquire + seq![Action::BeginFrame]
            } else {
                seq![]
            };
            let poses = if old(c).polling->0 != 0 {
                seq![Action::FetchPoses { count: old(c).polling->0 }]
            } else {
                seq![]
            };
            outcome.actions@ == end + discard + seq![Action::WaitFrame] + begin + seq![
                Action::ResetViews,
                Action::StartInputFrame,
            ] + poses
        }),
        outcome.result == Some(EVRCompositorError::NoError),
{
}

/// Once the events are handled, the application has focus, waits for its next frame, which is begun
/// with implicit timing, and can submit both eyes if a frame was begun. A frame that was ended is
/// counted. Nothing else changes.
pub proof fn law_state_of_the_next_frame<B>(c: &mut Compositor<B>, outcome: Outcome)
    requires
        call_ensures(Compositor::<B>::events_polled, (c,), outcome),
        old(c).session.0 is Some,
    ensures
        ({
            let k = old(c).session.0->0;
            let after = final(c).session.0->0;
            let ends = old(c).frame_state is Begun && !(old(
                c,
            ).timing_mode is Explicit_ApplicationPerformsPostPresentHandoff);
            let begins = old(c).frame_state is Waited || old(c).timing_mode is Implicit;
            &&& after == if begins {
                FrameController {
                    image_acquired: k.image_acquired || k.swapchain_data is Some,
                    eyes_submitted: EyesSubmitted { left: None, right: None },
                    submitting_null: false,
                    ..k
                }
            } else {
                k
            }
            &&& final(c).metrics.time == old(c).metrics.time
            &&& final(c).metrics.index == if ends {
                (old(c).metrics.index + 1) % 0x1_0000_0000
            } else {
                old(c).metrics.index as int
            }
            &&& *final(c) == (Compositor {
                session: CompositorSessionData(Some(after)),
                metrics: final(c).metrics,
                polling: None,
                focused: true,
                awaiting_frame: true,
                frame_state: if old(c).timing_mode is Implicit {
                    FrameState::Begun
                } else {
                    FrameState::Waited
                },
                ..*old(c)
            })
        }),
{
}

/// With implicit timing the announcement fails. Otherwise it is fine, and, once the application has
/// focus, begins the frame that was waited for, if there is one.
pub proof fn law_announcing_begins_the_frame<B>(c: &mut Compositor<B>, outcome: Outcome)
    requires
        call_ensures(Compositor::<B>::SubmitExplicitTimingData, (c,), outcome),
    ensures
        outcome.result == Some(
            if old(c).timing_mode is Implicit {
                EVRCompositorError::RequestFailed
            } else {
                EVRCompositorError::NoError
            },
        ),
        ({
            let k = old(c).session.0->0;
            let begins = !(old(c).timing_mode is Implicit) && old(c).focused && old(
                c,
            ).frame_state is Waited;
            &&& !begins ==> *final(c) == *old(c) && outcome.actions@.len() == 0
            &&& begins && old(c).session.0 is None ==> {
                &&& outcome.actions@.len() == 0
                &&& *final(c) == (Compositor { frame_state: FrameState::Begun, ..*old(c) })
            }
            &&& begins && old(c).session.0 is Some ==> {
                &&& outcome.actions@ == (if k.image_acquired {
                    seq![Action::ReleaseImage]
                } else {
                    seq![]
                }) + (if k.swapchain_data is Some {
                    seq![Action::AcquireImage]
                } else {
                    seq![]
                }) + seq![Action::BeginFrame]
                &&& *final(c) == (Compositor {
                    frame_state: FrameState::Begun,
                    session: CompositorSessionData(
                        Some(
                            FrameController {
                                image_acquired: k.image_acquired || k.swapchain_data is Some,
                                eyes_submitted: EyesSubmitted { left: None, right: None },
                                submitting_null: false,
                                ..k
                            },
                        ),
                    ),
                    ..*old(c)
                })
            }
        }),
{
}

/// The timing mode is the one that was set last, and setting it changes nothing else. In the older
/// form, explicit timing is the mode in which the application does all.
pub proof fn law_timing_modes_are_set<B>(
    c: &mut Compositor<B>,
    mode: EVRCompositorTimingMode,
    d: &mut Compositor<B>,
    explicit: bool,
)
    requires
        call_ensures(Compositor::<B>::SetExplicitTimingMode, (c, mode), ()),
        call_ensures(Compositor::<B>::set_explicit_timing, (d, explicit), ()),
    ensures
        *final(c) == (Compositor { timing_mode: mode, ..*old(c) }),
        *final(d) == (Compositor { timing_mode: final(d).timing_mode, ..*old(d) }),
        explicit ==> final(d).timing_mode is Explicit_ApplicationPerformsPostPresentHandoff,
        !explicit ==> final(d).timing_mode is Implicit,
{
}

/// Suspending and fading set what was asked for, in the session that there is, and nothing else.
pub proof fn law_settings_are_set<B>(
    c: &mut Compositor<B>,
    suspend: bool,
    d: &mut Compositor<B>,
    fade_in: bool,
)
    requires
        call_ensures(Compositor::<B>::SuspendRendering, (c, suspend), ()),
        call_ensures(Compositor::<B>::FadeGrid, (d, fade_in), ()),
    ensures
        old(c).session.0 is None ==> *final(c) == *old(c),
        old(d).session.0 is None ==> *final(d) == *old(d),
        old(c).session.0 is Some ==> *final(c) == (Compositor {
            session: CompositorSessionData(
                Some(FrameController { app_suspend_render: suspend, ..old(c).session.0->0 }),
            ),
            ..*old(c)
        }),
        old(d).session.0 is Some ==> *final(d) == (Compositor {
            session: CompositorSessionData(
                Some(FrameController { app_fade_grid: fade_in, ..old(d).session.0->0 }),
            ),
            ..*old(d)
        }),
{
}

/// A graphics backend and its swapchain are kept for the next session, which is asked for once,
/// exactly if both are there.
pub proof fn law_a_real_session_is_asked_for_once<B>(
    c: &mut Compositor<B>,
    backend: Option<B>,
    info: Option<SwapchainCreateInfo>,
    answer: (Result<(), EVRCompositorError>, Vec<Action>),
)
    requires
        call_ensures(Compositor::<B>::initialize_real_session, (c, backend, info), answer),
    ensures
        backend is Some && info is Some ==> {
            &&& answer.0 is Ok
            &&& answer.1@ == seq![Action::RestartSession]
            &&& *final(c) == (Compositor {
                tmp_backend: Some(
                    TempBackendData { backend: backend->0, swapchain_create_info: info },
                ),
                ..*old(c)
            })
        },
        backend is None || info is None ==> {
            &&& answer.0 == Err::<(), EVRCompositorError>(EVRCompositorError::InvalidTexture)
            &&& answer.1@.len() == 0
            &&& *final(c) == *old(c)
        },
{
}

/// The next session is made for the backend that was chosen, or else for the one of the session that
/// ends, whose swapchain it takes over. The old session is gone.
pub proof fn law_which_backend_the_next_session_has<B>(c: &mut Compositor<B>, backend: &B)
    requires
        call_ensures(Compositor::<B>::get_session_create_info, (c,), backend),
        old(c).tmp_backend is Some || old(c).session.0 is Some,
    ensures
        ({
            let k = old(c).session.0->0;
            let next = final(c).tmp_backend->0;
            &&& final(c).tmp_backend is Some
            &&& *backend == next.backend
            &&& old(c).tmp_backend is Some ==> final(c).tmp_backend == old(c).tmp_backend
            &&& old(c).tmp_backend is None ==> {
                &&& next.backend == k.backend
                &&& next.swapchain_create_info is Some <==> k.swapchain_data is Some
                &&& k.swapchain_data is Some ==> next.swapchain_create_info->0
                    == k.swapchain_data->0.info
            }
            &&& *final(c) == (Compositor {
                session: CompositorSessionData(None),
                tmp_backend: final(c).tmp_backend,
                ..*old(c)
            })
        }),
{
}

/// A new session has the backend that was kept for it and nothing else. With a swapchain to be made
/// its format is asked for first; without one the frame cycle is taken to where it was.
pub proof fn law_a_new_session_starts_over<B>(c: &mut Compositor<B>, actions: Vec<Action>)
    requires
        call_ensures(Compositor::<B>::post_session_restart, (c,), actions),
        old(c).tmp_backend is Some,
        !old(c).awaiting_frame,
        old(c).restart_info is None,
    ensures
        ({
            let wanted = old(c).tmp_backend->0.swapchain_create_info;
            let makes = wanted is Some && wanted->0.width >= 1 && wanted->0.height >= 1;
            let state = old(c).frame_state;
            &&& actions@ == if makes {
                seq![Action::CheckFormat { info: wanted->0 }]
            } else if state is Waited {
                seq![Action::WaitFrame]
            } else if state is Begun {
                seq![Action::WaitFrame, Action::BeginFrame]
            } else {
                seq![]
            }
            &&& *final(c) == (Compositor {
                session: CompositorSessionData(
                    Some(
                        FrameController {
                            swapchain_data: None,
                            image_index: 0,
                            image_acquired: false,
                            should_render: false,
                            app_suspend_render: false,
                            app_fade_grid: false,
                            eyes_submitted: EyesSubmitted { left: None, right: None },
                            submitting_null: false,
                            backend: old(c).tmp_backend->0.backend,
                        },
                    ),
                ),
                tmp_backend: None,
                restart_info: if makes {
                    wanted
                } else {
                    None
                },
                awaiting_frame: !makes && !(state is Submitted),
                ..*old(c)
            })
        }),
{
}

/// The first swapchain of a session is made with the parameters that were asked for, but in the
/// format that the host answered, and remembers which format was asked for. Then the frame cycle is
/// taken to where it was.
pub proof fn law_the_first_swapchain<B>(c: &mut Compositor<B>, format: i64, actions: Vec<Action>)
    requires
        call_ensures(Compositor::<B>::format_checked, (c, format), actions),
        old(c).wf(),
        old(c).restart_info is Some,
    ensures
        ({
            let asked = old(c).restart_info->0;
            let made = SwapchainCreateInfo {
                create_flags: asked.create_flags,
                usage_flags: asked.usage_flags,
                format,
                sample_count: asked.sample_count,
                width: asked.width,
                height: asked.height,
                face_count: asked.face_count,
                array_size: asked.array_size,
                mip_count: asked.mip_count,
            };
            let state = old(c).frame_state;
            &&& actions@ == seq![
                Action::CreateSwapchain { info: made },
                Action::StoreImages { format },
            ] + if state is Waited {
                seq![Action::WaitFrame]
            } else if state is Begun {
                seq![Action::WaitFrame, Action::AcquireImage, Action::BeginFrame]
            } else {
                seq![]
            }
            &&& *final(c) == (Compositor {
                session: CompositorSessionData(
                    Some(
                        FrameController {
                            swapchain_data: Some(
                                SwapchainData { info: made, initial_format: asked.format },
                            ),
                            image_acquired: state is Begun,
                            ..old(c).session.0->0
                        },
                    ),
                ),
                restart_info: None,
                awaiting_frame: !(state is Submitted),
                ..*old(c)
            })
        }),
{
}

/// A `Submit` is refused for bounds that are not on the texture, else for want of a texture, else for
/// want of focus. If it is not refused it goes on with the eye, the texture, the bounds and the flags
/// that were given, the whole texture where no bounds are: with the backend of the session, or, where
/// there is no session, with one that is still to be opened.
pub proof fn law_what_submit_takes_up<B>(
    c: &mut Compositor<B>,
    eye: EVREye,
    texture: Option<Texture>,
    bounds: Option<TextureBounds>,
    submit_flags: i32,
    outcome: Outcome,
)
    requires
        call_ensures(Compositor::<B>::Submit, (c, eye, texture, bounds, submit_flags), outcome),
    ensures
        ({
            let b = if bounds is Some {
                bounds->0
            } else {
                TextureBounds { u_min: 0, v_min: 0, u_max: 0x3f80_0000, v_max: 0x3f80_0000 }
            };
            let good = bounds is Some ==> {
                &&& 0 <= number(b.u_min) <= one()
                &&& 0 <= number(b.v_min) <= one()
                &&& 0 <= number(b.u_max) <= one()
                &&& 0 <= number(b.v_max) <= one()
                &&& number(b.u_min) != number(b.u_max)
                &&& number(b.v_min) != number(b.v_max)
            };
            let goes_on = good && texture is Some && old(c).focused;
            &&& outcome.result is None <==> goes_on
            &&& outcome.result == Some(EVRCompositorError::InvalidBounds) <==> !good
            &&& outcome.result == Some(EVRCompositorError::InvalidTexture) <==> good
                && texture is None
            &&& outcome.result == Some(EVRCompositorError::DoNotHaveFocus) <==> good
                && texture is Some && !old(c).focused
            &&& !goes_on ==> *final(c) == *old(c) && outcome.actions@.len() == 0
            &&& goes_on ==> {
                &&& outcome.actions@ == seq![
                    if old(c).session.0 is Some {
                        Action::ResolveTexture { texture: texture->0 }
                    } else {
                        Action::OpenBackend { texture: texture->0, bounds: b }
                    },
                ]
                &&& *final(c) == (Compositor {
                    submission: Some(
                        Submission {
                            eye,
                            texture: texture->0,
                            bounds: b,
                            submit_flags,
                            stage: if old(c).session.0 is Some {
                                SubmitStage::ResolvingTexture
                            } else {
                                SubmitStage::OpeningBackend
                            },
                        },
                    ),
                    ..*old(c)
                })
            }
        }),
{
    if bounds is Some {
        law_bounds_mean_numbers(bounds->0);
    } else {
        crate::texture::law_full_bounds_are_valid();
    }
}

/// With a backend that can read the texture, a session for it is asked for; otherwise the `Submit`
/// ends with an invalid texture.
pub proof fn law_the_first_texture_opens_a_session<B>(
    c: &mut Compositor<B>,
    backend: Option<B>,
    info: Option<SwapchainCreateInfo>,
    outcome: Outcome,
)
    requires
        call_ensures(Compositor::<B>::backend_opened, (c, backend, info), outcome),
        old(c).submission is Some,
    ensures
        backend is Some && info is Some ==> {
            &&& outcome.actions@ == seq![Action::RestartSession]
            &&& outcome.result is None
            &&& *final(c) == (Compositor {
                tmp_backend: Some(
                    TempBackendData { backend: backend->0, swapchain_create_info: info },
                ),
                submission: Some(
                    Submission {
                        stage: SubmitStage::RestartingSession,
                        ..old(c).submission->0
                    },
                ),
                ..*old(c)
            })
        },
        backend is None || info is None ==> {
            &&& outcome.actions@.len() == 0
            &&& outcome.result == Some(EVRCompositorError::InvalidTexture)
            &&& *final(c) == (Compositor { submission: None, ..*old(c) })
        },
{
}

/// In the new session the `Submit` goes on with its texture.
pub proof fn law_submit_goes_on_in_the_new_session<B>(c: &mut Compositor<B>, outcome: Outcome)
    requires
        call_ensures(Compositor::<B>::session_restarted, (c,), outcome),
        old(c).submission is Some,
    ensures
        outcome.actions@ == seq![
            Action::ResolveTexture { texture: old(c).submission->0.texture },
        ],
        outcome.result is None,
        *final(c) == (Compositor {
            submission: Some(
                Submission { stage: SubmitStage::ResolvingTexture, ..old(c).submission->0 },
            ),
            ..*old(c)
        }),
{
}

/// A texture that cannot be read ends the `Submit` as invalid, and an eye that was submitted before
/// as submitted already, without a change to the frame. In a frame that is rendered the backend is
/// asked what the texture needs.
pub proof fn law_what_is_refused_for_an_eye<B>(
    c: &mut Compositor<B>,
    readable: bool,
    outcome: Outcome,
)
    requires
        call_ensures(Compositor::<B>::texture_resolved, (c, readable), outcome),
        old(c).submission is Some,
        old(c).session.0 is Some,
    ensures
        ({
            let s = old(c).submission->0;
            let k = old(c).session.0->0;
            let before = if s.eye is Left {
                k.eyes_submitted.left
            } else {
                k.eyes_submitted.right
            };
            let refused = !readable || before is Some;
            &&& outcome.result == Some(EVRCompositorError::InvalidTexture) <==> !readable
            &&& outcome.result == Some(EVRCompositorError::AlreadySubmitted) <==> readable
                && before is Some
            &&& outcome.result == Some(EVRCompositorError::NoError) <==> !refused
                && !k.should_render
            &&& outcome.result is None <==> !refused && k.should_render
            &&& refused ==> {
                &&& outcome.actions@.len() == 0
                &&& *final(c) == (Compositor { submission: None, ..*old(c) })
            }
            &&& !refused && k.should_render ==> {
                &&& outcome.actions@ == seq![
                    Action::DescribeTexture { texture: s.texture, bounds: s.bounds },
                ]
                &&& *final(c) == (Compositor {
                    submission: Some(Submission { stage: SubmitStage::DescribingTexture, ..s }),
                    ..*old(c)
                })
            }
        }),
{
}

/// In a frame that is not rendered, an eye is noted as blank without asking the backend. The image is
/// released exactly if that completes the frame and there is a swapchain.
pub proof fn law_an_eye_that_is_not_rendered_is_blank<B>(
    c: &mut Compositor<B>,
    readable: bool,
    outcome: Outcome,
)
    requires
        call_ensures(Compositor::<B>::texture_resolved, (c, readable), outcome),
        old(c).submission is Some,
        old(c).session.0 is Some,
        readable,
        !old(c).session.0->0.should_render,
        old(c).submission->0.eye is Left ==> old(c).session.0->0.eyes_submitted.left is None,
        old(c).submission->0.eye is Right ==> old(c).session.0->0.eyes_submitted.right is None,
    ensures
        ({
            let eye = old(c).submission->0.eye;
            let k = old(c).session.0->0;
            let after = final(c).session.0->0;
            let blank = SubmittedEye {
                extent: Extent2Di { width: 0, height: 0 },
                flip_vertically: false,
            };
            let eyes = after.eyes_submitted;
            let complete = eyes.left is Some && eyes.right is Some;
            &&& eye is Left ==> eyes.left == Some(blank) && eyes.right == k.eyes_submitted.right
            &&& eye is Right ==> eyes.right == Some(blank) && eyes.left == k.eyes_submitted.left
            &&& after.image_acquired == (k.image_acquired && !complete)
            &&& after == (FrameController {
                eyes_submitted: eyes,
                image_acquired: after.image_acquired,
                ..k
            })
            &&& *final(c) == (Compositor {
                submission: None,
                session: CompositorSessionData(Some(after)),
                ..*old(c)
            })
            &&& outcome.actions@ == if complete && k.swapchain_data is Some {
                seq![Action::ReleaseImage]
            } else {
                seq![]
            }
        }),
{
}

/// A texture with an area that fits into the swapchain is copied, as it was submitted and for the eye
/// that it was submitted for, into the image that was acquired last. For one that does not fit, the
/// format of a new swapchain with what the texture needs is asked for.
pub proof fn law_a_texture_is_copied_for_its_eye<B>(
    c: &mut Compositor<B>,
    info: SwapchainCreateInfo,
    outcome: Outcome,
)
    requires
        call_ensures(Compositor::<B>::texture_described, (c, info), outcome),
        old(c).submission is Some,
        old(c).session.0 is Some,
        info.width >= 1,
        info.height >= 1,
    ensures
        ({
            let s = old(c).submission->0;
            let k = old(c).session.0->0;
            let have = k.swapchain_data->0;
            let fits = k.swapchain_data is Some && info.format == have.initial_format && info.width
                <= have.info.width && info.height <= have.info.height && info.array_size
                == have.info.array_size && info.sample_count == have.info.sample_count;
            &&& outcome.result is None
            &&& outcome.actions@ == seq![
                if fits {
                    Action::CopyTexture {
                        eye: s.eye,
                        texture: s.texture,
                        bounds: s.bounds,
                        image_index: k.image_index,
                        submit_flags: s.submit_flags,
                    }
                } else {
                    Action::CheckFormat { info }
                },
            ]
            &&& *final(c) == (Compositor {
                submission: Some(
                    Submission {
                        stage: if fits {
                            SubmitStage::CopyingTexture
                        } else {
                            SubmitStage::CheckingFormat { info }
                        },
                        ..s
                    },
                ),
                ..*old(c)
            })
        }),
{
}

/// A texture without area is not copied: its eye is noted as blank, and the frame shows nothing. The
/// image is released exactly if that completes the frame and there is a swapchain.
pub proof fn law_a_texture_without_area_hides_the_frame<B>(
    c: &mut Compositor<B>,
    info: SwapchainCreateInfo,
    outcome: Outcome,
)
    requires
        call_ensures(Compositor::<B>::texture_described, (c, info), outcome),
        old(c).submission is Some,
        old(c).session.0 is Some,
        info.width == 0 || info.height == 0,
    ensures
        ({
            let eye = old(c).submission->0.eye;
            let k = old(c).session.0->0;
            let after = final(c).session.0->0;
            let blank = SubmittedEye {
                extent: Extent2Di { width: 0, height: 0 },
                flip_vertically: false,
            };
            let eyes = after.eyes_submitted;
            let complete = eyes.left is Some && eyes.right is Some;
            &&& eye is Left ==> eyes.left == Some(blank) && eyes.right == k.eyes_submitted.right
            &&& eye is Right ==> eyes.right == Some(blank) && eyes.left == k.eyes_submitted.left
            &&& after.submitting_null
            &&& after.image_acquired == (k.image_acquired && !complete)
            &&& after == (FrameController {
                eyes_submitted: eyes,
                image_acquired: after.image_acquired,
                submitting_null: true,
                ..k
            })
            &&& *final(c) == (Compositor {
                submission: None,
                session: CompositorSessionData(Some(after)),
                ..*old(c)
            })
            &&& outcome.result == Some(EVRCompositorError::NoError)
            &&& outcome.actions@ == if complete && k.swapchain_data is Some {
                seq![Action::ReleaseImage]
            } else {
                seq![]
            }
        }),
{
}

/// A swapchain that a `Submit` needs is made with the parameters that its texture needs, but in the
/// format that the host answered, and remembers which format was asked for. What was submitted
/// before is lost, and the first image is acquired.
pub proof fn law_a_new_swapchain_is_what_the_texture_needs<B>(
    c: &mut Compositor<B>,
    info: SwapchainCreateInfo,
    format: i64,
    actions: Vec<Action>,
)
    requires
        call_ensures(Compositor::<B>::format_checked, (c, format), actions),
        old(c).restart_info is None,
        old(c).session.0 is Some,
        old(c).submission is Some,
        old(c).submission->0.stage == (SubmitStage::CheckingFormat { info }),
    ensures
        ({
            let made = SwapchainCreateInfo {
                create_flags: info.create_flags,
                usage_flags: info.usage_flags,
                format,
                sample_count: info.sample_count,
                width: info.width,
                height: info.height,
                face_count: info.face_count,
                array_size: info.array_size,
                mip_count: info.mip_count,
            };
            &&& actions@ == seq![
                Action::CreateSwapchain { info: made },
                Action::StoreImages { format },
                Action::AcquireImage,
            ]
            &&& *final(c) == (Compositor {
                session: CompositorSessionData(
                    Some(
                        FrameController {
                            swapchain_data: Some(
                                SwapchainData { info: made, initial_format: info.format },
                            ),
                            image_acquired: true,
                            eyes_submitted: EyesSubmitted { left: None, right: None },
                            ..old(c).session.0->0
                        },
                    ),
                ),
                submission: Some(
                    Submission { stage: SubmitStage::AcquiringImage, ..old(c).submission->0 },
                ),
                ..*old(c)
            })
        }),
{
}

/// The image that was acquired is remembered. A `Submit` that waited for it copies its texture there,
/// as it was submitted and for the eye that it was submitted for.
pub proof fn law_the_acquired_image_is_used<B>(
    c: &mut Compositor<B>,
    image_index: u32,
    actions: Vec<Action>,
)
    requires
        call_ensures(Compositor::<B>::image_acquired, (c, image_index), actions),
        old(c).session.0 is Some,
    ensures
        ({
            let s = old(c).submission->0;
            let waits = old(c).submission is Some && s.stage is AcquiringImage;
            &&& actions@ == if waits {
                seq![
                    Action::CopyTexture {
                        eye: s.eye,
                        texture: s.texture,
                        bounds: s.bounds,
                        image_index: image_index as usize,
                        submit_flags: s.submit_flags,
                    },
                ]
            } else {
                seq![]
            }
            &&& *final(c) == (Compositor {
                session: CompositorSessionData(
                    Some(
                        FrameController {
                            image_index: image_index as usize,
                            ..old(c).session.0->0
                        },
                    ),
                ),
                submission: if waits {
                    Some(Submission { stage: SubmitStage::CopyingTexture, ..s })
                } else {
                    old(c).submission
                },
                ..*old(c)
            })
        }),
{
}

/// A copy is noted for the eye that it was submitted for, with the size that the host answered, and
/// as flipped exactly if the bounds that were submitted go up. The image is released exactly if that
/// completes the frame and there is a swapchain.
pub proof fn law_a_copy_is_noted_for_its_eye<B>(
    c: &mut Compositor<B>,
    extent: Extent2Di,
    outcome: Outcome,
)
    requires
        call_ensures(Compositor::<B>::texture_copied, (c, extent), outcome),
        old(c).submission is Some,
        old(c).session.0 is Some,
    ensures
        ({
            let s = old(c).submission->0;
            let k = old(c).session.0->0;
            let after = final(c).session.0->0;
            let eyes = after.eyes_submitted;
            let noted = if s.eye is Left {
                eyes.left
            } else {
                eyes.right
            };
            let complete = eyes.left is Some && eyes.right is Some;
            &&& noted is Some
            &&& noted->0.extent == extent
            &&& noted->0.flip_vertically <==> !is_nan(s.bounds.v_min) && !is_nan(s.bounds.v_max)
                && number(s.bounds.v_min) > number(s.bounds.v_max)
            &&& s.eye is Left ==> eyes.right == k.eyes_submitted.right
            &&& s.eye is Right ==> eyes.left == k.eyes_submitted.left
            &&& after.image_acquired == (k.image_acquired && !complete)
            &&& after == (FrameController {
                eyes_submitted: eyes,
                image_acquired: after.image_acquired,
                ..k
            })
            &&& *final(c) == (Compositor {
                submission: None,
                session: CompositorSessionData(Some(after)),
                ..*old(c)
            })
            &&& outcome.result == Some(EVRCompositorError::NoError)
            &&& outcome.actions@ == if complete && k.swapchain_data is Some {
                seq![Action::ReleaseImage]
            } else {
                seq![]
            }
        }),
{
    law_bounds_mean_numbers(old(c).submission->0.bounds);
}

/// A controller starts with the backend and the swapchain that it is given, and nothing else.
pub proof fn law_a_new_controller_has_no_frame<B>(
    backend: B,
    swapchain_data: Option<SwapchainData>,
    k: FrameController<B>,
)
    requires
        call_ensures(FrameController::<B>::new, (backend, swapchain_data), k),
    ensures
        k == (FrameController {
            swapchain_data,
            image_index: 0,
            image_acquired: false,
            should_render: false,
            app_suspend_render: false,
            app_fade_grid: false,
            eyes_submitted: EyesSubmitted { left: None, right: None },
            submitting_null: false,
            backend,
        }),
{
}

/// A frame is begun with an image of the swapchain, if there is one, and without any eye. An image
/// that still is acquired is released first.
pub proof fn law_a_frame_begins_without_eyes<B>(k: &mut FrameController<B>, actions: Vec<Action>)
    requires
        call_ensures(FrameController::<B>::begin_frame, (k,), actions),
    ensures
        actions@ == (if old(k).image_acquired {
            seq![Action::ReleaseImage]
        } else {
            seq![]
        }) + (if old(k).swapchain_data is Some {
            seq![Action::AcquireImage]
        } else {
            seq![]
        }) + seq![Action::BeginFrame],
        *final(k) == (FrameController {
            image_acquired: old(k).image_acquired || old(k).swapchain_data is Some,
            eyes_submitted: EyesSubmitted { left: None, right: None },
            submitting_null: false,
            ..*old(k)
        }),
{
}

/// What is submitted for an eye is noted for that eye. The image is released exactly if that
/// completes the frame and there is a swapchain.
pub proof fn law_the_second_eye_releases_the_image<B>(
    k: &mut FrameController<B>,
    eye: EVREye,
    submitted: SubmittedEye,
    actions: Vec<Action>,
)
    requires
        call_ensures(FrameController::<B>::submit_eye, (k, eye, submitted), actions),
    ensures
        ({
            let eyes = final(k).eyes_submitted;
            let complete = eyes.left is Some && eyes.right is Some;
            &&& eye is Left ==> eyes.left == Some(submitted) && eyes.right == old(
                k,
            ).eyes_submitted.right
            &&& eye is Right ==> eyes.right == Some(submitted) && eyes.left == old(
                k,
            ).eyes_submitted.left
            &&& *final(k) == (FrameController {
                eyes_submitted: eyes,
                image_acquired: old(k).image_acquired && !complete,
                ..*old(k)
            })
            &&& actions@ == if complete && old(k).swapchain_data is Some {
                seq![Action::ReleaseImage]
            } else {
                seq![]
            }
        }),
{
}

/// The controller's swapchain is made with the parameters that are asked for, but in the format that
/// is given, remembers which format was asked for, and can then hold what it was made for.
pub proof fn law_a_new_swapchain_holds_what_it_is_for<B>(
    k: &mut FrameController<B>,
    info: SwapchainCreateInfo,
    format: i64,
    actions: Vec<Action>,
    after: FrameController<B>,
    usable: bool,
)
    requires
        call_ensures(FrameController::<B>::recreate_swapchain, (k, info, format), actions),
        after == *final(k),
        call_ensures(FrameController::<B>::can_hold, (&after, &info), usable),
    ensures
        ({
            let made = SwapchainCreateInfo {
                create_flags: info.create_flags,
                usage_flags: info.usage_flags,
                format,
                sample_count: info.sample_count,
                width: info.width,
                height: info.height,
                face_count: info.face_count,
                array_size: info.array_size,
                mip_count: info.mip_count,
            };
            &&& usable
            &&& actions@ == seq![
                Action::CreateSwapchain { info: made },
                Action::StoreImages { format },
                Action::AcquireImage,
            ]
            &&& after == (FrameController {
                swapchain_data: Some(SwapchainData { info: made, initial_format: info.format }),
                image_acquired: true,
                eyes_submitted: EyesSubmitted { left: None, right: None },
                ..*old(k)
            })
        }),
{
}

/// The controller can hold what is asked for exactly if it has a swapchain of the same format,
/// layers and samples that is as large.
pub proof fn law_what_the_swapchain_can_hold<B>(
    k: FrameController<B>,
    info: SwapchainCreateInfo,
    usable: bool,
)
    requires
        call_ensures(FrameController::<B>::can_hold, (&k, &info), usable),
    ensures
        usable <==> {
            let have = k.swapchain_data->0;
            &&& k.swapchain_data is Some
            &&& info.format == have.initial_format
            &&& info.width <= have.info.width
            &&& info.height <= have.info.height
            &&& info.array_size == have.info.array_size
            &&& info.sample_count == have.info.sample_count
        },
{
}

/// A frame is rendered exactly if the runtime wants it and the application does not suspend
/// rendering.
pub proof fn law_a_controller_renders_if_both_want_it<B>(
    k: &mut FrameController<B>,
    runtime_should_render: bool,
)
    requires
        call_ensures(FrameController::<B>::wait_frame, (k, runtime_should_render), ()),
    ensures
        final(k).should_render <==> runtime_should_render && !old(k).app_suspend_render,
        *final(k) == (FrameController { should_render: final(k).should_render, ..*old(k) }),
{
}

} // verus!
