//! What holds of the calls of the application taken together.

use vstd::prelude::*;

use crate::action::Action;
use crate::compositor::next_index;
use crate::compositor::waits_present;
use crate::compositor::Compositor;
use crate::controller::FrameController;
use crate::frame_state::FrameState;
use crate::history::after_history;
use crate::history::is_history;
use crate::history::law_every_history_keeps_the_invariant;
use crate::history::Step;
use crate::poses::pose_actions;
use crate::projection::SubmittedEye;
use crate::submit::refusal;
use crate::swapchain::usable_swapchain;
use crate::swapchain::SwapchainCreateInfo;
use crate::texture::EVRCompositorError;
use crate::texture::EVREye;
use crate::texture::Texture;
use crate::texture::TextureBounds;

verus! {

/// After `WaitGetPoses` the application renders at once where timing is implicit, and otherwise has
/// a frame that it is still to begin. The step to the wait is never refused, whether or not the frame
/// before was handed over first.
pub proof fn law_wait_get_poses_reaches_the_next_frame<B>(c: Compositor<B>)
    ensures
        c.timing_mode is Implicit ==> c.frame_cycle().0.frame_state is Begun,
        !(c.timing_mode is Implicit) ==> c.frame_cycle().0.frame_state is Waited,
        c.frame_cycle().0.focused,
        c.frame_cycle().0.timing_mode == c.timing_mode,
        c.presented().begun().frame_state.may_advance(FrameState::Waited),
        c.begun().frame_state.may_advance(FrameState::Waited),
{
}

/// With explicit timing the application takes its frame through the whole cycle: waited for by
/// `WaitGetPoses`, begun by `SubmitExplicitTimingData`, handed over by `PostPresentHandoff`.
/// Announcing the begin a second time changes nothing.
pub proof fn law_explicit_timing_walks_the_cycle<B>(c: Compositor<B>)
    requires
        !(c.timing_mode is Implicit),
    ensures
        ({
            let waited = c.frame_cycle().0;
            let begun = waited.begun();
            let presented = begun.presented();
            &&& waited.frame_state is Waited
            &&& begun.frame_state is Begun
            &&& begun.begun() == begun
            &&& begun.begin_actions() == Seq::<Action>::empty()
            &&& c.has_controller() ==> presented.frame_state is Submitted
        }),
{
}

/// The step can begin a frame that was waited for.
pub open spec fn may_begin<B>(step: Step<B>) -> bool {
    step is EventsPolled || step is SubmitExplicitTimingData
}

/// A frame is handed over only after it was begun, and only once: after it was handed over nothing
/// more is, until the next frame is begun.
pub proof fn law_a_frame_is_presented_once<B>(c: Compositor<B>, steps: Seq<Step<B>>)
    requires
        forall|i: int| 0 <= i < steps.len() ==> !may_begin(#[trigger] steps[i]),
    ensures
        c.can_present() ==> !(c.presented().frame_state is Begun),
        !(c.frame_state is Begun) ==> {
            let later = after_history(c, steps);
            &&& !(later.frame_state is Begun)
            &&& later.presented() == later
            &&& later.present_actions() == Seq::<Action>::empty()
        },
    decreases steps.len(),
{
    if steps.len() > 0 {
        let earlier = steps.drop_last();
        assert(forall|i: int| 0 <= i < earlier.len() ==> #[trigger] earlier[i] == steps[i]);
        law_a_frame_is_presented_once(c, earlier);
        if !(c.frame_state is Begun) {
            lemma_no_frame_is_begun(after_history(c, earlier), steps[steps.len() - 1]);
        }
    }
}

proof fn lemma_no_frame_is_begun<B>(c: Compositor<B>, step: Step<B>)
    requires
        !may_begin(step),
        !(c.frame_state is Begun),
    ensures
        !(c.take_step(step).0.frame_state is Begun),
{
}

/// The step hands a frame over.
pub open spec fn hands_over<B>(c: Compositor<B>, step: Step<B>) -> bool {
    &&& c.can_present()
    &&& step is PostPresentHandoff || step is EventsPolled && waits_present(c.timing_mode)
}

/// How many frames a history hands over.
pub open spec fn frames_handed_over<B>(c: Compositor<B>, steps: Seq<Step<B>>) -> nat
    decreases steps.len(),
{
    if steps.len() == 0 {
        0
    } else {
        let earlier = steps.drop_last();
        frames_handed_over(c, earlier) + if hands_over(after_history(c, earlier), steps.last()) {
            1nat
        } else {
            0
        }
    }
}

/// A step hands a frame over exactly if it asks the runtime to end one, and exactly such a step is
/// counted.
pub proof fn law_a_frame_is_counted<B>(c: Compositor<B>, step: Step<B>)
    ensures
        c.take_step(step).0.metrics.index == if hands_over(c, step) {
            next_index(c.metrics.index)
        } else {
            c.metrics.index
        },
        hands_over(c, step) <==> exists|i: int|
            0 <= i < c.take_step(step).1.len() && #[trigger] c.take_step(step).1[i] is EndFrame,
{
    lemma_count_of_a_step(c, step);
    if hands_over(c, step) {
        lemma_frame_is_ended(c, step);
    } else {
        lemma_no_frame_is_ended(c, step);
    }
}

proof fn lemma_count_of_a_step<B>(c: Compositor<B>, step: Step<B>)
    ensures
        c.take_step(step).0.metrics.index == if hands_over(c, step) {
            next_index(c.metrics.index)
        } else {
            c.metrics.index
        },
{
}

proof fn lemma_frame_is_ended<B>(c: Compositor<B>, step: Step<B>)
    requires
        hands_over(c, step),
    ensures
        c.take_step(step).1.len() > 0,
        c.take_step(step).1[0] is EndFrame,
{
}

proof fn lemma_no_frame_is_ended<B>(c: Compositor<B>, step: Step<B>)
    requires
        !hands_over(c, step),
    ensures
        forall|i: int|
            0 <= i < c.take_step(step).1.len() ==> !(#[trigger] c.take_step(step).1[i] is EndFrame),
{
}

/// The frames that are handed over are counted, one by one. After the largest number the count
/// starts again at zero.
pub proof fn law_frames_are_counted<B>(c: Compositor<B>, steps: Seq<Step<B>>)
    ensures
        after_history(c, steps).metrics.index == (c.metrics.index + frames_handed_over(c, steps))
            % 0x1_0000_0000,
    decreases steps.len(),
{
    if steps.len() > 0 {
        law_frames_are_counted(c, steps.drop_last());
        law_a_frame_is_counted(after_history(c, steps.drop_last()), steps.last());
    }
}

/// A frame is handed over for the time that the runtime predicted when the frame was waited for:
/// nothing that happens in between changes it.
pub proof fn law_frame_is_shown_at_the_predicted_time<B>(
    c: Compositor<B>,
    should_render: bool,
    predicted: i64,
    steps: Seq<Step<B>>,
    last: Step<B>,
)
    requires
        forall|i: int| 0 <= i < steps.len() ==> !(#[trigger] steps[i] is FrameWaited),
    ensures
        ({
            let waited = c.take_step(Step::FrameWaited { should_render, display_time: predicted }).0;
            let later = after_history(waited, steps);
            let actions = later.take_step(last).1;
            &&& later.display_time == predicted
            &&& forall|i: int|
                0 <= i < actions.len() && #[trigger] actions[i] is EndFrame
                    ==> actions[i]->display_time == predicted
        }),
{
    let waited = c.take_step(Step::FrameWaited { should_render, display_time: predicted }).0;
    law_only_waiting_changes_the_time(waited, steps);
    lemma_frame_ends_at_the_time(after_history(waited, steps), last);
}

/// The display time stays until the runtime answers the next wait.
pub proof fn law_only_waiting_changes_the_time<B>(c: Compositor<B>, steps: Seq<Step<B>>)
    requires
        forall|i: int| 0 <= i < steps.len() ==> !(#[trigger] steps[i] is FrameWaited),
    ensures
        after_history(c, steps).display_time == c.display_time,
    decreases steps.len(),
{
    if steps.len() > 0 {
        let earlier = steps.drop_last();
        assert(forall|i: int| 0 <= i < earlier.len() ==> #[trigger] earlier[i] == steps[i]);
        law_only_waiting_changes_the_time(c, earlier);
        lemma_time_stays(after_history(c, earlier), steps[steps.len() - 1]);
    }
}

proof fn lemma_time_stays<B>(c: Compositor<B>, step: Step<B>)
    requires
        !(step is FrameWaited),
    ensures
        c.take_step(step).0.display_time == c.display_time,
{
}

#[verifier::rlimit(30)]
proof fn lemma_frame_ends_at_the_time<B>(c: Compositor<B>, step: Step<B>)
    ensures
        ({
            let actions = c.take_step(step).1;
            forall|i: int|
                0 <= i < actions.len() && #[trigger] actions[i] is EndFrame
                    ==> actions[i]->display_time == c.display_time
        }),
{
}

/// A new session is taken to the step of the cycle that the application had reached in the old one.
pub proof fn law_restart_keeps_the_frame_state<B>(c: Compositor<B>)
    requires
        c.tmp_backend is Some,
    ensures
        c.in_new_session().frame_state == c.frame_state,
        c.in_new_session().replayed().frame_state == c.frame_state,
        forall|info: SwapchainCreateInfo, format: i64|
            #[trigger] c.in_new_session().with_first_swapchain(info, format).replayed().frame_state
                == c.frame_state,
{
}

/// The graphics backend of a session, and the parameters of its swapchain, go over to the next one,
/// unless the application chose another backend in the meantime.
pub proof fn law_restart_keeps_the_backend<B>(c: Compositor<B>)
    requires
        c.wf(),
        c.has_controller(),
        c.tmp_backend is None,
    ensures
        ({
            let next = c.between_sessions().in_new_session();
            &&& next.controller().backend == c.controller().backend
            &&& c.between_sessions().restarts_with_swapchain()
                <==> c.controller().swapchain_data is Some
            &&& c.controller().swapchain_data is Some ==> c.between_sessions().tmp_backend->0
                .swapchain_create_info == Some(c.controller().swapchain_data->0.info)
        }),
{
}

/// The step chooses a graphics backend, or takes the chosen one into use.
pub open spec fn settles_backend<B>(step: Step<B>) -> bool {
    step is BackendOpened || step is InitializeRealSession || step is PostSessionRestart
}

/// A backend that was chosen is the one that the next session is made for, unless another one is
/// chosen first.
pub proof fn law_chosen_backend_is_used<B>(c: Compositor<B>, steps: Seq<Step<B>>)
    requires
        c.tmp_backend is Some,
        forall|i: int| 0 <= i < steps.len() ==> !settles_backend(#[trigger] steps[i]),
    ensures
        ({
            let later = after_history(c, steps);
            &&& later.tmp_backend == c.tmp_backend
            &&& later.between_sessions().tmp_backend == c.tmp_backend
            &&& later.between_sessions().in_new_session().controller().backend
                == c.tmp_backend->0.backend
        }),
    decreases steps.len(),
{
    if steps.len() > 0 {
        let earlier = steps.drop_last();
        assert(forall|i: int| 0 <= i < earlier.len() ==> #[trigger] earlier[i] == steps[i]);
        law_chosen_backend_is_used(c, earlier);
        lemma_backend_stays(after_history(c, earlier), steps[steps.len() - 1]);
    }
}

proof fn lemma_backend_stays<B>(c: Compositor<B>, step: Step<B>)
    requires
        c.tmp_backend is Some,
        !settles_backend(step),
    ensures
        c.take_step(step).0.tmp_backend == c.tmp_backend,
{
}

/// The step can make a swapchain anew or end the session.
pub open spec fn may_replace_swapchain<B>(step: Step<B>) -> bool {
    step is FormatChecked || step is GetSessionCreateInfo || step is PostSessionRestart
}

/// The step can make submitted eyes free again: it can begin a frame, make the swapchain anew or end
/// the session.
pub open spec fn may_free_eyes<B>(step: Step<B>) -> bool {
    may_begin(step) || may_replace_swapchain(step)
}

/// An eye that was submitted stays so, and a `Submit` for it is refused, until a frame is begun, the
/// swapchain is made anew or the session is replaced.
pub proof fn law_an_eye_is_submitted_once_per_frame<B>(
    c: Compositor<B>,
    eye: EVREye,
    steps: Seq<Step<B>>,
)
    requires
        c.wf(),
        c.has_controller(),
        c.controller().eyes_submitted.at(eye) is Some,
        is_history(c, steps),
        forall|i: int| 0 <= i < steps.len() ==> !may_free_eyes(#[trigger] steps[i]),
    ensures
        ({
            let later = after_history(c, steps);
            let refused = later.take_step(Step::TextureResolved { readable: true });
            &&& later.has_controller()
            &&& later.controller().eyes_submitted.at(eye) == c.controller().eyes_submitted.at(eye)
            &&& later.submission is Some && later.submission->0.eye == eye ==> {
                &&& later.already_submitted()
                &&& refused == (later.without_submission(), Seq::<Action>::empty())
            }
        }),
    decreases steps.len(),
{
    if steps.len() > 0 {
        let earlier = steps.drop_last();
        assert(forall|i: int| 0 <= i < earlier.len() ==> #[trigger] earlier[i] == steps[i]);
        law_every_history_keeps_the_invariant(c, earlier);
        law_an_eye_is_submitted_once_per_frame(c, eye, earlier);
        lemma_eye_stays(after_history(c, earlier), eye, steps[steps.len() - 1]);
    }
}

proof fn lemma_eye_stays<B>(c: Compositor<B>, eye: EVREye, step: Step<B>)
    requires
        c.wf(),
        c.has_controller(),
        c.controller().eyes_submitted.at(eye) is Some,
        c.may_take(step),
        !may_free_eyes(step),
    ensures
        c.take_step(step).0.has_controller(),
        c.take_step(step).0.controller().eyes_submitted.at(eye)
            == c.controller().eyes_submitted.at(eye),
{
}

/// Submitting an eye notes it and leaves the other one as it was. When the next frame is begun,
/// neither is submitted.
pub proof fn law_submitting_an_eye_leaves_the_other<B>(
    c: Compositor<B>,
    submitted: SubmittedEye,
    other: EVREye,
)
    requires
        c.submission is Some,
        c.has_controller(),
        other != c.submission->0.eye,
    ensures
        ({
            let eye = c.submission->0.eye;
            let eyes = c.with_submitted(submitted).controller().eyes_submitted;
            &&& eyes.at(eye) == Some(submitted)
            &&& eyes.at(other) == c.controller().eyes_submitted.at(other)
        }),
        c.frame_state is Waited ==> {
            let eyes = c.begun().controller().eyes_submitted;
            eyes.at(EVREye::Left) is None && eyes.at(EVREye::Right) is None
        },
{
}

/// `WaitGetPoses` lets both eyes be submitted again where timing is implicit, whether or not they
/// were submitted before.
pub proof fn law_next_frame_takes_both_eyes<B>(c: Compositor<B>, eye: EVREye)
    requires
        c.has_controller(),
        c.timing_mode is Implicit,
    ensures
        c.frame_cycle().0.has_controller(),
        c.frame_cycle().0.controller().eyes_submitted.at(eye) is None,
        !c.frame_cycle().0.controller().submitting_null,
{
}

/// An application has focus from the first `WaitGetPoses` on, for good. From then on it is never told
/// that it lacks focus, and before it can submit nothing. Bad bounds count before a missing texture,
/// and that before the focus.
pub proof fn law_focus_comes_with_the_first_frame<B>(
    c: Compositor<B>,
    steps: Seq<Step<B>>,
    texture: Option<Texture>,
    bounds: Option<TextureBounds>,
)
    ensures
        after_history(c, steps).focused <==> c.focused || exists|i: int|
            0 <= i < steps.len() && #[trigger] steps[i] is EventsPolled,
        refusal(true, texture, bounds) != Some(EVRCompositorError::DoNotHaveFocus),
        refusal(false, texture, bounds) is Some,
        refusal(true, texture, bounds) is Some ==> refusal(false, texture, bounds) == refusal(
            true,
            texture,
            bounds,
        ),
    decreases steps.len(),
{
    if steps.len() > 0 {
        let earlier = steps.drop_last();
        let last = steps[steps.len() - 1];
        assert(forall|i: int| 0 <= i < earlier.len() ==> #[trigger] earlier[i] == steps[i]);
        law_focus_comes_with_the_first_frame(c, earlier, texture, bounds);
        lemma_focus_stays(after_history(c, earlier), last);
        if exists|i: int| 0 <= i < earlier.len() && #[trigger] earlier[i] is EventsPolled {
            let i = choose|i: int| 0 <= i < earlier.len() && #[trigger] earlier[i] is EventsPolled;
            assert(steps[i] is EventsPolled);
        }
        if exists|i: int| 0 <= i < steps.len() && #[trigger] steps[i] is EventsPolled {
            let i = choose|i: int| 0 <= i < steps.len() && #[trigger] steps[i] is EventsPolled;
            if i < earlier.len() {
                assert(earlier[i] is EventsPolled);
            }
        }
    }
}

proof fn lemma_focus_stays<B>(c: Compositor<B>, step: Step<B>)
    ensures
        c.take_step(step).0.focused == (c.focused || step is EventsPolled),
{
}

/// The swapchain stays until one is made anew or the session is replaced.
pub proof fn law_swapchain_stays<B>(c: Compositor<B>, steps: Seq<Step<B>>)
    requires
        c.has_controller(),
        forall|i: int| 0 <= i < steps.len() ==> !may_replace_swapchain(#[trigger] steps[i]),
    ensures
        after_history(c, steps).has_controller(),
        after_history(c, steps).controller().swapchain_data == c.controller().swapchain_data,
    decreases steps.len(),
{
    if steps.len() > 0 {
        let earlier = steps.drop_last();
        assert(forall|i: int| 0 <= i < earlier.len() ==> #[trigger] earlier[i] == steps[i]);
        law_swapchain_stays(c, earlier);
        lemma_swapchain_stays(after_history(c, earlier), steps[steps.len() - 1]);
    }
}

proof fn lemma_swapchain_stays<B>(c: Compositor<B>, step: Step<B>)
    requires
        c.has_controller(),
        !may_replace_swapchain(step),
    ensures
        c.take_step(step).0.has_controller(),
        c.take_step(step).0.controller().swapchain_data == c.controller().swapchain_data,
{
}

/// A swapchain that was made for a texture has room for it, and for every smaller texture of the
/// same kind, whatever format the runtime chose. So no new one is made while the application goes on
/// with textures that are no larger.
pub proof fn law_new_swapchain_has_room<B>(
    controller: FrameController<B>,
    info: SwapchainCreateInfo,
    format: i64,
    later: SwapchainCreateInfo,
)
    ensures
        controller.with_new_swapchain(info, format).has_room_for(info),
        usable_swapchain(info, info.format, later) ==> controller.with_new_swapchain(
            info,
            format,
        ).has_room_for(later),
{
}

/// A frame shows the eyes only if the runtime and the application want it rendered, both eyes were
/// submitted, and neither with a texture without area; and then there is a swapchain that has an
/// area.
pub proof fn law_only_complete_frames_show_the_eyes<B>(c: Compositor<B>)
    requires
        c.wf(),
        c.restart_info is None,
        c.can_present(),
    ensures
        ({
            let k = c.controller();
            &&& k.shown_eyes() is Some <==> k.should_render && !k.submitting_null
                && k.eyes_submitted.both()
            &&& k.shown_eyes() is Some ==> {
                &&& k.swapchain_data is Some
                &&& k.swapchain_data->0.info.has_area()
                &&& !k.image_acquired
            }
        }),
{
}

/// The step can move the application on in the frame cycle.
pub open spec fn moves_the_cycle<B>(step: Step<B>) -> bool {
    step is EventsPolled || step is SubmitExplicitTimingData || step is PostPresentHandoff
}

/// The step is a `Submit` or one of the answers that carry it to its end. Where it starts a session,
/// those of the restart are among them.
pub open spec fn serves_submit<B>(step: Step<B>) -> bool {
    match step {
        Step::Submit { .. } | Step::BackendOpened { .. } | Step::SessionRestarted
        | Step::TextureResolved { .. } | Step::TextureDescribed { .. } | Step::FormatChecked { .. }
        | Step::ImageAcquired { .. } | Step::TextureCopied { .. } | Step::GetSessionCreateInfo
        | Step::PostSessionRestart | Step::FrameWaited { .. } => true,
        _ => false,
    }
}

/// Only `WaitGetPoses`, `SubmitExplicitTimingData` and `PostPresentHandoff` move the application on
/// in the frame cycle.
pub proof fn law_other_steps_keep_the_frame_state<B>(c: Compositor<B>, steps: Seq<Step<B>>)
    requires
        forall|i: int| 0 <= i < steps.len() ==> !moves_the_cycle(#[trigger] steps[i]),
    ensures
        after_history(c, steps).frame_state == c.frame_state,
    decreases steps.len(),
{
    if steps.len() > 0 {
        let earlier = steps.drop_last();
        assert forall|i: int| 0 <= i < earlier.len() implies !moves_the_cycle(
            #[trigger] earlier[i],
        ) by {
            assert(earlier[i] == steps[i]);
        }
        law_other_steps_keep_the_frame_state(c, earlier);
        lemma_frame_state_stays(after_history(c, earlier), steps[steps.len() - 1]);
    }
}

proof fn lemma_frame_state_stays<B>(c: Compositor<B>, step: Step<B>)
    requires
        !moves_the_cycle(step),
    ensures
        c.take_step(step).0.frame_state == c.frame_state,
{
}

/// `Submit`, together with every answer to it, leaves the application where it was in the frame
/// cycle, even if a new session is started on the way.
pub proof fn law_submit_keeps_the_frame_state<B>(c: Compositor<B>, steps: Seq<Step<B>>)
    requires
        forall|i: int| 0 <= i < steps.len() ==> serves_submit(#[trigger] steps[i]),
    ensures
        after_history(c, steps).frame_state == c.frame_state,
{
    law_other_steps_keep_the_frame_state(c, steps);
}

/// What the last `SuspendRendering` asked for since a session was last taken into use, and that
/// rendering is not suspended if there was none since. Nothing is said where the history has neither.
pub open spec fn last_suspend<B>(steps: Seq<Step<B>>) -> Option<bool>
    decreases steps.len(),
{
    if steps.len() == 0 {
        None
    } else {
        match steps.last() {
            Step::SuspendRendering { suspend } => Some(suspend),
            Step::PostSessionRestart => Some(false),
            _ => last_suspend(steps.drop_last()),
        }
    }
}

/// The same for `FadeGrid`.
pub open spec fn last_fade<B>(steps: Seq<Step<B>>) -> Option<bool>
    decreases steps.len(),
{
    if steps.len() == 0 {
        None
    } else {
        match steps.last() {
            Step::FadeGrid { fade_in } => Some(fade_in),
            Step::PostSessionRestart => Some(false),
            _ => last_fade(steps.drop_last()),
        }
    }
}

/// In every history the controller has the setting that the last `SuspendRendering` since it was
/// made asked for, and does not suspend rendering if there was none. A controller that is older than
/// the history, and was not told otherwise, has the setting that it had.
pub proof fn law_suspension_lasts<B>(c: Compositor<B>, steps: Seq<Step<B>>)
    requires
        c.wf(),
        is_history(c, steps),
        after_history(c, steps).has_controller(),
    ensures
        ({
            let suspended = after_history(c, steps).controller().app_suspend_render;
            match last_suspend(steps) {
                Some(asked) => suspended == asked,
                None => c.has_controller() && suspended == c.controller().app_suspend_render,
            }
        }),
    decreases steps.len(),
{
    if steps.len() > 0 {
        let earlier = steps.drop_last();
        law_every_history_keeps_the_invariant(c, earlier);
        lemma_settings_stay(after_history(c, earlier), steps.last());
        if !(steps.last() is PostSessionRestart) {
            law_suspension_lasts(c, earlier);
        }
    }
}

/// In every history the controller has the setting that the last `FadeGrid` since it was made asked
/// for, and does not fade if there was none. A controller that is older than the history, and was
/// not told otherwise, has the setting that it had.
pub proof fn law_fading_lasts<B>(c: Compositor<B>, steps: Seq<Step<B>>)
    requires
        c.wf(),
        is_history(c, steps),
        after_history(c, steps).has_controller(),
    ensures
        ({
            let fading = after_history(c, steps).controller().app_fade_grid;
            match last_fade(steps) {
                Some(asked) => fading == asked,
                None => c.has_controller() && fading == c.controller().app_fade_grid,
            }
        }),
    decreases steps.len(),
{
    if steps.len() > 0 {
        let earlier = steps.drop_last();
        law_every_history_keeps_the_invariant(c, earlier);
        lemma_settings_stay(after_history(c, earlier), steps.last());
        if !(steps.last() is PostSessionRestart) {
            law_fading_lasts(c, earlier);
        }
    }
}

proof fn lemma_settings_stay<B>(c: Compositor<B>, step: Step<B>)
    requires
        c.wf(),
        c.may_take(step),
        c.take_step(step).0.has_controller(),
    ensures
        ({
            let k = c.take_step(step).0.controller();
            match step {
                Step::PostSessionRestart => !k.app_suspend_render && !k.app_fade_grid,
                Step::SuspendRendering { suspend } => {
                    &&& c.has_controller()
                    &&& k.app_suspend_render == suspend
                    &&& k.app_fade_grid == c.controller().app_fade_grid
                },
                Step::FadeGrid { fade_in } => {
                    &&& c.has_controller()
                    &&& k.app_suspend_render == c.controller().app_suspend_render
                    &&& k.app_fade_grid == fade_in
                },
                _ => {
                    &&& c.has_controller()
                    &&& k.app_suspend_render == c.controller().app_suspend_render
                    &&& k.app_fade_grid == c.controller().app_fade_grid
                },
            }
        }),
{
}

/// The last `Submit` of a history.
pub open spec fn last_submit<B>(steps: Seq<Step<B>>) -> Option<Step<B>>
    decreases steps.len(),
{
    if steps.len() == 0 {
        None
    } else if steps.last() is Submit {
        Some(steps.last())
    } else {
        last_submit(steps.drop_last())
    }
}

/// A `Submit` was given the eye and the texture, and the bounds or, for the whole texture, none.
pub open spec fn was_given<B>(
    step: Option<Step<B>>,
    eye: EVREye,
    texture: Texture,
    bounds: TextureBounds,
    submit_flags: i32,
) -> bool {
    match step {
        Some(Step::Submit { eye: e, texture: t, bounds: b, submit_flags: f }) => {
            &&& e == eye
            &&& t == Some(texture)
            &&& b is Some ==> b->0 == bounds
            &&& b is None ==> bounds == (TextureBounds {
                u_min: 0,
                v_min: 0,
                u_max: 0x3f80_0000,
                v_max: 0x3f80_0000,
            })
            &&& f == submit_flags
        },
        _ => false,
    }
}

proof fn lemma_submission_stays<B>(c: Compositor<B>, step: Step<B>)
    requires
        c.may_take(step),
        c.take_step(step).0.submission is Some,
    ensures
        ({
            let s = c.take_step(step).0.submission->0;
            &&& step is Submit ==> was_given(
                Some(step),
                s.eye,
                s.texture,
                s.bounds,
                s.submit_flags,
            )
            &&& !(step is Submit) ==> {
                &&& c.submission is Some
                &&& c.submission->0.eye == s.eye
                &&& c.submission->0.texture == s.texture
                &&& c.submission->0.bounds == s.bounds
                &&& c.submission->0.submit_flags == s.submit_flags
            }
        }),
{
}

/// In every history the `Submit` that is under way is about the eye, the texture, the bounds and the
/// flags that the last `Submit` was given.
pub proof fn law_submit_is_about_what_it_was_given<B>(c: Compositor<B>, steps: Seq<Step<B>>)
    requires
        c.submission is None,
        is_history(c, steps),
    ensures
        after_history(c, steps).submission is Some ==> {
            let s = after_history(c, steps).submission->0;
            was_given(last_submit(steps), s.eye, s.texture, s.bounds, s.submit_flags)
        },
    decreases steps.len(),
{
    if steps.len() > 0 {
        let earlier = steps.drop_last();
        law_submit_is_about_what_it_was_given(c, earlier);
        if after_history(c, steps).submission is Some {
            lemma_submission_stays(after_history(c, earlier), steps.last());
        }
    }
}

/// In every history a texture is copied exactly as the last `Submit` was given it: for its eye, with
/// its bounds, the whole texture where there were none, and with its flags.
pub proof fn law_copies_are_what_was_submitted<B>(
    c: Compositor<B>,
    steps: Seq<Step<B>>,
    step: Step<B>,
    i: int,
)
    requires
        c.submission is None,
        is_history(c, steps),
        after_history(c, steps).may_take(step),
        0 <= i < after_history(c, steps).take_step(step).1.len(),
        after_history(c, steps).take_step(step).1[i] is CopyTexture,
    ensures
        ({
            let copy = after_history(c, steps).take_step(step).1[i];
            was_given(
                last_submit(steps),
                copy->CopyTexture_eye,
                copy->CopyTexture_texture,
                copy->CopyTexture_bounds,
                copy->CopyTexture_submit_flags,
            )
        }),
{
    law_submit_is_about_what_it_was_given(c, steps);
    lemma_copy_is_of_the_submission(after_history(c, steps), step, i);
}

proof fn lemma_copy_is_of_the_submission<B>(c: Compositor<B>, step: Step<B>, i: int)
    requires
        c.may_take(step),
        0 <= i < c.take_step(step).1.len(),
        c.take_step(step).1[i] is CopyTexture,
    ensures
        ({
            let copy = c.take_step(step).1[i];
            let s = c.submission->0;
            &&& step is TextureDescribed || step is ImageAcquired
            &&& c.submission is Some
            &&& copy->CopyTexture_eye == s.eye
            &&& copy->CopyTexture_texture == s.texture
            &&& copy->CopyTexture_bounds == s.bounds
            &&& copy->CopyTexture_submit_flags == s.submit_flags
            &&& copy->CopyTexture_image_index == match step {
                Step::ImageAcquired { image_index } => image_index as usize,
                _ => c.session.0->0.image_index,
            }
        }),
{
    if !(step is TextureDescribed || step is ImageAcquired) {
        lemma_who_copies(c, step);
    }
}

proof fn lemma_who_copies<B>(c: Compositor<B>, step: Step<B>)
    requires
        !(step is TextureDescribed),
        !(step is ImageAcquired),
    ensures
        forall|i: int|
            0 <= i < c.take_step(step).1.len() ==> !(#[trigger] c.take_step(step).1[i] is CopyTexture),
{
}

/// The image that was acquired last since a session was last taken into use; the first image if none
/// was since. Nothing is said where the history has neither.
pub open spec fn last_image<B>(steps: Seq<Step<B>>) -> Option<usize>
    decreases steps.len(),
{
    if steps.len() == 0 {
        None
    } else {
        match steps.last() {
            Step::ImageAcquired { image_index } => Some(image_index as usize),
            Step::PostSessionRestart => Some(0),
            _ => last_image(steps.drop_last()),
        }
    }
}

/// In every history the image that textures are copied to is the one that was acquired last.
pub proof fn law_copies_go_to_the_last_image<B>(c: Compositor<B>, steps: Seq<Step<B>>)
    requires
        c.wf(),
        is_history(c, steps),
        after_history(c, steps).session.0 is Some,
    ensures
        ({
            let index = after_history(c, steps).session.0->0.image_index;
            match last_image(steps) {
                Some(last) => index == last,
                None => c.session.0 is Some && index == c.session.0->0.image_index,
            }
        }),
    decreases steps.len(),
{
    if steps.len() > 0 {
        let earlier = steps.drop_last();
        law_every_history_keeps_the_invariant(c, earlier);
        lemma_image_stays(after_history(c, earlier), steps.last());
        if !(steps.last() is PostSessionRestart) {
            law_copies_go_to_the_last_image(c, earlier);
        }
    }
}

proof fn lemma_image_stays<B>(c: Compositor<B>, step: Step<B>)
    requires
        c.wf(),
        c.may_take(step),
        c.take_step(step).0.session.0 is Some,
    ensures
        ({
            let index = c.take_step(step).0.session.0->0.image_index;
            match step {
                Step::PostSessionRestart => index == 0,
                Step::ImageAcquired { image_index } => {
                    &&& c.session.0 is Some
                    &&& index == image_index as usize
                },
                _ => c.session.0 is Some && index == c.session.0->0.image_index,
            }
        }),
{
}

/// How many poses the last `WaitGetPoses` of a history asked for.
pub open spec fn last_pose_count<B>(steps: Seq<Step<B>>) -> Option<u32>
    decreases steps.len(),
{
    if steps.len() == 0 {
        None
    } else {
        match steps.last() {
            Step::WaitGetPoses { render_pose_count } => Some(render_pose_count),
            _ => last_pose_count(steps.drop_last()),
        }
    }
}

/// In every history, once the events of a `WaitGetPoses` are handled, exactly as many poses are
/// fetched as it asked for, last of all: one call for all of them, and none for none.
pub proof fn law_poses_asked_for_are_fetched<B>(c: Compositor<B>, steps: Seq<Step<B>>)
    requires
        c.polling is None,
        is_history(c, steps),
        after_history(c, steps).may_take(Step::EventsPolled),
    ensures
        ({
            let actions = after_history(c, steps).take_step(Step::EventsPolled).1;
            let asked = last_pose_count(steps);
            &&& asked is Some
            &&& asked->0 != 0 ==> actions.last() == (Action::FetchPoses { count: asked->0 })
            &&& forall|i: int|
                0 <= i < actions.len() - 1 ==> !(#[trigger] actions[i] is FetchPoses)
            &&& asked->0 == 0 ==> !(actions.last() is FetchPoses)
        }),
{
    lemma_polling(c, steps);
    let before = Compositor { polling: None, ..after_history(c, steps) };
    lemma_frames_fetch_nothing(before);
    let count = last_pose_count(steps)->0;
    let actions = after_history(c, steps).take_step(Step::EventsPolled).1;
    let cycle = before.frame_cycle().1;
    let updates = seq![Action::ResetViews, Action::StartInputFrame];
    assert(actions == cycle + updates + pose_actions(count));
    assert forall|i: int| 0 <= i < actions.len() - 1 implies !(#[trigger] actions[i] is FetchPoses) by {
        if i < cycle.len() {
            assert(actions[i] == cycle[i]);
        }
    }
}

proof fn lemma_frames_fetch_nothing<B>(c: Compositor<B>)
    ensures
        forall|i: int|
            0 <= i < c.frame_cycle().1.len() ==> !(#[trigger] c.frame_cycle().1[i] is FetchPoses),
{
}

proof fn lemma_polling<B>(c: Compositor<B>, steps: Seq<Step<B>>)
    requires
        c.polling is None,
        is_history(c, steps),
    ensures
        after_history(c, steps).polling is Some ==> after_history(c, steps).polling
            == last_pose_count(steps),
    decreases steps.len(),
{
    if steps.len() > 0 {
        lemma_polling(c, steps.drop_last());
        lemma_polling_step(after_history(c, steps.drop_last()), steps.last());
    }
}

proof fn lemma_polling_step<B>(c: Compositor<B>, step: Step<B>)
    ensures
        match step {
            Step::WaitGetPoses { render_pose_count } => c.take_step(step).0.polling == Some(
                render_pose_count,
            ),
            Step::EventsPolled => c.take_step(step).0.polling is None,
            _ => c.take_step(step).0.polling == c.polling,
        },
{
}

} // verus!
