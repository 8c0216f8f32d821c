//! What the functions on plain values return, in terms of their arguments alone.
//!
//! `call_ensures(f, arguments, result)` stands for a call of `f` that returned `result`. So each law
//! speaks of every call, whatever spec functions the contract of `f` is made of.

use vstd::prelude::*;

use crate::action::Action;
use crate::action::Outcome;
use crate::compositor::Compositor;
use crate::controller::EyesSubmitted;
use crate::frame_state::FrameState;
use crate::poses::poses_fetched;
use crate::poses::DeviceIndices;
use crate::poses::GetLastPoseForTrackedDeviceIndex;
use crate::poses::GetLastPoses;
use crate::poses::PoseRequest;
use crate::projection::frame_layers;
use crate::projection::projection_layer;
use crate::projection::EyePair;
use crate::projection::EyeView;
use crate::projection::ProjectionView;
use crate::projection::SubmittedEye;
use crate::skybox::skybox_set;
use crate::skybox::SetSkyboxOverride;
use crate::swapchain::is_usable_swapchain;
use crate::swapchain::is_valid_swapchain_info;
use crate::swapchain::SwapchainCreateInfo;
use crate::texture::EVRCompositorError;
use crate::texture::EVREye;
use crate::timing::FrameTiming;
use crate::vulkan::fill_vk_extensions_buffer;

verus! {

/// A step of the frame cycle is taken exactly if it waits for a frame and none is waited for yet,
/// begins the frame that was waited for, or submits the frame that was begun. One that is not taken
/// changes nothing.
pub proof fn law_steps_of_the_cycle(state: &mut FrameState, new: FrameState, allowed: bool)
    requires
        call_ensures(FrameState::advance_to, (state, new), allowed),
    ensures
        new is Waited ==> allowed == !(*old(state) is Waited),
        new is Begun ==> allowed == (*old(state) is Waited),
        new is Submitted ==> allowed == (*old(state) is Begun),
        allowed ==> *final(state) == new,
        !allowed ==> *final(state) == *old(state),
{
}

/// Only the format of the parameters changes.
pub proof fn law_another_format_changes_nothing_else(
    info: SwapchainCreateInfo,
    format: i64,
    made: SwapchainCreateInfo,
)
    requires
        call_ensures(SwapchainCreateInfo::in_format, (info, format), made),
    ensures
        made.create_flags == info.create_flags,
        made.usage_flags == info.usage_flags,
        made.format == format,
        made.sample_count == info.sample_count,
        made.width == info.width,
        made.height == info.height,
        made.face_count == info.face_count,
        made.array_size == info.array_size,
        made.mip_count == info.mip_count,
{
}

/// A swapchain is used again exactly if the format that was asked for is asked for again, neither
/// dimension is too large, and the layers and samples are the same. Nothing else counts.
pub proof fn law_when_a_swapchain_is_used_again(
    current: SwapchainCreateInfo,
    creation_format: i64,
    new: SwapchainCreateInfo,
    usable: bool,
)
    requires
        call_ensures(is_usable_swapchain, (&current, creation_format, &new), usable),
    ensures
        usable <==> new.format == creation_format && new.width <= current.width && new.height
            <= current.height && new.array_size == current.array_size && new.sample_count
            == current.sample_count,
{
}

/// A swapchain can be made exactly if it has a pixel.
pub proof fn law_a_swapchain_has_a_pixel(info: SwapchainCreateInfo, valid: bool)
    requires
        call_ensures(is_valid_swapchain_info, (&info,), valid),
    ensures
        valid <==> info.width >= 1 && info.height >= 1,
        info.has_area() <==> info.width >= 1 && info.height >= 1,
{
}

/// A blank eye covers nothing and is the right way up.
pub proof fn law_a_blank_eye_covers_nothing(eye: SubmittedEye)
    requires
        call_ensures(SubmittedEye::blank, (), eye),
    ensures
        eye.extent.width == 0,
        eye.extent.height == 0,
        !eye.flip_vertically,
{
}

/// Every view that the runtime reported is shown, in order: from where the runtime reported it to
/// look, as far as the runtime vouches for that, with the angles it reported, of which the vertical
/// ones are exchanged for an eye that lies upside down; and it shows the region that was submitted
/// for its own eye, in the layer of its own number.
pub proof fn law_each_view_shows_its_eye(
    eyes: Option<EyePair>,
    flags: u64,
    views: &Vec<EyeView>,
    layer: Option<Vec<ProjectionView>>,
    i: int,
)
    requires
        call_ensures(projection_layer, (eyes, flags, views), layer),
        views@.len() <= 2,
    ensures
        layer is None <==> eyes is None || views@.len() == 0,
        layer is Some ==> layer->0@.len() == views@.len(),
        layer is Some && 0 <= i < views@.len() ==> {
            let shown = layer->0@[i];
            let submitted = if i == 0 {
                eyes->0.left
            } else {
                eyes->0.right
            };
            let view = views@[i];
            &&& flags & 1 == 1 ==> shown.pose.orientation == view.pose.orientation
            &&& flags & 1 != 1 ==> {
                let q = shown.pose.orientation;
                q.x == 0 && q.y == 0 && q.z == 0 && q.w == 0x3f80_0000
            }
            &&& flags & 2 == 2 ==> shown.pose.position == view.pose.position
            &&& flags & 2 != 2 ==> {
                let p = shown.pose.position;
                p.x == 0 && p.y == 0 && p.z == 0
            }
            &&& shown.fov.angle_left == view.fov.angle_left
            &&& shown.fov.angle_right == view.fov.angle_right
            &&& submitted.flip_vertically ==> {
                &&& shown.fov.angle_up == view.fov.angle_down
                &&& shown.fov.angle_down == view.fov.angle_up
            }
            &&& !submitted.flip_vertically ==> {
                &&& shown.fov.angle_up == view.fov.angle_up
                &&& shown.fov.angle_down == view.fov.angle_down
            }
            &&& shown.image_array_index == i
            &&& shown.image_rect.offset.x == 0
            &&& shown.image_rect.offset.y == 0
            &&& shown.image_rect.extent == submitted.extent
        },
{
}

/// The projection layer lies below all overlays, and the overlays keep their order.
pub proof fn law_overlays_lie_above_the_scene<L: Copy>(
    projection: Option<L>,
    overlays: &Vec<L>,
    layers: Vec<L>,
    i: int,
)
    requires
        call_ensures(frame_layers::<L>, (projection, overlays), layers),
    ensures
        projection is Some ==> {
            &&& layers@.len() == overlays@.len() + 1
            &&& layers@[0] == projection->0
            &&& 0 <= i < overlays@.len() ==> layers@[i + 1] == overlays@[i]
        },
        projection is None ==> {
            &&& layers@.len() == overlays@.len()
            &&& 0 <= i < overlays@.len() ==> layers@[i] == overlays@[i]
        },
{
}

/// What is noted for an eye is found there again, and the other eye stays.
pub proof fn law_an_eye_is_noted_in_its_place(
    eyes: &mut EyesSubmitted,
    eye: EVREye,
    submitted: SubmittedEye,
)
    requires
        call_ensures(EyesSubmitted::submit, (eyes, eye, submitted), ()),
    ensures
        eye is Left ==> final(eyes).left == Some(submitted) && final(eyes).right == old(eyes).right,
        eye is Right ==> final(eyes).right == Some(submitted) && final(eyes).left == old(eyes).left,
{
}

/// An eye counts as submitted exactly if something is noted for it, and a frame is complete exactly
/// if something is noted for both.
pub proof fn law_submitted_eyes_are_found(
    eyes: EyesSubmitted,
    left: bool,
    right: bool,
    all: bool,
    none: EyesSubmitted,
)
    requires
        call_ensures(EyesSubmitted::is_submitted, (&eyes, EVREye::Left), left),
        call_ensures(EyesSubmitted::is_submitted, (&eyes, EVREye::Right), right),
        call_ensures(EyesSubmitted::all, (&eyes,), all),
        call_ensures(EyesSubmitted::none, (), none),
    ensures
        left == eyes.left is Some,
        right == eyes.right is Some,
        all == (left && right),
        none.left is None,
        none.right is None,
{
}

/// A pair of eyes is what was noted for each, unchanged, and there is one exactly if something was
/// noted for both.
pub proof fn law_a_pair_is_what_was_noted(eyes: EyesSubmitted, pair: Option<EyePair>)
    requires
        call_ensures(EyesSubmitted::as_pair, (&eyes,), pair),
    ensures
        pair is Some <==> eyes.left is Some && eyes.right is Some,
        pair is Some ==> Some(pair->0.left) == eyes.left && Some(pair->0.right) == eyes.right,
{
}

/// An outcome that is done has nothing to do and the given answer; one that waits has the one action
/// to do, and no answer.
pub proof fn law_outcomes(
    result: EVRCompositorError,
    action: Action,
    done: Outcome,
    waiting: Outcome,
)
    requires
        call_ensures(Outcome::done, (result,), done),
        call_ensures(Outcome::waiting_for, (action,), waiting),
    ensures
        done.actions@.len() == 0,
        done.result == Some(result),
        waiting.actions@.len() == 1,
        waiting.actions@[0] == action,
        waiting.result is None,
{
}

/// As many poses as the application asks for are fetched at once, and none only if it asks for none.
pub proof fn law_all_poses_asked_for_are_fetched(render_pose_count: u32, outcome: Outcome)
    requires
        call_ensures(GetLastPoses, (render_pose_count,), outcome),
    ensures
        render_pose_count != 0 ==> {
            &&& outcome.actions@.len() == 1
            &&& outcome.actions@[0] == (Action::FetchPoses { count: render_pose_count })
        },
        render_pose_count == 0 ==> outcome.actions@.len() == 0,
        outcome.result == Some(EVRCompositorError::NoError),
{
}

/// Each game pose is the render pose of the same number.
pub proof fn law_game_poses_are_render_poses<P: Copy>(render: &[P], game: &mut [P], i: int)
    requires
        call_ensures(poses_fetched::<P>, (render, game), ()),
        old(game)@.len() <= render@.len(),
        0 <= i < old(game)@.len(),
    ensures
        final(game)@.len() == old(game)@.len(),
        final(game)@[i] == render@[i],
{
}

/// A pose is given exactly if it is wanted somewhere and a device has the index. It is the pose of
/// that device, and it goes where it is wanted.
pub proof fn law_poses_come_from_the_device_asked_for(
    index: u32,
    indices: DeviceIndices,
    wants_pose: bool,
    wants_game_pose: bool,
    request: Result<PoseRequest, EVRCompositorError>,
)
    requires
        call_ensures(
            GetLastPoseForTrackedDeviceIndex,
            (index, &indices, wants_pose, wants_game_pose),
            request,
        ),
    ensures
        request is Ok <==> (wants_pose || wants_game_pose) && (index == indices.hmd || index
            == indices.left_hand || index == indices.right_hand),
        request is Err ==> request->Err_0 is RequestFailed,
        request is Ok ==> {
            let r = request->Ok_0;
            &&& r.to_pose == wants_pose
            &&& r.to_game_pose == wants_game_pose
            &&& r.source is Hmd <==> index == indices.hmd
            &&& r.source is LeftHand ==> index == indices.left_hand
            &&& r.source is RightHand ==> index == indices.right_hand
            &&& index == indices.left_hand && index != indices.hmd ==> r.source is LeftHand
        },
{
}

/// The timing is given exactly if the structure can take it, and is about the last frame that was
/// handed over. The other values are fixed: in milliseconds 8, 1 and 9 for the graphics work of the
/// frame, 1.5, 3 and 0.1 for the compositor, and 11.1 from frame to frame, each as the bit pattern of
/// the nearest single-precision number.
pub proof fn law_timing_is_about_the_last_frame<B>(
    c: Compositor<B>,
    writable: bool,
    size: u32,
    minimum: usize,
    timing: Option<FrameTiming>,
)
    requires
        call_ensures(Compositor::<B>::GetFrameTiming, (&c, writable, size, minimum), timing),
    ensures
        timing is Some <==> writable && minimum <= size,
        timing is Some ==> timing->0 == (FrameTiming {
            frame_index: c.metrics.index,
            num_frame_presents: 1,
            num_mis_presented: 0,
            reprojection_flags: 0,
            system_time_in_seconds: c.metrics.time,
            pre_submit_gpu_ms: 0x4100_0000,
            post_submit_gpu_ms: 0x3f80_0000,
            total_render_gpu_ms: 0x4110_0000,
            compositor_render_gpu_ms: 0x3fc0_0000,
            compositor_render_cpu_ms: 0x4040_0000,
            compositor_idle_cpu_ms: 0x3dcc_cccd,
            client_frame_interval_ms: 0x4131_999a,
            present_call_cpu_ms: 0,
            wait_for_present_cpu_ms: 0,
            submit_frame_ms: 0,
            wait_get_poses_called_ms: 0,
            new_poses_ready_ms: 0,
            new_frame_ready_ms: 0,
            compositor_update_start_ms: 0,
            compositor_update_end_ms: 0,
            compositor_render_start_ms: 0,
        }),
{
}

/// A skybox of all the given textures is asked for exactly if there are one, two or six, and for one
/// or two only if the runtime has the extension, without which the application is told that all is
/// well. Anything else fails.
pub proof fn law_which_skyboxes_are_shown(
    textures_given: bool,
    count: u32,
    equirect_supported: bool,
    outcome: Outcome,
)
    requires
        call_ensures(SetSkyboxOverride, (textures_given, count, equirect_supported), outcome),
    ensures
        outcome.actions@.len() <= 1,
        outcome.actions@.len() == 1 <==> textures_given && (count == 6 || (count == 1 || count
            == 2) && equirect_supported),
        outcome.actions@.len() == 1 ==> outcome.actions@[0] == (Action::SetSkybox { count }),
        outcome.result is None <==> outcome.actions@.len() == 1,
        outcome.result == Some(EVRCompositorError::NoError) <==> textures_given && !equirect_supported
            && (count == 1 || count == 2),
        outcome.result == Some(EVRCompositorError::RequestFailed) <==> !textures_given || (count != 1
            && count != 2 && count != 6),
{
}

/// The application is told what went wrong with its skybox, if anything did.
pub proof fn law_skybox_errors_are_handed_on(
    answer: Result<(), EVRCompositorError>,
    result: EVRCompositorError,
)
    requires
        call_ensures(skybox_set, (answer,), result),
    ensures
        answer is Ok ==> result is NoError,
        answer is Err ==> answer == Err::<(), EVRCompositorError>(result),
{
}

/// The size that is told does not depend on the buffer and has room for the names and a zero. A
/// buffer of that size or more holds the names, then a zero, and behind that what it held; a smaller
/// one holds what it held.
pub proof fn law_names_are_written_where_they_fit(
    extensions: &[u8],
    buffer: &mut [u8],
    needed: u32,
    i: int,
)
    requires
        call_ensures(fill_vk_extensions_buffer, (extensions, buffer), needed),
        0 <= i < old(buffer)@.len(),
    ensures
        needed == extensions@.len() + 1,
        final(buffer)@.len() == old(buffer)@.len(),
        needed <= old(buffer)@.len() ==> {
            &&& i < extensions@.len() ==> final(buffer)@[i] == extensions@[i]
            &&& i == extensions@.len() ==> final(buffer)@[i] == 0
            &&& i > extensions@.len() ==> final(buffer)@[i] == old(buffer)@[i]
        },
        needed > old(buffer)@.len() ==> final(buffer)@[i] == old(buffer)@[i],
{
}

/// The calls whose answer is always the same.
pub proof fn law_fixed_answers<B>(
    c: Compositor<B>,
    ids: EVRCompositorError,
    benchmark: bool,
    stage: EVRCompositorError,
    loading: bool,
    mirror: EVRCompositorError,
    low: bool,
    can: bool,
    fullscreen: bool,
    old_timing: bool,
)
    requires
        call_ensures(Compositor::<B>::GetLastPosePredictionIDs, (&c,), ids),
        call_ensures(Compositor::<B>::GetCompositorBenchmarkResults, (&c,), benchmark),
        call_ensures(Compositor::<B>::SetStageOverride_Async, (&c,), stage),
        call_ensures(Compositor::<B>::IsCurrentSceneFocusAppLoading, (&c,), loading),
        call_ensures(Compositor::<B>::GetMirrorTextureD3D11, (&c,), mirror),
        call_ensures(Compositor::<B>::ShouldAppRenderWithLowResources, (&c,), low),
        call_ensures(Compositor::<B>::CanRenderScene, (&c,), can),
        call_ensures(Compositor::<B>::IsFullscreen, (&c,), fullscreen),
        call_ensures(Compositor::<B>::fills_old_frame_timing, (&c,), old_timing),
    ensures
        ids is NoError && stage is NoError && mirror is IncompatibleVersion,
        can && fullscreen,
        !benchmark && !loading && !low && !old_timing,
{
}

} // verus!
