//! Single decisions on chosen values.

use vr_compositor::action::Action;
use vr_compositor::compositor::Compositor;
use vr_compositor::controller::CompositorSessionData;
use vr_compositor::frame_state::FrameState;
use vr_compositor::poses::{
    poses_fetched, DeviceIndices, GetLastPoseForTrackedDeviceIndex, GetLastPoses, PoseRequest,
    PoseSource,
};
use vr_compositor::projection::{
    frame_layers, projection_layer, EyePair, EyeView, Extent2Di, Fovf, Posef, Quaternionf,
    SubmittedEye, Vector3f,
};
use vr_compositor::skybox::{skybox_set, SetSkyboxOverride};
use vr_compositor::swapchain::{is_usable_swapchain, is_valid_swapchain_info, SwapchainCreateInfo};
use vr_compositor::texture::{EVRCompositorError, TextureBounds};
use vr_compositor::vulkan::fill_vk_extensions_buffer;

const EXTENSIONS: &str = "VK_foo VK_bar";

#[test]
fn vulkan_extensions() {
    let names = EXTENSIONS.as_bytes();

    // Normal flow
    let size = fill_vk_extensions_buffer(names, &mut []);
    let mut exts = vec![0u8; size as usize];
    fill_vk_extensions_buffer(names, &mut exts);
    let end = exts.iter().position(|b| *b == 0).unwrap();
    assert_eq!(&exts[..end], b"VK_foo VK_bar");

    // Oversized buffer
    let mut exts = vec![7u8; size as usize * 2];
    fill_vk_extensions_buffer(names, &mut exts);
    let end = exts.iter().position(|b| *b == 0).unwrap();
    assert_eq!(&exts[..end], b"VK_foo VK_bar");
    assert!(exts[end + 1..].iter().all(|b| *b == 7));

    // Undersized buffer - should not crash
    let mut exts = vec![0u8];
    assert_eq!(fill_vk_extensions_buffer(names, &mut exts), 14);
    assert_eq!(exts, vec![0]);
}

#[test]
fn extensions_fit_only_with_their_zero() {
    let mut exts = vec![9u8; 13];
    assert_eq!(fill_vk_extensions_buffer(EXTENSIONS.as_bytes(), &mut exts), 14);
    assert_eq!(exts, vec![9u8; 13]);
}

#[test]
fn filling_again_keeps_the_buffer() {
    let mut exts = vec![9u8; 20];
    fill_vk_extensions_buffer(EXTENSIONS.as_bytes(), &mut exts);
    let once = exts.clone();
    fill_vk_extensions_buffer(EXTENSIONS.as_bytes(), &mut exts);
    assert_eq!(exts, once);
}

#[test]
fn frame_states_follow_the_cycle() {
    let states = [FrameState::Waited, FrameState::Begun, FrameState::Submitted];
    let allowed = [
        (FrameState::Waited, FrameState::Begun),
        (FrameState::Begun, FrameState::Waited),
        (FrameState::Begun, FrameState::Submitted),
        (FrameState::Submitted, FrameState::Waited),
    ];
    for from in states {
        for to in states {
            let mut state = from;
            let expected = allowed.contains(&(from, to));
            assert_eq!(state.advance_to(to), expected);
            assert_eq!(state, if expected { to } else { from });
        }
    }
}

fn info() -> SwapchainCreateInfo {
    SwapchainCreateInfo {
        create_flags: 0,
        usage_flags: 0,
        format: 1,
        sample_count: 1,
        width: 40,
        height: 10,
        face_count: 1,
        array_size: 2,
        mip_count: 1,
    }
}

#[test]
fn swapchains_are_kept_for_smaller_textures() {
    let made = info().in_format(0);
    assert_eq!(made.format, 0);
    assert!(is_usable_swapchain(&made, 1, &info()));
    assert!(is_usable_swapchain(&made, 1, &SwapchainCreateInfo { width: 20, ..info() }));
    assert!(!is_usable_swapchain(&made, 1, &made));
    assert!(!is_usable_swapchain(&made, 1, &SwapchainCreateInfo { width: 41, ..info() }));
    assert!(!is_usable_swapchain(&made, 1, &SwapchainCreateInfo { height: 11, ..info() }));
    assert!(!is_usable_swapchain(&made, 1, &SwapchainCreateInfo { array_size: 1, ..info() }));
    assert!(!is_usable_swapchain(&made, 1, &SwapchainCreateInfo { sample_count: 4, ..info() }));
    assert!(is_usable_swapchain(&made, 1, &SwapchainCreateInfo { mip_count: 3, ..info() }));
}

#[test]
fn swapchains_need_an_area() {
    assert!(is_valid_swapchain_info(&info()));
    assert!(!is_valid_swapchain_info(&SwapchainCreateInfo { width: 0, ..info() }));
    assert!(!is_valid_swapchain_info(&SwapchainCreateInfo { height: 0, ..info() }));
}

fn bounds(u_min: f32, v_min: f32, u_max: f32, v_max: f32) -> TextureBounds {
    TextureBounds {
        u_min: u_min.to_bits(),
        v_min: v_min.to_bits(),
        u_max: u_max.to_bits(),
        v_max: v_max.to_bits(),
    }
}

#[test]
fn bounds_agree_with_the_numbers() {
    let numbers = [
        -1.0f32,
        -0.1,
        -0.0,
        0.0,
        f32::MIN_POSITIVE,
        0.25,
        1.0,
        1.0 + f32::EPSILON,
        1.1,
        f32::INFINITY,
        f32::NEG_INFINITY,
        f32::NAN,
        -f32::NAN,
    ];
    let on_texture = |x: f32| (0.0..=1.0).contains(&x);
    for min in numbers {
        for max in numbers {
            let ok = on_texture(min) && on_texture(max) && min != max;
            assert_eq!(bounds(0.0, min, 1.0, max).valid(), ok, "v {min} {max}");
            assert_eq!(bounds(min, 0.0, max, 1.0).valid(), ok, "u {min} {max}");
            assert_eq!(bounds(0.0, min, 1.0, max).vertically_flipped(), min > max);
        }
    }
    assert_eq!(TextureBounds::full(), bounds(0.0, 0.0, 1.0, 1.0));
    assert!(TextureBounds::full().valid());
}

fn view() -> EyeView {
    EyeView {
        pose: Posef {
            orientation: Quaternionf { x: 1, y: 2, z: 3, w: 4 },
            position: Vector3f { x: 5, y: 6, z: 7 },
        },
        fov: Fovf { angle_left: 8, angle_right: 9, angle_up: 10, angle_down: 11 },
    }
}

fn eyes() -> EyePair {
    EyePair {
        left: SubmittedEye {
            extent: Extent2Di { width: 20, height: 30 },
            flip_vertically: false,
        },
        right: SubmittedEye {
            extent: Extent2Di { width: 21, height: 31 },
            flip_vertically: true,
        },
    }
}

#[test]
fn projection_shows_each_eye_in_its_layer() {
    let views = vec![view(), view()];
    let shown = projection_layer(Some(eyes()), 3, &views).unwrap();
    assert_eq!(shown.len(), 2);
    assert_eq!(shown[0].pose, view().pose);
    assert_eq!(shown[0].fov, view().fov);
    assert_eq!(shown[0].image_array_index, 0);
    assert_eq!(shown[0].image_rect.extent, Extent2Di { width: 20, height: 30 });
    assert_eq!((shown[0].image_rect.offset.x, shown[0].image_rect.offset.y), (0, 0));
    assert_eq!(shown[1].image_array_index, 1);
    assert_eq!(shown[1].image_rect.extent, Extent2Di { width: 21, height: 31 });
    assert_eq!(
        shown[1].fov,
        Fovf { angle_left: 8, angle_right: 9, angle_up: 11, angle_down: 10 }
    );
}

#[test]
fn flipping_twice_shows_the_first_view() {
    let flip = |v: EyeView| projection_layer(Some(eyes()), 3, &vec![v, v]).unwrap()[1].fov;
    let once = EyeView { fov: flip(view()), ..view() };
    assert_ne!(once.fov, view().fov);
    assert_eq!(flip(once), view().fov);
}

#[test]
fn invalid_parts_of_a_pose_are_neutral() {
    let neutral = Quaternionf { x: 0, y: 0, z: 0, w: (1.0f32).to_bits() };
    let origin = Vector3f { x: 0, y: 0, z: 0 };
    let views = vec![view()];
    let pose = |flags: u64| projection_layer(Some(eyes()), flags, &views).unwrap()[0].pose;
    assert_eq!(pose(0), Posef { orientation: neutral, position: origin });
    assert_eq!(pose(1), Posef { orientation: view().pose.orientation, position: origin });
    assert_eq!(pose(2), Posef { orientation: neutral, position: view().pose.position });
    assert_eq!(pose(0b1111), view().pose);
    // That a pose is tracked does not make it valid.
    assert_eq!(pose(0b1100), Posef { orientation: neutral, position: origin });
}

#[test]
fn no_projection_without_eyes_or_views() {
    assert!(projection_layer(None, 3, &vec![view(), view()]).is_none());
    assert!(projection_layer(Some(eyes()), 3, &vec![]).is_none());
    assert_eq!(frame_layers(None, &vec![1, 2]), vec![1, 2]);
    assert_eq!(frame_layers(Some(7), &vec![1, 2]), vec![7, 1, 2]);
    assert_eq!(frame_layers::<u8>(None, &vec![]), vec![]);
}

#[test]
fn frame_timing_values() {
    let mut comp: Compositor<()> = Compositor::new(0);
    comp.metrics.index = 5;
    comp.frame_presented((1.25f64).to_bits());
    let timing = comp.GetFrameTiming(true, 176, 176).unwrap();
    assert_eq!(timing.frame_index, 5);
    assert_eq!(timing.num_frame_presents, 1);
    assert_eq!(timing.num_mis_presented, 0);
    assert_eq!(timing.reprojection_flags, 0);
    assert_eq!(f64::from_bits(timing.system_time_in_seconds), 1.25);
    assert_eq!(f32::from_bits(timing.pre_submit_gpu_ms), 8.0);
    assert_eq!(f32::from_bits(timing.post_submit_gpu_ms), 1.0);
    assert_eq!(f32::from_bits(timing.total_render_gpu_ms), 9.0);
    assert_eq!(f32::from_bits(timing.compositor_render_gpu_ms), 1.5);
    assert_eq!(f32::from_bits(timing.compositor_render_cpu_ms), 3.0);
    assert_eq!(f32::from_bits(timing.compositor_idle_cpu_ms), 0.1);
    assert_eq!(f32::from_bits(timing.client_frame_interval_ms), 11.1);
    assert_eq!(f32::from_bits(timing.present_call_cpu_ms), 0.0);
    assert_eq!(f32::from_bits(timing.compositor_render_start_ms), 0.0);
    assert!(comp.GetFrameTiming(false, 192, 176).is_none());
    assert!(comp.GetFrameTiming(true, 175, 176).is_none());
}

#[test]
fn poses_by_device_index() {
    let indices = DeviceIndices { hmd: 0, left_hand: 1, right_hand: 2 };
    let ask = |index: u32, pose: bool, game: bool| {
        GetLastPoseForTrackedDeviceIndex(index, &indices, pose, game)
    };
    assert_eq!(ask(0, false, false), Err(EVRCompositorError::RequestFailed));
    assert_eq!(ask(3, true, true), Err(EVRCompositorError::RequestFailed));
    assert_eq!(
        ask(0, true, false),
        Ok(PoseRequest { source: PoseSource::Hmd, to_pose: true, to_game_pose: false })
    );
    assert_eq!(
        ask(1, false, true),
        Ok(PoseRequest { source: PoseSource::LeftHand, to_pose: false, to_game_pose: true })
    );
    assert_eq!(
        ask(2, true, true),
        Ok(PoseRequest { source: PoseSource::RightHand, to_pose: true, to_game_pose: true })
    );
}

#[test]
fn game_poses_are_the_first_render_poses() {
    let mut game = [0u8; 2];
    poses_fetched(&[1, 2, 3], &mut game);
    assert_eq!(game, [1, 2]);
    assert_eq!(GetLastPoses(3).actions, vec![Action::FetchPoses { count: 3 }]);
    let none = GetLastPoses(0);
    assert_eq!(none.actions, vec![]);
    assert_eq!(none.result, Some(EVRCompositorError::NoError));
}

#[test]
fn skybox_takes_one_two_or_six_textures() {
    for count in 0..10u32 {
        for equirect in [false, true] {
            let outcome = SetSkyboxOverride(true, count, equirect);
            let shown = count == 6 || (equirect && (count == 1 || count == 2));
            if shown {
                assert_eq!(outcome.actions, vec![Action::SetSkybox { count }]);
                assert_eq!(outcome.result, None);
            } else if count == 1 || count == 2 {
                assert_eq!(outcome.actions, vec![]);
                assert_eq!(outcome.result, Some(EVRCompositorError::NoError));
            } else {
                assert_eq!(outcome.result, Some(EVRCompositorError::RequestFailed));
            }
        }
    }
    assert_eq!(
        SetSkyboxOverride(false, 6, true).result,
        Some(EVRCompositorError::RequestFailed)
    );
    assert_eq!(skybox_set(Ok(())), EVRCompositorError::NoError);
    assert_eq!(
        skybox_set(Err(EVRCompositorError::InvalidTexture)),
        EVRCompositorError::InvalidTexture
    );
}

#[test]
fn fixed_answers() {
    let comp: Compositor<()> = Compositor::new(0);
    assert_eq!(comp.GetLastPosePredictionIDs(), EVRCompositorError::NoError);
    assert!(!comp.GetCompositorBenchmarkResults());
    assert_eq!(comp.SetStageOverride_Async(), EVRCompositorError::NoError);
    assert!(!comp.IsCurrentSceneFocusAppLoading());
    assert_eq!(comp.GetMirrorTextureD3D11(), EVRCompositorError::IncompatibleVersion);
    assert!(!comp.ShouldAppRenderWithLowResources());
    assert!(comp.CanRenderScene());
    assert!(comp.IsFullscreen());
    assert!(!comp.fills_old_frame_timing());
}

#[test]
fn session_starts_without_a_controller() {
    let data: CompositorSessionData<u8> = CompositorSessionData::default();
    assert!(data.0.is_none());
}

#[test]
fn real_session_needs_backend_and_description() {
    let mut comp: Compositor<u8> = Compositor::new(0);
    assert_eq!(
        comp.initialize_real_session(None, None),
        (Err(EVRCompositorError::InvalidTexture), vec![])
    );
    assert_eq!(
        comp.initialize_real_session(Some(1), None),
        (Err(EVRCompositorError::InvalidTexture), vec![])
    );
    assert_eq!(
        comp.initialize_real_session(None, Some(info())),
        (Err(EVRCompositorError::InvalidTexture), vec![])
    );
    assert!(comp.tmp_backend.is_none());
    assert_eq!(
        comp.initialize_real_session(Some(1), Some(info())),
        (Ok(()), vec![Action::RestartSession])
    );
    assert_eq!(*comp.get_session_create_info(), 1);
}
