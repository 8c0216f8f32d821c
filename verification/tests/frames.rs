//! Whole frames against a runtime and a graphics backend that only keep books.

use vr_compositor::action::{Action, Outcome};
use vr_compositor::compositor::Compositor;
use vr_compositor::controller::FrameController;
use vr_compositor::frame_state::FrameState;
use vr_compositor::projection::{frame_layers, projection_layer, EyePair, Extent2Di};
use vr_compositor::projection::{EyeView, Fovf, Posef, Quaternionf, SubmittedEye, Vector3f};
use vr_compositor::swapchain::SwapchainCreateInfo;
use vr_compositor::texture::EVRCompositorError::{
    AlreadySubmitted, DoNotHaveFocus, InvalidBounds, InvalidTexture, NoError, RequestFailed,
};
use vr_compositor::texture::{
    EVRCompositorError, EVRCompositorTimingMode, EVREye, Texture, TextureBounds,
};

/// Only this format is supported by the runtime.
const SUPPORTED_FORMAT: i64 = 0;

const RESERVED: i32 = 8;

#[derive(Debug, Clone, Copy, PartialEq, Eq)]
enum RuntimeFrame {
    Waited,
    Begun,
    Ended,
}

struct FakeGraphicsData {
    id: u32,
    swapchain_format: Option<i64>,
}

#[derive(Debug, Clone, PartialEq, Eq)]
struct EndedFrame {
    display_time: i64,
    eyes: Option<EyePair>,
    fade_grid: bool,
    layers: Vec<&'static str>,
}

struct FakeSession {
    frame: RuntimeFrame,
    waiting_to_begin: bool,
    begun: bool,
    waits: u32,
    has_swapchain: bool,
    image: bool,
    next_image: u32,
}

impl FakeSession {
    fn new() -> Self {
        FakeSession {
            frame: RuntimeFrame::Ended,
            waiting_to_begin: false,
            begun: false,
            waits: 0,
            has_swapchain: false,
            image: false,
            next_image: 0,
        }
    }
}

struct Fixture {
    comp: Compositor<FakeGraphicsData>,
    session: FakeSession,
    width: u32,
    height: u32,
    format: i64,
    readable: bool,
    backends: u32,
    sessions: u32,
    overlays: Vec<&'static str>,
    ended: Vec<EndedFrame>,
    copies: Vec<(EVREye, usize)>,
    fetched: Vec<u32>,
    swapchains: u32,
    polls: u32,
    next_time: i64,
}

impl Fixture {
    fn new() -> Self {
        Fixture {
            comp: Compositor::new(1),
            session: FakeSession::new(),
            width: 10,
            height: 10,
            format: 0,
            readable: true,
            backends: 0,
            sessions: 0,
            overlays: Vec::new(),
            ended: Vec::new(),
            copies: Vec::new(),
            fetched: Vec::new(),
            swapchains: 0,
            polls: 0,
            next_time: 1000,
        }
    }

    fn info(&self) -> SwapchainCreateInfo {
        SwapchainCreateInfo {
            create_flags: 0,
            usage_flags: 0,
            format: self.format,
            sample_count: 1,
            width: self.width,
            height: self.height,
            face_count: 1,
            array_size: 2,
            mip_count: 1,
        }
    }

    fn ctrl(&self) -> &FrameController<FakeGraphicsData> {
        self.comp.session.0.as_ref().expect("no frame controller")
    }

    /// Performs the actions of an outcome, and those of the answers to them.
    fn run(&mut self, outcome: Outcome) -> Option<EVRCompositorError> {
        let mut result = outcome.result;
        if let Some(later) = self.perform(outcome.actions) {
            assert!(result.is_none(), "two answers to one call");
            result = Some(later);
        }
        result
    }

    fn perform(&mut self, actions: Vec<Action>) -> Option<EVRCompositorError> {
        let mut result = None;
        for action in actions {
            let answer = self.act(action);
            if answer.is_some() {
                assert!(result.is_none(), "two answers to one call");
                result = answer;
            }
        }
        result
    }

    fn act(&mut self, action: Action) -> Option<EVRCompositorError> {
        match action {
            Action::WaitFrame => {
                assert!(!self.session.waiting_to_begin, "frame waited for twice");
                self.session.waiting_to_begin = true;
                self.session.frame = RuntimeFrame::Waited;
                self.session.waits += 1;
                self.next_time += 11;
                self.comp.frame_waited(self.session.waits > 2, self.next_time);
                None
            }
            Action::BeginFrame => {
                assert!(self.session.waiting_to_begin, "no frame to begin");
                self.session.waiting_to_begin = false;
                self.session.begun = true;
                self.session.frame = RuntimeFrame::Begun;
                None
            }
            Action::EndFrame { display_time, eyes, fade_grid } => {
                assert!(self.session.begun, "no frame to end");
                self.session.begun = false;
                self.session.frame = RuntimeFrame::Ended;
                let layer = projection_layer(eyes, 3, &vec![view(), view()]);
                if layer.is_some() {
                    assert!(self.session.has_swapchain && !self.session.image);
                }
                self.ended.push(EndedFrame {
                    display_time,
                    eyes,
                    fade_grid,
                    layers: frame_layers(layer.map(|_| "projection"), &self.overlays),
                });
                self.comp.frame_presented((0.5f64).to_bits());
                None
            }
            Action::ReleaseImage => {
                assert!(self.session.image, "no image to release");
                self.session.image = false;
                None
            }
            Action::AcquireImage => {
                assert!(self.session.has_swapchain && !self.session.image);
                self.session.image = true;
                self.session.next_image = (self.session.next_image + 1) % 3;
                let actions = self.comp.image_acquired(self.session.next_image);
                self.perform(actions)
            }
            Action::CheckFormat { info: _ } => {
                let actions = self.comp.format_checked(SUPPORTED_FORMAT);
                self.perform(actions)
            }
            Action::CreateSwapchain { info } => {
                assert!(info.width > 0 && info.height > 0);
                assert_eq!(info.format, SUPPORTED_FORMAT);
                self.session.has_swapchain = true;
                self.session.image = false;
                self.swapchains += 1;
                None
            }
            Action::StoreImages { format } => {
                let ctrl = self.comp.session.0.as_mut().unwrap();
                ctrl.backend.swapchain_format = Some(format);
                None
            }
            Action::OpenBackend { texture, bounds: _ } => {
                let known = texture.texture_type == RESERVED;
                let backend = if known {
                    self.backends += 1;
                    Some(FakeGraphicsData { id: self.backends, swapchain_format: None })
                } else {
                    None
                };
                let info = if known && self.readable { Some(self.info()) } else { None };
                let outcome = self.comp.backend_opened(backend, info);
                self.run(outcome)
            }
            Action::RestartSession => {
                self.restart_session();
                if self.comp.submission.is_none() {
                    return None;
                }
                let outcome = self.comp.session_restarted();
                self.run(outcome)
            }
            Action::ResolveTexture { texture: _ } => {
                let outcome = self.comp.texture_resolved(self.readable);
                self.run(outcome)
            }
            Action::DescribeTexture { .. } => {
                let info = self.info();
                let outcome = self.comp.texture_described(info);
                self.run(outcome)
            }
            Action::CopyTexture { eye, image_index, .. } => {
                assert!(self.session.image, "no image to copy to");
                assert_eq!(image_index, self.session.next_image as usize);
                self.copies.push((eye, image_index));
                let extent =
                    Extent2Di { width: self.width as i32 / 2, height: self.height as i32 };
                let outcome = self.comp.texture_copied(extent);
                self.run(outcome)
            }
            Action::PollEvents => {
                self.polls += 1;
                let outcome = self.comp.events_polled();
                self.run(outcome)
            }
            Action::ResetViews | Action::StartInputFrame => None,
            Action::FetchPoses { count } => {
                self.fetched.push(count);
                None
            }
            Action::SetSkybox { .. } => panic!("not asked for"),
        }
    }

    fn restart_session(&mut self) {
        self.comp.get_session_create_info();
        self.session = FakeSession::new();
        self.sessions += 1;
        let actions = self.comp.post_session_restart();
        assert_eq!(self.perform(actions), None);
    }

    fn initialize_real_session(
        &mut self,
        backend: FakeGraphicsData,
        info: SwapchainCreateInfo,
    ) -> Result<(), EVRCompositorError> {
        let sessions = self.sessions;
        let (result, actions) = self.comp.initialize_real_session(Some(backend), Some(info));
        assert_eq!(self.perform(actions), None);
        assert_eq!(self.sessions, sessions + 1);
        result
    }

    fn wait_get_poses(&mut self) -> EVRCompositorError {
        let outcome = self.comp.WaitGetPoses(0);
        self.run(outcome).unwrap()
    }

    fn submit(&mut self, eye: EVREye) -> EVRCompositorError {
        self.submit_with(eye, Some(texture()), None)
    }

    fn submit_with(
        &mut self,
        eye: EVREye,
        texture: Option<Texture>,
        bounds: Option<TextureBounds>,
    ) -> EVRCompositorError {
        let outcome = self.comp.Submit(eye, texture, bounds, 0);
        self.run(outcome).unwrap()
    }

    fn submit_explicit_timing_data(&mut self) -> EVRCompositorError {
        let outcome = self.comp.SubmitExplicitTimingData();
        self.run(outcome).unwrap()
    }

    fn post_present_handoff(&mut self) {
        let actions = self.comp.PostPresentHandoff();
        assert_eq!(self.perform(actions), None);
    }

    fn ensure_real_session(&mut self, explicit: bool) {
        assert_eq!(self.wait_get_poses(), NoError);
        if explicit {
            assert_eq!(self.submit_explicit_timing_data(), NoError);
        }
        assert_eq!(self.submit(EVREye::Left), NoError);
        assert_eq!(self.submit(EVREye::Right), NoError);
        if explicit {
            self.post_present_handoff();
        } else {
            assert_eq!(self.wait_get_poses(), NoError);
        }
        assert!(!self.ctrl().should_render);
    }

    /// A session whose current frame is to be rendered.
    fn rendering(&mut self) {
        self.ensure_real_session(false);
        assert_eq!(self.wait_get_poses(), NoError);
        assert!(self.ctrl().should_render);
    }

    fn set_explicit(&mut self) {
        self.comp.SetExplicitTimingMode(
            EVRCompositorTimingMode::Explicit_ApplicationPerformsPostPresentHandoff,
        );
    }

    fn check_frame_state(&self, state: RuntimeFrame) {
        assert_eq!(self.session.frame, state);
    }
}

fn texture() -> Texture {
    Texture { texture_type: RESERVED, handle: 0x1000, color_space: 0 }
}

fn bounds(u_min: f32, v_min: f32, u_max: f32, v_max: f32) -> TextureBounds {
    TextureBounds {
        u_min: u_min.to_bits(),
        v_min: v_min.to_bits(),
        u_max: u_max.to_bits(),
        v_max: v_max.to_bits(),
    }
}

fn view() -> EyeView {
    EyeView {
        pose: Posef {
            orientation: Quaternionf { x: 1, y: 2, z: 3, w: 4 },
            position: Vector3f { x: 5, y: 6, z: 7 },
        },
        fov: Fovf { angle_left: 8, angle_right: 9, angle_up: 10, angle_down: 11 },
    }
}

#[test]
fn bad_bounds() {
    let mut f = Fixture::new();
    let bad_bounds = [
        // bound greater than 1
        bounds(0.0, 0.0, 1.0, 1.1),
        // bound greater than 1
        bounds(0.0, 0.0, 1.1, 1.0),
        // negative bound
        bounds(0.0, -0.1, 1.0, 1.0),
        // min/max equal
        bounds(0.0, 1.0, 1.0, 1.0),
    ];
    for bound in bad_bounds {
        assert_eq!(
            f.submit_with(EVREye::Left, Some(texture()), Some(bound)),
            InvalidBounds,
            "Bound didn't return InvalidBounds: {bound:?}"
        );
    }
}

#[test]
fn allow_flipped_bounds() {
    let mut f = Fixture::new();
    assert_ne!(
        f.submit_with(EVREye::Left, None, Some(bounds(0.0, 1.0, 1.0, 0.0))),
        InvalidBounds
    );
}

#[test]
fn error_on_multiple_same_eye_submit() {
    let mut f = Fixture::new();

    assert_eq!(f.wait_get_poses(), NoError);
    assert_eq!(f.submit(EVREye::Left), NoError);
    assert_eq!(f.submit(EVREye::Right), NoError);
    assert_eq!(f.submit(EVREye::Left), AlreadySubmitted);

    assert_eq!(f.wait_get_poses(), NoError);
    assert_eq!(f.submit(EVREye::Left), NoError);
}

#[test]
fn allow_waitgetposes_without_submit() {
    let mut f = Fixture::new();

    // Enable frame controller
    assert_eq!(f.wait_get_poses(), NoError);
    assert_eq!(f.submit(EVREye::Left), NoError);

    assert_eq!(f.wait_get_poses(), NoError);
    assert_eq!(f.wait_get_poses(), NoError);
}

#[test]
fn recreate_swapchain() {
    let mut f = Fixture::new();
    f.ensure_real_session(false);

    let get_swapchain_width = |f: &Fixture| {
        f.ctrl().swapchain_data.as_ref().expect("swapchain info missing").info.width
    };

    let old_width = get_swapchain_width(&f);
    f.width = 40;
    assert_eq!(f.wait_get_poses(), NoError);
    assert_eq!(f.submit(EVREye::Left), NoError);
    assert_eq!(f.submit(EVREye::Right), NoError);
    let new_width = get_swapchain_width(&f);
    assert_ne!(old_width, new_width);

    assert_eq!(f.wait_get_poses(), NoError);
    f.width = 20;
    assert_eq!(f.submit(EVREye::Left), NoError);
    let newer_width = get_swapchain_width(&f);
    assert_eq!(newer_width, new_width);
}

#[test]
fn get_frame_timing() {
    // The structure of the current interface, and its part up to the end of the head's pose.
    let full_size: u32 = 192;
    let small_size: u32 = 176;

    let mut f = Fixture::new();
    assert_eq!(f.wait_get_poses(), NoError);
    assert_eq!(f.submit(EVREye::Left), NoError);
    assert_eq!(f.submit(EVREye::Right), NoError);

    assert!(f.comp.GetFrameTiming(true, full_size, small_size as usize).is_some());
    assert!(f.comp.GetFrameTiming(true, small_size, small_size as usize).is_some());
    assert!(f.comp.GetFrameTiming(true, 0, small_size as usize).is_none());
}

#[test]
fn zero_dims_texture() {
    let mut f = Fixture::new();
    f.width = 0;
    f.height = 0;

    assert_eq!(f.wait_get_poses(), NoError);
    assert_eq!(f.submit(EVREye::Left), NoError);
    assert_eq!(f.submit(EVREye::Right), NoError);

    assert_eq!(f.wait_get_poses(), NoError);
    assert!(f.ctrl().swapchain_data.is_none());
    assert!(!f.ctrl().should_render);
    f.width = 10;
    assert_eq!(f.submit(EVREye::Left), NoError);
    assert_eq!(f.submit(EVREye::Right), NoError);

    assert_eq!(f.wait_get_poses(), NoError);
    assert!(f.ctrl().swapchain_data.is_none());
    assert!(f.ctrl().should_render);
    f.height = 10;
    assert_eq!(f.submit(EVREye::Left), NoError);
    assert_eq!(f.submit(EVREye::Right), NoError);

    assert_eq!(f.wait_get_poses(), NoError);
    assert!(f.ctrl().swapchain_data.is_some());
    assert!(f.ctrl().should_render);
}

#[test]
fn unsupported_format() {
    let mut f = Fixture::new();
    f.format = 1;
    assert_eq!(f.wait_get_poses(), NoError);
    assert_eq!(f.submit(EVREye::Left), NoError);
    assert_eq!(f.submit(EVREye::Right), NoError);
    let data = f.ctrl().swapchain_data.as_ref().expect("Swapchain data is missing");
    assert_eq!(data.initial_format, 1);
    assert_eq!(data.info.format, 0);
}

#[test]
fn explicit_timing() {
    let mut f = Fixture::new();
    f.ensure_real_session(false);

    f.set_explicit();
    assert_eq!(f.wait_get_poses(), NoError);
    f.check_frame_state(RuntimeFrame::Waited);

    assert_eq!(f.submit_explicit_timing_data(), NoError);
    f.check_frame_state(RuntimeFrame::Begun);

    assert_eq!(f.submit(EVREye::Left), NoError);
    f.check_frame_state(RuntimeFrame::Begun);
    assert_eq!(f.submit(EVREye::Right), NoError);
    f.check_frame_state(RuntimeFrame::Begun);

    f.post_present_handoff();
    f.check_frame_state(RuntimeFrame::Ended);
}

#[test]
fn explicit_timing_no_submit() {
    let mut f = Fixture::new();
    f.ensure_real_session(false);

    f.set_explicit();
    assert_eq!(f.wait_get_poses(), NoError);
    assert_eq!(f.submit_explicit_timing_data(), NoError);
    f.post_present_handoff();
    f.check_frame_state(RuntimeFrame::Ended);
}

#[test]
fn explicit_timing_multiple_waitgetposes() {
    let mut f = Fixture::new();
    f.ensure_real_session(false);
    f.set_explicit();

    assert_eq!(f.wait_get_poses(), NoError);
    f.check_frame_state(RuntimeFrame::Waited);
    assert_eq!(f.wait_get_poses(), NoError);
    f.check_frame_state(RuntimeFrame::Waited);
}

#[test]
fn explicit_timing_multiple_submit_explicit_timing_data() {
    let mut f = Fixture::new();
    f.ensure_real_session(false);
    f.set_explicit();

    assert_eq!(f.submit_explicit_timing_data(), NoError);
    f.check_frame_state(RuntimeFrame::Begun);
    assert_eq!(f.submit_explicit_timing_data(), NoError);
    f.check_frame_state(RuntimeFrame::Begun);
}

#[test]
fn explicit_timing_session_restart_after_waitgetposes() {
    let mut f = Fixture::new();
    f.set_explicit();

    f.ensure_real_session(true);
    f.restart_session();
    assert_eq!(f.wait_get_poses(), NoError);

    f.check_frame_state(RuntimeFrame::Waited);
}

#[test]
fn explicit_timing_unfocused() {
    let mut f = Fixture::new();
    f.set_explicit();

    f.submit_explicit_timing_data();
    assert_eq!(f.submit(EVREye::Left), DoNotHaveFocus);
    assert_eq!(f.submit(EVREye::Right), DoNotHaveFocus);

    assert_eq!(f.wait_get_poses(), NoError);
    f.submit_explicit_timing_data();
    assert_eq!(f.submit(EVREye::Left), NoError);
    assert_eq!(f.submit(EVREye::Right), NoError);
}

#[test]
fn submit_overlay_without_projection_layer() {
    let mut f = Fixture::new();

    assert_eq!(f.wait_get_poses(), NoError);
    // The texture of the overlay is the first one of the application.
    let backend = FakeGraphicsData { id: 1, swapchain_format: None };
    let info = f.info();
    assert_eq!(f.initialize_real_session(backend, info), Ok(()));
    f.check_frame_state(RuntimeFrame::Begun);
    f.overlays.push("test_overlay");
    f.post_present_handoff();
    f.check_frame_state(RuntimeFrame::Ended);
    assert_eq!(f.ended.len(), 1);
    assert_eq!(f.ended[0].eyes, None);
    assert_eq!(f.ended[0].layers, vec!["test_overlay"]);
}

#[test]
fn rendered_frame_shows_both_eyes() {
    let mut f = Fixture::new();
    f.rendering();
    f.overlays.push("overlay");
    assert_eq!(f.submit(EVREye::Left), NoError);
    assert_eq!(f.submit_with(EVREye::Right, Some(texture()), Some(bounds(0.0, 1.0, 1.0, 0.0))), NoError);
    let time = f.next_time;
    f.post_present_handoff();
    let extent = Extent2Di { width: 5, height: 10 };
    let shown = f.ended.last().unwrap();
    assert_eq!(
        shown.eyes,
        Some(EyePair {
            left: SubmittedEye { extent, flip_vertically: false },
            right: SubmittedEye { extent, flip_vertically: true },
        })
    );
    assert_eq!(shown.display_time, time);
    assert!(!shown.fade_grid);
    assert_eq!(shown.layers, vec!["projection", "overlay"]);
    assert_eq!(f.comp.frame_state, FrameState::Submitted);
    assert_eq!(f.copies.len(), 2);
}

#[test]
fn handing_over_twice_ends_one_frame() {
    let mut f = Fixture::new();
    f.rendering();
    let before = f.ended.len();
    let index = f.comp.metrics.index;
    f.post_present_handoff();
    f.post_present_handoff();
    assert_eq!(f.ended.len(), before + 1);
    assert_eq!(f.comp.metrics.index, index + 1);
    assert_eq!(f.comp.metrics.time, (0.5f64).to_bits());
}

#[test]
fn frame_count_starts_again() {
    let mut f = Fixture::new();
    f.rendering();
    f.comp.metrics.index = u32::MAX;
    f.post_present_handoff();
    assert_eq!(f.comp.metrics.index, 0);
}

#[test]
fn wait_get_poses_ends_the_frame_by_timing_mode() {
    let mut f = Fixture::new();
    f.rendering();
    let ended = f.ended.len();
    f.comp.SetExplicitTimingMode(
        EVRCompositorTimingMode::Explicit_RuntimePerformsPostPresentHandoff,
    );
    assert_eq!(f.wait_get_poses(), NoError);
    assert_eq!(f.ended.len(), ended + 1);
    f.check_frame_state(RuntimeFrame::Waited);
    assert_eq!(f.submit_explicit_timing_data(), NoError);
    f.set_explicit();
    assert_eq!(f.wait_get_poses(), NoError);
    assert_eq!(f.ended.len(), ended + 1);
    f.check_frame_state(RuntimeFrame::Waited);
    // Back to implicit timing: the frame that was waited for is discarded.
    f.comp.set_explicit_timing(false);
    assert_eq!(f.wait_get_poses(), NoError);
    f.check_frame_state(RuntimeFrame::Begun);
    f.comp.set_explicit_timing(true);
    assert_eq!(
        f.comp.timing_mode,
        EVRCompositorTimingMode::Explicit_ApplicationPerformsPostPresentHandoff
    );
}

#[test]
fn explicit_timing_data_needs_explicit_timing() {
    let mut f = Fixture::new();
    assert_eq!(f.submit_explicit_timing_data(), RequestFailed);
}

#[test]
fn restart_in_a_frame_goes_on_with_it() {
    let mut f = Fixture::new();
    f.rendering();
    assert_eq!(f.ctrl().backend.id, 1);
    f.restart_session();
    f.check_frame_state(RuntimeFrame::Begun);
    assert_eq!(f.comp.frame_state, FrameState::Begun);
    assert_eq!(f.ctrl().backend.id, 1);
    assert_eq!(f.ctrl().swapchain_data.unwrap().info, f.info());
    assert_eq!(f.submit(EVREye::Left), NoError);
    assert_eq!(f.submit(EVREye::Right), NoError);
}

#[test]
fn chosen_backend_takes_the_place_of_the_old_one() {
    let mut f = Fixture::new();
    f.rendering();
    let backend = FakeGraphicsData { id: 7, swapchain_format: None };
    f.width = 30;
    let info = f.info();
    assert_eq!(f.initialize_real_session(backend, info), Ok(()));
    assert_eq!(f.ctrl().backend.id, 7);
    assert_eq!(f.ctrl().backend.swapchain_format, Some(SUPPORTED_FORMAT));
    assert_eq!(f.ctrl().swapchain_data.unwrap().info.width, 30);
    assert_eq!(f.comp.frame_state, FrameState::Begun);
}

#[test]
fn texture_before_the_frame_is_begun_can_be_shown_from_the_last_image() {
    let mut f = Fixture::new();
    f.rendering();
    f.comp.SetExplicitTimingMode(
        EVRCompositorTimingMode::Explicit_RuntimePerformsPostPresentHandoff,
    );
    // Nothing was submitted for the last frame, so its image is still there.
    assert_eq!(f.wait_get_poses(), NoError);
    f.check_frame_state(RuntimeFrame::Waited);
    assert!(f.session.image);
    assert_eq!(f.submit(EVREye::Left), NoError);
    assert_eq!(f.submit(EVREye::Right), NoError);
    assert!(!f.session.image);
    assert_eq!(f.submit_explicit_timing_data(), NoError);
    f.check_frame_state(RuntimeFrame::Begun);
}

#[test]
fn unreadable_textures_are_refused() {
    let mut f = Fixture::new();
    assert_eq!(f.wait_get_poses(), NoError);
    let other = Texture { texture_type: 1, handle: 0x1000, color_space: 0 };
    // No graphics backend for the texture.
    assert_eq!(f.submit_with(EVREye::Left, Some(other), None), InvalidTexture);
    assert_eq!(f.sessions, 0);
    // A graphics backend that cannot read it.
    f.readable = false;
    assert_eq!(f.submit(EVREye::Left), InvalidTexture);
    assert_eq!(f.sessions, 0);
    f.readable = true;
    assert_eq!(f.submit(EVREye::Left), NoError);
    assert_eq!(f.sessions, 1);
    // The controller's backend cannot read it.
    f.readable = false;
    assert_eq!(f.submit(EVREye::Right), InvalidTexture);
    // No texture at all.
    assert_eq!(f.submit_with(EVREye::Right, None, None), InvalidTexture);
}

#[test]
fn bounds_count_before_texture_and_focus() {
    let mut f = Fixture::new();
    assert_eq!(f.submit_with(EVREye::Left, None, Some(bounds(0.5, 0.0, 0.5, 1.0))), InvalidBounds);
    assert_eq!(f.submit_with(EVREye::Left, None, None), InvalidTexture);
    assert_eq!(f.submit(EVREye::Left), DoNotHaveFocus);
}

#[test]
fn new_swapchain_in_a_frame_forgets_the_first_eye() {
    let mut f = Fixture::new();
    f.rendering();
    assert_eq!(f.submit(EVREye::Left), NoError);
    let made = f.swapchains;
    f.height = 20;
    assert_eq!(f.submit(EVREye::Right), NoError);
    assert_eq!(f.swapchains, made + 1);
    assert!(f.ctrl().eyes_submitted.left.is_none());
    assert!(f.ctrl().image_acquired);
    // The frame is not complete, so it shows nothing.
    f.post_present_handoff();
    assert_eq!(f.ended.last().unwrap().eyes, None);
    assert_eq!(f.comp.frame_state, FrameState::Submitted);
    // The image that was never released is given back with the next frame.
    assert_eq!(f.wait_get_poses(), NoError);
    assert_eq!(f.submit(EVREye::Left), NoError);
    assert_eq!(f.submit(EVREye::Right), NoError);
    assert!(!f.session.image);
}

#[test]
fn texture_without_area_hides_the_frame() {
    let mut f = Fixture::new();
    f.rendering();
    assert_eq!(f.submit(EVREye::Left), NoError);
    f.width = 0;
    assert_eq!(f.submit(EVREye::Right), NoError);
    assert!(f.ctrl().submitting_null);
    f.post_present_handoff();
    assert_eq!(f.ended.last().unwrap().eyes, None);
}

#[test]
fn suspended_application_renders_nothing() {
    let mut f = Fixture::new();
    f.rendering();
    f.comp.SuspendRendering(true);
    assert!(f.ctrl().should_render);
    assert_eq!(f.wait_get_poses(), NoError);
    assert!(!f.ctrl().should_render);
    f.comp.SuspendRendering(false);
    assert_eq!(f.wait_get_poses(), NoError);
    assert!(f.ctrl().should_render);
}

#[test]
fn suspension_and_fading_end_with_the_session() {
    let mut f = Fixture::new();
    // Without a session there is nothing to suspend.
    f.comp.SuspendRendering(true);
    f.rendering();
    assert!(!f.ctrl().app_suspend_render);
    f.comp.SuspendRendering(true);
    f.comp.FadeGrid(true);
    assert_eq!(f.wait_get_poses(), NoError);
    assert_eq!(f.submit(EVREye::Left), NoError);
    assert_eq!(f.submit(EVREye::Right), NoError);
    assert!(f.ctrl().app_suspend_render && f.ctrl().app_fade_grid);
    f.restart_session();
    assert!(!f.ctrl().app_suspend_render && !f.ctrl().app_fade_grid);
}

#[test]
fn submit_stays_in_the_frame() {
    // With explicit timing the frame was waited for and not begun.
    let mut f = Fixture::new();
    f.set_explicit();
    assert_eq!(f.wait_get_poses(), NoError);
    assert_eq!(f.submit(EVREye::Left), NoError);
    assert_eq!(f.sessions, 1);
    assert_eq!(f.comp.frame_state, FrameState::Waited);
    f.check_frame_state(RuntimeFrame::Waited);

    let mut f = Fixture::new();
    f.rendering();
    f.width = 40;
    assert_eq!(f.submit(EVREye::Left), NoError);
    assert_eq!(f.submit(EVREye::Right), NoError);
    assert_eq!(f.submit(EVREye::Right), AlreadySubmitted);
    assert_eq!(f.comp.frame_state, FrameState::Begun);
}

#[test]
fn display_time_changes_with_the_wait_alone() {
    let mut f = Fixture::new();
    f.rendering();
    let time = f.next_time;
    assert_eq!(f.submit(EVREye::Left), NoError);
    f.comp.SuspendRendering(true);
    f.set_explicit();
    assert_eq!(f.submit_explicit_timing_data(), NoError);
    assert_eq!(f.submit(EVREye::Right), NoError);
    assert_eq!(f.comp.display_time, time);
    f.post_present_handoff();
    assert_eq!(f.ended.last().unwrap().display_time, time);
    f.post_present_handoff();
    assert_eq!(f.comp.display_time, time);
    assert_eq!(f.wait_get_poses(), NoError);
    assert_eq!(f.comp.display_time, time + 11);
}

#[test]
fn focus_is_kept() {
    let mut f = Fixture::new();
    assert_eq!(f.submit(EVREye::Left), DoNotHaveFocus);
    assert_eq!(f.wait_get_poses(), NoError);
    assert_eq!(f.submit(EVREye::Left), NoError);
    f.post_present_handoff();
    f.restart_session();
    f.set_explicit();
    assert!(f.comp.focused);
}

#[test]
fn every_ended_frame_is_counted() {
    let mut f = Fixture::new();
    f.rendering();
    for mode in [
        EVRCompositorTimingMode::Implicit,
        EVRCompositorTimingMode::Explicit_RuntimePerformsPostPresentHandoff,
        EVRCompositorTimingMode::Explicit_ApplicationPerformsPostPresentHandoff,
    ] {
        f.comp.SetExplicitTimingMode(mode);
        assert_eq!(f.wait_get_poses(), NoError);
        f.submit_explicit_timing_data();
        assert_eq!(f.submit(EVREye::Left), NoError);
        assert_eq!(f.submit(EVREye::Right), NoError);
        assert_eq!(f.comp.metrics.index as usize, f.ended.len());
    }
    f.restart_session();
    f.post_present_handoff();
    assert_eq!(f.comp.metrics.index as usize, f.ended.len());
}

#[test]
fn eye_stays_submitted_through_a_handoff() {
    let mut f = Fixture::new();
    f.rendering();
    f.set_explicit();
    assert_eq!(f.submit(EVREye::Left), NoError);
    assert_eq!(f.submit(EVREye::Left), AlreadySubmitted);
    f.post_present_handoff();
    assert_eq!(f.submit(EVREye::Left), AlreadySubmitted);
    assert_eq!(f.wait_get_poses(), NoError);
    assert_eq!(f.submit(EVREye::Left), AlreadySubmitted);
    assert_eq!(f.submit_explicit_timing_data(), NoError);
    assert_eq!(f.submit(EVREye::Left), NoError);
    // A swapchain made anew for the right eye frees the left one.
    f.height = 20;
    assert_eq!(f.submit(EVREye::Right), NoError);
    assert_eq!(f.submit(EVREye::Left), NoError);
}

#[test]
fn fading_reaches_the_overlays() {
    let mut f = Fixture::new();
    f.comp.FadeGrid(true);
    f.rendering();
    f.post_present_handoff();
    assert!(!f.ended.last().unwrap().fade_grid);
    f.comp.FadeGrid(true);
    assert_eq!(f.wait_get_poses(), NoError);
    f.post_present_handoff();
    assert!(f.ended.last().unwrap().fade_grid);
}

#[test]
fn poses_are_fetched_after_the_events() {
    let mut f = Fixture::new();
    let outcome = f.comp.WaitGetPoses(4);
    assert_eq!(outcome.actions, vec![Action::PollEvents]);
    assert_eq!(f.run(outcome), Some(NoError));
    assert_eq!(f.polls, 1);
    assert_eq!(f.fetched, vec![4]);
}

#[test]
fn actions_of_a_whole_frame() {
    let mut f = Fixture::new();
    f.rendering();
    assert_eq!(f.submit(EVREye::Left), NoError);
    assert_eq!(f.submit(EVREye::Right), NoError);
    let time = f.next_time;
    let eyes = f.ctrl().eyes_submitted;
    let outcome = f.comp.WaitGetPoses(0);
    assert_eq!(outcome.actions, vec![Action::PollEvents]);
    let outcome = f.comp.events_polled();
    assert_eq!(
        outcome.actions,
        vec![
            Action::EndFrame {
                display_time: time,
                eyes: Some(EyePair { left: eyes.left.unwrap(), right: eyes.right.unwrap() }),
                fade_grid: false,
            },
            Action::WaitFrame,
            Action::AcquireImage,
            Action::BeginFrame,
            Action::ResetViews,
            Action::StartInputFrame,
        ]
    );
    assert_eq!(outcome.result, Some(NoError));
}
