//! The layers of a frame: the projection layer that shows the submitted eyes, and the overlays
//! above it.
//!
//! Numbers that OpenXR keeps in single precision are held as their bit patterns. The library moves
//! them and never computes with them.

use vstd::prelude::*;

use crate::texture::ONE;

verus! {

/// The size of an image region in pixels.
#[derive(Clone, Copy, Debug, PartialEq, Eq)]
pub struct Extent2Di {
    pub width: i32,
    pub height: i32,
}

/// The place of an image region in pixels.
#[derive(Clone, Copy, Debug, PartialEq, Eq)]
pub struct Offset2Di {
    pub x: i32,
    pub y: i32,
}

/// A region of an image.
#[derive(Clone, Copy, Debug, PartialEq, Eq)]
pub struct Rect2Di {
    pub offset: Offset2Di,
    pub extent: Extent2Di,
}

/// An orientation, as a quaternion.
#[derive(Clone, Copy, Debug, PartialEq, Eq)]
pub struct Quaternionf {
    pub x: u32,
    pub y: u32,
    pub z: u32,
    pub w: u32,
}

/// A position.
#[derive(Clone, Copy, Debug, PartialEq, Eq)]
pub struct Vector3f {
    pub x: u32,
    pub y: u32,
    pub z: u32,
}

/// An orientation and a position.
#[derive(Clone, Copy, Debug, PartialEq, Eq)]
pub struct Posef {
    pub orientation: Quaternionf,
    pub position: Vector3f,
}

/// The four angles of a field of view.
#[derive(Clone, Copy, Debug, PartialEq, Eq)]
pub struct Fovf {
    pub angle_left: u32,
    pub angle_right: u32,
    pub angle_up: u32,
    pub angle_down: u32,
}

/// From where, and how wide, an eye looks.
#[derive(Clone, Copy, Debug, PartialEq, Eq)]
pub struct EyeView {
    pub pose: Posef,
    pub fov: Fovf,
}

/// What the application submitted for one eye: the size of the region of the swapchain image that
/// holds it, and whether it lies upside down there.
#[derive(Clone, Copy, Debug, PartialEq, Eq)]
pub struct SubmittedEye {
    pub extent: Extent2Di,
    pub flip_vertically: bool,
}

impl SubmittedEye {
    /// An eye that shows nothing.
    pub open spec fn spec_blank() -> SubmittedEye {
        SubmittedEye { extent: Extent2Di { width: 0, height: 0 }, flip_vertically: false }
    }

    /// An eye that shows nothing.
    pub fn blank() -> (eye: SubmittedEye)
        ensures
            eye == SubmittedEye::spec_blank(),
    {
        SubmittedEye { extent: Extent2Di { width: 0, height: 0 }, flip_vertically: false }
    }
}

/// What was submitted for both eyes.
#[derive(Clone, Copy, Debug, PartialEq, Eq)]
pub struct EyePair {
    pub left: SubmittedEye,
    pub right: SubmittedEye,
}

impl EyePair {
    /// The eye that a view index stands for: 0 is the left eye, 1 the right one.
    pub open spec fn at(self, index: int) -> SubmittedEye {
        if index == 0 {
            self.left
        } else {
            self.right
        }
    }
}

/// One view of a projection layer: where and how it looks, and the region of the swapchain image,
/// in the given layer of it, that it shows.
#[derive(Clone, Copy, Debug, PartialEq, Eq)]
pub struct ProjectionView {
    pub pose: Posef,
    pub fov: Fovf,
    pub image_array_index: u32,
    pub image_rect: Rect2Di,
}

/// The bit of the view state that says that the orientations hold.
pub const ORIENTATION_VALID: u64 = 1;

/// The bit of the view state that says that the positions hold.
pub const POSITION_VALID: u64 = 2;

/// The orientation of a view that is not turned.
pub open spec fn not_turned() -> Quaternionf {
    Quaternionf { x: 0, y: 0, z: 0, w: ONE }
}

/// The origin of a space.
pub open spec fn origin() -> Vector3f {
    Vector3f { x: 0, y: 0, z: 0 }
}

/// Every bit of `wanted` is set in `flags`.
pub open spec fn has_flags(flags: u64, wanted: u64) -> bool {
    flags & wanted == wanted
}

/// `openxr::ViewStateFlags::contains`: every bit of its argument is set in the flags.
#[verifier::external_body]
fn view_state_contains(flags: u64, wanted: u64) -> (contained: bool)
    ensures
        contained == has_flags(flags, wanted),
{
    openxr::ViewStateFlags::from_raw(flags).contains(openxr::ViewStateFlags::from_raw(wanted))
}

/// `openxr::ViewStateFlags::ORIENTATION_VALID`: the lowest bit.
#[verifier::external_body]
fn orientation_valid_flag() -> (flag: u64)
    ensures
        flag == ORIENTATION_VALID,
{
    openxr::ViewStateFlags::ORIENTATION_VALID.into_raw()
}

/// `openxr::ViewStateFlags::POSITION_VALID`: the second lowest bit.
#[verifier::external_body]
fn position_valid_flag() -> (flag: u64)
    ensures
        flag == POSITION_VALID,
{
    openxr::ViewStateFlags::POSITION_VALID.into_raw()
}

/// `openxr::Quaternionf::IDENTITY`: the three imaginary parts are zero and the real one is 1.
#[verifier::external_body]
fn identity_orientation() -> (orientation: Quaternionf)
    ensures
        orientation == not_turned(),
{
    let q = openxr::Quaternionf::IDENTITY;
    Quaternionf { x: q.x.to_bits(), y: q.y.to_bits(), z: q.z.to_bits(), w: q.w.to_bits() }
}

/// `openxr::Vector3f::default`: all three coordinates are zero.
#[verifier::external_body]
fn default_position() -> (position: Vector3f)
    ensures
        position == origin(),
{
    let v = openxr::Vector3f::default();
    Vector3f { x: v.x.to_bits(), y: v.y.to_bits(), z: v.z.to_bits() }
}

/// The field of view with its upper and lower angles exchanged.
pub open spec fn flipped_fov(fov: Fovf) -> Fovf {
    Fovf { angle_up: fov.angle_down, angle_down: fov.angle_up, ..fov }
}

/// How the eye `submitted` for the view with the given index is shown. A part of the pose that the
/// runtime does not vouch for is replaced by the neutral one; an image that lies upside down is
/// turned by exchanging the vertical angles.
pub open spec fn shown_view(
    submitted: SubmittedEye,
    flags: u64,
    index: int,
    view: EyeView,
) -> ProjectionView {
    ProjectionView {
        pose: Posef {
            orientation: if has_flags(flags, ORIENTATION_VALID) {
                view.pose.orientation
            } else {
                not_turned()
            },
            position: if has_flags(flags, POSITION_VALID) {
                view.pose.position
            } else {
                origin()
            },
        },
        fov: if submitted.flip_vertically {
            flipped_fov(view.fov)
        } else {
            view.fov
        },
        image_array_index: index as u32,
        image_rect: Rect2Di { offset: Offset2Di { x: 0, y: 0 }, extent: submitted.extent },
    }
}

/// The views of the projection layer, one for each view that the runtime reported.
pub open spec fn shown_views(eyes: EyePair, flags: u64, views: Seq<EyeView>) -> Seq<ProjectionView> {
    Seq::new(views.len(), |i: int| shown_view(eyes.at(i), flags, i, views[i]))
}

fn show_view(submitted: SubmittedEye, flags: u64, index: u32, view: &EyeView) -> (shown:
    ProjectionView)
    ensures
        shown == shown_view(submitted, flags, index as int, *view),
{
    let orientation = if view_state_contains(flags, orientation_valid_flag()) {
        view.pose.orientation
    } else {
        identity_orientation()
    };
    let position = if view_state_contains(flags, position_valid_flag()) {
        view.pose.position
    } else {
        default_position()
    };
    let mut fov = view.fov;
    if submitted.flip_vertically {
        let up: u32 = fov.angle_up;
        fov.angle_up = fov.angle_down;
        fov.angle_down = up;
    }
    ProjectionView {
        pose: Posef { orientation, position },
        fov,
        image_array_index: index,
        image_rect: Rect2Di { offset: Offset2Di { x: 0, y: 0 }, extent: submitted.extent },
    }
}

/// The views of the projection layer of a frame, or nothing where the frame has none: the eyes are
/// not to be shown, or the runtime reported no view. `flags` and `views` are what the runtime
/// reported; they are not read where `eyes` is `None`.
pub fn projection_layer(eyes: Option<EyePair>, flags: u64, views: &Vec<EyeView>) -> (layer: Option<
    Vec<ProjectionView>,
>)
    requires
        views@.len() <= 2,
    ensures
        layer is Some <==> eyes is Some && views@.len() > 0,
        layer is Some ==> layer->0@ == shown_views(eyes->0, flags, views@),
{
    match eyes {
        None => None,
        Some(pair) => {
            if views.len() == 0 {
                return None;
            }
            let mut layer: Vec<ProjectionView> = Vec::new();
            let mut i: usize = 0;
            while i < views.len()
                invariant
                    i <= views@.len() <= 2,
                    layer@ == shown_views(pair, flags, views@).take(i as int),
                decreases views@.len() - i,
            {
                let submitted = if i == 0 {
                    pair.left
                } else {
                    pair.right
                };
                layer.push(show_view(submitted, flags, i as u32, &views[i]));
                i = i + 1;
            }
            Some(layer)
        },
    }
}

/// The layers of a frame in the order in which the runtime composes them: the projection layer, if
/// there is one, below the overlays.
pub fn frame_layers<L: Copy>(projection: Option<L>, overlays: &Vec<L>) -> (layers: Vec<L>)
    ensures
        projection is Some ==> layers@ == seq![projection->0] + overlays@,
        projection is None ==> layers@ == overlays@,
{
    let mut layers: Vec<L> = Vec::new();
    if let Some(layer) = projection {
        layers.push(layer);
    }
    let ghost below = layers@;
    let mut i: usize = 0;
    while i < overlays.len()
        invariant
            i <= overlays@.len(),
            layers@ == below + overlays@.take(i as int),
        decreases overlays@.len() - i,
    {
        layers.push(overlays[i]);
        i = i + 1;
    }
    layers
}

/// A pose that the runtime vouches for in full is shown as it was reported, and one that it does
/// not vouch for at all is replaced by the neutral pose.
pub proof fn law_unreported_poses_are_neutral(
    submitted: SubmittedEye,
    flags: u64,
    index: int,
    view: EyeView,
)
    ensures
        has_flags(flags, ORIENTATION_VALID) && has_flags(flags, POSITION_VALID) ==> shown_view(
            submitted,
            flags,
            index,
            view,
        ).pose == view.pose,
        !has_flags(flags, ORIENTATION_VALID) && !has_flags(flags, POSITION_VALID) ==> shown_view(
            submitted,
            flags,
            index,
            view,
        ).pose == (Posef { orientation: not_turned(), position: origin() }),
{
}

/// Turning an image upside down twice shows it as it was.
pub proof fn law_flipping_twice_is_no_flip(fov: Fovf)
    ensures
        flipped_fov(flipped_fov(fov)) == fov,
{
}

} // verus!
