//! Textures and their bounds, eyes, and the codes of the OpenVR compositor interface.

use vstd::prelude::*;

verus! {

/// What a call of the compositor interface answers.
#[derive(Clone, Copy, Debug, PartialEq, Eq, Structural)]
pub enum EVRCompositorError {
    /// The call succeeded.
    NoError,
    RequestFailed,
    IncompatibleVersion,
    DoNotHaveFocus,
    InvalidTexture,
    IsNotSceneApplication,
    TextureIsOnWrongDevice,
    TextureUsesUnsupportedFormat,
    SharedTexturesNotSupported,
    IndexOutOfRange,
    AlreadySubmitted,
    InvalidBounds,
    AlreadySet,
}

/// Who tells the runtime that rendering of a frame begins, and who hands the frame over.
#[derive(Clone, Copy, Debug, PartialEq, Eq, Structural)]
#[allow(non_camel_case_types)]
pub enum EVRCompositorTimingMode {
    /// `WaitGetPoses` does both.
    Implicit,
    /// The application announces the begin; `WaitGetPoses` hands the last frame over.
    Explicit_RuntimePerformsPostPresentHandoff,
    /// The application does both.
    Explicit_ApplicationPerformsPostPresentHandoff,
}

#[derive(Clone, Copy, Debug, PartialEq, Eq, Structural)]
pub enum EVREye {
    Left,
    Right,
}

/// A texture as the application names it: the kind of its handle, the handle, and the colour space
/// of its contents. The library passes all three on.
#[derive(Clone, Copy, Debug, PartialEq, Eq)]
pub struct Texture {
    pub texture_type: i32,
    pub handle: usize,
    pub color_space: i32,
}

/// The part of a texture that is shown. The coordinates are the bit patterns of single-precision
/// numbers: 0 is the left or upper edge of the texture, 1 the right or lower edge.
#[derive(Clone, Copy, Debug, PartialEq, Eq)]
pub struct TextureBounds {
    pub u_min: u32,
    pub v_min: u32,
    pub u_max: u32,
    pub v_max: u32,
}

/// The bit pattern of the single-precision number 1.
pub const ONE: u32 = 0x3f80_0000;

/// The bit pattern of the infinite single-precision number. Larger magnitudes are not numbers.
pub const INFINITE: u32 = 0x7f80_0000;

/// The bit that holds the sign of a single-precision number.
pub const SIGN: u32 = 0x8000_0000;

/// The place of a single-precision number in the order of the numbers: of two numbers the smaller
/// one has the smaller rank, and the two zeros have the same.
pub open spec fn rank(bits: u32) -> int {
    if bits < SIGN {
        bits as int
    } else {
        SIGN - bits
    }
}

/// The bit pattern is that of a number, possibly an infinite one.
pub open spec fn is_number(bits: u32) -> bool {
    -INFINITE <= rank(bits) <= INFINITE
}

/// The number lies between 0 and 1, both included.
pub open spec fn within_texture(bits: u32) -> bool {
    0 <= rank(bits) <= ONE
}

fn rank_of(bits: u32) -> (r: i64)
    ensures
        r == rank(bits),
{
    if bits < SIGN {
        bits as i64
    } else {
        SIGN as i64 - bits as i64
    }
}

fn is_within_texture(bits: u32) -> (within: bool)
    ensures
        within == within_texture(bits),
{
    let r: i64 = rank_of(bits);
    0 <= r && r <= ONE as i64
}

impl TextureBounds {
    /// The whole texture.
    pub open spec fn spec_full() -> TextureBounds {
        TextureBounds { u_min: 0, v_min: 0, u_max: ONE, v_max: ONE }
    }

    /// Every coordinate lies on the texture, and the part has a width and a height.
    pub open spec fn is_valid(self) -> bool {
        &&& within_texture(self.u_min)
        &&& within_texture(self.v_min)
        &&& within_texture(self.u_max)
        &&& within_texture(self.v_max)
        &&& rank(self.u_min) != rank(self.u_max)
        &&& rank(self.v_min) != rank(self.v_max)
    }

    /// The upper edge lies below the lower one: the texture is shown upside down.
    pub open spec fn is_flipped(self) -> bool {
        &&& is_number(self.v_min)
        &&& is_number(self.v_max)
        &&& rank(self.v_min) > rank(self.v_max)
    }

    /// The same part, upside down.
    pub open spec fn upside_down(self) -> TextureBounds {
        TextureBounds { v_min: self.v_max, v_max: self.v_min, ..self }
    }

    /// The bounds that stand for the whole texture.
    pub fn full() -> (bounds: TextureBounds)
        ensures
            bounds == TextureBounds::spec_full(),
    {
        TextureBounds { u_min: 0, v_min: 0, u_max: ONE, v_max: ONE }
    }

    /// Tells whether the bounds describe a part of a texture.
    pub fn valid(&self) -> (valid: bool)
        ensures
            valid == self.is_valid(),
    {
        is_within_texture(self.u_min) && is_within_texture(self.v_min) && is_within_texture(
            self.u_max,
        ) && is_within_texture(self.v_max) && rank_of(self.u_min) != rank_of(self.u_max)
            && rank_of(self.v_min) != rank_of(self.v_max)
    }

    /// Tells whether the texture is shown upside down.
    pub fn vertically_flipped(&self) -> (flipped: bool)
        ensures
            flipped == self.is_flipped(),
    {
        let top: i64 = rank_of(self.v_min);
        let bottom: i64 = rank_of(self.v_max);
        let infinite: i64 = INFINITE as i64;
        -infinite <= top && top <= infinite && -infinite <= bottom && bottom <= infinite && top
            > bottom
    }
}

/// The whole texture is a valid part of it, the right way up.
pub proof fn law_full_bounds_are_valid()
    ensures
        TextureBounds::spec_full().is_valid(),
        !TextureBounds::spec_full().is_flipped(),
{
}

/// Bounds may be flipped: turning a part upside down keeps it valid, and of a valid part and the
/// same part upside down exactly one is flipped.
pub proof fn law_bounds_may_be_flipped(bounds: TextureBounds)
    requires
        bounds.is_valid(),
    ensures
        bounds.upside_down().is_valid(),
        bounds.is_flipped() != bounds.upside_down().is_flipped(),
{
}

} // verus!
