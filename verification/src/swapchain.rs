//! What a swapchain is created with, and when an existing one can be used again.

use vstd::prelude::*;

verus! {

/// The parameters of a swapchain. The flags and the format are the numbers that OpenXR uses for
/// them.
#[derive(Clone, Copy, Debug, PartialEq, Eq)]
pub struct SwapchainCreateInfo {
    pub create_flags: u64,
    pub usage_flags: u64,
    pub format: i64,
    pub sample_count: u32,
    pub width: u32,
    pub height: u32,
    pub face_count: u32,
    pub array_size: u32,
    pub mip_count: u32,
}

impl SwapchainCreateInfo {
    /// Neither dimension is zero.
    pub open spec fn has_area(self) -> bool {
        self.width > 0 && self.height > 0
    }

    /// The same parameters in another format.
    pub open spec fn spec_in_format(self, format: i64) -> SwapchainCreateInfo {
        SwapchainCreateInfo { format, ..self }
    }

    /// The same parameters in another format.
    pub fn in_format(self, format: i64) -> (info: SwapchainCreateInfo)
        ensures
            info == self.spec_in_format(format),
    {
        SwapchainCreateInfo { format, ..self }
    }
}

/// A swapchain made with `current`, at a time when `creation_format` was asked for, can show what
/// `new` describes: `new` asks for the same format, is no larger, and has as many layers and
/// samples.
pub open spec fn usable_swapchain(
    current: SwapchainCreateInfo,
    creation_format: i64,
    new: SwapchainCreateInfo,
) -> bool {
    &&& new.format == creation_format
    &&& new.width <= current.width
    &&& new.height <= current.height
    &&& new.array_size == current.array_size
    &&& new.sample_count == current.sample_count
}

/// Tells whether the swapchain that was made with `current` can be used for `new`.
/// `creation_format` is the format that was asked for when it was made, which the runtime may have
/// replaced in `current`.
pub fn is_usable_swapchain(
    current: &SwapchainCreateInfo,
    creation_format: i64,
    new: &SwapchainCreateInfo,
) -> (usable: bool)
    ensures
        usable == usable_swapchain(*current, creation_format, *new),
{
    creation_format == new.format && current.width >= new.width && current.height >= new.height
        && current.array_size == new.array_size && current.sample_count == new.sample_count
}

/// Tells whether a swapchain can be made with `info`.
pub fn is_valid_swapchain_info(info: &SwapchainCreateInfo) -> (valid: bool)
    ensures
        valid == info.has_area(),
{
    info.width > 0 && info.height > 0
}

/// A swapchain can be used for what it was made for, whatever format the runtime put in the place
/// of the one that was asked for.
pub proof fn law_usable_for_what_it_was_made_for(asked: SwapchainCreateInfo, format: i64)
    ensures
        usable_swapchain(asked.spec_in_format(format), asked.format, asked),
{
}

/// What can show a texture can show every smaller one of the same format, layers and samples.
pub proof fn law_usable_for_smaller(
    current: SwapchainCreateInfo,
    creation_format: i64,
    large: SwapchainCreateInfo,
    small: SwapchainCreateInfo,
)
    requires
        usable_swapchain(current, creation_format, large),
        usable_swapchain(large, large.format, small),
    ensures
        usable_swapchain(current, creation_format, small),
{
}

/// A texture that is wider or higher than the swapchain always asks for a new one.
pub proof fn law_larger_is_not_usable(
    current: SwapchainCreateInfo,
    creation_format: i64,
    new: SwapchainCreateInfo,
)
    requires
        new.width > current.width || new.height > current.height,
    ensures
        !usable_swapchain(current, creation_format, new),
{
}

} // verus!
