//! What the application is told about the frames so far.

use vstd::prelude::*;

use crate::compositor::Compositor;

verus! {

/// The timing of a frame. Except for its number and the time at which it was handed over the values
/// are fixed. Times in milliseconds are bit patterns of single-precision numbers, the system time
/// in seconds is the bit pattern of a double-precision number.
#[derive(Clone, Copy, Debug, PartialEq, Eq)]
pub struct FrameTiming {
    pub frame_index: u32,
    pub num_frame_presents: u32,
    pub num_mis_presented: u32,
    pub reprojection_flags: u32,
    pub system_time_in_seconds: u64,
    pub pre_submit_gpu_ms: u32,
    pub post_submit_gpu_ms: u32,
    pub total_render_gpu_ms: u32,
    pub compositor_render_gpu_ms: u32,
    pub compositor_render_cpu_ms: u32,
    pub compositor_idle_cpu_ms: u32,
    pub client_frame_interval_ms: u32,
    pub present_call_cpu_ms: u32,
    pub wait_for_present_cpu_ms: u32,
    pub submit_frame_ms: u32,
    pub wait_get_poses_called_ms: u32,
    pub new_poses_ready_ms: u32,
    pub new_frame_ready_ms: u32,
    pub compositor_update_start_ms: u32,
    pub compositor_update_end_ms: u32,
    pub compositor_render_start_ms: u32,
}

/// The bit patterns of the times that are reported for every frame, in milliseconds.
pub const MS_0_1: u32 = 0x3dcc_cccd;

pub const MS_1: u32 = 0x3f80_0000;

pub const MS_1_5: u32 = 0x3fc0_0000;

pub const MS_3: u32 = 0x4040_0000;

pub const MS_8: u32 = 0x4100_0000;

pub const MS_9: u32 = 0x4110_0000;

pub const MS_11_1: u32 = 0x4131_999a;

/// The timing that is reported for the frame with the given number, handed over at `time`.
pub open spec fn timing_of(index: u32, time: u64) -> FrameTiming {
    FrameTiming {
        frame_index: index,
        num_frame_presents: 1,
        num_mis_presented: 0,
        reprojection_flags: 0,
        system_time_in_seconds: time,
        pre_submit_gpu_ms: MS_8,
        post_submit_gpu_ms: MS_1,
        total_render_gpu_ms: MS_9,
        compositor_render_gpu_ms: MS_1_5,
        compositor_render_cpu_ms: MS_3,
        compositor_idle_cpu_ms: MS_0_1,
        client_frame_interval_ms: MS_11_1,
        present_call_cpu_ms: 0,
        wait_for_present_cpu_ms: 0,
        submit_frame_ms: 0,
        wait_get_poses_called_ms: 0,
        new_poses_ready_ms: 0,
        new_frame_ready_ms: 0,
        compositor_update_start_ms: 0,
        compositor_update_end_ms: 0,
        compositor_render_start_ms: 0,
    }
}

impl<B> Compositor<B> {
    /// The timing of the last frame, unless the application's structure cannot take it: it is not
    /// `writable`, or its `size` is too small for all that is written. `minimum` is the size up to
    /// the end of the last member that every version of the structure has.
    #[allow(non_snake_case)]
    pub fn GetFrameTiming(&self, writable: bool, size: u32, minimum: usize) -> (timing: Option<
        FrameTiming,
    >)
        ensures
            timing is Some <==> writable && size >= minimum,
            timing is Some ==> timing->0 == timing_of(self.metrics.index, self.metrics.time),
    {
        if !writable || (size as usize) < minimum {
            return None;
        }
        Some(
            FrameTiming {
                frame_index: self.metrics.index,
                num_frame_presents: 1,
                num_mis_presented: 0,
                reprojection_flags: 0,
                system_time_in_seconds: self.metrics.time,
                pre_submit_gpu_ms: MS_8,
                post_submit_gpu_ms: MS_1,
                total_render_gpu_ms: MS_9,
                compositor_render_gpu_ms: MS_1_5,
                compositor_render_cpu_ms: MS_3,
                compositor_idle_cpu_ms: MS_0_1,
                client_frame_interval_ms: MS_11_1,
                present_call_cpu_ms: 0,
                wait_for_present_cpu_ms: 0,
                submit_frame_ms: 0,
                wait_get_poses_called_ms: 0,
                new_poses_ready_ms: 0,
                new_frame_ready_ms: 0,
                compositor_update_start_ms: 0,
                compositor_update_end_ms: 0,
                compositor_render_start_ms: 0,
            },
        )
    }
}

} // verus!
