//! Which poses the application is given.

use vstd::prelude::*;

use crate::action::Action;
use crate::action::Outcome;
use crate::texture::EVRCompositorError;

verus! {

/// The indices by which the application names the tracked devices.
#[derive(Clone, Copy, Debug, PartialEq, Eq)]
pub struct DeviceIndices {
    pub hmd: u32,
    pub left_hand: u32,
    pub right_hand: u32,
}

/// A device whose pose can be asked for.
#[derive(Clone, Copy, Debug, PartialEq, Eq, Structural)]
pub enum PoseSource {
    Hmd,
    LeftHand,
    RightHand,
}

/// The pose of a device, and where it goes.
#[derive(Clone, Copy, Debug, PartialEq, Eq)]
pub struct PoseRequest {
    pub source: PoseSource,
    pub to_pose: bool,
    pub to_game_pose: bool,
}

impl DeviceIndices {
    /// The device that an index stands for.
    pub open spec fn device(self, index: u32) -> Option<PoseSource> {
        if index == self.hmd {
            Some(PoseSource::Hmd)
        } else if index == self.left_hand {
            Some(PoseSource::LeftHand)
        } else if index == self.right_hand {
            Some(PoseSource::RightHand)
        } else {
            None
        }
    }
}

/// Which pose is asked for, and where it is wanted. The request fails if the pose is wanted
/// nowhere, or if no device has the index.
#[allow(non_snake_case)]
pub fn GetLastPoseForTrackedDeviceIndex(
    device_index: u32,
    indices: &DeviceIndices,
    wants_pose: bool,
    wants_game_pose: bool,
) -> (request: Result<PoseRequest, EVRCompositorError>)
    ensures
        request is Ok <==> (wants_pose || wants_game_pose) && indices.device(
            device_index,
        ) is Some,
        request is Ok ==> request->Ok_0 == (PoseRequest {
            source: indices.device(device_index)->0,
            to_pose: wants_pose,
            to_game_pose: wants_game_pose,
        }),
        request is Err ==> request->Err_0 is RequestFailed,
{
    if !wants_pose && !wants_game_pose {
        return Err(EVRCompositorError::RequestFailed);
    }
    let source = if device_index == indices.hmd {
        PoseSource::Hmd
    } else if device_index == indices.left_hand {
        PoseSource::LeftHand
    } else if device_index == indices.right_hand {
        PoseSource::RightHand
    } else {
        return Err(EVRCompositorError::RequestFailed);
    };
    Ok(PoseRequest { source, to_pose: wants_pose, to_game_pose: wants_game_pose })
}

/// The calls that fetch as many poses as the application asks for.
pub open spec fn pose_actions(count: u32) -> Seq<Action> {
    if count > 0 {
        seq![Action::FetchPoses { count }]
    } else {
        seq![]
    }
}

/// Gives the application `render_pose_count` poses.
#[allow(non_snake_case)]
pub fn GetLastPoses(render_pose_count: u32) -> (outcome: Outcome)
    ensures
        outcome.actions@ == pose_actions(render_pose_count),
        outcome.result == Some(EVRCompositorError::NoError),
{
    let mut actions: Vec<Action> = Vec::new();
    if render_pose_count > 0 {
        actions.push(Action::FetchPoses { count: render_pose_count });
    }
    Outcome { actions, result: Some(EVRCompositorError::NoError) }
}

/// The answer to `FetchPoses`: the render poses. The game poses that the application asks for are
/// the first ones of these. An application must not ask for more game poses than render poses.
pub fn poses_fetched<P: Copy>(render_poses: &[P], game_poses: &mut [P])
    requires
        old(game_poses)@.len() <= render_poses@.len(),
    ensures
        final(game_poses)@ == render_poses@.take(old(game_poses)@.len() as int),
{
    let mut i: usize = 0;
    while i < game_poses.len()
        invariant
            i <= game_poses@.len(),
            game_poses@.len() == old(game_poses)@.len(),
            game_poses@.len() <= render_poses@.len(),
            game_poses@.take(i as int) == render_poses@.take(i as int),
        decreases game_poses@.len() - i,
    {
        game_poses[i] = render_poses[i];
        i = i + 1;
        assert(game_poses@.take(i as int) == game_poses@.take(i - 1).push(game_poses@[i - 1]));
    }
    assert(game_poses@.take(i as int) == game_poses@);
}

} // verus!
