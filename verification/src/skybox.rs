//! The skybox that is shown in place of the scene.

use vstd::prelude::*;

use crate::action::Action;
use crate::action::Outcome;
use crate::texture::EVRCompositorError;

verus! {

/// Asks for a skybox of `texture_count` textures. One or two textures are shown on a sphere, which
/// takes an extension of the runtime, and six on a box. Where the runtime lacks the extension the
/// application is told that all is well, and nothing is shown.
#[allow(non_snake_case)]
pub fn SetSkyboxOverride(
    textures_given: bool,
    texture_count: u32,
    equirect_supported: bool,
) -> (outcome: Outcome)
    ensures
        ({
            let sphere = 1 <= texture_count <= 2;
            let cube = texture_count == 6;
            &&& !textures_given || !(sphere || cube) ==> outcome.is_done(
                EVRCompositorError::RequestFailed,
            )
            &&& textures_given && sphere && !equirect_supported ==> outcome.is_done(
                EVRCompositorError::NoError,
            )
            &&& textures_given && (cube || sphere && equirect_supported)
                ==> outcome.is_waiting_for(Action::SetSkybox { count: texture_count })
        }),
{
    if !textures_given {
        return Outcome::done(EVRCompositorError::RequestFailed);
    }
    if texture_count == 1 || texture_count == 2 {
        if !equirect_supported {
            return Outcome::done(EVRCompositorError::NoError);
        }
    } else if texture_count != 6 {
        return Outcome::done(EVRCompositorError::RequestFailed);
    }
    Outcome::waiting_for(Action::SetSkybox { count: texture_count })
}

/// The answer to `SetSkybox`: what went wrong, if anything did.
pub fn skybox_set(answer: Result<(), EVRCompositorError>) -> (result: EVRCompositorError)
    ensures
        answer is Ok ==> result is NoError,
        answer is Err ==> result == answer->Err_0,
{
    match answer {
        Ok(_) => EVRCompositorError::NoError,
        Err(error) => error,
    }
}

} // verus!
