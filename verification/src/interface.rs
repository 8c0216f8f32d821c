//! Calls of the compositor interface whose answer is always the same.

use vstd::prelude::*;

use crate::compositor::Compositor;
use crate::texture::EVRCompositorError;

verus! {

#[allow(non_snake_case)]
impl<B> Compositor<B> {
    /// Poses are not predicted under identifiers; the application's variables stay as they are.
    pub fn GetLastPosePredictionIDs(&self) -> (result: EVRCompositorError)
        ensures
            result is NoError,
    {
        EVRCompositorError::NoError
    }

    /// There is no benchmark.
    pub fn GetCompositorBenchmarkResults(&self) -> (available: bool)
        ensures
            !available,
    {
        false
    }

    /// The stage cannot be replaced, and the application is not told.
    pub fn SetStageOverride_Async(&self) -> (result: EVRCompositorError)
        ensures
            result is NoError,
    {
        EVRCompositorError::NoError
    }

    pub fn IsCurrentSceneFocusAppLoading(&self) -> (loading: bool)
        ensures
            !loading,
    {
        false
    }

    /// There is no mirror texture.
    pub fn GetMirrorTextureD3D11(&self) -> (result: EVRCompositorError)
        ensures
            result is IncompatibleVersion,
    {
        EVRCompositorError::IncompatibleVersion
    }

    pub fn ShouldAppRenderWithLowResources(&self) -> (low: bool)
        ensures
            !low,
    {
        false
    }

    pub fn CanRenderScene(&self) -> (can: bool)
        ensures
            can,
    {
        true
    }

    pub fn IsFullscreen(&self) -> (fullscreen: bool)
        ensures
            fullscreen,
    {
        true
    }

    /// The timing structures of the oldest interface versions are not filled.
    pub fn fills_old_frame_timing(&self) -> (filled: bool)
        ensures
            !filled,
    {
        false
    }
}

} // verus!
