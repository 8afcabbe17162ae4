//! Ordered shutdown: each GPU resource may reference the one released
//! after it, so the release order is fixed and independent of anything
//! that happened while the window was alive.

use vstd::prelude::*;
use crate::app::GlowApp;

verus! {

/// One resource release during shutdown.
#[derive(Clone, Copy, Debug, PartialEq, Eq)]
pub enum TeardownStep {
    /// Release the rendering context and the loaded function pointers.
    ReleaseGpuContext,
    /// Release the drawable surface bound to the window.
    ReleaseDrawableSurface,
    /// Release the GPU display (instance) handle.
    ReleaseGpuDisplay,
    /// Release the window handle itself, last of all.
    ReleaseWindow,
}

/// The one admissible release order: context, then drawable, then GPU
/// display, then the window.
pub open spec fn spec_shutdown_order() -> Seq<TeardownStep> {
    seq![
        TeardownStep::ReleaseGpuContext,
        TeardownStep::ReleaseDrawableSurface,
        TeardownStep::ReleaseGpuDisplay,
        TeardownStep::ReleaseWindow,
    ]
}

impl GlowApp {
    /// The release plan the surrounding program must follow at shutdown.
    /// It is the same whatever state the application reached: resizes and
    /// redraws never reorder the teardown dependency chain.
    pub fn shutdown_steps(&self) -> (steps: Vec<TeardownStep>)
        ensures
            steps@ == spec_shutdown_order(),
    {
        let mut steps: Vec<TeardownStep> = Vec::new();
        steps.push(TeardownStep::ReleaseGpuContext);
        steps.push(TeardownStep::ReleaseDrawableSurface);
        steps.push(TeardownStep::ReleaseGpuDisplay);
        steps.push(TeardownStep::ReleaseWindow);
        proof {
            assert(steps@ =~= spec_shutdown_order());
        }
        steps
    }
}

/// The GPU context is always released strictly before the window handle:
/// wherever both appear in the shutdown order, the context comes first.
pub proof fn lemma_context_released_before_window(steps: Seq<TeardownStep>)
    requires
        steps == spec_shutdown_order(),
    ensures
        forall|i: int, j: int|
            0 <= i < steps.len() && 0 <= j < steps.len()
                && steps[i] is ReleaseGpuContext && steps[j] is ReleaseWindow
                ==> i < j,
{
    assert(steps[0] is ReleaseGpuContext);
    assert(steps[1] is ReleaseDrawableSurface);
    assert(steps[2] is ReleaseGpuDisplay);
    assert(steps[3] is ReleaseWindow);
}

} // verus!
