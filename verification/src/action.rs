//! The instructions the registry hands back to the unverified shell. The
//! registry only decides; the shell performs each action, in order, against
//! the real window system and GPU.

use crate::session::ShaderSource;
use crate::uniform::FrameUniformBlock;
use vstd::prelude::*;

verus! {

/// One step for the shell to perform. Every `layer_id` names a layer
/// surface the registry created earlier (or creates with this very action).
#[derive(Debug, PartialEq, Eq)]
pub enum GpuAction {
    /// Attach a background layer surface for a newly accepted output, sized
    /// to the output's reported mode.
    CreateLayerSurface { layer_id: u64, name: String, width: u32, height: u32 },
    /// Acquire the drawable surface for this layer and build its pipeline,
    /// uniform buffer and bind group from the given shader at the given
    /// size. If the shader fails to compile, the shell reports that back
    /// through the registry instead of crashing.
    BuildPipeline { layer_id: u64, width: u32, height: u32, shader: ShaderSource },
    /// Render one frame: clear to the background color and, when
    /// `frame_data` is present, write it into the uniform buffer and draw
    /// the full-screen triangle; then submit and present.
    Draw { layer_id: u64, frame_data: Option<FrameUniformBlock> },
    /// Re-arm the one-shot frame callback for this layer so animation
    /// continues at the compositor's pace.
    RequestFrameCallback { layer_id: u64 },
    /// Release the drawable surface of this layer.
    ReleaseSurface { layer_id: u64 },
    /// Release the GPU device owned by this layer's session. Always ordered
    /// after the surface release of the same layer.
    ReleaseDevice { layer_id: u64 },
}

/// The canonical teardown sequence for the sessions owning the given layer
/// ids: for each session in order, its surface release followed at once by
/// its device release.
pub open spec fn spec_release_actions(layer_ids: Seq<u64>) -> Seq<GpuAction> {
    Seq::new(
        2 * layer_ids.len(),
        |i: int|
            if i % 2 == 0 {
                GpuAction::ReleaseSurface { layer_id: layer_ids[i / 2] }
            } else {
                GpuAction::ReleaseDevice { layer_id: layer_ids[i / 2] }
            },
    )
}

/// Teardown ordering law: in the canonical teardown sequence, every
/// session's surface release stands strictly before the device release of
/// the same session.
pub proof fn lemma_surface_released_before_device(layer_ids: Seq<u64>, k: int)
    requires
        0 <= k < layer_ids.len(),
    ensures
        spec_release_actions(layer_ids)[2 * k] == (GpuAction::ReleaseSurface {
            layer_id: layer_ids[k],
        }),
        spec_release_actions(layer_ids)[2 * k + 1] == (GpuAction::ReleaseDevice {
            layer_id: layer_ids[k],
        }),
        2 * k < 2 * k + 1 < spec_release_actions(layer_ids).len(),
{
    assert((2 * k) % 2 == 0 && (2 * k) / 2 == k) by (nonlinear_arith)
        requires 0 <= k;
    assert((2 * k + 1) % 2 == 1 && (2 * k + 1) / 2 == k) by (nonlinear_arith)
        requires 0 <= k;
}

/// Growing the teardown by one session appends exactly its two releases.
pub proof fn lemma_release_actions_push(layer_ids: Seq<u64>, layer_id: u64)
    ensures
        spec_release_actions(layer_ids.push(layer_id)) =~= spec_release_actions(layer_ids).push(
            GpuAction::ReleaseSurface { layer_id },
        ).push(GpuAction::ReleaseDevice { layer_id }),
{
    let grown = spec_release_actions(layer_ids.push(layer_id));
    let appended = spec_release_actions(layer_ids).push(
        GpuAction::ReleaseSurface { layer_id },
    ).push(GpuAction::ReleaseDevice { layer_id });
    assert forall|i: int| 0 <= i < grown.len() implies grown[i] == appended[i] by {
        assert(i % 2 == 0 || i % 2 == 1);
        assert(0 <= i / 2 < layer_ids.len() + 1);
        if i / 2 == layer_ids.len() {
            assert(i == 2 * layer_ids.len() || i == 2 * layer_ids.len() + 1) by (nonlinear_arith)
                requires i / 2 == layer_ids.len(), 0 <= i;
        }
    }
}

} // verus!
