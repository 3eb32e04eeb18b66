//! One output's render session: the state behind one drawable surface, one
//! pipeline, one uniform buffer and one bind group. The GPU objects
//! themselves live in the unverified shell, keyed by the session's layer id;
//! this state decides when they exist and what is drawn with them.

use crate::uniform::{fresh_seed, next_frame, spec_next_frame, FrameUniformBlock};
use vstd::prelude::*;

verus! {

/// An output's rotation/flip, as the window system reports it.
#[derive(Clone, Copy, Debug, PartialEq, Eq, Structural)]
pub enum Transform {
    Normal,
    Rotate90,
    Rotate180,
    Rotate270,
    Flipped,
    FlippedRotate90,
    FlippedRotate180,
    FlippedRotate270,
}

/// Whether a transform turns the output a quarter turn, so that the
/// compositor's reported width and height describe the swapped axes.
pub open spec fn spec_swaps_axes(transform: Transform) -> bool {
    transform is Rotate90 || transform is Rotate270 || transform is FlippedRotate90
        || transform is FlippedRotate270
}

/// The size a session renders at for a configure notification: the reported
/// width and height, swapped exactly when the transform is a 90 or 270
/// degree rotation, plain or flipped.
pub open spec fn spec_effective_size(width: u32, height: u32, transform: Transform) -> (u32, u32) {
    if spec_swaps_axes(transform) {
        (height, width)
    } else {
        (width, height)
    }
}

/// Applies the rotation correction to a reported configure size.
pub fn effective_size(width: u32, height: u32, transform: Transform) -> (size: (u32, u32))
    ensures
        size == spec_effective_size(width, height, transform),
{
    match transform {
        Transform::Rotate90 | Transform::Rotate270 | Transform::FlippedRotate90
            | Transform::FlippedRotate270 => (height, width),
        _ => (width, height),
    }
}

/// What the fragment stage is compiled from: the built-in shader, or the
/// full text of a user-supplied shader file.
#[derive(Debug, PartialEq, Eq)]
pub enum ShaderSource {
    BuiltIn,
    Custom(String),
}

impl Clone for ShaderSource {
    fn clone(&self) -> (copied: Self)
        ensures
            copied == *self,
    {
        match self {
            ShaderSource::BuiltIn => ShaderSource::BuiltIn,
            ShaderSource::Custom(text) => ShaderSource::Custom(text.clone()),
        }
    }
}

/// The resources bound to one output. `layer_id` names the layer surface
/// (and the GPU objects hung off it) in the shell. The three `*_ready`
/// flags stand for the pipeline, uniform buffer and bind group objects.
#[derive(Debug)]
pub struct RenderSession {
    pub name: String,
    pub layer_id: u64,
    /// The configured shader file for this output, or `None` for the
    /// built-in default.
    pub shader_path: Option<String>,
    /// The shader the pipeline was built from; meaningful once configured.
    pub shader: ShaderSource,
    pub configured: bool,
    pub width: u32,
    pub height: u32,
    pub frame_index: u32,
    pub pipeline_ready: bool,
    pub uniform_buffer_ready: bool,
    pub bind_group_ready: bool,
}

impl RenderSession {
    /// The all-or-none resource invariant: the pipeline, uniform buffer and
    /// bind group are either all absent (unconfigured) or all present
    /// (configured); partial states are never observable.
    pub open spec fn wf(self) -> bool {
        &&& self.pipeline_ready == self.configured
        &&& self.uniform_buffer_ready == self.configured
        &&& self.bind_group_ready == self.configured
    }

    /// A fresh, unconfigured session for a newly accepted output.
    pub fn create(name: String, layer_id: u64, shader_path: Option<String>) -> (session: Self)
        ensures
            session.wf(),
            !session.configured,
            session.name == name,
            session.layer_id == layer_id,
            session.shader_path == shader_path,
            session.shader == ShaderSource::BuiltIn,
            session.width == 0,
            session.height == 0,
            session.frame_index == 0,
    {
        RenderSession {
            name,
            layer_id,
            shader_path,
            shader: ShaderSource::BuiltIn,
            configured: false,
            width: 0,
            height: 0,
            frame_index: 0,
            pipeline_ready: false,
            uniform_buffer_ready: false,
            bind_group_ready: false,
        }
    }

    /// Completes the one configuration transaction of this session's
    /// lifetime: fixes the render size and shader and brings all three GPU
    /// resources up together.
    pub fn configure(&mut self, width: u32, height: u32, shader: ShaderSource)
        requires
            old(self).wf(),
            !old(self).configured,
            width > 0,
            height > 0,
        ensures
            final(self).wf(),
            final(self).configured,
            final(self).width == width,
            final(self).height == height,
            final(self).shader == shader,
            final(self).name == old(self).name,
            final(self).layer_id == old(self).layer_id,
            final(self).shader_path == old(self).shader_path,
            final(self).frame_index == old(self).frame_index,
    {
        self.width = width;
        self.height = height;
        self.shader = shader;
        self.pipeline_ready = true;
        self.uniform_buffer_ready = true;
        self.bind_group_ready = true;
        self.configured = true;
    }

    /// Drops all three GPU resources together and returns the session to
    /// the unconfigured state, where a draw clears to the background color
    /// only. This is the recovery from a shader that failed to compile:
    /// fatal to this session's pipeline alone, never to the process.
    pub fn unconfigure(&mut self)
        requires
            old(self).wf(),
        ensures
            final(self).wf(),
            !final(self).configured,
            final(self).name == old(self).name,
            final(self).layer_id == old(self).layer_id,
            final(self).shader_path == old(self).shader_path,
            final(self).shader == ShaderSource::BuiltIn,
            final(self).width == old(self).width,
            final(self).height == old(self).height,
            final(self).frame_index == old(self).frame_index,
    {
        self.pipeline_ready = false;
        self.uniform_buffer_ready = false;
        self.bind_group_ready = false;
        self.configured = false;
        self.shader = ShaderSource::BuiltIn;
    }

    /// Advances the session by one draw: the frame counter moves up by
    /// exactly one (wrapping at the 32-bit width), and, when the session is
    /// configured, the block to write into the uniform buffer before the
    /// submit comes back, carrying the session's size, the new frame index
    /// and a fresh random seed. An unconfigured session draws only the
    /// background clear, so no block is returned.
    pub fn draw(&mut self) -> (frame_data: Option<FrameUniformBlock>)
        requires
            old(self).wf(),
        ensures
            final(self).wf(),
            final(self).frame_index == spec_next_frame(old(self).frame_index),
            final(self).name == old(self).name,
            final(self).layer_id == old(self).layer_id,
            final(self).shader_path == old(self).shader_path,
            final(self).shader == old(self).shader,
            final(self).configured == old(self).configured,
            final(self).width == old(self).width,
            final(self).height == old(self).height,
            match frame_data {
                Some(block) => {
                    &&& final(self).configured
                    &&& block.screen_width == final(self).width
                    &&& block.screen_height == final(self).height
                    &&& block.frame_index == final(self).frame_index
                },
                None => !final(self).configured,
            },
    {
        self.frame_index = next_frame(self.frame_index);
        if self.configured {
            Some(
                FrameUniformBlock {
                    screen_width: self.width,
                    screen_height: self.height,
                    frame_index: self.frame_index,
                    seed: fresh_seed(),
                },
            )
        } else {
            None
        }
    }
}

} // verus!
