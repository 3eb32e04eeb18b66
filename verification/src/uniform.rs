//! The frame uniform protocol: the fixed-layout data block written once per
//! frame and handed to the GPU layer, plus the frame counter arithmetic and
//! the per-frame random seed.

use vstd::bytes::{spec_u32_to_le_bytes, u32_to_le_bytes};
use vstd::prelude::*;

verus! {

/// The data block a shader reads each frame: screen dimensions, a monotonic
/// frame counter, and a fresh random seed. Its byte layout is fixed (four
/// unsigned 32-bit little-endian fields, tightly packed) and must match the
/// shader author's side exactly.
#[derive(Clone, Copy, Debug, PartialEq, Eq, Structural)]
pub struct FrameUniformBlock {
    pub screen_width: u32,
    pub screen_height: u32,
    pub frame_index: u32,
    pub seed: u32,
}

/// The byte image of a frame uniform block: the four fields in declaration
/// order, each little endian, 16 bytes with no padding.
pub open spec fn spec_uniform_bytes(b: FrameUniformBlock) -> Seq<u8> {
    spec_u32_to_le_bytes(b.screen_width) + spec_u32_to_le_bytes(b.screen_height)
        + spec_u32_to_le_bytes(b.frame_index) + spec_u32_to_le_bytes(b.seed)
}

/// The frame counter after one more draw: one higher, wrapping silently at
/// the 32-bit width.
pub open spec fn spec_next_frame(frame: u32) -> u32 {
    if frame == u32::MAX {
        0u32
    } else {
        (frame + 1) as u32
    }
}

impl FrameUniformBlock {
    /// The exact bytes to write into the GPU uniform buffer.
    pub fn to_bytes(&self) -> (bytes: Vec<u8>)
        ensures
            bytes@ == spec_uniform_bytes(*self),
            bytes@.len() == 16,
    {
        let mut bytes = u32_to_le_bytes(self.screen_width);
        let mut h = u32_to_le_bytes(self.screen_height);
        let mut f = u32_to_le_bytes(self.frame_index);
        let mut s = u32_to_le_bytes(self.seed);
        bytes.append(&mut h);
        bytes.append(&mut f);
        bytes.append(&mut s);
        bytes
    }
}

/// Advances a frame counter by one draw, wrapping at the 32-bit width.
pub fn next_frame(frame: u32) -> (next: u32)
    ensures
        next == spec_next_frame(frame),
{
    frame.wrapping_add(1)
}

/// A frame counter never repeats across one draw: the next value always
/// differs from the current one, and equals the current value plus one
/// modulo the 32-bit width.
pub proof fn lemma_next_frame_steps(frame: u32)
    ensures
        spec_next_frame(frame) != frame,
        spec_next_frame(frame) == (frame + 1) % 0x1_0000_0000,
{
}

/// Relies on rand::random: a fresh sample from the thread-local generator.
/// Nothing is promised of the value; callers treat every outcome alike.
#[verifier::external_body]
pub(crate) fn fresh_seed() -> u32 {
    rand::random()
}

} // verus!
