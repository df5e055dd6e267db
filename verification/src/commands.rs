//! Per-frame command recording. The recorded sequences are deterministic and
//! re-derivable: one command buffer per swapchain image, and given the image
//! index, the extent, and the index count of the loaded geometry, each is
//! always begin render pass (render area anchored at the origin, one
//! opaque-black clear value), bind pipeline, bind vertex buffer, bind index
//! buffer, draw indexed, end.

use vstd::prelude::*;
use crate::swapchain::Extent2D;

verus! {

/// The bit pattern of the float value zero.
pub const FLOAT_BITS_ZERO: u32 = 0;

/// The bit pattern of the float value one.
pub const FLOAT_BITS_ONE: u32 = 0x3f80_0000;

/// A clear color, each channel carried as the bit pattern of its float
/// value.
#[derive(Clone, Copy, PartialEq, Eq, Structural, Debug)]
pub struct ClearColor {
    pub red_bits: u32,
    pub green_bits: u32,
    pub blue_bits: u32,
    pub alpha_bits: u32,
}

/// The one clear value every render pass begins with: opaque black.
pub open spec fn spec_opaque_black() -> ClearColor {
    ClearColor {
        red_bits: FLOAT_BITS_ZERO,
        green_bits: FLOAT_BITS_ZERO,
        blue_bits: FLOAT_BITS_ZERO,
        alpha_bits: FLOAT_BITS_ONE,
    }
}

/// Build the opaque-black clear value.
pub fn opaque_black() -> (c: ClearColor)
    ensures
        c == spec_opaque_black(),
{
    ClearColor {
        red_bits: FLOAT_BITS_ZERO,
        green_bits: FLOAT_BITS_ZERO,
        blue_bits: FLOAT_BITS_ZERO,
        alpha_bits: FLOAT_BITS_ONE,
    }
}

/// One recorded command of a per-frame command buffer.
#[derive(Clone, Copy, PartialEq, Eq, Structural, Debug)]
pub enum DrawCommand {
    /// Begin the render pass on the framebuffer of the acquired image, with
    /// a render area anchored at the given origin and covering the given
    /// extent, cleared with the single given clear value.
    BeginRenderPass {
        framebuffer: usize,
        origin_x: u32,
        origin_y: u32,
        extent: Extent2D,
        clear: ClearColor,
    },
    /// Bind the graphics pipeline.
    BindPipeline,
    /// Bind the device-resident vertex buffer.
    BindVertexBuffer,
    /// Bind the device-resident index buffer.
    BindIndexBuffer,
    /// Draw one instance of the indexed geometry.
    DrawIndexed { index_count: u32 },
    /// End the render pass.
    EndRenderPass,
}

/// The one command sequence a frame ever records, as a function of the
/// acquired image index, the swapchain extent, and the geometry's index
/// count: the render area starts at the origin and covers the whole extent,
/// and the single clear value is opaque black.
pub open spec fn frame_command_seq(image_index: usize, extent: Extent2D, index_count: u32) -> Seq<
    DrawCommand,
> {
    seq![
        (DrawCommand::BeginRenderPass {
            framebuffer: image_index,
            origin_x: 0,
            origin_y: 0,
            extent,
            clear: spec_opaque_black(),
        }),
        DrawCommand::BindPipeline,
        DrawCommand::BindVertexBuffer,
        DrawCommand::BindIndexBuffer,
        (DrawCommand::DrawIndexed { index_count }),
        DrawCommand::EndRenderPass,
    ]
}

/// Record the command buffer for one frame: exactly the deterministic
/// sequence `frame_command_seq` describes, in that order.
pub fn record_frame_commands(image_index: usize, extent: Extent2D, index_count: u32) -> (cmds: Vec<
    DrawCommand,
>)
    ensures
        cmds@ == frame_command_seq(image_index, extent, index_count),
{
    let mut cmds: Vec<DrawCommand> = Vec::new();
    cmds.push(
        DrawCommand::BeginRenderPass {
            framebuffer: image_index,
            origin_x: 0,
            origin_y: 0,
            extent,
            clear: opaque_black(),
        },
    );
    cmds.push(DrawCommand::BindPipeline);
    cmds.push(DrawCommand::BindVertexBuffer);
    cmds.push(DrawCommand::BindIndexBuffer);
    cmds.push(DrawCommand::DrawIndexed { index_count });
    cmds.push(DrawCommand::EndRenderPass);
    proof {
        assert(cmds@ =~= frame_command_seq(image_index, extent, index_count));
    }
    cmds
}

/// Record the command buffers for the whole chain: one per swapchain image,
/// the buffer of image `i` holding exactly `frame_command_seq` for image
/// `i`.
pub fn record_all_frame_commands(image_count: usize, extent: Extent2D, index_count: u32) -> (buffers:
    Vec<Vec<DrawCommand>>)
    ensures
        buffers@.len() == image_count,
        forall|i: int|
            0 <= i < image_count ==> (#[trigger] buffers@[i])@ == frame_command_seq(
                i as usize,
                extent,
                index_count,
            ),
{
    let mut buffers: Vec<Vec<DrawCommand>> = Vec::new();
    let mut i: usize = 0;
    while i < image_count
        invariant
            i <= image_count,
            buffers@.len() == i,
            forall|j: int|
                0 <= j < i ==> (#[trigger] buffers@[j])@ == frame_command_seq(
                    j as usize,
                    extent,
                    index_count,
                ),
        decreases image_count - i,
    {
        buffers.push(record_frame_commands(i, extent, index_count));
        i = i + 1;
    }
    buffers
}

} // verus!
