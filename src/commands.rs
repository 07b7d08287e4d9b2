use vstd::prelude::*;

verus! {

/// The number of vertices in the triangle's vertex buffer.
pub const TRIANGLE_VERTEX_COUNT: u32 = 3;

/// One step of the primary command buffer that a frame records.
#[derive(Clone, Copy, Debug, PartialEq, Eq, Structural)]
pub enum DrawCommand {
    /// Begin the render pass on the framebuffer of the given swapchain image,
    /// clearing its colour attachment to opaque black.
    BeginRenderPass { framebuffer: usize },
    /// Draw with the fixed pipeline from the triangle's vertex buffer; `indexed`
    /// says whether an index buffer is bound, and no per-draw data is bound.
    Draw { vertex_count: u32, instance_count: u32, indexed: bool },
    /// End the render pass.
    EndRenderPass,
}

/// What a frame records for the acquired image: one render pass on its
/// framebuffer holding a single non-indexed draw of the three vertices.
pub open spec fn frame_commands_spec(image_index: usize) -> Seq<DrawCommand> {
    seq![
        DrawCommand::BeginRenderPass { framebuffer: image_index },
        DrawCommand::Draw { vertex_count: 3, instance_count: 1, indexed: false },
        DrawCommand::EndRenderPass,
    ]
}

/// The number of draw commands in a recorded sequence.
pub open spec fn draw_count(cmds: Seq<DrawCommand>) -> nat
    decreases cmds.len(),
{
    if cmds.len() == 0 {
        0
    } else {
        draw_count(cmds.drop_last()) + if cmds.last() is Draw { 1nat } else { 0nat }
    }
}

/// Records the commands of one frame for the swapchain image `image_index`.
pub fn record_frame_commands(image_index: usize) -> (cmds: Vec<DrawCommand>)
    ensures
        cmds@ == frame_commands_spec(image_index),
        draw_count(cmds@) == 1,
{
    let cmds = vec![
        DrawCommand::BeginRenderPass { framebuffer: image_index },
        DrawCommand::Draw {
            vertex_count: TRIANGLE_VERTEX_COUNT,
            instance_count: 1,
            indexed: false,
        },
        DrawCommand::EndRenderPass,
    ];
    proof {
        assert(cmds@ =~= frame_commands_spec(image_index));
        let s = cmds@;
        assert(s.drop_last() =~= s.subrange(0, 2));
        assert(s.drop_last().drop_last() =~= s.subrange(0, 1));
        assert(s.drop_last().drop_last().drop_last() =~= Seq::<DrawCommand>::empty());
        reveal_with_fuel(draw_count, 4);
    }
    cmds
}

} // verus!
