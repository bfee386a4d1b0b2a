//! The fixed sequence of commands that draws the geometry into one
//! framebuffer, and the command buffers that hold it.

use vstd::prelude::*;
use crate::resources::{Framebuffer, Pipeline, VertexBuffer};

verus! {

/// A colour with 8 bits per channel, 255 standing for full intensity.
#[derive(Clone, Copy, PartialEq, Eq, Debug, Structural)]
pub struct ClearColor {
    pub red: u8,
    pub green: u8,
    pub blue: u8,
    pub alpha: u8,
}

/// How often a command buffer may be submitted.
#[derive(Clone, Copy, PartialEq, Eq, Debug, Structural)]
pub enum CommandBufferUsage {
    OneTimeSubmit,
    MultipleSubmit,
}

/// One recorded command.
#[derive(Clone, Copy, PartialEq, Eq, Debug, Structural)]
pub enum Command {
    BeginRenderPass { framebuffer: Framebuffer, clear: ClearColor },
    BindPipeline { pipeline: Pipeline },
    BindVertexBuffers { first_binding: u32, buffer: VertexBuffer },
    Draw { vertex_count: u32, instance_count: u32, first_vertex: u32, first_instance: u32 },
    EndRenderPass,
}

/// A submission unit: the resources it is bound to, and how often it may be
/// submitted. What it holds is `recorded_commands` of it.
#[derive(Clone, Copy, PartialEq, Eq, Debug, Structural)]
pub struct CommandBuffer {
    pub framebuffer: Framebuffer,
    pub pipeline: Pipeline,
    pub vertex_buffer: VertexBuffer,
    pub usage: CommandBufferUsage,
}

/// The colour every frame is cleared to: opaque blue.
pub open spec fn clear_color() -> ClearColor {
    ClearColor { red: 0, green: 0, blue: 255, alpha: 255 }
}

/// The commands of `buffer`, in order: begin the pass on its framebuffer with
/// the clear colour, bind its pipeline, bind its vertex buffer at slot 0,
/// draw every vertex once, end the pass.
pub open spec fn recorded_commands(buffer: CommandBuffer) -> Seq<Command> {
    seq![
        Command::BeginRenderPass { framebuffer: buffer.framebuffer, clear: clear_color() },
        Command::BindPipeline { pipeline: buffer.pipeline },
        Command::BindVertexBuffers { first_binding: 0, buffer: buffer.vertex_buffer },
        Command::Draw {
            vertex_count: buffer.vertex_buffer.vertex_count,
            instance_count: 1,
            first_vertex: 0,
            first_instance: 0,
        },
        Command::EndRenderPass,
    ]
}

/// The reusable command buffer that draws `vertex_buffer` with `pipeline`
/// into `framebuffer`.
pub open spec fn command_buffer_for(
    pipeline: Pipeline,
    framebuffer: Framebuffer,
    vertex_buffer: VertexBuffer,
) -> CommandBuffer {
    CommandBuffer { framebuffer, pipeline, vertex_buffer, usage: CommandBufferUsage::MultipleSubmit }
}

/// One command buffer per framebuffer, in the order of the framebuffers.
pub open spec fn command_buffers_for(
    pipeline: Pipeline,
    framebuffers: Seq<Framebuffer>,
    vertex_buffer: VertexBuffer,
) -> Seq<CommandBuffer> {
    Seq::new(
        framebuffers.len(),
        |i: int| command_buffer_for(pipeline, framebuffers[i], vertex_buffer),
    )
}

impl ClearColor {
    /// The colour every frame is cleared to.
    pub fn frame() -> (color: ClearColor)
        ensures
            color == clear_color(),
    {
        ClearColor { red: 0, green: 0, blue: 255, alpha: 255 }
    }
}

impl CommandBuffer {
    /// The commands to record, in order.
    pub fn commands(&self) -> (commands: Vec<Command>)
        ensures
            commands@ == recorded_commands(*self),
    {
        let mut commands: Vec<Command> = Vec::new();
        commands.push(
            Command::BeginRenderPass { framebuffer: self.framebuffer, clear: ClearColor::frame() },
        );
        commands.push(Command::BindPipeline { pipeline: self.pipeline });
        commands.push(Command::BindVertexBuffers { first_binding: 0, buffer: self.vertex_buffer });
        commands.push(
            Command::Draw {
                vertex_count: self.vertex_buffer.vertex_count,
                instance_count: 1,
                first_vertex: 0,
                first_instance: 0,
            },
        );
        commands.push(Command::EndRenderPass);
        assert(commands@ =~= recorded_commands(*self));
        commands
    }
}

/// Describes one reusable command buffer per framebuffer, in the order of
/// the framebuffers, each bound to `pipeline` and `vertex_buffer`.
pub fn get_command_buffers(
    pipeline: Pipeline,
    framebuffers: &Vec<Framebuffer>,
    vertex_buffer: VertexBuffer,
) -> (command_buffers: Vec<CommandBuffer>)
    ensures
        command_buffers@ == command_buffers_for(pipeline, framebuffers@, vertex_buffer),
{
    let mut command_buffers: Vec<CommandBuffer> = Vec::new();
    let mut i: usize = 0;
    while i < framebuffers.len()
        invariant
            i <= framebuffers@.len(),
            command_buffers@ == command_buffers_for(pipeline, framebuffers@, vertex_buffer).take(
                i as int,
            ),
        decreases framebuffers@.len() - i,
    {
        command_buffers.push(
            CommandBuffer {
                framebuffer: framebuffers[i],
                pipeline,
                vertex_buffer,
                usage: CommandBufferUsage::MultipleSubmit,
            },
        );
        assert(command_buffers@ =~= command_buffers_for(
            pipeline,
            framebuffers@,
            vertex_buffer,
        ).take(i + 1));
        i += 1;
    }
    assert(command_buffers@ =~= command_buffers_for(pipeline, framebuffers@, vertex_buffer));
    command_buffers
}

} // verus!
