//! The set of resources that one presentation loop owns, each class of them
//! tagged with the generation it was built in.
//!
//! A generation is the number of swapchain replacements made so far. The
//! swapchain and the framebuffers are always of the newest generation. The
//! pipeline and the command buffers are rebuilt only when the surface was
//! resized, so they may be older; the command buffers carry the generations
//! of the framebuffers and of the pipeline they were recorded against.

use vstd::prelude::*;
use crate::commands::{command_buffer_for, command_buffers_for, get_command_buffers, CommandBuffer};
use crate::resources::{
    framebuffers_for,
    get_framebuffers,
    get_pipeline,
    get_render_pass,
    images_of,
    pipeline_for,
    render_pass_for,
    viewport_covering,
    ConstructionError,
    Extent,
    Framebuffer,
    Pipeline,
    RenderPass,
    Swapchain,
    SwapchainImage,
    VertexBuffer,
    Viewport,
};
use crate::shader::ShaderBinary;

verus! {

/// The resources of one presentation loop.
#[derive(Debug)]
pub struct ResourceSet {
    swapchain: Swapchain,
    render_pass: RenderPass,
    framebuffers: Vec<Framebuffer>,
    viewport: Viewport,
    pipeline: Pipeline,
    command_buffers: Vec<CommandBuffer>,
    vertex_buffer: VertexBuffer,
    framebuffer_generation: u64,
    pipeline_generation: u64,
    recorded_framebuffers: u64,
    recorded_pipeline: u64,
}

/// A resource set as a mathematical value.
pub struct ResourceSetView {
    pub swapchain: Swapchain,
    pub render_pass: RenderPass,
    pub framebuffers: Seq<Framebuffer>,
    pub viewport: Viewport,
    pub pipeline: Pipeline,
    pub command_buffers: Seq<CommandBuffer>,
    pub vertex_buffer: VertexBuffer,
    /// The generation of the swapchain and of the framebuffers.
    pub framebuffer_generation: nat,
    /// The generation the pipeline was built in.
    pub pipeline_generation: nat,
    /// The framebuffer generation the command buffers were recorded against.
    pub recorded_framebuffers: nat,
    /// The pipeline generation the command buffers were recorded against.
    pub recorded_pipeline: nat,
}

impl ResourceSetView {
    /// The set built at start-up, everything of generation 0.
    pub open spec fn initial(
        swapchain: Swapchain,
        vertex_shader: ShaderBinary,
        fragment_shader: ShaderBinary,
        vertex_buffer: VertexBuffer,
    ) -> ResourceSetView {
        let render_pass = render_pass_for(swapchain.format);
        let framebuffers = framebuffers_for(images_of(swapchain), render_pass);
        let viewport = viewport_covering(swapchain.extent);
        let pipeline = pipeline_for(vertex_shader, fragment_shader, render_pass, viewport);
        ResourceSetView {
            swapchain,
            render_pass,
            framebuffers,
            viewport,
            pipeline,
            command_buffers: command_buffers_for(pipeline, framebuffers, vertex_buffer),
            vertex_buffer,
            framebuffer_generation: 0,
            pipeline_generation: 0,
            recorded_framebuffers: 0,
            recorded_pipeline: 0,
        }
    }

    /// The framebuffer that command buffer `index` was recorded against: at
    /// the last full rebuild the images had the extent of the viewport.
    pub open spec fn recorded_framebuffer(self, index: int) -> Framebuffer {
        Framebuffer {
            image: SwapchainImage {
                index: index as usize,
                extent: self.viewport.size(),
                format: self.swapchain.format,
            },
            render_pass: self.render_pass,
        }
    }

    /// What holds of every resource set, whatever was done to it.
    pub open spec fn wf(self) -> bool {
        &&& self.render_pass == render_pass_for(self.swapchain.format)
        &&& self.framebuffers == framebuffers_for(images_of(self.swapchain), self.render_pass)
        &&& self.pipeline.vertex_shader.valid()
        &&& self.pipeline.fragment_shader.valid()
        &&& self.pipeline == pipeline_for(
            self.pipeline.vertex_shader,
            self.pipeline.fragment_shader,
            self.render_pass,
            self.viewport,
        )
        &&& self.viewport == viewport_covering(self.viewport.size())
        &&& self.command_buffers.len() <= usize::MAX
        &&& forall|i: int|
            0 <= i < self.command_buffers.len() ==> #[trigger] self.command_buffers[i]
                == command_buffer_for(
                self.pipeline,
                self.recorded_framebuffer(i),
                self.vertex_buffer,
            )
        &&& self.is_current() ==> self.command_buffers == command_buffers_for(
            self.pipeline,
            self.framebuffers,
            self.vertex_buffer,
        )
        &&& self.recorded_pipeline == self.pipeline_generation
        &&& self.recorded_framebuffers == self.pipeline_generation
        &&& self.pipeline_generation <= self.framebuffer_generation
    }

    /// The command buffers were recorded against the framebuffers and the
    /// pipeline that are live now.
    pub open spec fn is_current(self) -> bool {
        &&& self.recorded_framebuffers == self.framebuffer_generation
        &&& self.recorded_pipeline == self.pipeline_generation
    }

    /// The set after the swapchain was replaced by one of `image_count`
    /// images on a surface of `extent`. The framebuffers are rebuilt in any
    /// case. If the surface was `resized`, the viewport, the pipeline and the
    /// command buffers are rebuilt as well; if not, they stay as they are.
    pub open spec fn recreated(self, image_count: usize, extent: Extent, resized: bool)
        -> ResourceSetView {
        let swapchain = self.swapchain.recreated(image_count, extent);
        let generation = self.framebuffer_generation + 1;
        let framebuffers = framebuffers_for(images_of(swapchain), self.render_pass);
        if resized {
            let viewport = viewport_covering(extent);
            let pipeline = pipeline_for(
                self.pipeline.vertex_shader,
                self.pipeline.fragment_shader,
                self.render_pass,
                viewport,
            );
            ResourceSetView {
                swapchain,
                framebuffers,
                viewport,
                pipeline,
                command_buffers: command_buffers_for(pipeline, framebuffers, self.vertex_buffer),
                framebuffer_generation: generation,
                pipeline_generation: generation,
                recorded_framebuffers: generation,
                recorded_pipeline: generation,
                ..self
            }
        } else {
            ResourceSetView { swapchain, framebuffers, framebuffer_generation: generation, ..self }
        }
    }

    /// Two sets hold the same resources, whatever their generations.
    pub open spec fn equivalent(self, other: ResourceSetView) -> bool {
        &&& self.swapchain == other.swapchain
        &&& self.render_pass == other.render_pass
        &&& self.framebuffers == other.framebuffers
        &&& self.viewport == other.viewport
        &&& self.pipeline == other.pipeline
        &&& self.command_buffers == other.command_buffers
        &&& self.vertex_buffer == other.vertex_buffer
    }
}

impl View for ResourceSet {
    type V = ResourceSetView;

    closed spec fn view(&self) -> ResourceSetView {
        ResourceSetView {
            swapchain: self.swapchain,
            render_pass: self.render_pass,
            framebuffers: self.framebuffers@,
            viewport: self.viewport,
            pipeline: self.pipeline,
            command_buffers: self.command_buffers@,
            vertex_buffer: self.vertex_buffer,
            framebuffer_generation: self.framebuffer_generation as nat,
            pipeline_generation: self.pipeline_generation as nat,
            recorded_framebuffers: self.recorded_framebuffers as nat,
            recorded_pipeline: self.recorded_pipeline as nat,
        }
    }
}

impl ResourceSet {
    /// Builds the set for a fresh swapchain, in dependency order: render
    /// pass, framebuffers, viewport, pipeline, command buffers. Fails if a
    /// shader binary is not a whole number of words, the vertex shader being
    /// looked at first.
    pub fn new(
        swapchain: Swapchain,
        vertex_shader: ShaderBinary,
        fragment_shader: ShaderBinary,
        vertex_buffer: VertexBuffer,
    ) -> (result: Result<ResourceSet, ConstructionError>)
        ensures
            result is Ok <==> vertex_shader.valid() && fragment_shader.valid(),
            result matches Ok(set) ==> set@ == ResourceSetView::initial(
                swapchain,
                vertex_shader,
                fragment_shader,
                vertex_buffer,
            ) && set@.wf() && set@.is_current(),
            result matches Err(error) ==> error == (if !vertex_shader.valid() {
                ConstructionError::MisalignedVertexShader
            } else {
                ConstructionError::MisalignedFragmentShader
            }),
    {
        let render_pass = get_render_pass(swapchain.format);
        let images = swapchain.images();
        let framebuffers = get_framebuffers(images.as_slice(), render_pass);
        let viewport = Viewport::covering(swapchain.extent);
        match get_pipeline(vertex_shader, fragment_shader, render_pass, viewport) {
            Err(error) => Err(error),
            Ok(pipeline) => {
                let command_buffers = get_command_buffers(pipeline, &framebuffers, vertex_buffer);
                proof {
                    lemma_initial_wf(swapchain, vertex_shader, fragment_shader, vertex_buffer);
                }
                Ok(
                    ResourceSet {
                        swapchain,
                        render_pass,
                        framebuffers,
                        viewport,
                        pipeline,
                        command_buffers,
                        vertex_buffer,
                        framebuffer_generation: 0,
                        pipeline_generation: 0,
                        recorded_framebuffers: 0,
                        recorded_pipeline: 0,
                    },
                )
            },
        }
    }

    /// Takes over a replaced swapchain of `image_count` images on a surface
    /// of `extent`. The framebuffers are rebuilt in any case; the viewport,
    /// the pipeline and the command buffers only if the surface was
    /// `resized`. The generation counter must have room for one more.
    pub fn recreate(&mut self, image_count: usize, extent: Extent, resized: bool)
        requires
            old(self)@.wf(),
            old(self)@.framebuffer_generation < u64::MAX,
        ensures
            final(self)@ == old(self)@.recreated(image_count, extent, resized),
            final(self)@.wf(),
            final(self)@.framebuffers.len() == image_count,
    {
        proof {
            lemma_recreated_wf(self@, image_count, extent, resized);
        }
        let swapchain = self.swapchain.recreate(image_count, extent);
        let images = swapchain.images();
        let framebuffers = get_framebuffers(images.as_slice(), self.render_pass);
        let generation: u64 = self.framebuffer_generation + 1;
        if resized {
            let viewport = Viewport::covering(extent);
            let rebuilt = get_pipeline(
                self.pipeline.vertex_shader,
                self.pipeline.fragment_shader,
                self.render_pass,
                viewport,
            );
            if let Ok(pipeline) = rebuilt {
                self.command_buffers = get_command_buffers(
                    pipeline,
                    &framebuffers,
                    self.vertex_buffer,
                );
                self.viewport = viewport;
                self.pipeline = pipeline;
                self.pipeline_generation = generation;
                self.recorded_framebuffers = generation;
                self.recorded_pipeline = generation;
            }
        }
        self.swapchain = swapchain;
        self.framebuffers = framebuffers;
        self.framebuffer_generation = generation;
    }

    /// The live swapchain.
    pub fn swapchain(&self) -> (swapchain: Swapchain)
        ensures
            swapchain == self@.swapchain,
    {
        self.swapchain
    }

    /// The render pass, built once for the swapchain's format.
    pub fn render_pass(&self) -> (render_pass: RenderPass)
        ensures
            render_pass == self@.render_pass,
    {
        self.render_pass
    }

    /// The live framebuffers, one per swapchain image.
    pub fn framebuffers(&self) -> (framebuffers: &Vec<Framebuffer>)
        ensures
            framebuffers@ == self@.framebuffers,
    {
        &self.framebuffers
    }

    /// The viewport the live pipeline was built with.
    pub fn viewport(&self) -> (viewport: Viewport)
        ensures
            viewport == self@.viewport,
    {
        self.viewport
    }

    /// The live pipeline.
    pub fn pipeline(&self) -> (pipeline: Pipeline)
        ensures
            pipeline == self@.pipeline,
    {
        self.pipeline
    }

    /// The command buffers, as last recorded.
    pub fn command_buffers(&self) -> (command_buffers: &Vec<CommandBuffer>)
        ensures
            command_buffers@ == self@.command_buffers,
    {
        &self.command_buffers
    }

    /// The vertex buffer, the same for the whole life of the set.
    pub fn vertex_buffer(&self) -> (vertex_buffer: VertexBuffer)
        ensures
            vertex_buffer == self@.vertex_buffer,
    {
        self.vertex_buffer
    }

    /// The generation of the swapchain and of the framebuffers.
    pub fn framebuffer_generation(&self) -> (generation: u64)
        ensures
            generation == self@.framebuffer_generation,
    {
        self.framebuffer_generation
    }

    /// The generation the pipeline was built in.
    pub fn pipeline_generation(&self) -> (generation: u64)
        ensures
            generation == self@.pipeline_generation,
    {
        self.pipeline_generation
    }

    /// The framebuffer generation the command buffers were recorded against.
    pub fn recorded_framebuffers(&self) -> (generation: u64)
        ensures
            generation == self@.recorded_framebuffers,
    {
        self.recorded_framebuffers
    }

    /// The pipeline generation the command buffers were recorded against.
    pub fn recorded_pipeline(&self) -> (generation: u64)
        ensures
            generation == self@.recorded_pipeline,
    {
        self.recorded_pipeline
    }

    /// Tells whether the command buffers were recorded against the
    /// framebuffers and the pipeline that are live now.
    pub fn is_current(&self) -> (current: bool)
        ensures
            current == self@.is_current(),
    {
        self.recorded_framebuffers == self.framebuffer_generation && self.recorded_pipeline
            == self.pipeline_generation
    }
}

/// After start-up the set is well formed and its command buffers are current.
pub proof fn lemma_initial_wf(
    swapchain: Swapchain,
    vertex_shader: ShaderBinary,
    fragment_shader: ShaderBinary,
    vertex_buffer: VertexBuffer,
)
    requires
        vertex_shader.valid(),
        fragment_shader.valid(),
    ensures
        ResourceSetView::initial(swapchain, vertex_shader, fragment_shader, vertex_buffer).wf(),
        ResourceSetView::initial(
            swapchain,
            vertex_shader,
            fragment_shader,
            vertex_buffer,
        ).is_current(),
{
}

/// Replacing the swapchain keeps the set well formed.
pub proof fn lemma_recreated_wf(
    set: ResourceSetView,
    image_count: usize,
    extent: Extent,
    resized: bool,
)
    requires
        set.wf(),
    ensures
        set.recreated(image_count, extent, resized).wf(),
{
}

/// There is one framebuffer per swapchain image, and framebuffer `i` binds
/// the render pass to image `i`.
pub proof fn lemma_framebuffer_per_image(set: ResourceSetView)
    requires
        set.wf(),
    ensures
        set.framebuffers.len() == set.swapchain.image_count,
        forall|i: int|
            0 <= i < set.framebuffers.len() ==> #[trigger] set.framebuffers[i] == (Framebuffer {
                image: SwapchainImage {
                    index: i as usize,
                    extent: set.swapchain.extent,
                    format: set.swapchain.format,
                },
                render_pass: set.render_pass,
            }),
{
}

/// Replacing the swapchain a second time, with nothing changed on the
/// surface in between, gives the resources that the first replacement gave:
/// no count grows, and only the framebuffer generation moves on.
pub proof fn lemma_recreate_idempotent(
    set: ResourceSetView,
    image_count: usize,
    extent: Extent,
    resized: bool,
)
    ensures
        set.recreated(image_count, extent, resized).recreated(image_count, extent, false).equivalent(
            set.recreated(image_count, extent, resized),
        ),
        set.recreated(image_count, extent, resized).recreated(
            image_count,
            extent,
            false,
        ).framebuffer_generation == set.framebuffer_generation + 2,
{
}

/// A replacement after a resize rebuilds everything that depends on the
/// extent: afterwards the command buffers are current, and the viewport,
/// every framebuffer and every command buffer have the new extent.
pub proof fn lemma_resize_rebuilds_all(set: ResourceSetView, image_count: usize, extent: Extent)
    requires
        set.wf(),
    ensures
        ({
            let next = set.recreated(image_count, extent, true);
            &&& next.is_current()
            &&& next.viewport.size() == extent
            &&& next.pipeline.viewport == next.viewport
            &&& next.command_buffers.len() == image_count
            &&& next.vertex_buffer == set.vertex_buffer
            &&& forall|i: int|
                0 <= i < image_count ==> (#[trigger] next.framebuffers[i]).image.extent == extent
            &&& forall|i: int|
                0 <= i < image_count ==> {
                    &&& (#[trigger] next.command_buffers[i]).framebuffer == next.framebuffers[i]
                    &&& next.command_buffers[i].pipeline == next.pipeline
                    &&& next.command_buffers[i].vertex_buffer == set.vertex_buffer
                }
        }),
{
}

/// A replacement without a resize leaves the viewport, the pipeline and the
/// command buffers as they were, so the command buffers are no longer
/// recorded against the live framebuffers.
pub proof fn lemma_stale_rebuild_keeps_pipeline(
    set: ResourceSetView,
    image_count: usize,
    extent: Extent,
)
    requires
        set.wf(),
    ensures
        ({
            let next = set.recreated(image_count, extent, false);
            &&& next.viewport == set.viewport
            &&& next.pipeline == set.pipeline
            &&& next.command_buffers == set.command_buffers
            &&& next.pipeline_generation == set.pipeline_generation
            &&& next.recorded_pipeline == next.pipeline_generation
            &&& !next.is_current()
        }),
{
}

} // verus!
