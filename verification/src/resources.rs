//! Descriptors of the resources that depend on the swapchain, and the pure
//! constructions that derive one from another.
//!
//! Each descriptor holds, as plain values, what the presentation logic reads
//! of the device object it stands for. A construction is a function of its
//! arguments alone: the same inputs give the same descriptor.

use vstd::prelude::*;
use crate::shader::ShaderBinary;

verus! {

/// A size in pixels.
#[derive(Clone, Copy, PartialEq, Eq, Debug, Structural)]
pub struct Extent {
    pub width: u32,
    pub height: u32,
}

/// A colour format, by the code the graphics API gives it.
#[derive(Clone, Copy, PartialEq, Eq, Debug, Structural)]
pub struct ColorFormat {
    pub code: u32,
}

/// What happens to an attachment when a render pass begins.
#[derive(Clone, Copy, PartialEq, Eq, Debug, Structural)]
pub enum LoadOp {
    Load,
    Clear,
    DontCare,
}

/// What happens to an attachment when a render pass ends.
#[derive(Clone, Copy, PartialEq, Eq, Debug, Structural)]
pub enum StoreOp {
    Store,
    DontCare,
}

/// A render pass with a single colour attachment and no depth-stencil.
#[derive(Clone, Copy, PartialEq, Eq, Debug, Structural)]
pub struct RenderPass {
    pub format: ColorFormat,
    pub samples: u32,
    pub load: LoadOp,
    pub store: StoreOp,
}

/// The ring of presentable images, as far as the logic reads it.
#[derive(Clone, Copy, PartialEq, Eq, Debug, Structural)]
pub struct Swapchain {
    pub image_count: usize,
    pub extent: Extent,
    pub format: ColorFormat,
}

/// One image of a swapchain, addressed by its index.
#[derive(Clone, Copy, PartialEq, Eq, Debug, Structural)]
pub struct SwapchainImage {
    pub index: usize,
    pub extent: Extent,
    pub format: ColorFormat,
}

/// A render pass bound to one image.
#[derive(Clone, Copy, PartialEq, Eq, Debug, Structural)]
pub struct Framebuffer {
    pub image: SwapchainImage,
    pub render_pass: RenderPass,
}

/// The rectangle that is drawn to, in pixels from the top-left corner, and
/// the depth range, whose bounds are whole numbers.
#[derive(Clone, Copy, PartialEq, Eq, Debug, Structural)]
pub struct Viewport {
    pub x: u32,
    pub y: u32,
    pub width: u32,
    pub height: u32,
    pub min_depth: u32,
    pub max_depth: u32,
}

/// A graphics pipeline: two shader stages, the subpass it draws in, and the
/// viewport baked into it.
#[derive(Clone, Copy, PartialEq, Eq, Debug, Structural)]
pub struct Pipeline {
    pub vertex_shader: ShaderBinary,
    pub fragment_shader: ShaderBinary,
    pub render_pass: RenderPass,
    pub subpass: u32,
    pub viewport: Viewport,
}

/// The static geometry: a handle that names the buffer, and how many
/// vertices it holds.
#[derive(Clone, Copy, PartialEq, Eq, Debug, Structural)]
pub struct VertexBuffer {
    pub handle: u64,
    pub vertex_count: u32,
}

/// Why a pipeline could not be described.
#[derive(Clone, Copy, PartialEq, Eq, Debug, Structural)]
pub enum ConstructionError {
    /// The vertex shader binary is not a whole number of words.
    MisalignedVertexShader,
    /// The fragment shader binary is not a whole number of words.
    MisalignedFragmentShader,
}

/// The render pass for images of `format`: the attachment is cleared when
/// the pass begins, stored when it ends, and sampled once.
pub open spec fn render_pass_for(format: ColorFormat) -> RenderPass {
    RenderPass { format, samples: 1, load: LoadOp::Clear, store: StoreOp::Store }
}

/// Image `index` of `swapchain`.
pub open spec fn image_of(swapchain: Swapchain, index: int) -> SwapchainImage {
    SwapchainImage { index: index as usize, extent: swapchain.extent, format: swapchain.format }
}

/// The images of `swapchain`, in index order.
pub open spec fn images_of(swapchain: Swapchain) -> Seq<SwapchainImage> {
    Seq::new(swapchain.image_count as nat, |i: int| image_of(swapchain, i))
}

/// One framebuffer per image, each binding `render_pass` to its image.
pub open spec fn framebuffers_for(images: Seq<SwapchainImage>, render_pass: RenderPass) -> Seq<
    Framebuffer,
> {
    Seq::new(images.len(), |i: int| Framebuffer { image: images[i], render_pass })
}

/// The viewport that covers a surface of `extent`, with the unit depth range.
pub open spec fn viewport_covering(extent: Extent) -> Viewport {
    Viewport {
        x: 0,
        y: 0,
        width: extent.width,
        height: extent.height,
        min_depth: 0,
        max_depth: 1,
    }
}

/// The pipeline that draws in the first subpass of `render_pass`.
pub open spec fn pipeline_for(
    vertex_shader: ShaderBinary,
    fragment_shader: ShaderBinary,
    render_pass: RenderPass,
    viewport: Viewport,
) -> Pipeline {
    Pipeline { vertex_shader, fragment_shader, render_pass, subpass: 0, viewport }
}

/// What `get_pipeline` answers.
pub open spec fn pipeline_result(
    vertex_shader: ShaderBinary,
    fragment_shader: ShaderBinary,
    render_pass: RenderPass,
    viewport: Viewport,
) -> Result<Pipeline, ConstructionError> {
    if !vertex_shader.valid() {
        Err(ConstructionError::MisalignedVertexShader)
    } else if !fragment_shader.valid() {
        Err(ConstructionError::MisalignedFragmentShader)
    } else {
        Ok(pipeline_for(vertex_shader, fragment_shader, render_pass, viewport))
    }
}

impl Swapchain {
    /// The swapchain that replaces `self` on a surface of `extent`: every
    /// other creation parameter is inherited, and the presentation engine
    /// says how many images it has.
    pub open spec fn recreated(self, image_count: usize, extent: Extent) -> Swapchain {
        Swapchain { image_count, extent, format: self.format }
    }

    /// Describes the swapchain that replaces this one.
    pub fn recreate(&self, image_count: usize, extent: Extent) -> (next: Swapchain)
        ensures
            next == self.recreated(image_count, extent),
    {
        Swapchain { image_count, extent, format: self.format }
    }

    /// The image set, in index order.
    pub fn images(&self) -> (images: Vec<SwapchainImage>)
        ensures
            images@ == images_of(*self),
    {
        let mut images: Vec<SwapchainImage> = Vec::new();
        let mut index: usize = 0;
        while index < self.image_count
            invariant
                index <= self.image_count,
                images@ == images_of(*self).take(index as int),
            decreases self.image_count - index,
        {
            images.push(SwapchainImage { index, extent: self.extent, format: self.format });
            assert(images@ =~= images_of(*self).take(index + 1));
            index += 1;
        }
        assert(images@ =~= images_of(*self));
        images
    }
}

impl Viewport {
    /// The viewport that covers a surface of `extent`.
    pub fn covering(extent: Extent) -> (viewport: Viewport)
        ensures
            viewport == viewport_covering(extent),
    {
        Viewport {
            x: 0,
            y: 0,
            width: extent.width,
            height: extent.height,
            min_depth: 0,
            max_depth: 1,
        }
    }

    /// The size of the rectangle.
    pub open spec fn size(self) -> Extent {
        Extent { width: self.width, height: self.height }
    }

    /// The size of the rectangle.
    pub fn extent(&self) -> (extent: Extent)
        ensures
            extent == self.size(),
    {
        Extent { width: self.width, height: self.height }
    }
}

/// Describes the render pass for images of `format`.
pub fn get_render_pass(format: ColorFormat) -> (render_pass: RenderPass)
    ensures
        render_pass == render_pass_for(format),
{
    RenderPass { format, samples: 1, load: LoadOp::Clear, store: StoreOp::Store }
}

/// Describes one framebuffer per image, in the order of the images.
pub fn get_framebuffers(images: &[SwapchainImage], render_pass: RenderPass) -> (framebuffers: Vec<
    Framebuffer,
>)
    ensures
        framebuffers@ == framebuffers_for(images@, render_pass),
{
    let mut framebuffers: Vec<Framebuffer> = Vec::new();
    let mut i: usize = 0;
    while i < images.len()
        invariant
            i <= images@.len(),
            framebuffers@ == framebuffers_for(images@, render_pass).take(i as int),
        decreases images@.len() - i,
    {
        framebuffers.push(Framebuffer { image: images[i], render_pass });
        assert(framebuffers@ =~= framebuffers_for(images@, render_pass).take(i + 1));
        i += 1;
    }
    assert(framebuffers@ =~= framebuffers_for(images@, render_pass));
    framebuffers
}

/// Describes the pipeline built from the two shaders, or says which of them
/// is not a whole number of words. The vertex shader is looked at first.
pub fn get_pipeline(
    vertex_shader: ShaderBinary,
    fragment_shader: ShaderBinary,
    render_pass: RenderPass,
    viewport: Viewport,
) -> (result: Result<Pipeline, ConstructionError>)
    ensures
        result == pipeline_result(vertex_shader, fragment_shader, render_pass, viewport),
{
    if !vertex_shader.is_valid() {
        Err(ConstructionError::MisalignedVertexShader)
    } else if !fragment_shader.is_valid() {
        Err(ConstructionError::MisalignedFragmentShader)
    } else {
        Ok(Pipeline { vertex_shader, fragment_shader, render_pass, subpass: 0, viewport })
    }
}

} // verus!
