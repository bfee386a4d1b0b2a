use presenter::commands::{
    get_command_buffers, ClearColor, Command, CommandBuffer, CommandBufferUsage,
};
use presenter::resources::{
    get_framebuffers, get_pipeline, get_render_pass, ColorFormat, ConstructionError, Extent,
    Framebuffer, LoadOp, Pipeline, RenderPass, StoreOp, Swapchain, SwapchainImage, VertexBuffer,
    Viewport,
};
use presenter::shader::{is_word_aligned, ShaderBinary, ShaderStage};

fn format() -> ColorFormat {
    ColorFormat { code: 50 }
}

fn square() -> Extent {
    Extent { width: 1024, height: 1024 }
}

fn vertex_shader() -> ShaderBinary {
    ShaderBinary { stage: ShaderStage::Vertex, byte_len: 1200 }
}

fn fragment_shader() -> ShaderBinary {
    ShaderBinary { stage: ShaderStage::Fragment, byte_len: 640 }
}

fn triangle() -> VertexBuffer {
    VertexBuffer { handle: 77, vertex_count: 3 }
}

#[test]
fn word_alignment_of_blobs() {
    assert!(is_word_aligned(&[]));
    assert!(is_word_aligned(&[3, 2, 35, 7]));
    assert!(is_word_aligned(&[0u8; 4096]));
    assert!(!is_word_aligned(&[0u8; 1]));
    assert!(!is_word_aligned(&[0u8; 6]));
    assert!(!is_word_aligned(&[0u8; 4095]));
}

#[test]
fn shader_binary_is_described_by_stage_and_length() {
    let binary = ShaderBinary::describe(ShaderStage::Fragment, &[0u8; 12]);
    assert_eq!(binary, ShaderBinary { stage: ShaderStage::Fragment, byte_len: 12 });
    assert!(binary.is_valid());
    let odd = ShaderBinary::describe(ShaderStage::Compute, &[0u8; 13]);
    assert_eq!(odd.byte_len, 13);
    assert_eq!(odd.stage, ShaderStage::Compute);
    assert!(!odd.is_valid());
}

#[test]
fn render_pass_clears_and_stores_one_sample() {
    assert_eq!(
        get_render_pass(format()),
        RenderPass { format: format(), samples: 1, load: LoadOp::Clear, store: StoreOp::Store }
    );
    assert_eq!(get_render_pass(ColorFormat { code: 37 }).format.code, 37);
}

#[test]
fn render_pass_is_a_function_of_the_format() {
    assert_eq!(get_render_pass(format()), get_render_pass(format()));
    assert_ne!(get_render_pass(format()), get_render_pass(ColorFormat { code: 44 }));
}

#[test]
fn swapchain_images_are_indexed_in_order() {
    let swapchain = Swapchain { image_count: 3, extent: square(), format: format() };
    let images = swapchain.images();
    assert_eq!(images.len(), 3);
    for (i, image) in images.iter().enumerate() {
        assert_eq!(*image, SwapchainImage { index: i, extent: square(), format: format() });
    }
    let none = Swapchain { image_count: 0, extent: square(), format: format() };
    assert!(none.images().is_empty());
}

#[test]
fn recreated_swapchain_inherits_the_format() {
    let swapchain = Swapchain { image_count: 3, extent: square(), format: format() };
    let next = swapchain.recreate(2, Extent { width: 512, height: 768 });
    assert_eq!(
        next,
        Swapchain { image_count: 2, extent: Extent { width: 512, height: 768 }, format: format() }
    );
}

#[test]
fn one_framebuffer_per_image() {
    let swapchain = Swapchain { image_count: 4, extent: square(), format: format() };
    let images = swapchain.images();
    let render_pass = get_render_pass(format());
    let framebuffers = get_framebuffers(&images, render_pass);
    assert_eq!(framebuffers.len(), 4);
    for i in 0..4 {
        assert_eq!(framebuffers[i], Framebuffer { image: images[i], render_pass });
        assert_eq!(framebuffers[i].image.index, i);
    }
    assert!(get_framebuffers(&[], render_pass).is_empty());
}

#[test]
fn viewport_covers_the_extent() {
    let viewport = Viewport::covering(Extent { width: 512, height: 768 });
    assert_eq!(
        viewport,
        Viewport { x: 0, y: 0, width: 512, height: 768, min_depth: 0, max_depth: 1 }
    );
    assert_eq!(viewport.extent(), Extent { width: 512, height: 768 });
}

#[test]
fn pipeline_bakes_in_the_viewport() {
    let render_pass = get_render_pass(format());
    let viewport = Viewport::covering(square());
    assert_eq!(
        get_pipeline(vertex_shader(), fragment_shader(), render_pass, viewport),
        Ok(Pipeline {
            vertex_shader: vertex_shader(),
            fragment_shader: fragment_shader(),
            render_pass,
            subpass: 0,
            viewport,
        })
    );
}

#[test]
fn pipeline_rejects_a_misaligned_vertex_shader() {
    let render_pass = get_render_pass(format());
    let viewport = Viewport::covering(square());
    let odd = ShaderBinary { stage: ShaderStage::Vertex, byte_len: 1201 };
    assert_eq!(
        get_pipeline(odd, fragment_shader(), render_pass, viewport),
        Err(ConstructionError::MisalignedVertexShader)
    );
    let also_odd = ShaderBinary { stage: ShaderStage::Fragment, byte_len: 3 };
    assert_eq!(
        get_pipeline(odd, also_odd, render_pass, viewport),
        Err(ConstructionError::MisalignedVertexShader)
    );
}

#[test]
fn pipeline_rejects_a_misaligned_fragment_shader() {
    let render_pass = get_render_pass(format());
    let viewport = Viewport::covering(square());
    let odd = ShaderBinary { stage: ShaderStage::Fragment, byte_len: 642 };
    assert_eq!(
        get_pipeline(vertex_shader(), odd, render_pass, viewport),
        Err(ConstructionError::MisalignedFragmentShader)
    );
}

#[test]
fn frames_are_cleared_to_opaque_blue() {
    assert_eq!(ClearColor::frame(), ClearColor { red: 0, green: 0, blue: 255, alpha: 255 });
}

#[test]
fn command_buffer_holds_the_fixed_sequence() {
    let render_pass = get_render_pass(format());
    let image = SwapchainImage { index: 1, extent: square(), format: format() };
    let framebuffer = Framebuffer { image, render_pass };
    let pipeline =
        get_pipeline(vertex_shader(), fragment_shader(), render_pass, Viewport::covering(square()))
            .unwrap();
    let buffer = CommandBuffer {
        framebuffer,
        pipeline,
        vertex_buffer: triangle(),
        usage: CommandBufferUsage::MultipleSubmit,
    };
    assert_eq!(
        buffer.commands(),
        vec![
            Command::BeginRenderPass {
                framebuffer,
                clear: ClearColor { red: 0, green: 0, blue: 255, alpha: 255 },
            },
            Command::BindPipeline { pipeline },
            Command::BindVertexBuffers { first_binding: 0, buffer: triangle() },
            Command::Draw { vertex_count: 3, instance_count: 1, first_vertex: 0, first_instance: 0 },
            Command::EndRenderPass,
        ]
    );
}

#[test]
fn draw_covers_the_whole_vertex_buffer() {
    let render_pass = get_render_pass(format());
    let image = SwapchainImage { index: 0, extent: square(), format: format() };
    let pipeline =
        get_pipeline(vertex_shader(), fragment_shader(), render_pass, Viewport::covering(square()))
            .unwrap();
    for count in [0u32, 1, 3, 65_536, u32::MAX] {
        let buffer = CommandBuffer {
            framebuffer: Framebuffer { image, render_pass },
            pipeline,
            vertex_buffer: VertexBuffer { handle: 1, vertex_count: count },
            usage: CommandBufferUsage::MultipleSubmit,
        };
        let commands = buffer.commands();
        assert_eq!(commands.len(), 5);
        assert_eq!(
            commands[3],
            Command::Draw {
                vertex_count: count,
                instance_count: 1,
                first_vertex: 0,
                first_instance: 0,
            }
        );
    }
}

#[test]
fn one_reusable_command_buffer_per_framebuffer() {
    let swapchain = Swapchain { image_count: 3, extent: square(), format: format() };
    let render_pass = get_render_pass(format());
    let framebuffers = get_framebuffers(&swapchain.images(), render_pass);
    let pipeline =
        get_pipeline(vertex_shader(), fragment_shader(), render_pass, Viewport::covering(square()))
            .unwrap();
    let buffers = get_command_buffers(pipeline, &framebuffers, triangle());
    assert_eq!(buffers.len(), 3);
    for i in 0..3 {
        assert_eq!(
            buffers[i],
            CommandBuffer {
                framebuffer: framebuffers[i],
                pipeline,
                vertex_buffer: triangle(),
                usage: CommandBufferUsage::MultipleSubmit,
            }
        );
    }
    assert!(get_command_buffers(pipeline, &Vec::new(), triangle()).is_empty());
}
