use gpu_core::pipeline::{
    build_compute_pipeline, build_graphics_pipeline, Attachment, LoadOp, PipelineError, RenderPass,
    ShaderInterface, StoreOp, VertexAttr,
};
use gpu_core::resource::{bind_descriptor_set, image_byte_len, Binding, Format, ResourceError, ResourceKind};
use gpu_core::swapchain::{
    choose_swapchain, window_size_dependent_setup, CompositeAlpha, Extent, PresentMode, SurfaceCaps,
    SwapchainError, Viewport,
};

#[test]
fn image_sizes() {
    assert_eq!(image_byte_len(1024, 1024, Format::R8G8B8A8Unorm), Ok(4 * 1024 * 1024));
    assert_eq!(image_byte_len(3, 5, Format::R8Unorm), Ok(15));
    assert_eq!(image_byte_len(3, 5, Format::R32G32B32A32Sfloat), Ok(240));
    assert_eq!(image_byte_len(0, 5, Format::R32Uint), Ok(0));
    assert_eq!(
        image_byte_len(u32::MAX, u32::MAX, Format::R32G32B32A32Sfloat),
        Err(ResourceError::ResourceAllocationFailed)
    );
}

#[test]
fn descriptor_binding_checks_layout() {
    let declared = vec![ResourceKind::StorageBuffer, ResourceKind::StorageImage];
    let good = vec![
        Binding { kind: ResourceKind::StorageBuffer, resource: 0 },
        Binding { kind: ResourceKind::StorageImage, resource: 3 },
    ];
    let set = bind_descriptor_set(&declared, 0, good.clone()).unwrap();
    assert_eq!(set.bindings, good);
    let swapped = vec![good[1], good[0]];
    assert_eq!(bind_descriptor_set(&declared, 0, swapped).err(), Some(ResourceError::DescriptorLayoutMismatch));
    assert_eq!(bind_descriptor_set(&declared, 0, vec![good[0]]).err(), Some(ResourceError::DescriptorLayoutMismatch));
}

fn colour_pass() -> RenderPass {
    RenderPass {
        attachments: vec![Attachment {
            format: Format::B8G8R8A8Unorm,
            load: LoadOp::Clear,
            store: StoreOp::Store,
            samples: 1,
        }],
        subpasses: vec![vec![0]],
    }
}

fn position() -> VertexAttr {
    VertexAttr { location: 0, format: Format::R32Uint }
}

fn vertex_shader() -> ShaderInterface {
    ShaderInterface { inputs: vec![position()], outputs: vec![], sets: vec![] }
}

fn fragment_shader(outputs: usize) -> ShaderInterface {
    ShaderInterface { inputs: vec![], outputs: vec![Format::R8G8B8A8Unorm; outputs], sets: vec![] }
}

#[test]
fn graphics_pipeline_builds_when_compatible() {
    let p = build_graphics_pipeline(vec![position()], vertex_shader(), &fragment_shader(1), &colour_pass(), 0).unwrap();
    assert_eq!(p.subpass, 0);
    assert_eq!(p.color_outputs, 1);
    assert_eq!(p.vertex_layout, vec![position()]);
}

#[test]
fn graphics_pipeline_incompatibilities() {
    assert_eq!(
        build_graphics_pipeline(vec![position()], vertex_shader(), &fragment_shader(1), &colour_pass(), 1).err(),
        Some(PipelineError::NoSuchSubpass)
    );
    let other = VertexAttr { location: 1, format: Format::R32Uint };
    assert_eq!(
        build_graphics_pipeline(vec![other], vertex_shader(), &fragment_shader(1), &colour_pass(), 0).err(),
        Some(PipelineError::VertexInputUnmatched { input: 0 })
    );
    assert_eq!(
        build_graphics_pipeline(vec![position()], vertex_shader(), &fragment_shader(2), &colour_pass(), 0).err(),
        Some(PipelineError::ColorOutputMismatch)
    );
}

#[test]
fn compute_pipeline_binds_declared_sets() {
    let cs = ShaderInterface { inputs: vec![], outputs: vec![], sets: vec![vec![ResourceKind::StorageBuffer]] };
    let p = build_compute_pipeline(cs);
    let b = Binding { kind: ResourceKind::StorageBuffer, resource: 7 };
    assert_eq!(p.bind_descriptor_set(0, vec![b]).unwrap().bindings, vec![b]);
    assert_eq!(p.bind_descriptor_set(1, vec![b]).err(), Some(ResourceError::DescriptorLayoutMismatch));
}

fn surface(extent: Option<Extent>, formats: Vec<u32>, alpha: Vec<CompositeAlpha>) -> SurfaceCaps {
    SurfaceCaps { current_extent: extent, min_image_count: 2, supported_formats: formats, supported_composite_alpha: alpha }
}

#[test]
fn swapchain_takes_first_choices_and_fifo() {
    let c = choose_swapchain(&surface(
        Some(Extent { width: 800, height: 600 }),
        vec![44, 50],
        vec![CompositeAlpha::Inherit, CompositeAlpha::Opaque],
    ))
    .unwrap();
    assert_eq!(c.extent, Extent { width: 800, height: 600 });
    assert_eq!(c.format, 44);
    assert_eq!(c.composite_alpha, CompositeAlpha::Inherit);
    assert_eq!(c.present_mode, PresentMode::Fifo);
    assert_eq!(c.image_count, 2);
    let d = choose_swapchain(&surface(None, vec![44], vec![CompositeAlpha::Opaque])).unwrap();
    assert_eq!(d.extent, Extent { width: 1280, height: 1024 });
}

#[test]
fn swapchain_errors() {
    assert_eq!(choose_swapchain(&surface(None, vec![], vec![CompositeAlpha::Opaque])), Err(SwapchainError::NoSurfaceFormat));
    assert_eq!(choose_swapchain(&surface(None, vec![44], vec![])), Err(SwapchainError::NoCompositeAlpha));
}

#[test]
fn size_dependent_setup() {
    assert!(window_size_dependent_setup(&vec![]).is_none());
    let e = Extent { width: 640, height: 480 };
    let s = window_size_dependent_setup(&vec![e, e, e]).unwrap();
    assert_eq!(s.viewport, Viewport { width: 640, height: 480 });
    assert_eq!(s.framebuffer_images, vec![0, 1, 2]);
}
