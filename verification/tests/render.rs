use sphere_scene::error::RenderError;
use sphere_scene::frame::{Event, FrameLoop, FramePlan, Step};
use sphere_scene::gpu::{
    choose_present_mode, Attribute, Blend, BufferCopy, BufferDesc, BufferUsage, Color, Compare,
    CullMode, FrontFace, PixelFormat, PresentMode, ShaderStage, TextureDesc, Topology,
    UniformBinding, DOUBLE_ONE, SINGLE_ONE,
};
use sphere_scene::icosphere::{corner, IcoSphere};
use sphere_scene::pod::Pod;
use sphere_scene::scene::{Scene, DEFAULT_INSTANCES};
use sphere_scene::surface::{SurfaceConfig, SurfacePresenter};
use sphere_scene::transform::Transform;
use sphere_scene::vertex::Vertex;

fn mesh() -> Vec<Vertex> {
    let s = IcoSphere::generate(0).unwrap();
    let pos: Vec<[u32; 3]> = (0..12).map(|i| corner(i).unwrap()).collect();
    s.vertices(&pos, &pos).unwrap()
}

fn identity() -> Transform {
    let mut cells = [0u32; 16];
    for i in 0..4 {
        cells[5 * i] = 1.0f32.to_bits();
    }
    Transform { cells }
}

fn config(width: u32, height: u32) -> SurfaceConfig {
    SurfaceConfig::new(width, height, PresentMode::Mailbox).unwrap()
}

fn start(width: u32, height: u32, retries: u32) -> FrameLoop {
    let c = config(width, height);
    let (scene, _) = Scene::new(&c, &mesh(), &identity(), DEFAULT_INSTANCES).unwrap();
    FrameLoop::new(SurfacePresenter::new(c).unwrap(), scene, retries).unwrap()
}

#[test]
fn surface_config_is_bgra_srgb() {
    let c = config(800, 600);
    assert_eq!(
        c,
        SurfaceConfig {
            width: 800,
            height: 600,
            pixel_format: PixelFormat::Bgra8UnormSrgb,
            present_mode: PresentMode::Mailbox,
        }
    );
}

#[test]
fn surface_without_size_is_refused() {
    assert_eq!(SurfaceConfig::new(0, 600, PresentMode::Fifo), Err(RenderError::EmptySurface));
    assert_eq!(SurfaceConfig::new(800, 0, PresentMode::Fifo), Err(RenderError::EmptySurface));
    assert_eq!(SurfaceConfig::new(0, 0, PresentMode::Fifo), Err(RenderError::EmptySurface));
    let broken = SurfaceConfig {
        width: 0,
        height: 1,
        pixel_format: PixelFormat::Bgra8UnormSrgb,
        present_mode: PresentMode::Fifo,
    };
    assert_eq!(SurfacePresenter::new(broken), Err(RenderError::EmptySurface));
    assert!(matches!(
        Scene::new(&broken, &mesh(), &identity(), 1),
        Err(RenderError::EmptySurface)
    ));
}

#[test]
fn present_mode_prefers_the_mailbox() {
    assert_eq!(
        choose_present_mode(&[PresentMode::Fifo, PresentMode::Mailbox, PresentMode::Immediate]),
        Some(PresentMode::Mailbox)
    );
    assert_eq!(
        choose_present_mode(&[PresentMode::Immediate, PresentMode::Fifo]),
        Some(PresentMode::Fifo)
    );
    assert_eq!(choose_present_mode(&[PresentMode::Immediate]), Some(PresentMode::Immediate));
    assert_eq!(choose_present_mode(&[]), None);
}

#[test]
fn scene_describes_every_resource() {
    let c = config(800, 600);
    let m = mesh();
    let (scene, upload) = Scene::new(&c, &m, &identity(), DEFAULT_INSTANCES).unwrap();
    assert_eq!(m.len(), 117);
    let uniform = UniformBinding { binding: 0, visibility: ShaderStage::Vertex, offset: 0, size: 64 };
    assert_eq!(scene.global_binding, uniform);
    assert_eq!(
        scene.uniform_buffer,
        BufferDesc {
            size: 64,
            usage: BufferUsage { vertex: false, uniform: true, copy_src: false, copy_dst: true },
        }
    );
    assert_eq!(
        scene.normals_fbo,
        TextureDesc { width: 800, height: 600, format: PixelFormat::Rgba32Float }
    );
    assert_eq!(
        scene.depth_texture,
        TextureDesc { width: 800, height: 600, format: PixelFormat::Depth32Float }
    );
    let vertex_buffer = BufferDesc {
        size: 117 * 24,
        usage: BufferUsage { vertex: true, uniform: false, copy_src: false, copy_dst: true },
    };
    assert_eq!(scene.icosphere.vertex_buffer, vertex_buffer);
    assert_eq!(scene.icosphere.index_buffer, None);
    assert_eq!(scene.icosphere.bind_group, None);
    assert_eq!(scene.icosphere.vertex_num, 117);
    assert_eq!(scene.instances, 10_000);
    let p = scene.icosphere.render_pipeline;
    assert_eq!(p.topology, Topology::TriangleStrip);
    assert_eq!(p.front_face, FrontFace::Ccw);
    assert_eq!(p.cull_mode, CullMode::Back);
    assert_eq!(p.color_format, PixelFormat::Bgra8UnormSrgb);
    assert_eq!(p.blend, Blend::Replace);
    assert_eq!(p.depth_format, PixelFormat::Depth32Float);
    assert!(p.depth_write);
    assert_eq!(p.depth_compare, Compare::Less);
    assert_eq!(p.stride, 24);
    assert_eq!(p.position, Attribute { offset: 0, location: 0 });
    assert_eq!(p.normal, Attribute { offset: 12, location: 1 });
    assert_eq!(p.uniform, uniform);

    let staging = BufferDesc {
        size: 117 * 24,
        usage: BufferUsage { vertex: false, uniform: false, copy_src: true, copy_dst: false },
    };
    assert_eq!(upload.staging_buffer, staging);
    assert_eq!(upload.staging_data, m.as_slice().bytes());
    assert_eq!(upload.staging_data.len(), 117 * 24);
    assert_eq!(upload.uniform_data, identity().bytes());
    assert_eq!(upload.uniform_data.len(), 64);
    assert_eq!(
        upload.copies,
        vec![BufferCopy {
            source: staging,
            source_offset: 0,
            target: vertex_buffer,
            target_offset: 0,
            size: 117 * 24,
        }]
    );
}

#[test]
fn scene_without_vertices_is_refused() {
    let c = config(800, 600);
    assert!(matches!(Scene::new(&c, &[], &identity(), 1), Err(RenderError::EmptyMesh)));
}

#[test]
fn draw_covers_all_vertices_in_every_instance() {
    let c = config(640, 480);
    let (scene, _) = Scene::new(&c, &mesh(), &identity(), 7).unwrap();
    let pass = scene.draw();
    assert_eq!(
        pass.clear_color,
        Color { r: DOUBLE_ONE, g: DOUBLE_ONE, b: DOUBLE_ONE, a: DOUBLE_ONE }
    );
    assert_eq!(f64::from_bits(pass.clear_color.r), 1.0);
    assert_eq!(f32::from_bits(pass.clear_depth), 1.0);
    assert_eq!(pass.clear_depth, SINGLE_ONE);
    assert_eq!(pass.clear_stencil, 0);
    assert_eq!(pass.depth, scene.depth_texture);
    assert_eq!(pass.pipeline, scene.icosphere.render_pipeline);
    assert_eq!(pass.bind_group_slot, 0);
    assert_eq!(pass.vertex_slot, 0);
    assert_eq!(pass.vertex_buffer, scene.icosphere.vertex_buffer);
    assert_eq!(pass.vertex_count, 117);
    assert_eq!(pass.instance_count, 7);
}

#[test]
fn scene_resize_changes_the_two_textures_only() {
    let c = config(800, 600);
    let (mut scene, _) = Scene::new(&c, &mesh(), &identity(), 1).unwrap();
    let before = scene;
    assert_eq!(scene.resize(1920, 1080), Ok(()));
    assert_eq!(
        scene.depth_texture,
        TextureDesc { width: 1920, height: 1080, format: PixelFormat::Depth32Float }
    );
    assert_eq!(
        scene.normals_fbo,
        TextureDesc { width: 1920, height: 1080, format: PixelFormat::Rgba32Float }
    );
    assert_eq!(scene.icosphere, before.icosphere);
    assert_eq!(scene.uniform_buffer, before.uniform_buffer);
    assert_eq!(scene.global_binding, before.global_binding);
    assert_eq!(scene.instances, before.instances);
    let resized = scene;
    assert_eq!(scene.resize(0, 5), Err(RenderError::EmptySurface));
    assert_eq!(scene.resize(5, 0), Err(RenderError::EmptySurface));
    assert_eq!(scene, resized);
}

#[test]
fn presenter_resize_takes_the_scene_along() {
    let c = config(800, 600);
    let (mut scene, _) = Scene::new(&c, &mesh(), &identity(), 1).unwrap();
    let mut presenter = SurfacePresenter::new(c).unwrap();
    assert_eq!(presenter.resize(&mut scene, 1920, 1080), Ok(true));
    assert_eq!(presenter.config.width, 1920);
    assert_eq!(presenter.config.height, 1080);
    assert_eq!(presenter.config.pixel_format, PixelFormat::Bgra8UnormSrgb);
    assert_eq!(presenter.config.present_mode, PresentMode::Mailbox);
    assert_eq!((scene.depth_texture.width, scene.depth_texture.height), (1920, 1080));
    assert_eq!((scene.normals_fbo.width, scene.normals_fbo.height), (1920, 1080));
}

#[test]
fn resize_twice_is_resize_once() {
    let c = config(800, 600);
    let (mut scene, _) = Scene::new(&c, &mesh(), &identity(), 1).unwrap();
    let mut presenter = SurfacePresenter::new(c).unwrap();
    assert_eq!(presenter.resize(&mut scene, 1024, 768), Ok(true));
    let (p1, s1) = (presenter, scene);
    assert_eq!(presenter.resize(&mut scene, 1024, 768), Ok(false));
    assert_eq!(presenter, p1);
    assert_eq!(scene, s1);
}

#[test]
fn presenter_refuses_an_empty_size() {
    let c = config(800, 600);
    let (mut scene, _) = Scene::new(&c, &mesh(), &identity(), 1).unwrap();
    let mut presenter = SurfacePresenter::new(c).unwrap();
    let (p0, s0) = (presenter, scene);
    assert_eq!(presenter.resize(&mut scene, 0, 768), Err(RenderError::EmptySurface));
    assert_eq!(presenter.resize(&mut scene, 1024, 0), Err(RenderError::EmptySurface));
    assert_eq!(presenter, p0);
    assert_eq!(scene, s0);
}

#[test]
fn frame_loop_needs_a_scene_that_fits() {
    let c = config(800, 600);
    let (scene, _) = Scene::new(&c, &mesh(), &identity(), 1).unwrap();
    let other = SurfacePresenter::new(config(801, 600)).unwrap();
    assert_eq!(FrameLoop::new(other, scene, 0), Err(RenderError::TargetMismatch));
    let empty = SurfacePresenter {
        config: SurfaceConfig {
            width: 0,
            height: 600,
            pixel_format: PixelFormat::Bgra8UnormSrgb,
            present_mode: PresentMode::Mailbox,
        },
    };
    assert_eq!(FrameLoop::new(empty, scene, 0), Err(RenderError::EmptySurface));
    let l = FrameLoop::new(SurfacePresenter::new(c).unwrap(), scene, 3).unwrap();
    assert_eq!(l.pending, None);
    assert_eq!(l.attempts, 0);
    assert_eq!(l.max_retries, 3);
    assert!(!l.halted);
    assert!(l.valid());
    let mut broken = l;
    broken.scene.depth_texture.width = 1;
    assert!(!broken.valid());
}

#[test]
fn redraw_without_resize_only_draws() {
    let mut l = start(800, 600, 0);
    let before = l;
    assert_eq!(l.on_event(Event::EventsCleared), Step::RequestRedraw);
    assert_eq!(l.on_event(Event::Other), Step::Wait);
    assert_eq!(
        l.on_event(Event::RedrawRequested),
        Step::Frame(FramePlan { reconfigure: None, transform: None, pass: before.scene.draw() })
    );
    assert_eq!(l, before);
}

#[test]
fn end_to_end_resize_from_800x600_to_1920x1080() {
    let sphere = IcoSphere::generate(0).unwrap();
    assert_eq!(sphere.face_count(), 20);
    assert_eq!(sphere.vertex_count(), 12);
    let mut l = start(800, 600, 0);
    assert_eq!(l.on_event(Event::Resized { width: 1920, height: 1080 }), Step::Wait);
    assert_eq!(l.pending, Some((1920, 1080)));
    assert_eq!(l.scene.depth_texture.width, 800);
    let step = l.on_event(Event::RedrawRequested);
    let expected = SurfaceConfig {
        width: 1920,
        height: 1080,
        pixel_format: PixelFormat::Bgra8UnormSrgb,
        present_mode: PresentMode::Mailbox,
    };
    match step {
        Step::Frame(plan) => {
            assert_eq!(plan.reconfigure, Some(expected));
            assert_eq!(plan.transform, Some((1920, 1080)));
            assert_eq!(
                plan.pass.depth,
                TextureDesc { width: 1920, height: 1080, format: PixelFormat::Depth32Float }
            );
            assert_eq!(plan.pass.vertex_count, 117);
        }
        other => panic!("no frame: {:?}", other),
    }
    assert_eq!(l.presenter.config, expected);
    assert_eq!((l.scene.depth_texture.width, l.scene.depth_texture.height), (1920, 1080));
    assert_eq!((l.scene.normals_fbo.width, l.scene.normals_fbo.height), (1920, 1080));
    assert_eq!(l.pending, None);
    assert!(!l.halted);
    // the frame after that creates nothing anew
    match l.on_event(Event::RedrawRequested) {
        Step::Frame(plan) => assert_eq!(plan.reconfigure, None),
        other => panic!("no frame: {:?}", other),
    }
}

#[test]
fn resize_to_the_same_size_creates_nothing() {
    let mut l = start(800, 600, 0);
    let before = l;
    assert_eq!(l.on_event(Event::Resized { width: 800, height: 600 }), Step::Wait);
    assert_eq!(
        l.on_event(Event::RedrawRequested),
        Step::Frame(FramePlan { reconfigure: None, transform: None, pass: before.scene.draw() })
    );
    assert_eq!(l, before);
}

#[test]
fn same_aspect_keeps_the_transform() {
    let mut l = start(800, 600, 0);
    l.on_event(Event::Resized { width: 1600, height: 1200 });
    match l.on_event(Event::RedrawRequested) {
        Step::Frame(plan) => {
            assert_eq!(plan.reconfigure.map(|c| (c.width, c.height)), Some((1600, 1200)));
            assert_eq!(plan.transform, None);
        }
        other => panic!("no frame: {:?}", other),
    }
    l.on_event(Event::Resized { width: 1600, height: 1201 });
    match l.on_event(Event::RedrawRequested) {
        Step::Frame(plan) => assert_eq!(plan.transform, Some((1600, 1201))),
        other => panic!("no frame: {:?}", other),
    }
}

#[test]
fn aspect_is_compared_as_a_fraction() {
    let c = config(1920, 1080);
    assert!(c.has_aspect(16, 9));
    assert!(c.has_aspect(1920, 1080));
    assert!(!c.has_aspect(4, 3));
    assert!(!c.has_aspect(1921, 1080));
    let big = config(u32::MAX, u32::MAX);
    assert!(big.has_aspect(1, 1));
    assert!(!big.has_aspect(u32::MAX, u32::MAX - 1));
    assert!(c.has_aspect(0, 0));
}

#[test]
fn last_size_wins() {
    let mut l = start(800, 600, 0);
    l.on_event(Event::Resized { width: 10, height: 20 });
    l.on_event(Event::Resized { width: 30, height: 40 });
    match l.on_event(Event::RedrawRequested) {
        Step::Frame(plan) => {
            assert_eq!(plan.reconfigure.map(|c| (c.width, c.height)), Some((30, 40)));
            assert_eq!(plan.transform, Some((30, 40)));
            assert_eq!((plan.pass.depth.width, plan.pass.depth.height), (30, 40));
        }
        other => panic!("no frame: {:?}", other),
    }
}

#[test]
fn empty_size_ends_the_loop() {
    let mut l = start(800, 600, 5);
    let before = l;
    assert_eq!(l.on_event(Event::Resized { width: 0, height: 600 }), Step::Wait);
    assert_eq!(l.on_event(Event::RedrawRequested), Step::Fail(RenderError::EmptySurface));
    assert!(l.halted);
    assert_eq!(l.presenter, before.presenter);
    assert_eq!(l.scene, before.scene);
    assert_eq!(l.on_event(Event::RedrawRequested), Step::Exit);
    assert_eq!(l.on_event(Event::Resized { width: 4, height: 4 }), Step::Exit);
    assert_eq!(l.acquire_failed(), Step::Exit);
}

#[test]
fn close_ends_the_loop() {
    let mut l = start(800, 600, 0);
    assert_eq!(l.on_event(Event::CloseRequested), Step::Exit);
    assert!(l.halted);
    assert_eq!(l.on_event(Event::RedrawRequested), Step::Exit);
    assert_eq!(l.on_event(Event::EventsCleared), Step::Exit);
}

#[test]
fn acquire_failure_is_fatal_without_retries() {
    let mut l = start(800, 600, 0);
    assert!(matches!(l.on_event(Event::RedrawRequested), Step::Frame(_)));
    assert_eq!(l.acquire_failed(), Step::Fail(RenderError::AcquireTimeout));
    assert!(l.halted);
}

#[test]
fn acquire_failure_is_retried_a_bounded_number_of_times() {
    let mut l = start(800, 600, 2);
    let plan =
        FramePlan { reconfigure: Some(l.presenter.config), transform: None, pass: l.scene.draw() };
    assert_eq!(l.acquire_failed(), Step::Frame(plan));
    assert_eq!(l.attempts, 1);
    assert_eq!(l.acquire_failed(), Step::Frame(plan));
    assert_eq!(l.attempts, 2);
    assert_eq!(l.acquire_failed(), Step::Fail(RenderError::AcquireTimeout));
    assert!(l.halted);
}

#[test]
fn a_presented_frame_starts_a_new_row() {
    let mut l = start(800, 600, 1);
    assert!(matches!(l.acquire_failed(), Step::Frame(_)));
    assert_eq!(l.attempts, 1);
    l.presented();
    assert_eq!(l.attempts, 0);
    assert!(matches!(l.acquire_failed(), Step::Frame(_)));
    assert_eq!(l.acquire_failed(), Step::Fail(RenderError::AcquireTimeout));
}

#[test]
fn errors_name_the_stage() {
    assert_eq!(RenderError::EmptySurface.describe(), "surface: width and height must not be zero");
    assert_eq!(RenderError::EmptyMesh.describe(), "mesh: no vertices to draw");
    assert_eq!(
        RenderError::MeshTooLarge.describe(),
        "mesh: too many vertices for one draw call"
    );
    assert_eq!(RenderError::TargetMismatch.describe(), "render targets: not made for this surface");
    assert_eq!(
        RenderError::AcquireTimeout.describe(),
        "presentable chain: timeout when acquiring the next image"
    );
}
