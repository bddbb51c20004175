use sturdy_renderer::mesh::{flatten_instances, translation_matrix_flat, Instance, Mesh};
use sturdy_renderer::pipeline::{create_triangle_pipeline, Face, FrontFace, PolygonMode, PrimitiveTopology};
use sturdy_renderer::platform::{get_os, OS};
use sturdy_renderer::surface::{
    clamp_dimension, select_format, select_present_mode, PixelFormat, PresentMode, SurfaceConfig,
};
use sturdy_renderer::upload::BufferUsage;
use sturdy_renderer::vertex::{
    create_vertex_buffer, flatten_vertices, triangle_vertices, Vertex, VertexFormat, VertexStepMode,
};
use sturdy_renderer::window::{EngineWindow, WindowAction, WindowEvent};

fn bits(v: f32) -> u32 {
    v.to_bits()
}

#[test]
fn bgra_preferred_over_earlier_rgba() {
    let formats =
        vec![PixelFormat::Rgba8Unorm, PixelFormat::Bgra8Unorm, PixelFormat::Bgra8UnormSrgb];
    assert_eq!(select_format(&formats), Some(1));
}

#[test]
fn first_format_without_bgra() {
    assert_eq!(select_format(&vec![PixelFormat::Rgba8UnormSrgb, PixelFormat::Rgba8Unorm]), Some(0));
    assert_eq!(select_format(&vec![]), None);
    assert_eq!(select_format(&vec![PixelFormat::Other, PixelFormat::Bgra8UnormSrgb]), Some(1));
}

#[test]
fn present_mode_selection() {
    assert_eq!(select_present_mode(&vec![PresentMode::Fifo, PresentMode::Mailbox]), PresentMode::Mailbox);
    assert_eq!(select_present_mode(&vec![PresentMode::Immediate]), PresentMode::Fifo);
    assert_eq!(select_present_mode(&vec![]), PresentMode::Fifo);
}

#[test]
fn clamp_dimension_values() {
    assert_eq!(clamp_dimension(0), 1);
    assert_eq!(clamp_dimension(1), 1);
    assert_eq!(clamp_dimension(u32::MAX), u32::MAX);
}

#[test]
fn os_names() {
    assert_eq!(get_os("linux"), OS::Linux);
    assert_eq!(get_os("windows"), OS::Windows);
    assert_eq!(get_os("macos"), OS::MacOS);
    assert_eq!(get_os("freebsd"), OS::FreeBSD);
    assert_eq!(get_os("haiku"), OS::Unknown);
    assert_eq!(get_os(""), OS::Unknown);
}

#[test]
fn sample_quad_shape() {
    let m = Mesh::sample_quad();
    assert_eq!(m.verts.len(), 4);
    assert_eq!(m.indices, vec![0, 2, 1, 0, 3, 2]);
    assert_eq!(m.verts[0].position, [bits(-0.5), bits(0.5)]);
    assert_eq!(m.verts[3].color, [bits(1.0), bits(1.0), bits(0.0)]);
}

#[test]
fn triangle_vertex_values() {
    let t = triangle_vertices();
    assert_eq!(t[0].position, [bits(0.0), bits(0.8)]);
    assert_eq!(t[1].position, [bits(-0.8), bits(-0.8)]);
    assert_eq!(t[2].color, [bits(0.0), bits(0.0), bits(1.0)]);
    let b = create_vertex_buffer();
    assert_eq!(b.usage, BufferUsage::Vertex);
    assert_eq!(b.contents.len(), 60);
}

#[test]
fn vertices_flatten_in_order() {
    let v = Vertex { position: [1, 2], color: [3, 4, 5] };
    let w = Vertex { position: [6, 7], color: [8, 9, 10] };
    assert_eq!(flatten_vertices(&vec![v, w]), vec![1, 2, 3, 4, 5, 6, 7, 8, 9, 10]);
}

#[test]
fn index_buffer_holds_index_bytes() {
    let m = Mesh::new(vec![Vertex { position: [0, 0], color: [0, 0, 0] }], vec![0x0102_0304, 7]);
    let b = m.create_index_buffer();
    assert_eq!(b.usage, BufferUsage::Index);
    let mut expected = 0x0102_0304u32.to_ne_bytes().to_vec();
    expected.extend_from_slice(&7u32.to_ne_bytes());
    assert_eq!(b.contents, expected);
}

#[test]
fn vertex_buffer_holds_vertex_bytes() {
    let m = Mesh::new(vec![Vertex { position: [bits(0.5), 2], color: [3, 4, 5] }], vec![0]);
    let b = m.create_vertex_buffer();
    let mut expected = Vec::new();
    for w in [bits(0.5), 2, 3, 4, 5] {
        expected.extend_from_slice(&w.to_ne_bytes());
    }
    assert_eq!(b.contents, expected);
}

#[test]
fn translation_matrix_layout() {
    let m = translation_matrix_flat(bits(-0.7), bits(0.7), bits(0.0));
    let expected = [
        1.0f32, 0.0, 0.0, 0.0, 0.0, 1.0, 0.0, 0.0, 0.0, 0.0, 1.0, 0.0, -0.7, 0.7, 0.0, 1.0,
    ];
    for i in 0..16 {
        assert_eq!(f32::from_bits(m[i]), expected[i]);
    }
}

#[test]
fn instance_to_raw_is_column_major() {
    let mut transform = [[0u32; 4]; 4];
    for c in 0..4 {
        for k in 0..4 {
            transform[c][k] = (10 * c + k) as u32;
        }
    }
    let inst = Instance { transform, color: [90, 91, 92, 93] };
    let raw = inst.to_raw();
    assert_eq!(raw.transform[4 * 3 + 1], 31);
    assert_eq!(raw.transform[1], 1);
    assert_eq!(raw.color, [90, 91, 92, 93]);
    let words = flatten_instances(&vec![inst, inst]);
    assert_eq!(words.len(), 40);
    assert_eq!(words[20 + 4 * 2 + 3], 23);
    assert_eq!(words[39], 93);
    let buf = Mesh::create_instance_buffer(&vec![inst; 4]);
    assert_eq!(buf.usage, BufferUsage::Vertex);
    assert_eq!(buf.contents.len(), 4 * 80);
}

#[test]
fn vertex_layouts() {
    let v = Vertex::desc();
    assert_eq!(v.array_stride, 20);
    assert_eq!(v.step_mode, VertexStepMode::Vertex);
    assert_eq!(v.attributes.len(), 2);
    assert_eq!(v.attributes[1].format, VertexFormat::Float32x3);
    assert_eq!(v.attributes[1].offset, 8);
    let i = Vertex::instance_desc();
    assert_eq!(i.array_stride, 80);
    assert_eq!(i.step_mode, VertexStepMode::Instance);
    assert_eq!(i.attributes.len(), 5);
    assert_eq!(i.attributes[4].offset, 64);
    assert_eq!(i.attributes[4].shader_location, 6);
}

#[test]
fn pipeline_fixed_state() {
    let config = SurfaceConfig {
        format: PixelFormat::Bgra8UnormSrgb,
        present_mode: PresentMode::Fifo,
        width: 10,
        height: 10,
        max_in_flight_frames: 2,
    };
    let p = create_triangle_pipeline(&config, Vertex::desc(), Vertex::instance_desc(), "a.vert.wgsl", "b.frag.wgsl");
    assert_eq!(p.format, PixelFormat::Bgra8UnormSrgb);
    assert_eq!(p.topology, PrimitiveTopology::TriangleList);
    assert_eq!(p.front_face, FrontFace::Ccw);
    assert_eq!(p.cull_mode, Some(Face::Back));
    assert_eq!(p.polygon_mode, PolygonMode::Fill);
    assert_eq!(p.sample_count, 1);
    assert!(p.alpha_blending);
    assert_eq!(p.vertex_shader_path, "a.vert.wgsl");
    assert_eq!(p.fragment_shader_path, "b.frag.wgsl");
    assert_eq!(p.instance_layout.array_stride, 80);
}

#[test]
fn window_becomes_ready_at_intended_size() {
    let mut w = EngineWindow::create(1280, 720);
    assert!(!w.get_ready());
    assert_eq!(w.handle_event(WindowEvent::Resized(800, 600)), WindowAction::SuppressedResize);
    assert!(!w.get_ready());
    assert_eq!(w.handle_event(WindowEvent::Resized(1280, 720)), WindowAction::Nothing);
    assert!(w.get_ready());
    assert_eq!(w.handle_event(WindowEvent::Resized(800, 600)), WindowAction::Nothing);
    assert!(w.get_ready());
    assert_eq!(w.handle_event(WindowEvent::CloseRequested), WindowAction::Exit);
    assert_eq!(w.handle_event(WindowEvent::RedrawRequested), WindowAction::RequestRedraw);
    assert_eq!(w.handle_event(WindowEvent::Other), WindowAction::Nothing);
}
