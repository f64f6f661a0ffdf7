use peter_gl::device::{BufferTarget, Command, Reply, StageKind, TexParam, TexValue};
use peter_gl::error::{LayoutError, SetupError};
use peter_gl::frame::{Event, Game, LoopPhase, Viewport};
use peter_gl::geometry::GraphicsObject;
use peter_gl::layout::{ScalarKind, VertexAttribute, VertexLayout};
use peter_gl::shader::{BuildPhase, BuildProgress, Shader, ShaderBuild, ShaderPipe};
use peter_gl::texture::{DecodedImage, Texture};

fn status(ok: bool, log: &str) -> Reply {
    Reply::Status { ok, log: log.to_string() }
}

fn pending(progress: BuildProgress) -> ShaderBuild {
    match progress {
        BuildProgress::Pending(b) => b,
        BuildProgress::Done(_) => panic!("build ended early"),
    }
}

fn linked_program(v: u32, f: u32, p: u32) -> ShaderPipe {
    let (b, _) = ShaderPipe::construct("vs".to_string(), "fs".to_string());
    let (_, n) = b.step(Reply::Handle(v));
    let (_, n) = pending(n).step(status(true, ""));
    let (_, n) = pending(n).step(Reply::Handle(f));
    let (_, n) = pending(n).step(status(true, ""));
    let (_, n) = pending(n).step(Reply::Handle(p));
    let (_, n) = pending(n).step(status(true, ""));
    match n {
        BuildProgress::Done(Ok(pipe)) => pipe,
        _ => panic!("link did not succeed"),
    }
}

fn quad_vertices() -> Vec<u32> {
    let floats: Vec<f32> = vec![
        0.5, 0.5, 0.0, 1.0, 0.0, 0.0, 1.0, 1.0, //
        0.5, -0.5, 0.0, 1.0, 1.0, 0.0, 1.0, 0.0, //
        -0.5, -0.5, 0.0, 0.0, 0.0, 1.0, 0.0, 0.0, //
        -0.5, 0.5, 0.0, 1.0, 1.0, 0.0, 0.0, 1.0,
    ];
    floats.iter().map(|x| x.to_bits()).collect()
}

fn quad_indices() -> Vec<u32> {
    vec![0, 1, 3, 1, 2, 3]
}

fn quad() -> GraphicsObject {
    let layout = VertexLayout::position_color_texcoord();
    let (g, _) = GraphicsObject::new(quad_vertices(), quad_indices(), layout, 1, 2, 3).unwrap();
    g
}

fn float_attr(location: u32, components: u32, stride: u32, offset: u32) -> VertexAttribute {
    VertexAttribute { location, components, kind: ScalarKind::Float, normalized: false, stride, offset }
}

#[test]
fn standard_layout_has_stride_32_and_offsets_0_12_24() {
    let l = VertexLayout::position_color_texcoord();
    assert_eq!(l.stride, 32);
    assert_eq!(l.attributes.len(), 3);
    assert_eq!(l.attributes[0], float_attr(0, 3, 32, 0));
    assert_eq!(l.attributes[1], float_attr(1, 3, 32, 12));
    assert_eq!(l.attributes[2], float_attr(2, 2, 32, 24));
    assert!(l.validate());
}

#[test]
fn stride_24_is_rejected_before_upload() {
    let l = VertexLayout {
        stride: 24,
        attributes: vec![float_attr(0, 3, 24, 0), float_attr(1, 3, 24, 12), float_attr(2, 2, 24, 24)],
    };
    assert!(!l.validate());
    let r = GraphicsObject::new(quad_vertices(), quad_indices(), l, 1, 2, 3);
    assert!(matches!(r, Err(SetupError::Layout(LayoutError::InvalidAttributes))));
}

#[test]
fn overlapping_attributes_are_rejected() {
    let l = VertexLayout { stride: 16, attributes: vec![float_attr(0, 2, 16, 0), float_attr(1, 2, 16, 4)] };
    assert!(!l.validate());
    let gap = VertexLayout { stride: 16, attributes: vec![float_attr(0, 2, 16, 0), float_attr(1, 2, 16, 8)] };
    assert!(gap.validate());
}

#[test]
fn interleaved_builds_packed_offsets() {
    let l = VertexLayout::interleaved(&vec![2, 4, 1]).unwrap();
    assert_eq!(l.stride, 28);
    assert_eq!(l.attributes[0], float_attr(0, 2, 28, 0));
    assert_eq!(l.attributes[1], float_attr(1, 4, 28, 8));
    assert_eq!(l.attributes[2], float_attr(2, 1, 28, 24));
    assert!(l.validate());
    assert!(VertexLayout::interleaved(&vec![]).is_none());
    assert!(VertexLayout::interleaved(&vec![3, 0]).is_none());
    assert!(VertexLayout::interleaved(&vec![5]).is_none());
}

#[test]
fn geometry_upload_binds_array_first() {
    let layout = VertexLayout::position_color_texcoord();
    let attrs = layout.attributes.clone();
    let (_, plan) = GraphicsObject::new(quad_vertices(), quad_indices(), layout, 1, 2, 3).unwrap();
    let expected = vec![
        Command::BindVertexArray { array: 1 },
        Command::BindBuffer { target: BufferTarget::Array, buffer: 2 },
        Command::UploadVertices,
        Command::AttribPointer { attribute: attrs[0] },
        Command::EnableAttrib { location: 0 },
        Command::AttribPointer { attribute: attrs[1] },
        Command::EnableAttrib { location: 1 },
        Command::AttribPointer { attribute: attrs[2] },
        Command::EnableAttrib { location: 2 },
        Command::BindBuffer { target: BufferTarget::Element, buffer: 3 },
        Command::UploadIndices,
    ];
    assert_eq!(plan, expected);
}

#[test]
fn two_triangles_draw_once_with_six_indices() {
    let g = quad();
    let plan = g.draw();
    assert_eq!(plan, vec![Command::BindVertexArray { array: 1 }, Command::DrawTriangles { count: 6 }]);
    let draws = plan.iter().filter(|c| matches!(c, Command::DrawTriangles { .. })).count();
    assert_eq!(draws, 1);
}

#[test]
fn geometry_faults() {
    let l = VertexLayout::position_color_texcoord;
    assert!(matches!(
        GraphicsObject::new(quad_vertices(), quad_indices(), l(), 0, 2, 3),
        Err(SetupError::DeviceAllocation)
    ));
    assert!(matches!(
        GraphicsObject::new(quad_vertices(), quad_indices(), l(), 1, 2, 2),
        Err(SetupError::DeviceAllocation)
    ));
    assert!(matches!(
        GraphicsObject::new(quad_vertices(), vec![0, 1, 3, 1, 2], l(), 1, 2, 3),
        Err(SetupError::Layout(LayoutError::PartialTriangle))
    ));
    let mut short = quad_vertices();
    short.pop();
    assert!(matches!(
        GraphicsObject::new(short, quad_indices(), l(), 1, 2, 3),
        Err(SetupError::Layout(LayoutError::PartialVertex))
    ));
}

#[test]
fn clean_build_queries_link_status_and_releases_stages() {
    let (b, plan) = ShaderPipe::construct("vs".to_string(), "fs".to_string());
    assert_eq!(plan, vec![Command::CreateShader { kind: StageKind::Vertex }]);
    assert_eq!(b.source(StageKind::Fragment), "fs");
    let (plan, n) = b.step(Reply::Handle(5));
    assert_eq!(
        plan,
        vec![Command::CompileShader { shader: 5, kind: StageKind::Vertex }, Command::QueryCompileStatus { shader: 5 }]
    );
    let (plan, n) = pending(n).step(status(true, ""));
    assert_eq!(plan, vec![Command::CreateShader { kind: StageKind::Fragment }]);
    let (_, n) = pending(n).step(Reply::Handle(6));
    let (plan, n) = pending(n).step(status(true, ""));
    assert_eq!(plan, vec![Command::CreateProgram]);
    let (plan, n) = pending(n).step(Reply::Handle(9));
    assert_eq!(
        plan,
        vec![
            Command::AttachShader { program: 9, shader: 5 },
            Command::AttachShader { program: 9, shader: 6 },
            Command::LinkProgram { program: 9 },
            Command::QueryLinkStatus { program: 9 },
        ]
    );
    let b = pending(n);
    assert_eq!(b.phase, BuildPhase::LinkStatus { vertex: 5, fragment: 6, program: 9 });
    let (plan, n) = b.step(status(true, ""));
    assert_eq!(
        plan,
        vec![
            Command::DetachShader { program: 9, shader: 5 },
            Command::DetachShader { program: 9, shader: 6 },
            Command::DeleteShader { shader: 5 },
            Command::DeleteShader { shader: 6 },
        ]
    );
    match n {
        BuildProgress::Done(Ok(pipe)) => {
            assert_eq!(pipe.prog_id(), 9);
            assert_eq!(pipe.activate(), Command::UseProgram { program: 9 });
            assert_eq!(pipe.activate(), Command::UseProgram { program: 9 });
        },
        _ => panic!("expected a linked program"),
    }
}

#[test]
fn fragment_syntax_error_names_fragment_stage() {
    let (b, _) = ShaderPipe::construct("vs".to_string(), "broken".to_string());
    let (_, n) = b.step(Reply::Handle(5));
    let (_, n) = pending(n).step(status(true, ""));
    let (_, n) = pending(n).step(Reply::Handle(6));
    let (plan, n) = pending(n).step(status(false, "0:1(1): error: syntax error"));
    assert_eq!(plan, vec![Command::DeleteShader { shader: 6 }, Command::DeleteShader { shader: 5 }]);
    match n {
        BuildProgress::Done(Err(SetupError::Compile { stage, diagnostic })) => {
            assert_eq!(stage, StageKind::Fragment);
            assert_eq!(diagnostic, "0:1(1): error: syntax error");
        },
        _ => panic!("expected a compile error"),
    }
}

#[test]
fn empty_device_log_still_gives_a_diagnostic() {
    let r = Shader::from_frag_source(4, false, String::new());
    match r {
        Err(SetupError::Compile { stage, diagnostic }) => {
            assert_eq!(stage, StageKind::Fragment);
            assert!(!diagnostic.is_empty());
        },
        _ => panic!("expected a compile error"),
    }
    let ok = Shader::from_vert_source(4, true, String::new()).unwrap();
    assert_eq!(ok.id(), 4);
    assert_eq!(ok.kind(), StageKind::Vertex);
    assert!(matches!(Shader::from_source(StageKind::Vertex, 0, true, String::new()), Err(SetupError::DeviceAllocation)));
}

#[test]
fn link_failure_releases_everything() {
    let (b, _) = ShaderPipe::construct("vs".to_string(), "fs".to_string());
    let (_, n) = b.step(Reply::Handle(5));
    let (_, n) = pending(n).step(status(true, ""));
    let (_, n) = pending(n).step(Reply::Handle(6));
    let (_, n) = pending(n).step(status(true, ""));
    let (_, n) = pending(n).step(Reply::Handle(9));
    let (plan, n) = pending(n).step(status(false, "unresolved symbol"));
    assert_eq!(plan.last(), Some(&Command::DeleteProgram { program: 9 }));
    assert_eq!(plan.len(), 5);
    match n {
        BuildProgress::Done(Err(SetupError::Link { diagnostic })) => assert_eq!(diagnostic, "unresolved symbol"),
        _ => panic!("expected a link error"),
    }
}

#[test]
fn zero_handles_are_allocation_failures() {
    let (b, _) = ShaderPipe::construct("vs".to_string(), "fs".to_string());
    assert!(!b.accepts(&status(true, "")));
    assert!(b.accepts(&Reply::Handle(0)));
    let (plan, n) = b.step(Reply::Handle(0));
    assert!(plan.is_empty());
    assert!(matches!(n, BuildProgress::Done(Err(SetupError::DeviceAllocation))));
    let (b, _) = ShaderPipe::construct("vs".to_string(), "fs".to_string());
    let (_, n) = b.step(Reply::Handle(5));
    let (_, n) = pending(n).step(status(true, ""));
    let (plan, n) = pending(n).step(Reply::Handle(0));
    assert_eq!(plan, vec![Command::DeleteShader { shader: 5 }]);
    assert!(matches!(n, BuildProgress::Done(Err(SetupError::DeviceAllocation))));
}

#[test]
fn sampler_lookup_miss_is_silent() {
    let pipe = linked_program(1, 2, 3);
    assert!(pipe.set_sampler(-1, 0).is_empty());
    assert_eq!(
        pipe.set_sampler(4, 0),
        vec![Command::UseProgram { program: 3 }, Command::SetSampler { location: 4, unit: 0 }]
    );
    assert_eq!(pipe.release(), Command::DeleteProgram { program: 3 });
}

#[test]
fn texture_keeps_dimensions_and_handle() {
    let image = DecodedImage { width: 2, height: 3, depth: 3, data: (0u8..18).collect() };
    let (t, plan) = Texture::load(image, 7).unwrap();
    assert_eq!((t.width(), t.height(), t.handle()), (2, 3, 7));
    assert_eq!(t.pixels().len(), 18);
    assert_eq!(
        plan,
        vec![
            Command::ActiveTexture { unit: 0 },
            Command::BindTexture { texture: 7 },
            Command::TexParameter { param: TexParam::WrapS, value: TexValue::Repeat },
            Command::TexParameter { param: TexParam::WrapT, value: TexValue::Repeat },
            Command::TexParameter { param: TexParam::MinFilter, value: TexValue::LinearMipmapLinear },
            Command::TexParameter { param: TexParam::MagFilter, value: TexValue::Linear },
            Command::UnpackAlignment { bytes: 1 },
            Command::UploadPixels { width: 2, height: 3 },
            Command::GenerateMipmap,
        ]
    );
}

#[test]
fn texture_faults() {
    let image = DecodedImage { width: 2, height: 3, depth: 3, data: vec![0; 18] };
    assert!(matches!(Texture::load(image.clone(), 0), Err(SetupError::DeviceAllocation)));
    let short = DecodedImage { data: vec![0; 17], ..image.clone() };
    assert!(matches!(Texture::load(short, 7), Err(SetupError::ImageSize)));
    let rgba = DecodedImage { depth: 4, data: vec![0; 24], ..image };
    assert!(matches!(Texture::load(rgba, 7), Err(SetupError::ImageSize)));
}

#[test]
fn encoded_image_is_decoded_and_uploaded() {
    let mut encoded = b"P6\n2 2\n255\n".to_vec();
    let pixels: Vec<u8> = vec![255, 0, 0, 0, 255, 0, 0, 0, 255, 10, 20, 30];
    encoded.extend_from_slice(&pixels);
    let mut g = quad();
    let plan = g.load_texture(&encoded, 11).unwrap();
    assert!(plan.contains(&Command::UploadPixels { width: 2, height: 2 }));
    let t = g.texture().as_ref().unwrap();
    assert_eq!((t.width(), t.height(), t.handle()), (2, 2, 11));
    assert_eq!(t.pixels(), &pixels);
    assert_eq!(
        g.draw(),
        vec![
            Command::BindVertexArray { array: 1 },
            Command::ActiveTexture { unit: 0 },
            Command::BindTexture { texture: 11 },
            Command::DrawTriangles { count: 6 },
        ]
    );
}

#[test]
fn undecodable_image_is_an_asset_error() {
    let mut g = quad();
    match g.load_texture(&vec![1, 2, 3, 4], 11) {
        Err(SetupError::AssetLoad { diagnostic }) => assert!(!diagnostic.is_empty()),
        _ => panic!("expected an asset error"),
    }
    assert!(g.texture().is_none());
}

fn running_game() -> Game {
    let mut game = Game::new(900, 700);
    assert_eq!(game.phase(), LoopPhase::Uninitialized);
    game.begin(linked_program(1, 2, 3), quad());
    game
}

#[test]
fn resize_updates_viewport_before_render() {
    let mut game = running_game();
    assert_eq!(game.viewport(), Viewport { x: 0, y: 0, width: 900, height: 700 });
    let cmds = game.tick(&vec![Event::Resized { width: 1024, height: 768 }]);
    assert_eq!(game.viewport(), Viewport { x: 0, y: 0, width: 1024, height: 768 });
    assert_eq!(game.phase(), LoopPhase::Running);
    assert_eq!(
        cmds,
        vec![
            Command::Viewport { x: 0, y: 0, width: 1024, height: 768 },
            Command::ClearColor,
            Command::UseProgram { program: 3 },
            Command::BindVertexArray { array: 1 },
            Command::DrawTriangles { count: 6 },
            Command::SwapBuffers,
        ]
    );
}

#[test]
fn quit_terminates_without_render_and_releases_once() {
    let mut game = running_game();
    let cmds = game.tick(&vec![Event::Other, Event::Quit, Event::Resized { width: 10, height: 10 }]);
    assert_eq!(game.phase(), LoopPhase::Terminated);
    assert!(game.object().is_none());
    assert_eq!(game.viewport(), Viewport { x: 0, y: 0, width: 900, height: 700 });
    assert_eq!(
        cmds,
        vec![
            Command::DeleteProgram { program: 3 },
            Command::DeleteVertexArray { array: 1 },
            Command::DeleteBuffer { buffer: 2 },
            Command::DeleteBuffer { buffer: 3 },
        ]
    );
}

#[test]
fn other_events_only_render() {
    let mut game = running_game();
    let cmds = game.tick(&vec![Event::Other]);
    assert_eq!(cmds.len(), 5);
    assert_eq!(cmds[0], Command::ClearColor);
    assert!(game.object().is_some());
}

#[test]
fn replacing_a_texture_releases_the_old_one() {
    let mut encoded = b"P6\n1 1\n255\n".to_vec();
    encoded.extend_from_slice(&[1, 2, 3]);
    let mut g = quad();
    g.load_texture(&encoded, 11).unwrap();
    let plan = g.load_texture(&encoded, 12).unwrap();
    assert_eq!(plan[0], Command::DeleteTexture { texture: 11 });
    assert_eq!(plan[2], Command::BindTexture { texture: 12 });
    assert_eq!(plan.len(), 10);
    assert_eq!(g.texture().as_ref().unwrap().handle(), 12);
    let release = g.release();
    assert_eq!(release.last(), Some(&Command::DeleteTexture { texture: 12 }));
}
