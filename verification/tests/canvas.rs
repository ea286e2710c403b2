use shader_preview::canvas::CanvasPlayer;
use shader_preview::ogl::ChannelCount;
use shader_preview::ogl::AttributeComponentDataType;
use shader_preview::ogl::TextureComponentDataType;
use shader_preview::ogl::FunctionPointers;
use shader_preview::ogl::GlCall;
use shader_preview::ogl::Image;
use shader_preview::ogl::InterpolationType;
use shader_preview::ogl::OGLError;
use shader_preview::ogl::Uniform;
use shader_preview::ogl::COLOR_BUFFER_BIT;
use shader_preview::ogl::FRAGMENT_SHADER;
use shader_preview::ogl::OUT_OF_MEMORY;
use shader_preview::ogl::TRIANGLES;
use shader_preview::ogl::VERTEX_SHADER;
use shader_preview::quad::BlitterProgram;
use shader_preview::quad::QuadProgram;
use shader_preview::textures::NamedTexture;
use shader_preview::timeline::FrameRange;
use shader_preview::timeline::FrameTime;
use shader_preview::timeline::Positive;
use shader_preview::timeline::Timeline;
use shader_preview::timeline::FPS;

fn picture(byte: u8) -> Image {
    Image {
        data: Some(vec![byte; 4]),
        resolution: [1, 1],
        channels: ChannelCount::Four,
        component: TextureComponentDataType::UnsignedByte,
    }
}

fn quad_calls(first: u32, vertices: u32, source: &str) -> Vec<GlCall> {
    vec![
        GlCall::CompileShader {
            shader: first,
            stage: VERTEX_SHADER,
            source: String::from(QuadProgram::vertex_code()),
        },
        GlCall::CompileShader { shader: first + 1, stage: FRAGMENT_SHADER, source: String::from(source) },
        GlCall::LinkProgram { program: first + 2, vertex: first, fragment: first + 1 },
        GlCall::DeleteShader(first + 1),
        GlCall::DeleteShader(first),
        GlCall::GenVertexArray(first + 3),
        GlCall::BindVertexArray(first + 3),
        GlCall::BindBuffer(vertices),
        GlCall::AttachBuffer {
            program: first + 2,
            attribute: String::from("corners"),
            kind: AttributeComponentDataType::Double,
            components: 2,
        },
    ]
}

fn blitter_calls(first: u32, vertices: u32) -> Vec<GlCall> {
    let mut calls = quad_calls(first, vertices, BlitterProgram::code());
    calls.push(GlCall::UseProgram(first + 2));
    calls.push(GlCall::SetUniform {
        program: first + 2,
        name: String::from("image"),
        value: Uniform::Int(0),
        required: true,
    });
    calls
}

fn buffer_calls(first: u32, resolution: [u32; 2], component: TextureComponentDataType) -> Vec<GlCall> {
    vec![
        GlCall::GenFramebuffer(first),
        GlCall::BindFramebuffer(first),
        GlCall::GenTexture(first + 1),
        GlCall::BindTexture(first + 1),
        GlCall::SetupTexture {
            wrap_mode: None,
            minification_filter: InterpolationType::Nearest,
            magnification_filter: InterpolationType::Nearest,
            mipmap_filter: Some(InterpolationType::Nearest),
        },
        GlCall::FillTexture {
            image: Image { data: None, resolution, channels: ChannelCount::Four, component },
            mipmap: true,
        },
        GlCall::AttachColor(first + 1),
    ]
}

fn vertices_calls(name: u32) -> Vec<GlCall> {
    vec![
        GlCall::GenBuffer(name),
        GlCall::BindBuffer(name),
        GlCall::BufferData { kind: AttributeComponentDataType::Double, values: vec![-1, -1, -1, 1, 1, 1, 1, -1] },
    ]
}

fn sampler_uniform(program: u32, name: &str, unit: i32) -> GlCall {
    GlCall::SetUniform { program, name: String::from(name), value: Uniform::Int(unit), required: true }
}

fn uniforms(program: u32, time: FrameTime, frame: i32) -> Vec<GlCall> {
    vec![
        GlCall::UseProgram(program),
        GlCall::SetUniform {
            program,
            name: String::from("time"),
            value: Uniform::Seconds(time),
            required: false,
        },
        GlCall::UseProgram(program),
        GlCall::SetUniform {
            program,
            name: String::from("frame"),
            value: Uniform::Int(frame),
            required: false,
        },
    ]
}

fn draw() -> GlCall {
    GlCall::DrawElements { mode: TRIANGLES, indices: vec![0, 1, 2, 0, 3, 2] }
}

fn show(blitter: u32, array: u32, texture: u32, resolution: [u32; 2]) -> Vec<GlCall> {
    vec![
        GlCall::BindDefaultFramebuffer,
        GlCall::Clear(COLOR_BUFFER_BIT),
        GlCall::Viewport { origin: [0, 0], resolution },
        GlCall::ActiveTexture(0),
        GlCall::BindTexture(texture),
        GlCall::UseProgram(blitter),
        GlCall::BindVertexArray(array),
        draw(),
    ]
}

fn run(program: u32, array: u32, resolution: [u32; 2]) -> Vec<GlCall> {
    vec![
        GlCall::UseProgram(program),
        GlCall::BindVertexArray(array),
        GlCall::Viewport { origin: [0, 0], resolution },
        draw(),
    ]
}

fn textures(pointers: &mut FunctionPointers, names: &[&str]) -> Vec<NamedTexture> {
    let mut made = Vec::new();
    for (index, name) in names.iter().enumerate() {
        made.push(NamedTexture::new(pointers, picture(index as u8), name).unwrap());
    }
    made
}

#[test]
fn named_texture_records_its_making() {
    let mut pointers = FunctionPointers::new();
    let texture = NamedTexture::new(&mut pointers, picture(7), "wood").unwrap();
    assert_eq!(texture.name(), "wood");
    assert_eq!(
        pointers.take_calls(),
        vec![
            GlCall::GenTexture(0),
            GlCall::BindTexture(0),
            GlCall::SetupTexture {
                wrap_mode: None,
                minification_filter: InterpolationType::Nearest,
                magnification_filter: InterpolationType::Nearest,
                mipmap_filter: None,
            },
            GlCall::FillTexture { image: picture(7), mipmap: false },
        ]
    );
    texture.release(&mut pointers);
    assert_eq!(pointers.take_calls(), vec![GlCall::DeleteTexture(0)]);
}

#[test]
fn named_texture_needs_a_name() {
    let mut pointers = FunctionPointers::resume(u32::MAX);
    assert_eq!(
        NamedTexture::new(&mut pointers, picture(7), "wood").err(),
        Some(OGLError::GL(OUT_OF_MEMORY))
    );
    assert!(pointers.take_calls().is_empty());
    let mut pointers = FunctionPointers::resume(u32::MAX - 1);
    assert!(NamedTexture::new(&mut pointers, picture(7), "wood").is_ok());
}

#[test]
fn simple_canvas_is_made_in_order() {
    let mut pointers = FunctionPointers::new();
    let inputs = textures(&mut pointers, &["wood", "sky"]);
    pointers.take_calls();
    let player = CanvasPlayer::new(
        &mut pointers,
        Timeline::default(),
        "void main() {}",
        inputs,
        [640, 480],
        false,
        TextureComponentDataType::Float,
    )
    .unwrap();
    assert_eq!(player.resolution(), [640, 480]);
    assert!(!player.feedback());
    assert_eq!(player.component(), TextureComponentDataType::Float);
    assert_eq!(player.timeline().fps(), 60);
    let mut expected = vertices_calls(2);
    expected.extend(quad_calls(3, 2, "void main() {}"));
    expected.push(GlCall::UseProgram(5));
    expected.push(sampler_uniform(5, "wood", 0));
    expected.push(sampler_uniform(5, "sky", 1));
    expected.extend(blitter_calls(7, 2));
    expected.extend(buffer_calls(11, [640, 480], TextureComponentDataType::Float));
    assert_eq!(pointers.take_calls(), expected);
    assert_eq!(pointers.spare(), u32::MAX - 13);
}

#[test]
fn simple_canvas_shows_a_frame() {
    let mut pointers = FunctionPointers::new();
    let inputs = textures(&mut pointers, &["wood", "sky"]);
    let mut player = CanvasPlayer::new(
        &mut pointers,
        Timeline::default(),
        "void main() {}",
        inputs,
        [640, 480],
        false,
        TextureComponentDataType::Float,
    )
    .unwrap();
    pointers.take_calls();
    assert!(!player.play(&mut pointers, None));
    assert!(pointers.take_calls().is_empty());
    for frame in [0u32, 1, 77] {
        assert!(player.play(&mut pointers, Some(frame)));
        let mut expected = uniforms(5, FrameTime { frames: 0, rate: 60 }, frame as i32);
        expected.extend(vec![
            GlCall::ActiveTexture(0),
            GlCall::BindTexture(0),
            GlCall::ActiveTexture(1),
            GlCall::BindTexture(1),
            GlCall::BindFramebuffer(11),
            GlCall::Clear(COLOR_BUFFER_BIT),
        ]);
        expected.extend(run(5, 6, [640, 480]));
        expected.extend(show(9, 10, 12, [640, 480]));
        assert_eq!(pointers.take_calls(), expected);
    }
}

#[test]
fn frame_index_wraps_into_the_uniform() {
    let mut pointers = FunctionPointers::new();
    let mut player = CanvasPlayer::new(
        &mut pointers,
        Timeline::default(),
        "x",
        Vec::new(),
        [1, 1],
        false,
        TextureComponentDataType::UnsignedByte,
    )
    .unwrap();
    pointers.take_calls();
    player.play(&mut pointers, Some(u32::MAX));
    let calls = pointers.take_calls();
    assert_eq!(calls[3], GlCall::SetUniform {
        program: 3,
        name: String::from("frame"),
        value: Uniform::Int(-1),
        required: false,
    });
}

#[test]
fn feedback_canvas_is_made_in_order() {
    let mut pointers = FunctionPointers::new();
    let inputs = textures(&mut pointers, &["wood"]);
    pointers.take_calls();
    let player = CanvasPlayer::new(
        &mut pointers,
        Timeline::default(),
        "feedback",
        inputs,
        [8, 4],
        true,
        TextureComponentDataType::UnsignedByte,
    )
    .unwrap();
    assert!(player.feedback());
    let mut expected = vertices_calls(1);
    expected.extend(quad_calls(2, 1, "feedback"));
    expected.push(GlCall::UseProgram(4));
    expected.push(sampler_uniform(4, "previous", 0));
    expected.push(sampler_uniform(4, "wood", 1));
    expected.extend(blitter_calls(6, 1));
    expected.extend(buffer_calls(10, [8, 4], TextureComponentDataType::UnsignedByte));
    expected.extend(buffer_calls(12, [8, 4], TextureComponentDataType::UnsignedByte));
    assert_eq!(pointers.take_calls(), expected);
    assert_eq!(pointers.spare(), u32::MAX - 14);
}

fn feedback_frame(target: u32, source_texture: u32, shown_texture: u32, frame: i32) -> Vec<GlCall> {
    let mut expected = uniforms(4, FrameTime { frames: 0, rate: 60 }, frame);
    expected.extend(vec![
        GlCall::ActiveTexture(1),
        GlCall::BindTexture(0),
        GlCall::BindFramebuffer(target),
        GlCall::Clear(COLOR_BUFFER_BIT),
        GlCall::ActiveTexture(0),
        GlCall::BindTexture(source_texture),
    ]);
    expected.extend(run(4, 5, [8, 4]));
    expected.extend(show(8, 9, shown_texture, [8, 4]));
    expected
}

#[test]
fn feedback_canvas_draws_into_its_buffers_in_turn() {
    let mut pointers = FunctionPointers::new();
    let inputs = textures(&mut pointers, &["wood"]);
    let mut player = CanvasPlayer::new(
        &mut pointers,
        Timeline::default(),
        "feedback",
        inputs,
        [8, 4],
        true,
        TextureComponentDataType::UnsignedByte,
    )
    .unwrap();
    pointers.take_calls();
    // buffers: framebuffer 10 with texture 11, framebuffer 12 with texture 13
    assert!(player.play(&mut pointers, Some(1)));
    assert_eq!(pointers.take_calls(), feedback_frame(12, 11, 13, 1));
    assert!(player.play(&mut pointers, Some(2)));
    assert_eq!(pointers.take_calls(), feedback_frame(10, 13, 11, 2));
    assert!(player.play(&mut pointers, Some(3)));
    assert_eq!(pointers.take_calls(), feedback_frame(12, 11, 13, 3));
}

#[test]
fn feedback_canvas_forgets_at_frame_0() {
    let mut pointers = FunctionPointers::new();
    let inputs = textures(&mut pointers, &["wood"]);
    let mut player = CanvasPlayer::new(
        &mut pointers,
        Timeline::default(),
        "feedback",
        inputs,
        [8, 4],
        true,
        TextureComponentDataType::UnsignedByte,
    )
    .unwrap();
    pointers.take_calls();
    for before in [vec![], vec![1u32], vec![1, 2], vec![1, 2, 3]] {
        for frame in before {
            player.play(&mut pointers, Some(frame));
        }
        pointers.take_calls();
        assert!(player.play(&mut pointers, Some(0)));
        let mut expected = vec![
            GlCall::BindFramebuffer(10),
            GlCall::Clear(COLOR_BUFFER_BIT),
            GlCall::BindFramebuffer(12),
            GlCall::Clear(COLOR_BUFFER_BIT),
        ];
        expected.extend(feedback_frame(12, 11, 13, 0));
        assert_eq!(pointers.take_calls(), expected);
    }
}

// Texture of the frame before, as the frame is drawn, and whether it was
// cleared and not drawn into since.
fn previous_at_draw(calls: &[GlCall], attachments: &[(u32, u32)], drawn: &mut Vec<u32>) -> (u32, bool) {
    let mut framebuffer: Option<u32> = None;
    let mut unit: u32 = 0;
    let mut on_unit_0: u32 = u32::MAX;
    for call in calls {
        let target = framebuffer.and_then(|bound| {
            attachments.iter().find(|(name, _)| *name == bound).map(|(_, texture)| *texture)
        });
        match call {
            GlCall::BindFramebuffer(name) => framebuffer = Some(*name),
            GlCall::BindDefaultFramebuffer => framebuffer = None,
            GlCall::ActiveTexture(selected) => unit = *selected,
            GlCall::BindTexture(texture) => {
                if unit == 0 {
                    on_unit_0 = *texture;
                }
            }
            GlCall::Clear(_) => {
                if let Some(texture) = target {
                    drawn.retain(|name| *name != texture);
                }
            }
            GlCall::DrawElements { .. } => {
                if let Some(texture) = target {
                    let blank = !drawn.contains(&on_unit_0);
                    drawn.push(texture);
                    return (on_unit_0, blank);
                }
            }
            _ => {}
        }
    }
    unreachable!()
}

#[test]
fn frame_0_reads_a_blank_frame_before() {
    let mut pointers = FunctionPointers::new();
    let mut player = CanvasPlayer::new(
        &mut pointers,
        Timeline::default(),
        "feedback",
        Vec::new(),
        [8, 4],
        true,
        TextureComponentDataType::UnsignedByte,
    )
    .unwrap();
    pointers.take_calls();
    let attachments = [(9u32, 10u32), (11, 12)];
    let mut drawn: Vec<u32> = Vec::new();
    for frame in [0u32, 1, 2, 3, 0, 1, 0, 0, 5, 6, 7, 0] {
        player.play(&mut pointers, Some(frame));
        let calls = pointers.take_calls();
        let (texture, blank) = previous_at_draw(&calls, &attachments, &mut drawn);
        assert!(texture == 10 || texture == 12);
        assert_eq!(blank, frame == 0, "frame {}", frame);
    }
}

#[test]
fn refresh_shows_frame_0_first() {
    let mut pointers = FunctionPointers::new();
    let mut player = CanvasPlayer::new(
        &mut pointers,
        Timeline::new(FPS(Positive::new(1).unwrap()), FrameRange::Endless),
        "x",
        Vec::new(),
        [2, 2],
        false,
        TextureComponentDataType::UnsignedByte,
    )
    .unwrap();
    pointers.take_calls();
    assert!(player.refresh(&mut pointers));
    let calls = pointers.take_calls();
    assert_eq!(calls[..4], uniforms(3, FrameTime { frames: 0, rate: 1 }, 0)[..]);
    assert_eq!(calls.len(), 4 + 2 + 4 + 8);
    assert!(!player.refresh(&mut pointers));
    assert!(pointers.take_calls().is_empty());
}

#[test]
fn player_is_given_up_object_by_object() {
    let mut pointers = FunctionPointers::new();
    let inputs = textures(&mut pointers, &["wood"]);
    let player = CanvasPlayer::new(
        &mut pointers,
        Timeline::default(),
        "feedback",
        inputs,
        [8, 4],
        true,
        TextureComponentDataType::UnsignedByte,
    )
    .unwrap();
    pointers.take_calls();
    player.release(&mut pointers);
    assert_eq!(
        pointers.take_calls(),
        vec![
            GlCall::DeleteBuffer(1),
            GlCall::DeleteShader(3),
            GlCall::DeleteShader(2),
            GlCall::DeleteProgram(4),
            GlCall::DeleteVertexArray(5),
            GlCall::DeleteShader(7),
            GlCall::DeleteShader(6),
            GlCall::DeleteProgram(8),
            GlCall::DeleteVertexArray(9),
            GlCall::DeleteTexture(0),
            GlCall::DeleteFramebuffer(10),
            GlCall::DeleteTexture(11),
            GlCall::DeleteFramebuffer(12),
            GlCall::DeleteTexture(13),
        ]
    );
}

#[test]
fn player_needs_names_for_its_objects() {
    for (feedback, needed) in [(false, 11u32), (true, 13u32)] {
        let mut pointers = FunctionPointers::resume(u32::MAX - needed);
        assert!(CanvasPlayer::new(
            &mut pointers,
            Timeline::default(),
            "x",
            Vec::new(),
            [2, 2],
            feedback,
            TextureComponentDataType::Float,
        )
        .is_ok());
        let mut pointers = FunctionPointers::resume(u32::MAX - needed);
        let inputs = textures(&mut pointers, &["wood"]);
        pointers.take_calls();
        assert_eq!(
            CanvasPlayer::new(
                &mut pointers,
                Timeline::default(),
                "x",
                inputs,
                [2, 2],
                feedback,
                TextureComponentDataType::Float,
            )
            .err(),
            Some(OGLError::GL(OUT_OF_MEMORY))
        );
        assert_eq!(pointers.take_calls(), vec![GlCall::DeleteTexture(u32::MAX - needed)]);
    }
}
