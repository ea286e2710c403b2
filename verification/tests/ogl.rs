use shader_preview::ogl::ChannelCount;
use shader_preview::ogl::AttributeComponentDataType;
use shader_preview::ogl::TextureComponentDataType;
use shader_preview::ogl::FunctionPointers;
use shader_preview::ogl::GlCall;
use shader_preview::ogl::Image;
use shader_preview::ogl::InterpolationType;
use shader_preview::ogl::LocationOf;
use shader_preview::ogl::OGLError;
use shader_preview::ogl::Uniform;
use shader_preview::ogl::WrapMode;
use shader_preview::ogl::COLOR_BUFFER_BIT;
use shader_preview::ogl::FRAGMENT_SHADER;
use shader_preview::ogl::FRAMEBUFFER_COMPLETE;
use shader_preview::ogl::FRAMEBUFFER_UNSUPPORTED;
use shader_preview::ogl::INVALID_ENUM;
use shader_preview::ogl::INVALID_OPERATION;
use shader_preview::ogl::NO_ERROR;
use shader_preview::ogl::OUT_OF_MEMORY;
use shader_preview::ogl::TRIANGLES;
use shader_preview::ogl::VERTEX_SHADER;
use shader_preview::raii::FramebufferObject;
use shader_preview::raii::Program;
use shader_preview::raii::Shader;
use shader_preview::raii::Texture;
use shader_preview::raii::VertexArrayObject;
use shader_preview::raii::VertexBufferObject;

#[test]
fn recorder_starts_empty() {
    let mut pointers = FunctionPointers::new();
    assert_eq!(pointers.spare(), u32::MAX);
    assert!(pointers.take_calls().is_empty());
    let pointers = FunctionPointers::resume(10);
    assert_eq!(pointers.spare(), u32::MAX - 10);
}

#[test]
fn names_are_handed_out_in_order() {
    let mut pointers = FunctionPointers::new();
    assert_eq!(pointers.fresh(), 0);
    assert_eq!(pointers.fresh(), 1);
    let buffer = VertexBufferObject::new(&mut pointers);
    let texture = Texture::new(&mut pointers);
    assert_eq!(buffer.handle(), 2);
    assert_eq!(texture.handle(), 3);
    assert_eq!(pointers.spare(), u32::MAX - 4);
    assert_eq!(pointers.take_calls(), vec![GlCall::GenBuffer(2), GlCall::GenTexture(3)]);
}

#[test]
fn calls_are_recorded_in_order_and_taken_once() {
    let mut pointers = FunctionPointers::new();
    pointers.bind_default_framebuffer();
    pointers.clear(COLOR_BUFFER_BIT);
    pointers.viewport([1, -2], [30, 40]);
    pointers.active_texture(3);
    pointers.draw_elements(TRIANGLES, vec![0, 1, 2]);
    pointers.clear_errors();
    assert_eq!(
        pointers.take_calls(),
        vec![
            GlCall::BindDefaultFramebuffer,
            GlCall::Clear(0x4000),
            GlCall::Viewport { origin: [1, -2], resolution: [30, 40] },
            GlCall::ActiveTexture(3),
            GlCall::DrawElements { mode: 4, indices: vec![0, 1, 2] },
            GlCall::ClearErrors,
        ]
    );
    assert!(pointers.take_calls().is_empty());
}

#[test]
fn objects_record_their_calls() {
    let mut pointers = FunctionPointers::new();
    let buffer = VertexBufferObject::new(&mut pointers);
    buffer.bind(&mut pointers);
    buffer.fill(&mut pointers, AttributeComponentDataType::Double, vec![-1, 1]);
    let vertex = Shader::compile(&mut pointers, VERTEX_SHADER, "v");
    let fragment = Shader::compile(&mut pointers, FRAGMENT_SHADER, "f");
    let program = Program::link(&mut pointers, &vertex, &fragment);
    program.use_program(&mut pointers);
    program.set_uniform(&mut pointers, "x", Uniform::UnsignedInt(9), true);
    let array = VertexArrayObject::new(&mut pointers);
    array.bind(&mut pointers);
    array.attach_buffer(&mut pointers, &program, "corners", AttributeComponentDataType::Float, 4);
    let texture = Texture::new(&mut pointers);
    texture.bind(&mut pointers);
    texture.setup(
        &mut pointers,
        Some(WrapMode::ClampToEdge),
        InterpolationType::Linear,
        InterpolationType::Nearest,
        None,
    );
    texture.fill(
        &mut pointers,
        Image {
            data: Some(vec![1, 2, 3]),
            resolution: [1, 1],
            channels: ChannelCount::Three,
            component: TextureComponentDataType::UnsignedByte,
        },
        true,
    );
    let framebuffer = FramebufferObject::new(&mut pointers);
    framebuffer.bind(&mut pointers);
    framebuffer.attach_color(&mut pointers, &texture);
    framebuffer.release(&mut pointers);
    texture.release(&mut pointers);
    array.release(&mut pointers);
    program.release(&mut pointers);
    fragment.release(&mut pointers);
    vertex.release(&mut pointers);
    buffer.release(&mut pointers);
    assert_eq!(
        pointers.take_calls(),
        vec![
            GlCall::GenBuffer(0),
            GlCall::BindBuffer(0),
            GlCall::BufferData { kind: AttributeComponentDataType::Double, values: vec![-1, 1] },
            GlCall::CompileShader { shader: 1, stage: VERTEX_SHADER, source: String::from("v") },
            GlCall::CompileShader { shader: 2, stage: FRAGMENT_SHADER, source: String::from("f") },
            GlCall::LinkProgram { program: 3, vertex: 1, fragment: 2 },
            GlCall::UseProgram(3),
            GlCall::SetUniform {
                program: 3,
                name: String::from("x"),
                value: Uniform::UnsignedInt(9),
                required: true,
            },
            GlCall::GenVertexArray(4),
            GlCall::BindVertexArray(4),
            GlCall::AttachBuffer {
                program: 3,
                attribute: String::from("corners"),
                kind: AttributeComponentDataType::Float,
                components: 4,
            },
            GlCall::GenTexture(5),
            GlCall::BindTexture(5),
            GlCall::SetupTexture {
                wrap_mode: Some(WrapMode::ClampToEdge),
                minification_filter: InterpolationType::Linear,
                magnification_filter: InterpolationType::Nearest,
                mipmap_filter: None,
            },
            GlCall::FillTexture {
                image: Image {
                    data: Some(vec![1, 2, 3]),
                    resolution: [1, 1],
                    channels: ChannelCount::Three,
                    component: TextureComponentDataType::UnsignedByte,
                },
                mipmap: true,
            },
            GlCall::GenFramebuffer(6),
            GlCall::BindFramebuffer(6),
            GlCall::AttachColor(5),
            GlCall::DeleteFramebuffer(6),
            GlCall::DeleteTexture(5),
            GlCall::DeleteVertexArray(4),
            GlCall::DeleteProgram(3),
            GlCall::DeleteShader(2),
            GlCall::DeleteShader(1),
            GlCall::DeleteBuffer(0),
        ]
    );
}

#[test]
fn compile_verdict() {
    assert_eq!(Shader::compiled(1, None), Ok(()));
    assert_eq!(Shader::compiled(1, Some(String::from("warning"))), Ok(()));
    assert_eq!(Shader::compiled(257, None), Ok(()));
    assert_eq!(
        Shader::compiled(0, Some(String::from("0(1) : error C0000: syntax error"))),
        Err(OGLError::ShaderCompilation(String::from("0(1) : error C0000: syntax error")))
    );
    assert_eq!(
        Shader::compiled(0, None),
        Err(OGLError::ShaderCompilation(String::from("Unknown shader compilation error")))
    );
    assert_eq!(
        Shader::compiled(256, None),
        Err(OGLError::ShaderCompilation(String::from("Unknown shader compilation error")))
    );
}

#[test]
fn link_verdict() {
    assert_eq!(Program::linked(1, None), Ok(()));
    assert_eq!(
        Program::linked(0, Some(String::from("no main"))),
        Err(OGLError::ProgramLinking(String::from("no main")))
    );
    assert_eq!(
        Program::linked(2, None),
        Err(OGLError::ProgramLinking(String::from("Unknown program linking error")))
    );
}

#[test]
fn location_verdict() {
    assert_eq!(Program::location("corners", 0, LocationOf::Attribute), Ok(0));
    assert_eq!(Program::location("time", 7, LocationOf::Uniform), Ok(7));
    assert_eq!(Program::location("time", -2, LocationOf::Uniform), Ok(-2));
    assert_eq!(
        Program::location("corners", -1, LocationOf::Attribute),
        Err(OGLError::AttributeNotFound(String::from("corners")))
    );
    assert_eq!(
        Program::location("time", -1, LocationOf::Uniform),
        Err(OGLError::UniformNotFound(String::from("time")))
    );
}

#[test]
fn framebuffer_verdict() {
    assert_eq!(FramebufferObject::attached(FRAMEBUFFER_COMPLETE, NO_ERROR), Ok(()));
    assert_eq!(FramebufferObject::attached(FRAMEBUFFER_COMPLETE, INVALID_ENUM), Ok(()));
    assert_eq!(FramebufferObject::attached(0, INVALID_ENUM), Err(OGLError::GL(INVALID_ENUM)));
    assert_eq!(FramebufferObject::attached(0, NO_ERROR), Err(OGLError::GL(NO_ERROR)));
    assert_eq!(
        FramebufferObject::attached(FRAMEBUFFER_UNSUPPORTED, NO_ERROR),
        Err(OGLError::FramebufferCreation(FRAMEBUFFER_UNSUPPORTED))
    );
}

#[test]
fn error_flag_verdict() {
    assert_eq!(FunctionPointers::get_error(NO_ERROR), Ok(()));
    assert_eq!(FunctionPointers::get_error(INVALID_OPERATION), Err(OGLError::GL(INVALID_OPERATION)));
}

#[test]
fn error_messages() {
    assert_eq!(OGLError::ShaderCompilation(String::from("the log")).message(), "the log");
    assert_eq!(OGLError::ProgramLinking(String::from("the other log")).message(), "the other log");
    assert_eq!(OGLError::AttributeCreate(String::from("why")).message(), "why");
    assert_eq!(
        OGLError::AttributeNotFound(String::from("corners")).message(),
        "Named attribute variable `corners` is not an active attribute in the specified\n                program object or name starts with the reserved prefix `gl_`"
    );
    assert_eq!(
        OGLError::UniformNotFound(String::from("a")).message(),
        "Uniform `a` does not correspond to an active uniform variable in program or\n                name is associated with a named uniform block"
    );
    assert_eq!(
        OGLError::FramebufferCreation(FRAMEBUFFER_UNSUPPORTED).message(),
        "The combination of internal formats of the attached images violates an\n                        implementation-dependent set of restrictions"
    );
    assert_eq!(
        OGLError::FramebufferCreation(0x8219).message(),
        "Target is the default framebuffer,\n                        but the default framebuffer does not exist"
    );
    assert_eq!(
        OGLError::FramebufferCreation(0x8CD6).message(),
        "Some of the framebuffer attachment points are framebuffer incomplete"
    );
    assert_eq!(
        OGLError::FramebufferCreation(0x8CD7).message(),
        "Framebuffer has to have at least one image attached to it"
    );
    assert_eq!(
        OGLError::FramebufferCreation(0x8CDB).message(),
        "The value of GL_FRAMEBUFFER_ATTACHMENT_OBJECT_TYPE is GL_NONE for any color\n                        attachment point(s) named by GL_DRAW_BUFFERi"
    );
    assert_eq!(
        OGLError::FramebufferCreation(0x8CDC).message(),
        "GL_READ_BUFFER is not GL_NONE and the value of\n                        GL_FRAMEBUFFER_ATTACHMENT_OBJECT_TYPE is GL_NONE for the color attachment\n                        point named by GL_READ_BUFFER"
    );
    assert_eq!(
        OGLError::FramebufferCreation(0x8D56).message(),
        "#1 The value of GL_RENDERBUFFER_SAMPLES is not the same for all attached\n                        renderbuffers; or the value of GL_TEXTURE_SAMPLES is the not same for all\n                        attached textures; or the attached images are a mix of renderbuffers and\n                        textures, the value of GL_RENDERBUFFER_SAMPLES does not match the value of\n                        GL_TEXTURE_SAMPLES.\n                        #2 The value of GL_TEXTURE_FIXED_SAMPLE_LOCATIONS is not the same for all\n                        #attached textures; or the attached images are a mix of renderbuffers and\n                        #textures, the value of GL_TEXTURE_FIXED_SAMPLE_LOCATIONS is not GL_TRUE\n                        #for all attached textures"
    );
    assert_eq!(
        OGLError::FramebufferCreation(0x8DA8).message(),
        "Any framebuffer attachment is layered, and any populated attachment is not\n                        layered, or all populated color attachments are not from textures of the\n                        same target"
    );
    assert_eq!(OGLError::FramebufferCreation(1).message(), "Unknown framebuffer error");
    assert_eq!(
        OGLError::GL(OUT_OF_MEMORY).message(),
        "There is not enough memory left to execute the command"
    );
    assert_eq!(OGLError::GL(NO_ERROR).message(), "Conflicting error reports");
    assert_eq!(OGLError::GL(1).message(), "Unknown OpenGL error");
    assert_eq!(ChannelCount::Three.count(), 3);
}

#[test]
fn driver_numbers_of_the_types() {
    assert_eq!(TextureComponentDataType::UnsignedByte.type_enum(), 0x1401);
    assert_eq!(TextureComponentDataType::Byte.type_enum(), 0x1400);
    assert_eq!(TextureComponentDataType::UnsignedShort.type_enum(), 0x1403);
    assert_eq!(TextureComponentDataType::Short.type_enum(), 0x1402);
    assert_eq!(TextureComponentDataType::UnsignedInt.type_enum(), 0x1405);
    assert_eq!(TextureComponentDataType::Int.type_enum(), 0x1404);
    assert_eq!(TextureComponentDataType::Float.type_enum(), 0x1406);
    assert_eq!(AttributeComponentDataType::Float.type_enum(), 0x1406);
    assert_eq!(AttributeComponentDataType::Double.type_enum(), 0x140A);
    assert_eq!(AttributeComponentDataType::UnsignedByte.type_enum(), 0x1401);
    assert_eq!(TextureComponentDataType::UnsignedByte.internal_format(), 0x8058);
    assert_eq!(TextureComponentDataType::Byte.internal_format(), 0x8058);
    assert_eq!(TextureComponentDataType::UnsignedShort.internal_format(), 0x805B);
    assert_eq!(TextureComponentDataType::Short.internal_format(), 0x805B);
    assert_eq!(TextureComponentDataType::UnsignedInt.internal_format(), 0x8814);
    assert_eq!(TextureComponentDataType::Int.internal_format(), 0x8814);
    assert_eq!(TextureComponentDataType::Float.internal_format(), 0x8814);
}

#[test]
fn driver_numbers_of_the_texture_settings() {
    assert_eq!(ChannelCount::One.format(), 0x1903);
    assert_eq!(ChannelCount::Two.format(), 0x8227);
    assert_eq!(ChannelCount::Three.format(), 0x1907);
    assert_eq!(ChannelCount::Four.format(), 0x1908);
    assert_eq!(WrapMode::Repeat.wrap(), 0x2901);
    assert_eq!(WrapMode::MirroredRepeat.wrap(), 0x8370);
    assert_eq!(WrapMode::ClampToEdge.wrap(), 0x812F);
    assert_eq!(InterpolationType::Nearest.magnification(), 0x2600);
    assert_eq!(InterpolationType::Linear.magnification(), 0x2601);
    assert_eq!(InterpolationType::Nearest.minification(None), 0x2600);
    assert_eq!(InterpolationType::Linear.minification(None), 0x2601);
    assert_eq!(InterpolationType::Nearest.minification(Some(InterpolationType::Nearest)), 0x2700);
    assert_eq!(InterpolationType::Linear.minification(Some(InterpolationType::Nearest)), 0x2701);
    assert_eq!(InterpolationType::Nearest.minification(Some(InterpolationType::Linear)), 0x2702);
    assert_eq!(InterpolationType::Linear.minification(Some(InterpolationType::Linear)), 0x2703);
}
