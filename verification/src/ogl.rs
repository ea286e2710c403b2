//! The graphics interface: the calls that the engine makes on the graphics
//! backend, as values, the recorder that collects them, and the errors that
//! the backend reports.
//!
//! Nothing here touches a graphics driver. The engine records calls; whoever
//! drives it hands them to the backend in order, stops at the first call that
//! fails, and reports the verdict back.

use crate::timeline::FrameTime;
use vstd::prelude::*;
use vstd::string::StringExecFns;

verus! {

pub type GLenum = u32;

pub type GLuint = u32;

pub type GLint = i32;

pub type GLbitfield = u32;

pub const VERTEX_SHADER: GLenum = 0x8B31;

pub const FRAGMENT_SHADER: GLenum = 0x8B30;

pub const TRIANGLES: GLenum = 0x0004;

pub const COLOR_BUFFER_BIT: GLbitfield = 0x4000;

pub const DEPTH_BUFFER_BIT: GLbitfield = 0x0100;

pub const NO_ERROR: GLenum = 0;

pub const INVALID_ENUM: GLenum = 0x0500;

pub const INVALID_VALUE: GLenum = 0x0501;

pub const INVALID_OPERATION: GLenum = 0x0502;

pub const OUT_OF_MEMORY: GLenum = 0x0505;

pub const INVALID_FRAMEBUFFER_OPERATION: GLenum = 0x0506;

pub const FRAMEBUFFER_COMPLETE: GLenum = 0x8CD5;

pub const FRAMEBUFFER_UNDEFINED: GLenum = 0x8219;

pub const FRAMEBUFFER_INCOMPLETE_ATTACHMENT: GLenum = 0x8CD6;

pub const FRAMEBUFFER_INCOMPLETE_MISSING_ATTACHMENT: GLenum = 0x8CD7;

pub const FRAMEBUFFER_INCOMPLETE_DRAW_BUFFER: GLenum = 0x8CDB;

pub const FRAMEBUFFER_INCOMPLETE_READ_BUFFER: GLenum = 0x8CDC;

pub const FRAMEBUFFER_UNSUPPORTED: GLenum = 0x8CDD;

pub const FRAMEBUFFER_INCOMPLETE_MULTISAMPLE: GLenum = 0x8D56;

pub const FRAMEBUFFER_INCOMPLETE_LAYER_TARGETS: GLenum = 0x8DA8;

pub const BYTE: GLenum = 0x1400;

pub const UNSIGNED_BYTE: GLenum = 0x1401;

pub const SHORT: GLenum = 0x1402;

pub const UNSIGNED_SHORT: GLenum = 0x1403;

pub const INT: GLenum = 0x1404;

pub const UNSIGNED_INT: GLenum = 0x1405;

pub const FLOAT: GLenum = 0x1406;

pub const DOUBLE: GLenum = 0x140A;

pub const RED: GLenum = 0x1903;

pub const RG: GLenum = 0x8227;

pub const RGB: GLenum = 0x1907;

pub const RGBA: GLenum = 0x1908;

pub const RGBA8: GLenum = 0x8058;

pub const RGBA16: GLenum = 0x805B;

pub const RGBA32F: GLenum = 0x8814;

pub const NEAREST: GLenum = 0x2600;

pub const LINEAR: GLenum = 0x2601;

pub const NEAREST_MIPMAP_NEAREST: GLenum = 0x2700;

pub const LINEAR_MIPMAP_NEAREST: GLenum = 0x2701;

pub const NEAREST_MIPMAP_LINEAR: GLenum = 0x2702;

pub const LINEAR_MIPMAP_LINEAR: GLenum = 0x2703;

pub const REPEAT: GLenum = 0x2901;

pub const MIRRORED_REPEAT: GLenum = 0x8370;

pub const CLAMP_TO_EDGE: GLenum = 0x812F;

// ------------------------------------------------------------
// Errors

/// What the graphics backend can report.
#[derive(Debug, PartialEq, Eq)]
pub enum OGLError {
    /// A shader did not compile; the compiler's log.
    ShaderCompilation(String),
    /// A program did not link; the linker's log.
    ProgramLinking(String),
    AttributeCreate(String),
    /// The program has no active attribute of this name.
    AttributeNotFound(String),
    /// The program has no active uniform of this name.
    UniformNotFound(String),
    /// The framebuffer is not complete; its status.
    FramebufferCreation(GLenum),
    /// The driver raised this error flag.
    GL(GLenum),
}

pub type OGLResult<T> = Result<T, OGLError>;

/// What a framebuffer status means.
pub open spec fn status_text(status: GLenum) -> Seq<char> {
    if status == FRAMEBUFFER_UNDEFINED {
        "Target is the default framebuffer,\n                        but the default framebuffer does not exist"@
    } else if status == FRAMEBUFFER_INCOMPLETE_ATTACHMENT {
        "Some of the framebuffer attachment points are framebuffer incomplete"@
    } else if status == FRAMEBUFFER_INCOMPLETE_MISSING_ATTACHMENT {
        "Framebuffer has to have at least one image attached to it"@
    } else if status == FRAMEBUFFER_INCOMPLETE_DRAW_BUFFER {
        "The value of GL_FRAMEBUFFER_ATTACHMENT_OBJECT_TYPE is GL_NONE for any color\n                        attachment point(s) named by GL_DRAW_BUFFERi"@
    } else if status == FRAMEBUFFER_INCOMPLETE_READ_BUFFER {
        "GL_READ_BUFFER is not GL_NONE and the value of\n                        GL_FRAMEBUFFER_ATTACHMENT_OBJECT_TYPE is GL_NONE for the color attachment\n                        point named by GL_READ_BUFFER"@
    } else if status == FRAMEBUFFER_UNSUPPORTED {
        "The combination of internal formats of the attached images violates an\n                        implementation-dependent set of restrictions"@
    } else if status == FRAMEBUFFER_INCOMPLETE_MULTISAMPLE {
        "#1 The value of GL_RENDERBUFFER_SAMPLES is not the same for all attached\n                        renderbuffers; or the value of GL_TEXTURE_SAMPLES is the not same for all\n                        attached textures; or the attached images are a mix of renderbuffers and\n                        textures, the value of GL_RENDERBUFFER_SAMPLES does not match the value of\n                        GL_TEXTURE_SAMPLES.\n                        #2 The value of GL_TEXTURE_FIXED_SAMPLE_LOCATIONS is not the same for all\n                        #attached textures; or the attached images are a mix of renderbuffers and\n                        #textures, the value of GL_TEXTURE_FIXED_SAMPLE_LOCATIONS is not GL_TRUE\n                        #for all attached textures"@
    } else if status == FRAMEBUFFER_INCOMPLETE_LAYER_TARGETS {
        "Any framebuffer attachment is layered, and any populated attachment is not\n                        layered, or all populated color attachments are not from textures of the\n                        same target"@
    } else {
        "Unknown framebuffer error"@
    }
}

/// What an error flag means.
pub open spec fn flag_text(flag: GLenum) -> Seq<char> {
    if flag == INVALID_ENUM {
        "An unacceptable value is specified for an enumerated argument"@
    } else if flag == INVALID_VALUE {
        "A numeric argument is out of range."@
    } else if flag == INVALID_OPERATION {
        "The specified operation is not allowed in the current state"@
    } else if flag == INVALID_FRAMEBUFFER_OPERATION {
        "The framebuffer object is not complete"@
    } else if flag == OUT_OF_MEMORY {
        "There is not enough memory left to execute the command"@
    } else if flag == NO_ERROR {
        "Conflicting error reports"@
    } else {
        "Unknown OpenGL error"@
    }
}

fn describe_status(status: GLenum) -> (text: &'static str)
    ensures
        text@ == status_text(status),
{
    if status == FRAMEBUFFER_UNDEFINED {
        "Target is the default framebuffer,\n                        but the default framebuffer does not exist"
    } else if status == FRAMEBUFFER_INCOMPLETE_ATTACHMENT {
        "Some of the framebuffer attachment points are framebuffer incomplete"
    } else if status == FRAMEBUFFER_INCOMPLETE_MISSING_ATTACHMENT {
        "Framebuffer has to have at least one image attached to it"
    } else if status == FRAMEBUFFER_INCOMPLETE_DRAW_BUFFER {
        "The value of GL_FRAMEBUFFER_ATTACHMENT_OBJECT_TYPE is GL_NONE for any color\n                        attachment point(s) named by GL_DRAW_BUFFERi"
    } else if status == FRAMEBUFFER_INCOMPLETE_READ_BUFFER {
        "GL_READ_BUFFER is not GL_NONE and the value of\n                        GL_FRAMEBUFFER_ATTACHMENT_OBJECT_TYPE is GL_NONE for the color attachment\n                        point named by GL_READ_BUFFER"
    } else if status == FRAMEBUFFER_UNSUPPORTED {
        "The combination of internal formats of the attached images violates an\n                        implementation-dependent set of restrictions"
    } else if status == FRAMEBUFFER_INCOMPLETE_MULTISAMPLE {
        "#1 The value of GL_RENDERBUFFER_SAMPLES is not the same for all attached\n                        renderbuffers; or the value of GL_TEXTURE_SAMPLES is the not same for all\n                        attached textures; or the attached images are a mix of renderbuffers and\n                        textures, the value of GL_RENDERBUFFER_SAMPLES does not match the value of\n                        GL_TEXTURE_SAMPLES.\n                        #2 The value of GL_TEXTURE_FIXED_SAMPLE_LOCATIONS is not the same for all\n                        #attached textures; or the attached images are a mix of renderbuffers and\n                        #textures, the value of GL_TEXTURE_FIXED_SAMPLE_LOCATIONS is not GL_TRUE\n                        #for all attached textures"
    } else if status == FRAMEBUFFER_INCOMPLETE_LAYER_TARGETS {
        "Any framebuffer attachment is layered, and any populated attachment is not\n                        layered, or all populated color attachments are not from textures of the\n                        same target"
    } else {
        "Unknown framebuffer error"
    }
}

fn describe_flag(flag: GLenum) -> (text: &'static str)
    ensures
        text@ == flag_text(flag),
{
    if flag == INVALID_ENUM {
        "An unacceptable value is specified for an enumerated argument"
    } else if flag == INVALID_VALUE {
        "A numeric argument is out of range."
    } else if flag == INVALID_OPERATION {
        "The specified operation is not allowed in the current state"
    } else if flag == INVALID_FRAMEBUFFER_OPERATION {
        "The framebuffer object is not complete"
    } else if flag == OUT_OF_MEMORY {
        "There is not enough memory left to execute the command"
    } else if flag == NO_ERROR {
        "Conflicting error reports"
    } else {
        "Unknown OpenGL error"
    }
}

impl OGLError {
    /// The message that tells the user what went wrong. For a shader that did
    /// not compile and a program that did not link it is the log itself.
    pub open spec fn text(&self) -> Seq<char> {
        match self {
            OGLError::ShaderCompilation(log) => log@,
            OGLError::ProgramLinking(log) => log@,
            OGLError::AttributeCreate(description) => description@,
            OGLError::AttributeNotFound(name) => "Named attribute variable `"@ + name@
                + "` is not an active attribute in the specified\n                program object or name starts with the reserved prefix `gl_`"@,
            OGLError::UniformNotFound(name) => "Uniform `"@ + name@
                + "` does not correspond to an active uniform variable in program or\n                name is associated with a named uniform block"@,
            OGLError::FramebufferCreation(status) => status_text(*status),
            OGLError::GL(flag) => flag_text(*flag),
        }
    }

    pub fn message(&self) -> (text: String)
        ensures
            text@ == self.text(),
    {
        match self {
            OGLError::ShaderCompilation(log) => log.clone(),
            OGLError::ProgramLinking(log) => log.clone(),
            OGLError::AttributeCreate(description) => description.clone(),
            OGLError::AttributeNotFound(name) => {
                let mut text = String::from_str("Named attribute variable `");
                text.append(name.as_str());
                text.append(
                    "` is not an active attribute in the specified\n                program object or name starts with the reserved prefix `gl_`",
                );
                text
            },
            OGLError::UniformNotFound(name) => {
                let mut text = String::from_str("Uniform `");
                text.append(name.as_str());
                text.append(
                    "` does not correspond to an active uniform variable in program or\n                name is associated with a named uniform block",
                );
                text
            },
            OGLError::FramebufferCreation(status) => String::from_str(describe_status(*status)),
            OGLError::GL(flag) => String::from_str(describe_flag(*flag)),
        }
    }
}

// ------------------------------------------------------------
// Small choices

/// What a name is looked up as in a program.
#[derive(Clone, Copy, Debug, PartialEq, Eq, Structural)]
pub enum LocationOf {
    Attribute,
    Uniform,
}

#[non_exhaustive]
#[derive(Clone, Copy, Debug, PartialEq, Eq, Structural)]
pub enum WrapMode {
    Repeat,
    MirroredRepeat,
    ClampToEdge,
}

#[derive(Clone, Copy, Debug, PartialEq, Eq, Structural)]
pub enum InterpolationType {
    Nearest,
    Linear,
}

/// The number of channels of an image.
#[derive(Clone, Copy, Debug, PartialEq, Eq, Structural)]
pub enum ChannelCount {
    One,
    Two,
    Three,
    Four,
}

impl ChannelCount {
    pub open spec fn spec_count(self) -> u8 {
        match self {
            ChannelCount::One => 1,
            ChannelCount::Two => 2,
            ChannelCount::Three => 3,
            ChannelCount::Four => 4,
        }
    }

    pub fn count(self) -> (count: u8)
        ensures
            count == self.spec_count(),
    {
        match self {
            ChannelCount::One => 1,
            ChannelCount::Two => 2,
            ChannelCount::Three => 3,
            ChannelCount::Four => 4,
        }
    }

    /// The number by which the driver knows the layout of the channels.
    pub open spec fn spec_format(self) -> GLenum {
        match self {
            ChannelCount::One => RED,
            ChannelCount::Two => RG,
            ChannelCount::Three => RGB,
            ChannelCount::Four => RGBA,
        }
    }

    pub fn format(self) -> (number: GLenum)
        ensures
            number == self.spec_format(),
    {
        match self {
            ChannelCount::One => RED,
            ChannelCount::Two => RG,
            ChannelCount::Three => RGB,
            ChannelCount::Four => RGBA,
        }
    }
}

/// The type of the numbers in a texture.
#[derive(Clone, Copy, Debug, PartialEq, Eq, Structural)]
pub enum TextureComponentDataType {
    UnsignedByte,
    Byte,
    UnsignedShort,
    Short,
    UnsignedInt,
    Int,
    Float,
}

/// The type of the numbers in a vertex buffer.
#[derive(Clone, Copy, Debug, PartialEq, Eq, Structural)]
pub enum AttributeComponentDataType {
    UnsignedByte,
    Byte,
    UnsignedShort,
    Short,
    UnsignedInt,
    Int,
    Float,
    Double,
}

impl TextureComponentDataType {
    /// The number by which the driver knows the type.
    pub open spec fn spec_type_enum(self) -> GLenum {
        match self {
            TextureComponentDataType::UnsignedByte => UNSIGNED_BYTE,
            TextureComponentDataType::Byte => BYTE,
            TextureComponentDataType::UnsignedShort => UNSIGNED_SHORT,
            TextureComponentDataType::Short => SHORT,
            TextureComponentDataType::UnsignedInt => UNSIGNED_INT,
            TextureComponentDataType::Int => INT,
            TextureComponentDataType::Float => FLOAT,
        }
    }

    pub fn type_enum(self) -> (number: GLenum)
        ensures
            number == self.spec_type_enum(),
    {
        match self {
            TextureComponentDataType::UnsignedByte => UNSIGNED_BYTE,
            TextureComponentDataType::Byte => BYTE,
            TextureComponentDataType::UnsignedShort => UNSIGNED_SHORT,
            TextureComponentDataType::Short => SHORT,
            TextureComponentDataType::UnsignedInt => UNSIGNED_INT,
            TextureComponentDataType::Int => INT,
            TextureComponentDataType::Float => FLOAT,
        }
    }

    /// The format in which the driver keeps a texture of numbers of the
    /// type: four channels of eight bits for bytes, of sixteen bits for
    /// shorts, and of 32-bit floats for the wider types.
    pub open spec fn spec_internal_format(self) -> GLenum {
        match self {
            TextureComponentDataType::UnsignedByte | TextureComponentDataType::Byte => RGBA8,
            TextureComponentDataType::UnsignedShort | TextureComponentDataType::Short => RGBA16,
            TextureComponentDataType::UnsignedInt
            | TextureComponentDataType::Int
            | TextureComponentDataType::Float => RGBA32F,
        }
    }

    pub fn internal_format(self) -> (number: GLenum)
        ensures
            number == self.spec_internal_format(),
    {
        match self {
            TextureComponentDataType::UnsignedByte | TextureComponentDataType::Byte => RGBA8,
            TextureComponentDataType::UnsignedShort | TextureComponentDataType::Short => RGBA16,
            TextureComponentDataType::UnsignedInt
            | TextureComponentDataType::Int
            | TextureComponentDataType::Float => RGBA32F,
        }
    }
}

impl AttributeComponentDataType {
    /// The number by which the driver knows the type.
    pub open spec fn spec_type_enum(self) -> GLenum {
        match self {
            AttributeComponentDataType::UnsignedByte => UNSIGNED_BYTE,
            AttributeComponentDataType::Byte => BYTE,
            AttributeComponentDataType::UnsignedShort => UNSIGNED_SHORT,
            AttributeComponentDataType::Short => SHORT,
            AttributeComponentDataType::UnsignedInt => UNSIGNED_INT,
            AttributeComponentDataType::Int => INT,
            AttributeComponentDataType::Float => FLOAT,
            AttributeComponentDataType::Double => DOUBLE,
        }
    }

    pub fn type_enum(self) -> (number: GLenum)
        ensures
            number == self.spec_type_enum(),
    {
        match self {
            AttributeComponentDataType::UnsignedByte => UNSIGNED_BYTE,
            AttributeComponentDataType::Byte => BYTE,
            AttributeComponentDataType::UnsignedShort => UNSIGNED_SHORT,
            AttributeComponentDataType::Short => SHORT,
            AttributeComponentDataType::UnsignedInt => UNSIGNED_INT,
            AttributeComponentDataType::Int => INT,
            AttributeComponentDataType::Float => FLOAT,
            AttributeComponentDataType::Double => DOUBLE,
        }
    }
}

impl WrapMode {
    /// The number by which the driver knows the wrap mode.
    pub open spec fn spec_wrap(self) -> GLenum {
        match self {
            WrapMode::Repeat => REPEAT,
            WrapMode::MirroredRepeat => MIRRORED_REPEAT,
            WrapMode::ClampToEdge => CLAMP_TO_EDGE,
        }
    }

    pub fn wrap(self) -> (number: GLenum)
        ensures
            number == self.spec_wrap(),
    {
        match self {
            WrapMode::Repeat => REPEAT,
            WrapMode::MirroredRepeat => MIRRORED_REPEAT,
            WrapMode::ClampToEdge => CLAMP_TO_EDGE,
        }
    }
}

impl InterpolationType {
    /// The number by which the driver knows the filter that magnifies.
    pub open spec fn spec_magnification(self) -> GLenum {
        match self {
            InterpolationType::Nearest => NEAREST,
            InterpolationType::Linear => LINEAR,
        }
    }

    pub fn magnification(self) -> (number: GLenum)
        ensures
            number == self.spec_magnification(),
    {
        match self {
            InterpolationType::Nearest => NEAREST,
            InterpolationType::Linear => LINEAR,
        }
    }

    /// The number by which the driver knows the filter that minifies, with
    /// the filter between mipmaps if there are mipmaps.
    pub open spec fn spec_minification(self, mipmap: Option<InterpolationType>) -> GLenum {
        match (self, mipmap) {
            (InterpolationType::Nearest, Some(InterpolationType::Nearest)) => NEAREST_MIPMAP_NEAREST,
            (InterpolationType::Nearest, Some(InterpolationType::Linear)) => NEAREST_MIPMAP_LINEAR,
            (InterpolationType::Linear, Some(InterpolationType::Nearest)) => LINEAR_MIPMAP_NEAREST,
            (InterpolationType::Linear, Some(InterpolationType::Linear)) => LINEAR_MIPMAP_LINEAR,
            (InterpolationType::Nearest, None) => NEAREST,
            (InterpolationType::Linear, None) => LINEAR,
        }
    }

    pub fn minification(self, mipmap: Option<InterpolationType>) -> (number: GLenum)
        ensures
            number == self.spec_minification(mipmap),
    {
        match mipmap {
            Some(InterpolationType::Nearest) => match self {
                InterpolationType::Nearest => NEAREST_MIPMAP_NEAREST,
                InterpolationType::Linear => LINEAR_MIPMAP_NEAREST,
            },
            Some(InterpolationType::Linear) => match self {
                InterpolationType::Nearest => NEAREST_MIPMAP_LINEAR,
                InterpolationType::Linear => LINEAR_MIPMAP_LINEAR,
            },
            None => match self {
                InterpolationType::Nearest => NEAREST,
                InterpolationType::Linear => LINEAR,
            },
        }
    }
}

/// A value for a uniform of a program.
#[derive(Clone, Copy, Debug, PartialEq, Eq)]
pub enum Uniform {
    Int(GLint),
    UnsignedInt(GLuint),
    /// A floating-point number of seconds: a count of frames over the frame
    /// rate.
    Seconds(FrameTime),
}

/// An image for a texture: its size and layout, and its samples as the bytes
/// that the backend takes, row 0 at the bottom. Without samples the texture
/// is only given its size.
#[derive(Debug, PartialEq, Eq)]
pub struct Image {
    pub data: Option<Vec<u8>>,
    pub resolution: [u32; 2],
    pub channels: ChannelCount,
    pub component: TextureComponentDataType,
}

// ------------------------------------------------------------
// Calls

/// A call on the graphics backend. Objects are named by numbers that the
/// recorder hands out; the backend keeps the objects under these names.
#[derive(Debug, PartialEq, Eq)]
pub enum GlCall {
    /// Creates a vertex buffer under the name.
    GenBuffer(GLuint),
    BindBuffer(GLuint),
    /// Fills the bound vertex buffer with the numbers, stored as `kind`.
    BufferData { kind: AttributeComponentDataType, values: Vec<i8> },
    DeleteBuffer(GLuint),
    /// Creates a vertex array under the name.
    GenVertexArray(GLuint),
    BindVertexArray(GLuint),
    /// Looks the attribute up in the program and feeds it from the bound
    /// vertex buffer, `components` numbers of type `kind` per vertex. Fails
    /// if the program has no such attribute or the driver raises an error.
    AttachBuffer { program: GLuint, attribute: String, kind: AttributeComponentDataType, components: GLint },
    DeleteVertexArray(GLuint),
    /// Creates a shader of the stage under the name and compiles the source.
    /// Fails with the compiler's log if the source does not compile.
    CompileShader { shader: GLuint, stage: GLenum, source: String },
    DeleteShader(GLuint),
    /// Creates a program under the name and links the two shaders into it.
    /// Fails with the linker's log if they do not link.
    LinkProgram { program: GLuint, vertex: GLuint, fragment: GLuint },
    UseProgram(GLuint),
    DeleteProgram(GLuint),
    /// Looks the uniform up in the program and sets it. If the program has
    /// no such uniform, the call fails if the uniform is required, and does
    /// nothing if it is not.
    SetUniform { program: GLuint, name: String, value: Uniform, required: bool },
    /// Creates a texture under the name.
    GenTexture(GLuint),
    BindTexture(GLuint),
    /// Sets wrapping and filtering of the bound texture.
    SetupTexture {
        wrap_mode: Option<WrapMode>,
        minification_filter: InterpolationType,
        magnification_filter: InterpolationType,
        mipmap_filter: Option<InterpolationType>,
    },
    /// Gives the bound texture its image, and mipmaps if asked.
    FillTexture { image: Image, mipmap: bool },
    DeleteTexture(GLuint),
    /// Creates a framebuffer under the name.
    GenFramebuffer(GLuint),
    BindFramebuffer(GLuint),
    /// Attaches the texture to the bound framebuffer as its color buffer.
    /// Fails if the framebuffer is not complete afterwards.
    AttachColor(GLuint),
    DeleteFramebuffer(GLuint),
    /// Binds the presentation surface.
    BindDefaultFramebuffer,
    Viewport { origin: [i32; 2], resolution: [u32; 2] },
    /// Clears the buffers that the mask names in the bound framebuffer.
    Clear(GLbitfield),
    /// Draws the bound vertex array with the program in use into the bound
    /// framebuffer.
    DrawElements { mode: GLenum, indices: Vec<u8> },
    /// Selects the texture unit that `BindTexture` binds to.
    ActiveTexture(GLenum),
    /// Forgets the error flags that the driver has raised.
    ClearErrors,
}

/// An image, as contracts see it.
pub struct ImageView {
    pub data: Option<Seq<u8>>,
    pub resolution: (u32, u32),
    pub channels: ChannelCount,
    pub component: TextureComponentDataType,
}

impl View for Image {
    type V = ImageView;

    open spec fn view(&self) -> ImageView {
        ImageView {
            data: match self.data {
                Some(data) => Some(data@),
                None => None,
            },
            resolution: (self.resolution@[0], self.resolution@[1]),
            channels: self.channels,
            component: self.component,
        }
    }
}

/// A call, as contracts see it.
pub enum Call {
    GenBuffer(GLuint),
    BindBuffer(GLuint),
    BufferData { kind: AttributeComponentDataType, values: Seq<i8> },
    DeleteBuffer(GLuint),
    GenVertexArray(GLuint),
    BindVertexArray(GLuint),
    AttachBuffer { program: GLuint, attribute: Seq<char>, kind: AttributeComponentDataType, components: GLint },
    DeleteVertexArray(GLuint),
    CompileShader { shader: GLuint, stage: GLenum, source: Seq<char> },
    DeleteShader(GLuint),
    LinkProgram { program: GLuint, vertex: GLuint, fragment: GLuint },
    UseProgram(GLuint),
    DeleteProgram(GLuint),
    SetUniform { program: GLuint, name: Seq<char>, value: Uniform, required: bool },
    GenTexture(GLuint),
    BindTexture(GLuint),
    SetupTexture {
        wrap_mode: Option<WrapMode>,
        minification_filter: InterpolationType,
        magnification_filter: InterpolationType,
        mipmap_filter: Option<InterpolationType>,
    },
    FillTexture { image: ImageView, mipmap: bool },
    DeleteTexture(GLuint),
    GenFramebuffer(GLuint),
    BindFramebuffer(GLuint),
    AttachColor(GLuint),
    DeleteFramebuffer(GLuint),
    BindDefaultFramebuffer,
    Viewport { origin: (i32, i32), resolution: (u32, u32) },
    Clear(GLbitfield),
    DrawElements { mode: GLenum, indices: Seq<u8> },
    ActiveTexture(GLenum),
    ClearErrors,
}

impl View for GlCall {
    type V = Call;

    open spec fn view(&self) -> Call {
        match self {
            GlCall::GenBuffer(name) => Call::GenBuffer(*name),
            GlCall::BindBuffer(name) => Call::BindBuffer(*name),
            GlCall::BufferData { kind, values } => Call::BufferData {
                kind: *kind,
                values: values@,
            },
            GlCall::DeleteBuffer(name) => Call::DeleteBuffer(*name),
            GlCall::GenVertexArray(name) => Call::GenVertexArray(*name),
            GlCall::BindVertexArray(name) => Call::BindVertexArray(*name),
            GlCall::AttachBuffer { program, attribute, kind, components } => Call::AttachBuffer {
                program: *program,
                attribute: attribute@,
                kind: *kind,
                components: *components,
            },
            GlCall::DeleteVertexArray(name) => Call::DeleteVertexArray(*name),
            GlCall::CompileShader { shader, stage, source } => Call::CompileShader {
                shader: *shader,
                stage: *stage,
                source: source@,
            },
            GlCall::DeleteShader(name) => Call::DeleteShader(*name),
            GlCall::LinkProgram { program, vertex, fragment } => Call::LinkProgram {
                program: *program,
                vertex: *vertex,
                fragment: *fragment,
            },
            GlCall::UseProgram(name) => Call::UseProgram(*name),
            GlCall::DeleteProgram(name) => Call::DeleteProgram(*name),
            GlCall::SetUniform { program, name, value, required } => Call::SetUniform {
                program: *program,
                name: name@,
                value: *value,
                required: *required,
            },
            GlCall::GenTexture(name) => Call::GenTexture(*name),
            GlCall::BindTexture(name) => Call::BindTexture(*name),
            GlCall::SetupTexture {
                wrap_mode,
                minification_filter,
                magnification_filter,
                mipmap_filter,
            } => Call::SetupTexture {
                wrap_mode: *wrap_mode,
                minification_filter: *minification_filter,
                magnification_filter: *magnification_filter,
                mipmap_filter: *mipmap_filter,
            },
            GlCall::FillTexture { image, mipmap } => Call::FillTexture {
                image: image@,
                mipmap: *mipmap,
            },
            GlCall::DeleteTexture(name) => Call::DeleteTexture(*name),
            GlCall::GenFramebuffer(name) => Call::GenFramebuffer(*name),
            GlCall::BindFramebuffer(name) => Call::BindFramebuffer(*name),
            GlCall::AttachColor(name) => Call::AttachColor(*name),
            GlCall::DeleteFramebuffer(name) => Call::DeleteFramebuffer(*name),
            GlCall::BindDefaultFramebuffer => Call::BindDefaultFramebuffer,
            GlCall::Viewport { origin, resolution } => Call::Viewport {
                origin: (origin@[0], origin@[1]),
                resolution: (resolution@[0], resolution@[1]),
            },
            GlCall::Clear(mask) => Call::Clear(*mask),
            GlCall::DrawElements { mode, indices } => Call::DrawElements {
                mode: *mode,
                indices: indices@,
            },
            GlCall::ActiveTexture(unit) => Call::ActiveTexture(*unit),
            GlCall::ClearErrors => Call::ClearErrors,
        }
    }
}

/// The calls as contracts see them.
pub open spec fn calls_view(calls: Seq<GlCall>) -> Seq<Call> {
    Seq::new(calls.len(), |i: int| calls[i]@)
}

// ------------------------------------------------------------
// The recorder

/// What a recorder holds: the calls recorded and not yet taken, and how many
/// names it has handed out.
pub struct Recorded {
    pub calls: Seq<Call>,
    pub names: nat,
}

impl Recorded {
    /// The recorder after it has recorded `calls` and handed out `names`
    /// more names.
    pub open spec fn after(self, calls: Seq<Call>, names: nat) -> Recorded {
        Recorded { calls: self.calls + calls, names: self.names + names }
    }
}

/// Recording in two steps is recording the calls of both, one after the
/// other.
pub proof fn lemma_after_after(
    before: Recorded,
    first: Seq<Call>,
    names: nat,
    second: Seq<Call>,
    more: nat,
)
    ensures
        before.after(first, names).after(second, more) == before.after(first + second, names + more),
{
    assert((before.calls + first) + second =~= before.calls + (first + second));
}

/// The handle to the graphics context: it records the calls that the engine
/// makes, and hands out the names of the objects that they create.
pub struct FunctionPointers {
    calls: Vec<GlCall>,
    names: GLuint,
}

impl View for FunctionPointers {
    type V = Recorded;

    closed spec fn view(&self) -> Recorded {
        Recorded { calls: calls_view(self.calls@), names: self.names as nat }
    }
}

impl FunctionPointers {
    /// A recorder that holds no call and has handed out no name.
    pub fn new() -> (pointers: Self)
        ensures
            pointers@ == (Recorded { calls: Seq::empty(), names: 0 }),
    {
        let pointers = FunctionPointers { calls: Vec::new(), names: 0 };
        proof {
            assert(pointers@.calls =~= Seq::empty());
        }
        pointers
    }

    /// A recorder that holds no call and has handed out `names` names
    /// before.
    pub fn resume(names: GLuint) -> (pointers: Self)
        ensures
            pointers@ == (Recorded { calls: Seq::empty(), names: names as nat }),
    {
        let pointers = FunctionPointers { calls: Vec::new(), names };
        proof {
            assert(pointers@.calls =~= Seq::empty());
        }
        pointers
    }

    /// How many names are left.
    pub fn spare(&self) -> (spare: GLuint)
        ensures
            spare == u32::MAX - self@.names,
    {
        u32::MAX - self.names
    }

    /// Hands out a name that no object has had.
    pub fn fresh(&mut self) -> (name: GLuint)
        requires
            old(self)@.names < u32::MAX,
        ensures
            name == old(self)@.names,
            final(self)@ == old(self)@.after(Seq::empty(), 1),
    {
        let name: GLuint = self.names;
        self.names = name + 1;
        proof {
            assert(self@.calls =~= old(self)@.calls + Seq::<Call>::empty());
        }
        name
    }

    /// Records a call.
    pub fn record(&mut self, call: GlCall)
        ensures
            final(self)@ == old(self)@.after(seq![call@], 0),
    {
        self.calls.push(call);
        proof {
            assert(calls_view(self.calls@) =~= calls_view(old(self).calls@) + seq![call@]);
        }
    }

    /// Takes the recorded calls out, in the order in which they were made.
    pub fn take_calls(&mut self) -> (calls: Vec<GlCall>)
        ensures
            calls_view(calls@) == old(self)@.calls,
            final(self)@ == (Recorded { calls: Seq::empty(), ..old(self)@ }),
    {
        let mut calls: Vec<GlCall> = Vec::new();
        std::mem::swap(&mut calls, &mut self.calls);
        proof {
            assert(calls_view(self.calls@) =~= Seq::empty());
        }
        calls
    }

    pub fn viewport(&mut self, origin: [i32; 2], resolution: [u32; 2])
        ensures
            final(self)@ == old(self)@.after(
                seq![
                    Call::Viewport {
                        origin: (origin@[0], origin@[1]),
                        resolution: (resolution@[0], resolution@[1]),
                    },
                ],
                0,
            ),
    {
        self.record(GlCall::Viewport { origin, resolution });
    }

    pub fn clear(&mut self, mask: GLbitfield)
        ensures
            final(self)@ == old(self)@.after(seq![Call::Clear(mask)], 0),
    {
        self.record(GlCall::Clear(mask));
    }

    pub fn draw_elements(&mut self, mode: GLenum, indices: Vec<u8>)
        ensures
            final(self)@ == old(self)@.after(seq![Call::DrawElements { mode, indices: indices@ }], 0),
    {
        self.record(GlCall::DrawElements { mode, indices });
    }

    pub fn active_texture(&mut self, unit: GLenum)
        ensures
            final(self)@ == old(self)@.after(seq![Call::ActiveTexture(unit)], 0),
    {
        self.record(GlCall::ActiveTexture(unit));
    }

    pub fn bind_default_framebuffer(&mut self)
        ensures
            final(self)@ == old(self)@.after(seq![Call::BindDefaultFramebuffer], 0),
    {
        self.record(GlCall::BindDefaultFramebuffer);
    }

    pub fn clear_errors(&mut self)
        ensures
            final(self)@ == old(self)@.after(seq![Call::ClearErrors], 0),
    {
        self.record(GlCall::ClearErrors);
    }

    /// What an error flag read from the driver amounts to: no error, or the
    /// error that the flag names.
    pub fn get_error(flag: GLenum) -> (verdict: OGLResult<()>)
        ensures
            flag == NO_ERROR ==> verdict is Ok,
            flag != NO_ERROR ==> (verdict matches Err(OGLError::GL(raised)) && raised == flag),
    {
        if flag == NO_ERROR {
            Ok(())
        } else {
            Err(OGLError::GL(flag))
        }
    }
}

} // verus!
