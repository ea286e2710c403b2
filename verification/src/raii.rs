//! The objects of the graphics backend that the engine owns: each is a name
//! under which the backend keeps the object. Creating, binding and
//! releasing one records the call that does it.

use crate::ogl::Call;
use crate::ogl::AttributeComponentDataType;
use crate::ogl::FunctionPointers;
use crate::ogl::GLenum;
use crate::ogl::GLint;
use crate::ogl::GLuint;
use crate::ogl::GlCall;
use crate::ogl::Image;
use crate::ogl::InterpolationType;
use crate::ogl::LocationOf;
use crate::ogl::OGLError;
use crate::ogl::OGLResult;
use crate::ogl::Uniform;
use crate::ogl::WrapMode;
use crate::ogl::FRAMEBUFFER_COMPLETE;
use vstd::prelude::*;
use vstd::string::StringExecFns;

verus! {

/// A vertex buffer of the graphics backend.
#[derive(Debug)]
pub struct VertexBufferObject {
    handle: GLuint,
}

impl View for VertexBufferObject {
    type V = GLuint;

    /// The name of the object.
    closed spec fn view(&self) -> GLuint {
        self.handle
    }
}

impl VertexBufferObject {
    /// Creates the object under a name that no object has had.
    pub fn new(pointers: &mut FunctionPointers) -> (object: Self)
        requires
            old(pointers)@.names < u32::MAX,
        ensures
            object@ == old(pointers)@.names,
            final(pointers)@ == old(pointers)@.after(seq![Call::GenBuffer(object@)], 1),
    {
        let handle: GLuint = pointers.fresh();
        pointers.record(GlCall::GenBuffer(handle));
        proof {
            assert(pointers@.calls =~= old(pointers)@.calls + seq![Call::GenBuffer(handle)]);
        }
        VertexBufferObject { handle }
    }

    pub fn handle(&self) -> (handle: GLuint)
        ensures
            handle == self@,
    {
        self.handle
    }

    pub fn bind(&self, pointers: &mut FunctionPointers)
        ensures
            final(pointers)@ == old(pointers)@.after(seq![Call::BindBuffer(self@)], 0),
    {
        pointers.record(GlCall::BindBuffer(self.handle));
    }

    /// Gives the object up: the backend deletes it.
    pub fn release(&self, pointers: &mut FunctionPointers)
        ensures
            final(pointers)@ == old(pointers)@.after(seq![Call::DeleteBuffer(self@)], 0),
    {
        pointers.record(GlCall::DeleteBuffer(self.handle));
    }
}

/// A vertex array of the graphics backend.
#[derive(Debug)]
pub struct VertexArrayObject {
    handle: GLuint,
}

impl View for VertexArrayObject {
    type V = GLuint;

    /// The name of the object.
    closed spec fn view(&self) -> GLuint {
        self.handle
    }
}

impl VertexArrayObject {
    /// Creates the object under a name that no object has had.
    pub fn new(pointers: &mut FunctionPointers) -> (object: Self)
        requires
            old(pointers)@.names < u32::MAX,
        ensures
            object@ == old(pointers)@.names,
            final(pointers)@ == old(pointers)@.after(seq![Call::GenVertexArray(object@)], 1),
    {
        let handle: GLuint = pointers.fresh();
        pointers.record(GlCall::GenVertexArray(handle));
        proof {
            assert(pointers@.calls =~= old(pointers)@.calls + seq![Call::GenVertexArray(handle)]);
        }
        VertexArrayObject { handle }
    }

    pub fn handle(&self) -> (handle: GLuint)
        ensures
            handle == self@,
    {
        self.handle
    }

    pub fn bind(&self, pointers: &mut FunctionPointers)
        ensures
            final(pointers)@ == old(pointers)@.after(seq![Call::BindVertexArray(self@)], 0),
    {
        pointers.record(GlCall::BindVertexArray(self.handle));
    }

    /// Gives the object up: the backend deletes it.
    pub fn release(&self, pointers: &mut FunctionPointers)
        ensures
            final(pointers)@ == old(pointers)@.after(seq![Call::DeleteVertexArray(self@)], 0),
    {
        pointers.record(GlCall::DeleteVertexArray(self.handle));
    }
}

/// A texture of the graphics backend.
#[derive(Debug)]
pub struct Texture {
    handle: GLuint,
}

impl View for Texture {
    type V = GLuint;

    /// The name of the object.
    closed spec fn view(&self) -> GLuint {
        self.handle
    }
}

impl Texture {
    /// Creates the object under a name that no object has had.
    pub fn new(pointers: &mut FunctionPointers) -> (object: Self)
        requires
            old(pointers)@.names < u32::MAX,
        ensures
            object@ == old(pointers)@.names,
            final(pointers)@ == old(pointers)@.after(seq![Call::GenTexture(object@)], 1),
    {
        let handle: GLuint = pointers.fresh();
        pointers.record(GlCall::GenTexture(handle));
        proof {
            assert(pointers@.calls =~= old(pointers)@.calls + seq![Call::GenTexture(handle)]);
        }
        Texture { handle }
    }

    pub fn handle(&self) -> (handle: GLuint)
        ensures
            handle == self@,
    {
        self.handle
    }

    pub fn bind(&self, pointers: &mut FunctionPointers)
        ensures
            final(pointers)@ == old(pointers)@.after(seq![Call::BindTexture(self@)], 0),
    {
        pointers.record(GlCall::BindTexture(self.handle));
    }

    /// Gives the object up: the backend deletes it.
    pub fn release(&self, pointers: &mut FunctionPointers)
        ensures
            final(pointers)@ == old(pointers)@.after(seq![Call::DeleteTexture(self@)], 0),
    {
        pointers.record(GlCall::DeleteTexture(self.handle));
    }
}

/// A framebuffer of the graphics backend.
#[derive(Debug)]
pub struct FramebufferObject {
    handle: GLuint,
}

impl View for FramebufferObject {
    type V = GLuint;

    /// The name of the object.
    closed spec fn view(&self) -> GLuint {
        self.handle
    }
}

impl FramebufferObject {
    /// Creates the object under a name that no object has had.
    pub fn new(pointers: &mut FunctionPointers) -> (object: Self)
        requires
            old(pointers)@.names < u32::MAX,
        ensures
            object@ == old(pointers)@.names,
            final(pointers)@ == old(pointers)@.after(seq![Call::GenFramebuffer(object@)], 1),
    {
        let handle: GLuint = pointers.fresh();
        pointers.record(GlCall::GenFramebuffer(handle));
        proof {
            assert(pointers@.calls =~= old(pointers)@.calls + seq![Call::GenFramebuffer(handle)]);
        }
        FramebufferObject { handle }
    }

    pub fn handle(&self) -> (handle: GLuint)
        ensures
            handle == self@,
    {
        self.handle
    }

    pub fn bind(&self, pointers: &mut FunctionPointers)
        ensures
            final(pointers)@ == old(pointers)@.after(seq![Call::BindFramebuffer(self@)], 0),
    {
        pointers.record(GlCall::BindFramebuffer(self.handle));
    }

    /// Gives the object up: the backend deletes it.
    pub fn release(&self, pointers: &mut FunctionPointers)
        ensures
            final(pointers)@ == old(pointers)@.after(seq![Call::DeleteFramebuffer(self@)], 0),
    {
        pointers.record(GlCall::DeleteFramebuffer(self.handle));
    }
}

/// A compiled shader of the graphics backend.
#[derive(Debug)]
pub struct Shader {
    handle: GLuint,
}

impl View for Shader {
    type V = GLuint;

    /// The name of the object.
    closed spec fn view(&self) -> GLuint {
        self.handle
    }
}

/// The log that stands for a missing one.
pub open spec fn log_or(log: Option<String>, missing: Seq<char>) -> Seq<char> {
    match log {
        Some(log) => log@,
        None => missing,
    }
}

/// Whether a status that the driver reports says that the work was done: its
/// low byte is 1.
pub open spec fn is_done(status: GLint) -> bool {
    status as u8 == 1
}

fn done(status: GLint) -> (r: bool)
    ensures
        r == is_done(status),
{
    #[verifier::truncate]
    let low: u8 = status as u8;
    low == 1
}

impl Shader {
    /// Creates a shader of the stage under a name that no object has had,
    /// and compiles the source.
    pub fn compile(pointers: &mut FunctionPointers, stage: GLenum, code: &str) -> (shader: Self)
        requires
            old(pointers)@.names < u32::MAX,
        ensures
            shader@ == old(pointers)@.names,
            final(pointers)@ == old(pointers)@.after(
                seq![Call::CompileShader { shader: shader@, stage, source: code@ }],
                1,
            ),
    {
        let handle: GLuint = pointers.fresh();
        pointers.record(
            GlCall::CompileShader { shader: handle, stage, source: String::from_str(code) },
        );
        proof {
            assert(pointers@.calls =~= old(pointers)@.calls + seq![
                Call::CompileShader { shader: handle, stage, source: code@ },
            ]);
        }
        Shader { handle }
    }

    pub fn handle(&self) -> (handle: GLuint)
        ensures
            handle == self@,
    {
        self.handle
    }

    /// Gives the object up: the backend deletes it.
    pub fn release(&self, pointers: &mut FunctionPointers)
        ensures
            final(pointers)@ == old(pointers)@.after(seq![Call::DeleteShader(self@)], 0),
    {
        pointers.record(GlCall::DeleteShader(self.handle));
    }

    /// What the compile status and the log that the driver gives amount to:
    /// the shader compiled, or it did not, and the log says why; a driver
    /// that gives no log leaves a stock sentence.
    pub fn compiled(status: GLint, log: Option<String>) -> (verdict: OGLResult<()>)
        ensures
            is_done(status) ==> verdict is Ok,
            !is_done(status) ==> (verdict matches Err(OGLError::ShaderCompilation(text)) && text@
                == log_or(log, "Unknown shader compilation error"@)),
    {
        if done(status) {
            Ok(())
        } else {
            match log {
                Some(log) => Err(OGLError::ShaderCompilation(log)),
                None => Err(
                    OGLError::ShaderCompilation(
                        String::from_str("Unknown shader compilation error"),
                    ),
                ),
            }
        }
    }
}

/// A linked program of the graphics backend.
#[derive(Debug)]
pub struct Program {
    handle: GLuint,
}

impl View for Program {
    type V = GLuint;

    /// The name of the object.
    closed spec fn view(&self) -> GLuint {
        self.handle
    }
}

impl Program {
    /// Creates a program under a name that no object has had, and links the
    /// two shaders into it.
    pub fn link(pointers: &mut FunctionPointers, vertex: &Shader, fragment: &Shader) -> (program:
        Self)
        requires
            old(pointers)@.names < u32::MAX,
        ensures
            program@ == old(pointers)@.names,
            final(pointers)@ == old(pointers)@.after(
                seq![Call::LinkProgram { program: program@, vertex: vertex@, fragment: fragment@ }],
                1,
            ),
    {
        let handle: GLuint = pointers.fresh();
        pointers.record(
            GlCall::LinkProgram {
                program: handle,
                vertex: vertex.handle(),
                fragment: fragment.handle(),
            },
        );
        proof {
            assert(pointers@.calls =~= old(pointers)@.calls + seq![
                Call::LinkProgram { program: handle, vertex: vertex@, fragment: fragment@ },
            ]);
        }
        Program { handle }
    }

    pub fn handle(&self) -> (handle: GLuint)
        ensures
            handle == self@,
    {
        self.handle
    }

    /// Makes the program the one that draws.
    pub fn use_program(&self, pointers: &mut FunctionPointers)
        ensures
            final(pointers)@ == old(pointers)@.after(seq![Call::UseProgram(self@)], 0),
    {
        pointers.record(GlCall::UseProgram(self.handle));
    }

    /// Sets a uniform of the program by its name.
    pub fn set_uniform(
        &self,
        pointers: &mut FunctionPointers,
        name: &str,
        value: Uniform,
        required: bool,
    )
        ensures
            final(pointers)@ == old(pointers)@.after(
                seq![Call::SetUniform { program: self@, name: name@, value, required }],
                0,
            ),
    {
        pointers.record(
            GlCall::SetUniform {
                program: self.handle,
                name: String::from_str(name),
                value,
                required,
            },
        );
    }

    /// Gives the object up: the backend deletes it.
    pub fn release(&self, pointers: &mut FunctionPointers)
        ensures
            final(pointers)@ == old(pointers)@.after(seq![Call::DeleteProgram(self@)], 0),
    {
        pointers.record(GlCall::DeleteProgram(self.handle));
    }

    /// What the link status and the log that the driver gives amount to: the
    /// program linked, or it did not, and the log says why; a driver that
    /// gives no log leaves a stock sentence.
    pub fn linked(status: GLint, log: Option<String>) -> (verdict: OGLResult<()>)
        ensures
            is_done(status) ==> verdict is Ok,
            !is_done(status) ==> (verdict matches Err(OGLError::ProgramLinking(text)) && text@
                == log_or(log, "Unknown program linking error"@)),
    {
        if done(status) {
            Ok(())
        } else {
            match log {
                Some(log) => Err(OGLError::ProgramLinking(log)),
                None => Err(
                    OGLError::ProgramLinking(String::from_str("Unknown program linking error")),
                ),
            }
        }
    }

    /// What the location that the driver gives for a name amounts to: the
    /// location, or, for -1, that the program has no such attribute or
    /// uniform.
    pub fn location(name: &str, found: GLint, location: LocationOf) -> (verdict: OGLResult<GLint>)
        ensures
            found != -1 ==> (verdict matches Ok(place) && place == found),
            found == -1 && location == LocationOf::Attribute ==> (verdict matches Err(
                OGLError::AttributeNotFound(missing),
            ) && missing@ == name@),
            found == -1 && location == LocationOf::Uniform ==> (verdict matches Err(
                OGLError::UniformNotFound(missing),
            ) && missing@ == name@),
    {
        if found == -1 {
            match location {
                LocationOf::Attribute => Err(OGLError::AttributeNotFound(String::from_str(name))),
                LocationOf::Uniform => Err(OGLError::UniformNotFound(String::from_str(name))),
            }
        } else {
            Ok(found)
        }
    }
}

impl VertexBufferObject {
    /// Fills the bound vertex buffer with the numbers, stored as `kind`.
    pub fn fill(&self, pointers: &mut FunctionPointers, kind: AttributeComponentDataType, values: Vec<i8>)
        ensures
            final(pointers)@ == old(pointers)@.after(
                seq![Call::BufferData { kind, values: values@ }],
                0,
            ),
    {
        pointers.record(GlCall::BufferData { kind, values });
    }
}

impl VertexArrayObject {
    /// Feeds the attribute of the program from the bound vertex buffer,
    /// `components` numbers of type `kind` per vertex.
    pub fn attach_buffer(
        &self,
        pointers: &mut FunctionPointers,
        program: &Program,
        attribute: &str,
        kind: AttributeComponentDataType,
        components: GLint,
    )
        requires
            1 <= components < 5,
        ensures
            final(pointers)@ == old(pointers)@.after(
                seq![
                    Call::AttachBuffer {
                        program: program@,
                        attribute: attribute@,
                        kind,
                        components,
                    },
                ],
                0,
            ),
    {
        pointers.record(
            GlCall::AttachBuffer {
                program: program.handle(),
                attribute: String::from_str(attribute),
                kind,
                components,
            },
        );
    }
}

impl Texture {
    /// Sets wrapping and filtering of the bound texture.
    pub fn setup(
        &self,
        pointers: &mut FunctionPointers,
        wrap_mode: Option<WrapMode>,
        minification_filter: InterpolationType,
        magnification_filter: InterpolationType,
        mipmap_filter: Option<InterpolationType>,
    )
        ensures
            final(pointers)@ == old(pointers)@.after(
                seq![
                    Call::SetupTexture {
                        wrap_mode,
                        minification_filter,
                        magnification_filter,
                        mipmap_filter,
                    },
                ],
                0,
            ),
    {
        pointers.record(
            GlCall::SetupTexture {
                wrap_mode,
                minification_filter,
                magnification_filter,
                mipmap_filter,
            },
        );
    }

    /// Gives the bound texture its image, and mipmaps if asked.
    pub fn fill(&self, pointers: &mut FunctionPointers, image: Image, mipmap: bool)
        ensures
            final(pointers)@ == old(pointers)@.after(
                seq![Call::FillTexture { image: image@, mipmap }],
                0,
            ),
    {
        pointers.record(GlCall::FillTexture { image, mipmap });
    }
}

impl FramebufferObject {
    /// Attaches the texture to the bound framebuffer as its color buffer.
    pub fn attach_color(&self, pointers: &mut FunctionPointers, texture: &Texture)
        ensures
            final(pointers)@ == old(pointers)@.after(seq![Call::AttachColor(texture@)], 0),
    {
        pointers.record(GlCall::AttachColor(texture.handle()));
    }

    /// What the status of a framebuffer amounts to, with the error flag that
    /// the driver raised: the framebuffer is complete; or the driver could
    /// not tell the status, and the flag says why; or the status says what
    /// is missing.
    pub fn attached(status: GLenum, flag: GLenum) -> (verdict: OGLResult<()>)
        ensures
            status == FRAMEBUFFER_COMPLETE ==> verdict is Ok,
            status == 0 ==> (verdict matches Err(OGLError::GL(raised)) && raised == flag),
            status != FRAMEBUFFER_COMPLETE && status != 0 ==> (verdict matches Err(
                OGLError::FramebufferCreation(reported),
            ) && reported == status),
    {
        if status == FRAMEBUFFER_COMPLETE {
            Ok(())
        } else if status == 0 {
            Err(OGLError::GL(flag))
        } else {
            Err(OGLError::FramebufferCreation(status))
        }
    }
}

} // verus!
