//! The full-screen quad and the programs that draw it: the program that runs
//! a fragment source over every pixel, and the blitter that copies a color
//! buffer onto the bound framebuffer.

use crate::ogl::Call;
use crate::ogl::AttributeComponentDataType;
use crate::ogl::FunctionPointers;
use crate::ogl::GLint;
use crate::ogl::GLuint;
use crate::ogl::Uniform;
use crate::ogl::FRAGMENT_SHADER;
use crate::ogl::TRIANGLES;
use crate::ogl::VERTEX_SHADER;
use crate::raii::Program;
use crate::raii::Shader;
use crate::raii::VertexArrayObject;
use crate::raii::VertexBufferObject;
use vstd::prelude::*;

verus! {

/// The `count` names from `first` on, in order.
pub open spec fn consecutive(first: nat, count: nat) -> Seq<GLuint> {
    Seq::new(count, |i: int| (first + i) as GLuint)
}

// ------------------------------------------------------------

/// The vertex buffer that holds the four corners of the full-screen quad.
#[derive(Debug)]
pub struct QuadVertices(pub VertexBufferObject);

impl QuadVertices {
    /// The corners of the quad, two coordinates each.
    pub open spec fn corners() -> Seq<i8> {
        seq![-1i8, -1i8, -1i8, 1i8, 1i8, 1i8, 1i8, -1i8]
    }

    /// The calls that make the buffer.
    pub open spec fn build_calls(&self) -> Seq<Call> {
        seq![
            Call::GenBuffer(self.0@),
            Call::BindBuffer(self.0@),
            Call::BufferData { kind: AttributeComponentDataType::Double, values: Self::corners() },
        ]
    }

    pub fn new(pointers: &mut FunctionPointers) -> (vertices: Self)
        requires
            old(pointers)@.names < u32::MAX,
        ensures
            vertices.0@ == old(pointers)@.names,
            final(pointers)@ == old(pointers)@.after(vertices.build_calls(), 1),
    {
        let vbo = VertexBufferObject::new(pointers);
        vbo.bind(pointers);
        vbo.fill(
            pointers,
            AttributeComponentDataType::Double,
            vec![-1i8, -1i8, -1i8, 1i8, 1i8, 1i8, 1i8, -1i8],
        );
        let vertices = QuadVertices(vbo);
        proof {
            assert(pointers@.calls =~= old(pointers)@.calls + vertices.build_calls());
        }
        vertices
    }

    pub fn bind(&self, pointers: &mut FunctionPointers)
        ensures
            final(pointers)@ == old(pointers)@.after(seq![Call::BindBuffer(self.0@)], 0),
    {
        self.0.bind(pointers)
    }

    /// Gives the buffer up.
    pub fn release(&self, pointers: &mut FunctionPointers)
        ensures
            final(pointers)@ == old(pointers)@.after(seq![Call::DeleteBuffer(self.0@)], 0),
    {
        self.0.release(pointers)
    }
}

// ------------------------------------------------------------

/// A program that draws the full-screen quad with a fragment source.
#[derive(Debug)]
pub struct QuadProgram {
    pub vertex: Shader,
    pub fragment: Shader,
    pub program: Program,
    pub vao: VertexArrayObject,
}

impl QuadProgram {
    /// The vertex shader of every quad program: it hands each corner on, and
    /// its place in the unit square as `st`.
    pub open spec fn vertex_source() -> Seq<char> {
        "
#version 100
attribute vec2 corners;
varying vec2 st;
void main()
{
    gl_Position = vec4(corners, 0.0, 1.0);
    st = corners * 0.5 + 0.5;
}
"@
    }

    /// The source of the vertex shader.
    pub fn vertex_code() -> (code: &'static str)
        ensures
            code@ == Self::vertex_source(),
    {
        "
#version 100
attribute vec2 corners;
varying vec2 st;
void main()
{
    gl_Position = vec4(corners, 0.0, 1.0);
    st = corners * 0.5 + 0.5;
}
"
    }

    /// The two triangles of the quad, by the indices of their corners.
    pub open spec fn indices() -> Seq<u8> {
        seq![0u8, 1u8, 2u8, 0u8, 3u8, 2u8]
    }

    /// The names of the objects of the program, in the order of their making.
    pub open spec fn names(&self) -> Seq<GLuint> {
        seq![self.vertex@, self.fragment@, self.program@, self.vao@]
    }

    /// The calls that make the program from the fragment source `code`, for
    /// the quad in the vertex buffer `vertices`: both shaders are compiled
    /// and linked, and given up once the program is linked; the vertex array
    /// feeds the corners to the program.
    pub open spec fn build_calls(&self, vertices: GLuint, code: Seq<char>) -> Seq<Call> {
        seq![
            Call::CompileShader {
                shader: self.vertex@,
                stage: VERTEX_SHADER,
                source: Self::vertex_source(),
            },
            Call::CompileShader { shader: self.fragment@, stage: FRAGMENT_SHADER, source: code },
            Call::LinkProgram {
                program: self.program@,
                vertex: self.vertex@,
                fragment: self.fragment@,
            },
            Call::DeleteShader(self.fragment@),
            Call::DeleteShader(self.vertex@),
            Call::GenVertexArray(self.vao@),
            Call::BindVertexArray(self.vao@),
            Call::BindBuffer(vertices),
            Call::AttachBuffer {
                program: self.program@,
                attribute: "corners"@,
                kind: AttributeComponentDataType::Double,
                components: 2,
            },
        ]
    }

    /// The calls that give the program up.
    pub open spec fn release_calls(&self) -> Seq<Call> {
        seq![
            Call::DeleteShader(self.fragment@),
            Call::DeleteShader(self.vertex@),
            Call::DeleteProgram(self.program@),
            Call::DeleteVertexArray(self.vao@),
        ]
    }

    pub fn new(pointers: &mut FunctionPointers, vertices: &QuadVertices, fragment_code: &str) -> (quad:
        Self)
        requires
            old(pointers)@.names + 4 <= u32::MAX,
        ensures
            quad.names() == consecutive(old(pointers)@.names, 4),
            final(pointers)@ == old(pointers)@.after(quad.build_calls(vertices.0@, fragment_code@), 4),
    {
        let vertex = Shader::compile(pointers, VERTEX_SHADER, Self::vertex_code());
        let fragment = Shader::compile(pointers, FRAGMENT_SHADER, fragment_code);
        let program = Program::link(pointers, &vertex, &fragment);
        fragment.release(pointers);
        vertex.release(pointers);
        let vao = VertexArrayObject::new(pointers);
        vao.bind(pointers);
        vertices.bind(pointers);
        vao.attach_buffer(pointers, &program, "corners", AttributeComponentDataType::Double, 2);
        let quad = QuadProgram { vertex, fragment, program, vao };
        proof {
            assert(quad.names() =~= consecutive(old(pointers)@.names, 4));
            assert(pointers@.calls =~= old(pointers)@.calls + quad.build_calls(
                vertices.0@,
                fragment_code@,
            ));
        }
        quad
    }

    pub fn use_program(&self, pointers: &mut FunctionPointers)
        ensures
            final(pointers)@ == old(pointers)@.after(seq![Call::UseProgram(self.program@)], 0),
    {
        self.program.use_program(pointers)
    }

    pub fn bind_vao(&self, pointers: &mut FunctionPointers)
        ensures
            final(pointers)@ == old(pointers)@.after(seq![Call::BindVertexArray(self.vao@)], 0),
    {
        self.vao.bind(pointers)
    }

    /// Sets a uniform of the program by its name. A program without such a
    /// uniform fails the call if the uniform is required.
    pub fn set_uniform(
        &self,
        pointers: &mut FunctionPointers,
        name: &str,
        data: Uniform,
        required: bool,
    )
        ensures
            final(pointers)@ == old(pointers)@.after(
                seq![Call::SetUniform { program: self.program@, name: name@, value: data, required }],
                0,
            ),
    {
        self.program.set_uniform(pointers, name, data, required)
    }

    /// Draws the two triangles of the quad.
    pub fn draw(&self, pointers: &mut FunctionPointers)
        ensures
            final(pointers)@ == old(pointers)@.after(
                seq![Call::DrawElements { mode: TRIANGLES, indices: Self::indices() }],
                0,
            ),
    {
        pointers.draw_elements(TRIANGLES, vec![0u8, 1u8, 2u8, 0u8, 3u8, 2u8])
    }

    /// Gives the objects of the program up.
    pub fn release(&self, pointers: &mut FunctionPointers)
        ensures
            final(pointers)@ == old(pointers)@.after(self.release_calls(), 0),
    {
        self.fragment.release(pointers);
        self.vertex.release(pointers);
        self.program.release(pointers);
        self.vao.release(pointers);
        proof {
            assert(pointers@.calls =~= old(pointers)@.calls + self.release_calls());
        }
    }
}

// ------------------------------------------------------------

/// The program that copies the texture on one unit onto the bound
/// framebuffer.
#[derive(Debug)]
pub struct BlitterProgram(pub QuadProgram);

impl BlitterProgram {
    /// The fragment source of the blitter: each pixel takes the color of the
    /// sampler `image` at its place.
    pub open spec fn source() -> Seq<char> {
        "
#version 330 core
in vec2 st;
out vec4 color;
uniform sampler2D image;
void main()
{
    color = texture
    (
        image,
        vec2(st.x, st.y)
    );
}
"@
    }

    /// The fragment source of the blitter.
    pub fn code() -> (code: &'static str)
        ensures
            code@ == Self::source(),
    {
        "
#version 330 core
in vec2 st;
out vec4 color;
uniform sampler2D image;
void main()
{
    color = texture
    (
        image,
        vec2(st.x, st.y)
    );
}
"
    }

    /// The calls that make the blitter read from the texture unit `unit`.
    pub open spec fn build_calls(&self, vertices: GLuint, unit: GLint) -> Seq<Call> {
        self.0.build_calls(vertices, Self::source()) + seq![
            Call::UseProgram(self.0.program@),
            Call::SetUniform {
                program: self.0.program@,
                name: "image"@,
                value: Uniform::Int(unit),
                required: true,
            },
        ]
    }

    pub fn new(pointers: &mut FunctionPointers, vbo: &QuadVertices, unit: GLint) -> (blitter: Self)
        requires
            old(pointers)@.names + 4 <= u32::MAX,
        ensures
            blitter.0.names() == consecutive(old(pointers)@.names, 4),
            final(pointers)@ == old(pointers)@.after(blitter.build_calls(vbo.0@, unit), 4),
    {
        let quad = QuadProgram::new(pointers, vbo, Self::code());
        quad.use_program(pointers);
        quad.set_uniform(pointers, "image", Uniform::Int(unit), true);
        let blitter = BlitterProgram(quad);
        proof {
            assert(pointers@.calls =~= old(pointers)@.calls + blitter.build_calls(vbo.0@, unit));
        }
        blitter
    }

    pub fn use_program(&self, pointers: &mut FunctionPointers)
        ensures
            final(pointers)@ == old(pointers)@.after(seq![Call::UseProgram(self.0.program@)], 0),
    {
        self.0.use_program(pointers)
    }

    pub fn bind_vao(&self, pointers: &mut FunctionPointers)
        ensures
            final(pointers)@ == old(pointers)@.after(seq![Call::BindVertexArray(self.0.vao@)], 0),
    {
        self.0.bind_vao(pointers)
    }

    pub fn blit(&self, pointers: &mut FunctionPointers)
        ensures
            final(pointers)@ == old(pointers)@.after(
                seq![Call::DrawElements { mode: TRIANGLES, indices: QuadProgram::indices() }],
                0,
            ),
    {
        self.0.draw(pointers)
    }

    /// Gives the objects of the blitter up.
    pub fn release(&self, pointers: &mut FunctionPointers)
        ensures
            final(pointers)@ == old(pointers)@.after(self.0.release_calls(), 0),
    {
        self.0.release(pointers)
    }
}

} // verus!
