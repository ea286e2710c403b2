//! Render targets: the canvas that draws each frame into one off-screen
//! buffer, the feedback canvas that draws into two in turn and reads the
//! frame before, and the player that drives a canvas with a frame clock.

use crate::buffers::buffer_names;
use crate::buffers::buffers_build_calls;
use crate::buffers::buffers_clear_calls;
use crate::buffers::buffers_release_calls;
use crate::buffers::ColorBuffer;
use crate::buffers::ColorBuffers;
use crate::buffers::Viewport;
use crate::ogl::lemma_after_after;
use crate::ogl::Call;
use crate::ogl::TextureComponentDataType;
use crate::ogl::FunctionPointers;
use crate::ogl::GLbitfield;
use crate::ogl::GLint;
use crate::ogl::GLuint;
use crate::ogl::OGLError;
use crate::ogl::OGLResult;
use crate::ogl::Recorded;
use crate::ogl::Uniform;
use crate::ogl::COLOR_BUFFER_BIT;
use crate::ogl::INVALID_VALUE;
use crate::ogl::OUT_OF_MEMORY;
use crate::ogl::TRIANGLES;
use crate::quad::consecutive;
use crate::quad::BlitterProgram;
use crate::quad::QuadProgram;
use crate::quad::QuadVertices;
use crate::textures::bind_samplers;
use crate::textures::on_units_from;
use crate::textures::place_textures;
use crate::textures::release_samplers;
use crate::textures::sampler_textures;
use crate::textures::samplers_bind_calls;
use crate::textures::samplers_release_calls;
use crate::textures::samplers_uniform_calls;
use crate::textures::NamedTexture;
use crate::textures::Sampler;
use crate::textures::MAX_TEXTURES;
use crate::timeline::Frame;
use crate::timeline::FrameTime;
use crate::timeline::Timeline;
use crate::timeline::TimelineView;
use vstd::prelude::*;

verus! {

/// The call that draws the full-screen quad.
pub open spec fn draw_call() -> Call {
    Call::DrawElements { mode: TRIANGLES, indices: QuadProgram::indices() }
}

/// The calls that set a uniform of the program by its name, if the program
/// has it.
pub open spec fn uniform_calls(program: GLuint, name: Seq<char>, value: Uniform) -> Seq<Call> {
    seq![Call::UseProgram(program), Call::SetUniform { program, name, value, required: false }]
}

/// The calls that show the texture on the bound presentation surface, with
/// the blitter.
pub open spec fn show_calls(
    blitter: &BlitterProgram,
    texture: GLuint,
    origin: (i32, i32),
    resolution: (u32, u32),
    clear: GLbitfield,
) -> Seq<Call> {
    seq![
        Call::BindDefaultFramebuffer,
        Call::Clear(clear),
        Call::Viewport { origin, resolution },
        Call::ActiveTexture(0),
        Call::BindTexture(texture),
        Call::UseProgram(blitter.0.program@),
        Call::BindVertexArray(blitter.0.vao@),
        draw_call(),
    ]
}

/// The calls that draw the quad with the program into the framebuffer,
/// cleared before.
pub open spec fn paint_calls(framebuffer: GLuint) -> Seq<Call> {
    seq![Call::BindFramebuffer(framebuffer), Call::Clear(COLOR_BUFFER_BIT)]
}

/// The calls that run the program over the whole picture.
pub open spec fn run_calls(main: &QuadProgram, resolution: (u32, u32)) -> Seq<Call> {
    seq![
        Call::UseProgram(main.program@),
        Call::BindVertexArray(main.vao@),
        Call::Viewport { origin: (0, 0), resolution },
        draw_call(),
    ]
}

// ------------------------------------------------------------

/// A render target with one off-screen color buffer.
#[derive(Debug)]
pub struct SimpleCanvas {
    /// The program that draws the picture, and the blitter that shows it.
    pub programs: (QuadProgram, BlitterProgram),
    pub samplers: Vec<Sampler>,
    pub colorbuffer: ColorBuffer,
    pub resolution: [u32; 2],
}

impl SimpleCanvas {
    pub open spec fn size(&self) -> (u32, u32) {
        (self.resolution@[0], self.resolution@[1])
    }

    /// The input textures sit on the units from 0 on, in their order.
    pub open spec fn wf(&self) -> bool {
        on_units_from(self.samplers@, 0)
    }

    /// The names of the objects of the canvas but its input textures, in the
    /// order of their making.
    pub open spec fn names(&self) -> Seq<GLuint> {
        self.programs.0.names() + self.programs.1.0.names() + self.colorbuffer.names()
    }

    /// The calls that make the canvas for the fragment source `code`.
    pub open spec fn build_calls(&self, vertices: GLuint, code: Seq<char>) -> Seq<Call> {
        self.programs.0.build_calls(vertices, code) + seq![
            Call::UseProgram(self.programs.0.program@),
        ] + samplers_uniform_calls(self.samplers@, self.programs.0.program@)
            + self.programs.1.build_calls(vertices, 0) + self.colorbuffer.build_calls(self.size())
    }

    /// The calls that draw a frame: every input texture is put on its unit,
    /// then the program draws into the cleared color buffer.
    pub open spec fn render_calls(&self) -> Seq<Call> {
        samplers_bind_calls(self.samplers@) + paint_calls(self.colorbuffer.framebuffer@)
            + run_calls(&self.programs.0, self.size())
    }

    /// The calls that show the color buffer on the presentation surface.
    pub open spec fn blit_calls(&self, origin: (i32, i32), clear: GLbitfield) -> Seq<Call> {
        show_calls(&self.programs.1, self.colorbuffer.texture@, origin, self.size(), clear)
    }

    /// The calls that give the canvas up.
    pub open spec fn release_calls(&self) -> Seq<Call> {
        self.programs.0.release_calls() + self.programs.1.0.release_calls()
            + samplers_release_calls(self.samplers@) + self.colorbuffer.release_calls()
    }

    pub fn new(
        pointers: &mut FunctionPointers,
        vertices: &QuadVertices,
        code: &str,
        textures: Vec<NamedTexture>,
        resolution: [u32; 2],
        component: TextureComponentDataType,
    ) -> (canvas: Self)
        requires
            textures@.len() <= MAX_TEXTURES,
            old(pointers)@.names + 10 <= u32::MAX,
        ensures
            canvas.wf(),
            canvas.resolution == resolution,
            canvas.colorbuffer.component == component,
            sampler_textures(canvas.samplers@) == textures@,
            canvas.names() == consecutive(old(pointers)@.names, 10),
            final(pointers)@ == old(pointers)@.after(canvas.build_calls(vertices.0@, code@), 10),
    {
        let main = QuadProgram::new(pointers, vertices, code);
        main.use_program(pointers);
        let samplers = place_textures(pointers, &main.program, textures, 0);
        let blitter = BlitterProgram::new(pointers, vertices, 0);
        let colorbuffer = ColorBuffer::new(pointers, resolution, component);
        let canvas = SimpleCanvas { programs: (main, blitter), samplers, colorbuffer, resolution };
        proof {
            assert(canvas.names() =~= consecutive(old(pointers)@.names, 10));
            assert(pointers@.calls =~= old(pointers)@.calls + canvas.build_calls(
                vertices.0@,
                code@,
            ));
        }
        canvas
    }

    pub fn resolution(&self) -> (resolution: [u32; 2])
        ensures
            resolution == self.resolution,
    {
        self.resolution
    }

    /// Sets a uniform of the drawing program, if the program has it.
    pub fn set_uniform(&self, pointers: &mut FunctionPointers, name: &str, data: Uniform)
        ensures
            final(pointers)@ == old(pointers)@.after(
                uniform_calls(self.programs.0.program@, name@, data),
                0,
            ),
    {
        self.programs.0.use_program(pointers);
        self.programs.0.set_uniform(pointers, name, data, false);
        proof {
            assert(pointers@.calls =~= old(pointers)@.calls + uniform_calls(
                self.programs.0.program@,
                name@,
                data,
            ));
        }
    }

    /// Draws a frame into the color buffer.
    pub fn render(&mut self, pointers: &mut FunctionPointers)
        ensures
            *final(self) == *old(self),
            final(pointers)@ == old(pointers)@.after(old(self).render_calls(), 0),
    {
        bind_samplers(pointers, &self.samplers);
        self.colorbuffer.bind_framebuffer(pointers);
        pointers.clear(COLOR_BUFFER_BIT);
        self.programs.0.use_program(pointers);
        self.programs.0.bind_vao(pointers);
        Viewport::new([0, 0], self.resolution).set(pointers);
        self.programs.0.draw(pointers);
        proof {
            assert(pointers@.calls =~= old(pointers)@.calls + self.render_calls());
        }
    }

    /// Shows the color buffer on the presentation surface.
    pub fn blit(&mut self, pointers: &mut FunctionPointers, origin: [i32; 2], clear: GLbitfield)
        ensures
            *final(self) == *old(self),
            final(pointers)@ == old(pointers)@.after(
                old(self).blit_calls((origin@[0], origin@[1]), clear),
                0,
            ),
    {
        pointers.bind_default_framebuffer();
        pointers.clear(clear);
        Viewport::new(origin, self.resolution).set(pointers);
        pointers.active_texture(0);
        self.colorbuffer.bind_texture(pointers);
        self.programs.1.use_program(pointers);
        self.programs.1.bind_vao(pointers);
        self.programs.1.blit(pointers);
        proof {
            assert(pointers@.calls =~= old(pointers)@.calls + self.blit_calls(
                (origin@[0], origin@[1]),
                clear,
            ));
        }
    }

    /// Gives the objects of the canvas up.
    pub fn release(&self, pointers: &mut FunctionPointers)
        ensures
            final(pointers)@ == old(pointers)@.after(self.release_calls(), 0),
    {
        self.programs.0.release(pointers);
        self.programs.1.release(pointers);
        release_samplers(pointers, &self.samplers);
        self.colorbuffer.release(pointers);
        proof {
            assert(pointers@.calls =~= old(pointers)@.calls + self.release_calls());
        }
    }
}

// ------------------------------------------------------------

/// A render target with two off-screen color buffers: each frame is drawn
/// into one while the sampler `previous` reads the other, which holds the
/// frame before.
#[derive(Debug)]
pub struct FeedbackCanvas {
    /// The program that draws the picture, and the blitter that shows it.
    pub programs: (QuadProgram, BlitterProgram),
    pub samplers: Vec<Sampler>,
    pub colorbuffers: ColorBuffers,
    pub resolution: [u32; 2],
}

impl FeedbackCanvas {
    pub open spec fn size(&self) -> (u32, u32) {
        (self.resolution@[0], self.resolution@[1])
    }

    /// There are two color buffers, which share no object, with the cursor on
    /// one of them, and the input textures sit on the units from 1 on, in
    /// their order: unit 0 is kept for the frame before.
    pub open spec fn wf(&self) -> bool {
        &&& self.colorbuffers.list@.len() == 2
        &&& self.colorbuffers.cursor < 2
        &&& self.colorbuffers.list@[0].framebuffer@ != self.colorbuffers.list@[1].framebuffer@
        &&& self.colorbuffers.list@[0].texture@ != self.colorbuffers.list@[1].texture@
        &&& on_units_from(self.samplers@, 1)
    }

    /// The buffer that the next frame is drawn into.
    pub open spec fn target(&self) -> ColorBuffer {
        self.colorbuffers.list@[1 - self.colorbuffers.cursor]
    }

    /// The buffer that the next frame reads as the frame before.
    pub open spec fn source(&self) -> ColorBuffer {
        self.colorbuffers.list@[self.colorbuffers.cursor as int]
    }

    /// The names of the objects of the canvas but its input textures, in the
    /// order of their making.
    pub open spec fn names(&self) -> Seq<GLuint> {
        self.programs.0.names() + self.programs.1.0.names() + buffer_names(
            self.colorbuffers.list@,
        )
    }

    /// The calls that make the canvas for the fragment source `code`.
    pub open spec fn build_calls(&self, vertices: GLuint, code: Seq<char>) -> Seq<Call> {
        self.programs.0.build_calls(vertices, code) + seq![
            Call::UseProgram(self.programs.0.program@),
            Call::SetUniform {
                program: self.programs.0.program@,
                name: "previous"@,
                value: Uniform::Int(0),
                required: true,
            },
        ] + samplers_uniform_calls(self.samplers@, self.programs.0.program@)
            + self.programs.1.build_calls(vertices, 0) + buffers_build_calls(
            self.colorbuffers.list@,
            self.size(),
        )
    }

    /// The calls that clear both color buffers.
    pub open spec fn reset_calls(&self) -> Seq<Call> {
        buffers_clear_calls(self.colorbuffers.list@)
    }

    /// The calls that draw a frame: every input texture is put on its unit,
    /// the other buffer than the one drawn into last is cleared and becomes
    /// the target, the buffer drawn into last is put on unit 0, and the
    /// program draws.
    pub open spec fn render_calls(&self) -> Seq<Call> {
        samplers_bind_calls(self.samplers@) + paint_calls(self.target().framebuffer@) + seq![
            Call::ActiveTexture(0),
            Call::BindTexture(self.source().texture@),
        ] + run_calls(&self.programs.0, self.size())
    }

    /// The calls that show the buffer under the cursor on the presentation
    /// surface.
    pub open spec fn blit_calls(&self, origin: (i32, i32), clear: GLbitfield) -> Seq<Call> {
        show_calls(&self.programs.1, self.source().texture@, origin, self.size(), clear)
    }

    /// The calls that give the canvas up.
    pub open spec fn release_calls(&self) -> Seq<Call> {
        self.programs.0.release_calls() + self.programs.1.0.release_calls()
            + samplers_release_calls(self.samplers@) + buffers_release_calls(
            self.colorbuffers.list@,
        )
    }

    pub fn new(
        pointers: &mut FunctionPointers,
        vertices: &QuadVertices,
        code: &str,
        textures: Vec<NamedTexture>,
        resolution: [u32; 2],
        component: TextureComponentDataType,
    ) -> (canvas: Self)
        requires
            textures@.len() <= MAX_TEXTURES,
            old(pointers)@.names + 12 <= u32::MAX,
        ensures
            canvas.wf(),
            canvas.resolution == resolution,
            canvas.colorbuffers.cursor == 0,
            forall|i: int| 0 <= i < 2 ==> canvas.colorbuffers.list@[i].component == component,
            sampler_textures(canvas.samplers@) == textures@,
            canvas.names() == consecutive(old(pointers)@.names, 12),
            final(pointers)@ == old(pointers)@.after(canvas.build_calls(vertices.0@, code@), 12),
    {
        let main = QuadProgram::new(pointers, vertices, code);
        main.use_program(pointers);
        main.set_uniform(pointers, "previous", Uniform::Int(0), true);
        let samplers = place_textures(pointers, &main.program, textures, 1);
        let blitter = BlitterProgram::new(pointers, vertices, 0);
        let colorbuffers = ColorBuffers::new(pointers, resolution, component, 2);
        let canvas = FeedbackCanvas {
            programs: (main, blitter),
            samplers,
            colorbuffers,
            resolution,
        };
        proof {
            let list = canvas.colorbuffers.list@;
            let names = buffer_names(list);
            let first = list.drop_last();
            assert(first.drop_last() =~= Seq::empty());
            assert(buffer_names(first.drop_last()) =~= Seq::empty());
            assert(first.last() == list[0]);
            assert(buffer_names(first) =~= list[0].names());
            assert(names =~= list[0].names() + list[1].names());
            assert(names[0] == list[0].framebuffer@ && names[2] == list[1].framebuffer@);
            assert(names[1] == list[0].texture@ && names[3] == list[1].texture@);
            assert(canvas.names() =~= consecutive(old(pointers)@.names, 12));
            assert(pointers@.calls =~= old(pointers)@.calls + canvas.build_calls(
                vertices.0@,
                code@,
            ));
        }
        canvas
    }

    /// Clears both color buffers and puts the cursor back on the first; the
    /// buffers stay what they are.
    pub fn reset(&mut self, pointers: &mut FunctionPointers)
        requires
            old(self).wf(),
        ensures
            final(self).wf(),
            final(self).colorbuffers.cursor == 0,
            final(self).colorbuffers.list == old(self).colorbuffers.list,
            final(self).programs == old(self).programs,
            final(self).samplers == old(self).samplers,
            final(self).resolution == old(self).resolution,
            final(pointers)@ == old(pointers)@.after(old(self).reset_calls(), 0),
    {
        self.colorbuffers.reset(pointers)
    }

    pub fn resolution(&self) -> (resolution: [u32; 2])
        ensures
            resolution == self.resolution,
    {
        self.resolution
    }

    /// Sets a uniform of the drawing program, if the program has it.
    pub fn set_uniform(&self, pointers: &mut FunctionPointers, name: &str, data: Uniform)
        ensures
            final(pointers)@ == old(pointers)@.after(
                uniform_calls(self.programs.0.program@, name@, data),
                0,
            ),
    {
        self.programs.0.use_program(pointers);
        self.programs.0.set_uniform(pointers, name, data, false);
        proof {
            assert(pointers@.calls =~= old(pointers)@.calls + uniform_calls(
                self.programs.0.program@,
                name@,
                data,
            ));
        }
    }

    /// Draws a frame: the cursor goes on to the other buffer, the frame is
    /// drawn into it, and the buffer that the cursor has left is read as the
    /// frame before.
    pub fn render(&mut self, pointers: &mut FunctionPointers)
        requires
            old(self).wf(),
        ensures
            final(self).wf(),
            final(self).colorbuffers.cursor == 1 - old(self).colorbuffers.cursor,
            final(self).colorbuffers.list == old(self).colorbuffers.list,
            final(self).programs == old(self).programs,
            final(self).samplers == old(self).samplers,
            final(self).resolution == old(self).resolution,
            final(pointers)@ == old(pointers)@.after(old(self).render_calls(), 0),
    {
        self.colorbuffers.next();
        bind_samplers(pointers, &self.samplers);
        let cursor: usize = self.colorbuffers.cursor();
        self.colorbuffers.list[cursor].bind_framebuffer(pointers);
        pointers.clear(COLOR_BUFFER_BIT);
        pointers.active_texture(0);
        self.colorbuffers.list[1 - cursor].bind_texture(pointers);
        self.programs.0.use_program(pointers);
        self.programs.0.bind_vao(pointers);
        Viewport::new([0, 0], self.resolution).set(pointers);
        self.programs.0.draw(pointers);
        proof {
            assert(pointers@.calls =~= old(pointers)@.calls + old(self).render_calls());
        }
    }

    /// Shows the buffer under the cursor on the presentation surface.
    pub fn blit(&mut self, pointers: &mut FunctionPointers, origin: [i32; 2], clear: GLbitfield)
        requires
            old(self).wf(),
        ensures
            *final(self) == *old(self),
            final(pointers)@ == old(pointers)@.after(
                old(self).blit_calls((origin@[0], origin@[1]), clear),
                0,
            ),
    {
        pointers.bind_default_framebuffer();
        pointers.clear(clear);
        Viewport::new(origin, self.resolution).set(pointers);
        pointers.active_texture(0);
        let cursor: usize = self.colorbuffers.cursor();
        self.colorbuffers.list[cursor].bind_texture(pointers);
        self.programs.1.use_program(pointers);
        self.programs.1.bind_vao(pointers);
        self.programs.1.blit(pointers);
        proof {
            assert(pointers@.calls =~= old(pointers)@.calls + self.blit_calls(
                (origin@[0], origin@[1]),
                clear,
            ));
        }
    }

    /// Gives the objects of the canvas up.
    pub fn release(&self, pointers: &mut FunctionPointers)
        ensures
            final(pointers)@ == old(pointers)@.after(self.release_calls(), 0),
    {
        self.programs.0.release(pointers);
        self.programs.1.release(pointers);
        release_samplers(pointers, &self.samplers);
        self.colorbuffers.release(pointers);
        proof {
            assert(pointers@.calls =~= old(pointers)@.calls + self.release_calls());
        }
    }
}

// ------------------------------------------------------------

/// A render target of either kind.
#[derive(Debug)]
pub enum CanvasKind {
    Simple(SimpleCanvas),
    Feedback(FeedbackCanvas),
}

impl CanvasKind {
    pub open spec fn wf(&self) -> bool {
        match self {
            CanvasKind::Simple(simple) => simple.wf(),
            CanvasKind::Feedback(feedback) => feedback.wf(),
        }
    }

    pub open spec fn size(&self) -> (u32, u32) {
        match self {
            CanvasKind::Simple(simple) => simple.size(),
            CanvasKind::Feedback(feedback) => feedback.size(),
        }
    }

    /// The program that draws the picture.
    pub open spec fn painter(&self) -> GLuint {
        match self {
            CanvasKind::Simple(simple) => simple.programs.0.program@,
            CanvasKind::Feedback(feedback) => feedback.programs.0.program@,
        }
    }

    /// The input textures, in the order of their units.
    pub open spec fn textures(&self) -> Seq<NamedTexture> {
        match self {
            CanvasKind::Simple(simple) => sampler_textures(simple.samplers@),
            CanvasKind::Feedback(feedback) => sampler_textures(feedback.samplers@),
        }
    }

    /// The names of the objects of the canvas but its input textures, in the
    /// order of their making.
    pub open spec fn names(&self) -> Seq<GLuint> {
        match self {
            CanvasKind::Simple(simple) => simple.names(),
            CanvasKind::Feedback(feedback) => feedback.names(),
        }
    }

    /// How many names the objects of a canvas take.
    pub open spec fn names_needed(feedback: bool) -> nat {
        if feedback {
            12
        } else {
            10
        }
    }

    pub open spec fn build_calls(&self, vertices: GLuint, code: Seq<char>) -> Seq<Call> {
        match self {
            CanvasKind::Simple(simple) => simple.build_calls(vertices, code),
            CanvasKind::Feedback(feedback) => feedback.build_calls(vertices, code),
        }
    }

    /// The calls that clear what a canvas remembers of earlier frames: a
    /// feedback canvas clears its buffers, a simple canvas has nothing to
    /// clear.
    pub open spec fn reset_calls(&self) -> Seq<Call> {
        match self {
            CanvasKind::Simple(simple) => Seq::empty(),
            CanvasKind::Feedback(feedback) => feedback.reset_calls(),
        }
    }

    pub open spec fn render_calls(&self) -> Seq<Call> {
        match self {
            CanvasKind::Simple(simple) => simple.render_calls(),
            CanvasKind::Feedback(feedback) => feedback.render_calls(),
        }
    }

    pub open spec fn blit_calls(&self, origin: (i32, i32), clear: GLbitfield) -> Seq<Call> {
        match self {
            CanvasKind::Simple(simple) => simple.blit_calls(origin, clear),
            CanvasKind::Feedback(feedback) => feedback.blit_calls(origin, clear),
        }
    }

    pub open spec fn release_calls(&self) -> Seq<Call> {
        match self {
            CanvasKind::Simple(simple) => simple.release_calls(),
            CanvasKind::Feedback(feedback) => feedback.release_calls(),
        }
    }

    /// The canvas after it has been reset.
    pub open spec fn reset_spec(self) -> CanvasKind {
        match self {
            CanvasKind::Simple(simple) => CanvasKind::Simple(simple),
            CanvasKind::Feedback(feedback) => CanvasKind::Feedback(
                FeedbackCanvas {
                    colorbuffers: ColorBuffers { cursor: 0, ..feedback.colorbuffers },
                    ..feedback
                },
            ),
        }
    }

    /// The canvas after it has drawn a frame.
    pub open spec fn rendered(self) -> CanvasKind {
        match self {
            CanvasKind::Simple(simple) => CanvasKind::Simple(simple),
            CanvasKind::Feedback(feedback) => CanvasKind::Feedback(
                FeedbackCanvas {
                    colorbuffers: ColorBuffers {
                        cursor: (1 - feedback.colorbuffers.cursor) as usize,
                        ..feedback.colorbuffers
                    },
                    ..feedback
                },
            ),
        }
    }

    /// Makes a feedback canvas if `feedback` says so, else a simple one.
    pub fn new(
        pointers: &mut FunctionPointers,
        vertices: &QuadVertices,
        code: &str,
        textures: Vec<NamedTexture>,
        resolution: [u32; 2],
        feedback: bool,
        component: TextureComponentDataType,
    ) -> (canvas: Self)
        requires
            textures@.len() <= MAX_TEXTURES,
            old(pointers)@.names + Self::names_needed(feedback) <= u32::MAX,
        ensures
            canvas.wf(),
            canvas is Feedback == feedback,
            canvas.size() == (resolution@[0], resolution@[1]),
            canvas.textures() == textures@,
            canvas.names() == consecutive(old(pointers)@.names, Self::names_needed(feedback)),
            final(pointers)@ == old(pointers)@.after(
                canvas.build_calls(vertices.0@, code@),
                Self::names_needed(feedback),
            ),
    {
        if feedback {
            let canvas = FeedbackCanvas::new(
                pointers,
                vertices,
                code,
                textures,
                resolution,
                component,
            );
            CanvasKind::Feedback(canvas)
        } else {
            let canvas = SimpleCanvas::new(
                pointers,
                vertices,
                code,
                textures,
                resolution,
                component,
            );
            CanvasKind::Simple(canvas)
        }
    }

    pub fn resolution(&self) -> (resolution: [u32; 2])
        ensures
            (resolution@[0], resolution@[1]) == self.size(),
    {
        match self {
            CanvasKind::Simple(simple) => simple.resolution(),
            CanvasKind::Feedback(feedback) => feedback.resolution(),
        }
    }

    /// Sets a uniform of the drawing program, if the program has it.
    pub fn set_uniform(&self, pointers: &mut FunctionPointers, name: &str, data: Uniform)
        ensures
            final(pointers)@ == old(pointers)@.after(uniform_calls(self.painter(), name@, data), 0),
    {
        match self {
            CanvasKind::Simple(simple) => simple.set_uniform(pointers, name, data),
            CanvasKind::Feedback(feedback) => feedback.set_uniform(pointers, name, data),
        }
    }

    /// Clears what the canvas remembers of earlier frames.
    pub fn reset(&mut self, pointers: &mut FunctionPointers)
        requires
            old(self).wf(),
        ensures
            *final(self) == old(self).reset_spec(),
            final(self).wf(),
            final(pointers)@ == old(pointers)@.after(old(self).reset_calls(), 0),
    {
        match self {
            CanvasKind::Simple(simple) => {
                proof {
                    assert(pointers@.calls =~= pointers@.calls + Seq::<Call>::empty());
                }
            },
            CanvasKind::Feedback(feedback) => {
                feedback.reset(pointers);
            },
        }
    }

    /// Draws a frame.
    pub fn render(&mut self, pointers: &mut FunctionPointers)
        requires
            old(self).wf(),
        ensures
            *final(self) == old(self).rendered(),
            final(self).wf(),
            final(pointers)@ == old(pointers)@.after(old(self).render_calls(), 0),
    {
        match self {
            CanvasKind::Simple(simple) => simple.render(pointers),
            CanvasKind::Feedback(feedback) => feedback.render(pointers),
        }
    }

    /// Shows the last frame on the presentation surface.
    pub fn blit(&mut self, pointers: &mut FunctionPointers, origin: [i32; 2], clear: GLbitfield)
        requires
            old(self).wf(),
        ensures
            *final(self) == *old(self),
            final(pointers)@ == old(pointers)@.after(
                old(self).blit_calls((origin@[0], origin@[1]), clear),
                0,
            ),
    {
        match self {
            CanvasKind::Simple(simple) => simple.blit(pointers, origin, clear),
            CanvasKind::Feedback(feedback) => feedback.blit(pointers, origin, clear),
        }
    }

    /// Gives the objects of the canvas up.
    pub fn release(&self, pointers: &mut FunctionPointers)
        ensures
            final(pointers)@ == old(pointers)@.after(self.release_calls(), 0),
    {
        match self {
            CanvasKind::Simple(simple) => simple.release(pointers),
            CanvasKind::Feedback(feedback) => feedback.release(pointers),
        }
    }
}

// ------------------------------------------------------------

/// A render target with the vertex buffer of its quad.
#[derive(Debug)]
pub struct Canvas {
    pub vertices: QuadVertices,
    pub kind: CanvasKind,
}

impl Canvas {
    pub open spec fn wf(&self) -> bool {
        self.kind.wf()
    }

    /// The names of the objects of the canvas but its input textures, in the
    /// order of their making.
    pub open spec fn names(&self) -> Seq<GLuint> {
        seq![self.vertices.0@] + self.kind.names()
    }

    /// How many names the objects of a canvas take, its vertex buffer
    /// counted.
    pub open spec fn names_needed(feedback: bool) -> nat {
        1 + CanvasKind::names_needed(feedback)
    }

    /// The calls that make the canvas for the fragment source `code`.
    pub open spec fn build_calls(&self, code: Seq<char>) -> Seq<Call> {
        self.vertices.build_calls() + self.kind.build_calls(self.vertices.0@, code)
    }

    /// The calls that give the canvas up.
    pub open spec fn release_calls(&self) -> Seq<Call> {
        seq![Call::DeleteBuffer(self.vertices.0@)] + self.kind.release_calls()
    }

    /// The canvas as it is when it draws frame `frame`: before frame 0 it
    /// forgets the frames before.
    pub open spec fn ready(self, frame: Frame) -> Canvas {
        if frame == 0 {
            Canvas { kind: self.kind.reset_spec(), ..self }
        } else {
            self
        }
    }

    /// The canvas after it has shown frame `frame`.
    pub open spec fn shown(self, frame: Frame) -> Canvas {
        Canvas { kind: self.ready(frame).kind.rendered(), ..self }
    }

    /// The calls that show frame `frame`, `time` being its time: before
    /// frame 0 the canvas forgets the frames before; the uniforms `time` and
    /// `frame` are set if the program has them; the frame is drawn, and
    /// shown on the presentation surface.
    pub open spec fn frame_calls(&self, frame: Frame, time: FrameTime) -> Seq<Call> {
        (if frame == 0 {
            self.kind.reset_calls()
        } else {
            Seq::empty()
        }) + uniform_calls(self.kind.painter(), "time"@, Uniform::Seconds(time)) + uniform_calls(
            self.kind.painter(),
            "frame"@,
            Uniform::Int(frame as GLint),
        ) + self.ready(frame).kind.render_calls() + self.shown(frame).kind.blit_calls(
            (0, 0),
            COLOR_BUFFER_BIT,
        )
    }

    pub fn new(
        pointers: &mut FunctionPointers,
        code: &str,
        textures: Vec<NamedTexture>,
        resolution: [u32; 2],
        feedback: bool,
        component: TextureComponentDataType,
    ) -> (canvas: Self)
        requires
            textures@.len() <= MAX_TEXTURES,
            old(pointers)@.names + Self::names_needed(feedback) <= u32::MAX,
        ensures
            canvas.wf(),
            canvas.kind is Feedback == feedback,
            canvas.kind.size() == (resolution@[0], resolution@[1]),
            canvas.kind.textures() == textures@,
            canvas.names() == consecutive(old(pointers)@.names, Self::names_needed(feedback)),
            final(pointers)@ == old(pointers)@.after(
                canvas.build_calls(code@),
                Self::names_needed(feedback),
            ),
    {
        let vertices = QuadVertices::new(pointers);
        let kind = CanvasKind::new(
            pointers,
            &vertices,
            code,
            textures,
            resolution,
            feedback,
            component,
        );
        let canvas = Canvas { vertices, kind };
        proof {
            assert(canvas.names() =~= consecutive(
                old(pointers)@.names,
                Self::names_needed(feedback),
            ));
            lemma_after_after(
                old(pointers)@,
                canvas.vertices.build_calls(),
                1,
                canvas.kind.build_calls(canvas.vertices.0@, code@),
                CanvasKind::names_needed(feedback),
            );
        }
        canvas
    }

    pub fn resolution(&self) -> (resolution: [u32; 2])
        ensures
            (resolution@[0], resolution@[1]) == self.kind.size(),
    {
        self.kind.resolution()
    }

    /// Sets a uniform of the drawing program, if the program has it.
    pub fn set_uniform(&self, pointers: &mut FunctionPointers, name: &str, data: Uniform)
        ensures
            final(pointers)@ == old(pointers)@.after(
                uniform_calls(self.kind.painter(), name@, data),
                0,
            ),
    {
        self.kind.set_uniform(pointers, name, data)
    }

    /// Draws a frame.
    pub fn render(&mut self, pointers: &mut FunctionPointers)
        requires
            old(self).wf(),
        ensures
            final(self).vertices == old(self).vertices,
            final(self).kind == old(self).kind.rendered(),
            final(self).wf(),
            final(pointers)@ == old(pointers)@.after(old(self).kind.render_calls(), 0),
    {
        self.kind.render(pointers)
    }

    /// Shows the last frame on the presentation surface.
    pub fn blit(&mut self, pointers: &mut FunctionPointers, origin: [i32; 2], clear: GLbitfield)
        requires
            old(self).wf(),
        ensures
            *final(self) == *old(self),
            final(pointers)@ == old(pointers)@.after(
                old(self).kind.blit_calls((origin@[0], origin@[1]), clear),
                0,
            ),
    {
        self.kind.blit(pointers, origin, clear)
    }

    /// Gives the objects of the canvas up.
    pub fn release(&self, pointers: &mut FunctionPointers)
        ensures
            final(pointers)@ == old(pointers)@.after(self.release_calls(), 0),
    {
        self.vertices.release(pointers);
        self.kind.release(pointers);
        proof {
            assert(pointers@.calls =~= old(pointers)@.calls + self.release_calls());
        }
    }
}

// ------------------------------------------------------------

/// The calls that give the textures up, in order.
pub open spec fn textures_release_calls(textures: Seq<NamedTexture>) -> Seq<Call> {
    Seq::new(textures.len(), |i: int| Call::DeleteTexture(textures[i].texture@))
}

/// Gives the textures up.
pub fn release_textures(pointers: &mut FunctionPointers, textures: &Vec<NamedTexture>)
    ensures
        final(pointers)@ == old(pointers)@.after(textures_release_calls(textures@), 0),
{
    let mut at: usize = 0;
    proof {
        assert(pointers@.calls =~= old(pointers)@.calls + textures_release_calls(
            textures@.take(0),
        ));
    }
    while at < textures.len()
        invariant
            at <= textures@.len(),
            pointers@ == old(pointers)@.after(textures_release_calls(textures@.take(at as int)), 0),
        decreases textures@.len() - at,
    {
        textures[at].release(pointers);
        proof {
            assert(pointers@.calls =~= old(pointers)@.calls + textures_release_calls(
                textures@.take(at + 1),
            ));
        }
        at += 1;
    }
    proof {
        assert(textures@.take(at as int) =~= textures@);
    }
}

/// What a player is: its clock, its canvas, and the type of the numbers in
/// the color buffers of the canvas.
pub struct Player {
    pub clock: TimelineView,
    pub canvas: Canvas,
    pub component: TextureComponentDataType,
}

impl Player {
    /// The time that the clock tells: its frame over its rate.
    pub open spec fn time(self) -> FrameTime {
        FrameTime { frames: self.clock.frame, rate: self.clock.fps }
    }

    /// The calls that show frame `frame` at the time that the clock tells.
    pub open spec fn frame_calls(self, frame: Frame) -> Seq<Call> {
        self.canvas.frame_calls(frame, self.time())
    }

    /// The calls that show the frame that is due, if one is.
    pub open spec fn play_calls(self, due: Option<Frame>) -> Seq<Call> {
        match due {
            Some(frame) => self.frame_calls(frame),
            None => Seq::empty(),
        }
    }

    /// The player after it has shown the frame that is due, if one is.
    pub open spec fn played(self, due: Option<Frame>) -> Player {
        match due {
            Some(frame) => Player { canvas: self.canvas.shown(frame), ..self },
            None => self,
        }
    }

    /// What a refresh makes of the player and of a recorder, if the clock
    /// reads `nanos` nanoseconds since its start: the clock advances; if it
    /// yields a frame, the frame is shown, at the time that the clock tells
    /// after it has advanced; if it yields none, nothing else happens.
    pub open spec fn refreshed(
        self,
        after: Player,
        recorded: Recorded,
        recorder: Recorded,
        shown: bool,
        nanos: nat,
    ) -> bool {
        let (clock, due) = self.clock.tick(nanos);
        let advanced = Player { clock, ..self };
        &&& after == advanced.played(due)
        &&& shown == due is Some
        &&& recorder == recorded.after(advanced.play_calls(due), 0)
    }
}

/// A canvas with the frame clock that drives it.
pub struct CanvasPlayer {
    timeline: Timeline,
    canvas: Canvas,
    component: TextureComponentDataType,
}

impl View for CanvasPlayer {
    type V = Player;

    closed spec fn view(&self) -> Player {
        Player { clock: self.timeline@, canvas: self.canvas, component: self.component }
    }
}

impl CanvasPlayer {
    /// The canvas of the player is sound. Every player that is made is so,
    /// and stays so.
    pub open spec fn wf(&self) -> bool {
        self@.canvas.wf()
    }

    /// Makes a canvas for the fragment source `code` with the given input
    /// textures, and a player that drives it with the clock.
    ///
    /// With more input textures than a canvas takes, or without enough names
    /// left for the objects of the canvas, no canvas is made: the textures
    /// are given up, and the error says that a value is out of range, or
    /// that memory has run out.
    pub fn new(
        pointers: &mut FunctionPointers,
        timeline: Timeline,
        code: &str,
        textures: Vec<NamedTexture>,
        resolution: [u32; 2],
        feedback: bool,
        component: TextureComponentDataType,
    ) -> (made: OGLResult<Self>)
        ensures
            match made {
                Ok(player) => {
                    &&& textures@.len() <= MAX_TEXTURES
                    &&& old(pointers)@.names + Canvas::names_needed(feedback) <= u32::MAX
                    &&& player.wf()
                    &&& player@.clock == timeline@
                    &&& player@.component == component
                    &&& player@.canvas.kind is Feedback == feedback
                    &&& player@.canvas.kind.size() == (resolution@[0], resolution@[1])
                    &&& player@.canvas.kind.textures() == textures@
                    &&& player@.canvas.names() == consecutive(
                        old(pointers)@.names,
                        Canvas::names_needed(feedback),
                    )
                    &&& final(pointers)@ == old(pointers)@.after(
                        player@.canvas.build_calls(code@),
                        Canvas::names_needed(feedback),
                    )
                },
                Err(error) => {
                    &&& final(pointers)@ == old(pointers)@.after(
                        textures_release_calls(textures@),
                        0,
                    )
                    &&& error matches OGLError::GL(flag)
                    &&& if textures@.len() > MAX_TEXTURES {
                        flag == INVALID_VALUE
                    } else {
                        old(pointers)@.names + Canvas::names_needed(feedback) > u32::MAX && flag
                            == OUT_OF_MEMORY
                    }
                },
            },
    {
        if textures.len() > MAX_TEXTURES {
            release_textures(pointers, &textures);
            return Err(OGLError::GL(INVALID_VALUE));
        }
        let needed: u32 = if feedback {
            13
        } else {
            11
        };
        if pointers.spare() < needed {
            release_textures(pointers, &textures);
            return Err(OGLError::GL(OUT_OF_MEMORY));
        }
        let canvas = Canvas::new(pointers, code, textures, resolution, feedback, component);
        Ok(CanvasPlayer { timeline, canvas, component })
    }

    /// Asks the clock for the frame that is due, and shows it if one is.
    /// Tells whether a frame was shown. What the clock reads does not depend
    /// on the player: whatever it reads, the refresh does what the reading
    /// asks for.
    pub fn refresh(&mut self, pointers: &mut FunctionPointers) -> (shown: bool)
        requires
            old(self).wf(),
        ensures
            final(self).wf(),
            exists|nanos: nat| #[trigger]
                old(self)@.refreshed(final(self)@, old(pointers)@, final(pointers)@, shown, nanos),
    {
        let due = self.timeline.next();
        let ghost clock = self.timeline@;
        let ghost nanos = choose|nanos: nat| (clock, due) == old(self).timeline@.tick(nanos);
        let shown = self.play(pointers, due);
        proof {
            assert((clock, due) == old(self).timeline@.tick(nanos));
            assert(old(self)@.refreshed(self@, old(pointers)@, pointers@, shown, nanos));
        }
        shown
    }

    /// Shows the frame that is due, if one is: before frame 0 a feedback
    /// canvas forgets the frames before; the uniforms `time` and `frame` are
    /// set if the program has them; the frame is drawn and shown. Tells
    /// whether a frame was shown.
    pub fn play(&mut self, pointers: &mut FunctionPointers, due: Option<Frame>) -> (shown: bool)
        requires
            old(self).wf(),
        ensures
            final(self).wf(),
            final(self)@ == old(self)@.played(due),
            shown == due is Some,
            final(pointers)@ == old(pointers)@.after(old(self)@.play_calls(due), 0),
    {
        match due {
            Some(frame) => {
                if frame == 0 {
                    self.canvas.kind.reset(pointers);
                } else {
                    proof {
                        assert(pointers@.calls =~= pointers@.calls + Seq::<Call>::empty());
                    }
                }
                let time = self.timeline.time();
                self.canvas.set_uniform(pointers, "time", Uniform::Seconds(time));
                #[verifier::truncate]
                let index: GLint = frame as GLint;
                self.canvas.set_uniform(pointers, "frame", Uniform::Int(index));
                self.canvas.render(pointers);
                self.canvas.blit(pointers, [0, 0], COLOR_BUFFER_BIT);
                proof {
                    assert(time == old(self)@.time());
                    assert(pointers@.calls =~= old(pointers)@.calls + old(self)@.frame_calls(
                        frame,
                    ));
                }
                true
            },
            None => {
                proof {
                    assert(pointers@.calls =~= pointers@.calls + Seq::<Call>::empty());
                }
                false
            },
        }
    }

    /// The size of the picture.
    pub fn resolution(&self) -> (resolution: [u32; 2])
        ensures
            (resolution@[0], resolution@[1]) == self@.canvas.kind.size(),
    {
        self.canvas.resolution()
    }

    /// Whether each frame reads the frame before it.
    pub fn feedback(&self) -> (feedback: bool)
        ensures
            feedback == self@.canvas.kind is Feedback,
    {
        match self.canvas.kind {
            CanvasKind::Feedback(_) => true,
            CanvasKind::Simple(_) => false,
        }
    }

    /// The clock of the player.
    pub fn timeline(&self) -> (timeline: &Timeline)
        ensures
            timeline@ == self@.clock,
    {
        &self.timeline
    }

    /// The type of the numbers in the color buffers of the canvas.
    pub fn component(&self) -> (component: TextureComponentDataType)
        ensures
            component == self@.component,
    {
        self.component
    }

    /// Gives the objects of the canvas up.
    pub fn release(&self, pointers: &mut FunctionPointers)
        ensures
            final(pointers)@ == old(pointers)@.after(self@.canvas.release_calls(), 0),
    {
        self.canvas.release(pointers)
    }
}

} // verus!
