//! What the recorded calls do to the graphics backend, as far as the color
//! buffers go: which framebuffer is drawn into, which texture sits on which
//! unit, and which textures are blank because they were cleared and not
//! drawn into since.

use crate::buffers::buffers_clear_calls;
use crate::buffers::ColorBuffer;
use crate::canvas::draw_call;
use crate::canvas::uniform_calls;
use crate::canvas::Canvas;
use crate::canvas::CanvasKind;
use crate::canvas::FeedbackCanvas;
use crate::ogl::Call;
use crate::ogl::GLenum;
use crate::ogl::GLuint;
use crate::ogl::Uniform;
use crate::quad::QuadVertices;
use crate::ogl::COLOR_BUFFER_BIT;
use crate::textures::on_units_from;
use crate::textures::samplers_bind_calls;
use crate::textures::Sampler;
use crate::timeline::FrameTime;
use vstd::prelude::*;

verus! {

/// The state of the graphics backend, as far as the color buffers go.
pub struct Gpu {
    /// The framebuffer that is bound; none is the presentation surface.
    pub framebuffer: Option<GLuint>,
    /// The texture unit that is selected.
    pub unit: GLenum,
    /// The texture on each unit.
    pub units: Map<GLenum, GLuint>,
    /// The texture that is the color buffer of each framebuffer.
    pub attachments: Map<GLuint, GLuint>,
    /// The textures that were cleared and not drawn into since.
    pub blank: Set<GLuint>,
}

impl Gpu {
    /// The texture that a draw call draws into, if the bound framebuffer has
    /// one.
    pub open spec fn target(self) -> Option<GLuint> {
        match self.framebuffer {
            Some(framebuffer) => if self.attachments.contains_key(framebuffer) {
                Some(self.attachments[framebuffer])
            } else {
                None
            },
            None => None,
        }
    }

    /// Whether the color buffer is the color attachment of its framebuffer.
    pub open spec fn holds(self, buffer: ColorBuffer) -> bool {
        self.attachments.contains_key(buffer.framebuffer@) && self.attachments[buffer.framebuffer@]
            == buffer.texture@
    }

    /// The state after the call.
    pub open spec fn step(self, call: Call) -> Gpu {
        match call {
            Call::BindFramebuffer(framebuffer) => Gpu { framebuffer: Some(framebuffer), ..self },
            Call::BindDefaultFramebuffer => Gpu { framebuffer: None, ..self },
            Call::ActiveTexture(unit) => Gpu { unit, ..self },
            Call::BindTexture(texture) => Gpu {
                units: self.units.insert(self.unit, texture),
                ..self
            },
            Call::AttachColor(texture) => match self.framebuffer {
                Some(framebuffer) => Gpu {
                    attachments: self.attachments.insert(framebuffer, texture),
                    ..self
                },
                None => self,
            },
            Call::Clear(mask) => match self.target() {
                Some(texture) => if mask & COLOR_BUFFER_BIT == COLOR_BUFFER_BIT {
                    Gpu { blank: self.blank.insert(texture), ..self }
                } else {
                    self
                },
                None => self,
            },
            Call::DrawElements { mode, indices } => match self.target() {
                Some(texture) => Gpu { blank: self.blank.remove(texture), ..self },
                None => self,
            },
            Call::FillTexture { image, mipmap } => if self.units.contains_key(self.unit)
                && image.data is Some {
                Gpu { blank: self.blank.remove(self.units[self.unit]), ..self }
            } else {
                self
            },
            _ => self,
        }
    }

    /// The state after the calls, one after the other.
    pub open spec fn run(self, calls: Seq<Call>) -> Gpu
        decreases calls.len(),
    {
        if calls.len() == 0 {
            self
        } else {
            self.run(calls.drop_last()).step(calls.last())
        }
    }
}

/// Running calls and then more calls is running all of them.
pub proof fn lemma_run_both(gpu: Gpu, first: Seq<Call>, second: Seq<Call>)
    ensures
        gpu.run(first + second) == gpu.run(first).run(second),
    decreases second.len(),
{
    if second.len() == 0 {
        assert(first + second =~= first);
    } else {
        lemma_run_both(gpu, first, second.drop_last());
        assert((first + second).drop_last() =~= first + second.drop_last());
        assert((first + second).last() == second.last());
    }
}

/// Running one more call is a step from where the calls before lead.
pub proof fn lemma_run_push(gpu: Gpu, calls: Seq<Call>, call: Call)
    ensures
        gpu.run(calls.push(call)) == gpu.run(calls).step(call),
        gpu.run(Seq::empty()) == gpu,
{
    assert(calls.push(call).drop_last() =~= calls);
}

/// Putting input textures on units other than unit 0 changes neither what
/// is drawn into, nor which textures are blank, nor the texture on unit 0.
pub proof fn lemma_inputs_leave_unit_0(gpu: Gpu, samplers: Seq<Sampler>)
    requires
        on_units_from(samplers, 1),
    ensures
        gpu.run(samplers_bind_calls(samplers)).framebuffer == gpu.framebuffer,
        gpu.run(samplers_bind_calls(samplers)).attachments == gpu.attachments,
        gpu.run(samplers_bind_calls(samplers)).blank == gpu.blank,
        gpu.units.contains_key(0) ==> gpu.run(samplers_bind_calls(samplers)).units.contains_key(0)
            && gpu.run(samplers_bind_calls(samplers)).units[0] == gpu.units[0],
    decreases samplers.len(),
{
    if samplers.len() > 0 {
        let before = samplers.drop_last();
        let last = samplers.last();
        assert forall|i: int| 0 <= i < before.len() implies (#[trigger] before[i]).unit == 1 + i by {
            assert(before[i] == samplers[i]);
        }
        lemma_inputs_leave_unit_0(gpu, before);
        lemma_run_both(gpu, samplers_bind_calls(before), last.bind_calls());
        let there = gpu.run(samplers_bind_calls(before));
        let calls = last.bind_calls();
        lemma_run_push(there, seq![calls[0]], calls[1]);
        lemma_run_push(there, Seq::empty(), calls[0]);
        assert(seq![calls[0]].push(calls[1]) =~= calls);
        assert(Seq::<Call>::empty().push(calls[0]) =~= seq![calls[0]]);
        assert(last.unit >= 1);
    }
}

/// The calls of frame 0 on a feedback canvas, up to the call that draws the
/// frame: both buffers are cleared, the uniforms are set, and the drawing is
/// prepared.
pub open spec fn wrap_calls(canvas: FeedbackCanvas, time: FrameTime) -> Seq<Call> {
    let ready = CanvasKind::Feedback(canvas).reset_spec();
    let program = canvas.programs.0.program@;
    canvas.reset_calls() + uniform_calls(program, "time"@, Uniform::Seconds(time)) + uniform_calls(
        program,
        "frame"@,
        Uniform::Int(0),
    ) + ready.render_calls().drop_last()
}

/// When the sequence of a feedback canvas starts over at frame 0, the frame
/// is drawn while the sampler of the frame before, on unit 0, reads a buffer
/// that has just been cleared, and not what the pass before has left; and
/// the frame is drawn into the other buffer.
pub proof fn lemma_wrap_reads_blank_frame(
    canvas: FeedbackCanvas,
    vertices: QuadVertices,
    gpu: Gpu,
    time: FrameTime,
)
    requires
        canvas.wf(),
        gpu.holds(canvas.colorbuffers.list@[0]),
        gpu.holds(canvas.colorbuffers.list@[1]),
    ensures
        (Canvas { vertices, kind: CanvasKind::Feedback(canvas) }).frame_calls(0, time).take(
            wrap_calls(canvas, time).len() as int + 1,
        ) == wrap_calls(canvas, time).push(draw_call()),
        ({
            let before = gpu.run(wrap_calls(canvas, time));
            let read = canvas.colorbuffers.list@[0].texture@;
            &&& before.units.contains_key(0)
            &&& before.units[0] == read
            &&& before.blank.contains(read)
            &&& before.target() == Some(canvas.colorbuffers.list@[1].texture@)
            &&& before.target() != Some(read)
        }),
{
    let list = canvas.colorbuffers.list@;
    let first = list[0];
    let second = list[1];
    let program = canvas.programs.0.program@;
    let ready = CanvasKind::Feedback(canvas).reset_spec();
    let whole = (Canvas { vertices, kind: CanvasKind::Feedback(canvas) }).frame_calls(0, time);
    let render = ready.render_calls();
    assert(render.last() == draw_call());
    assert(render =~= render.drop_last().push(draw_call()));
    assert(whole.take(wrap_calls(canvas, time).len() as int + 1) =~= wrap_calls(canvas, time).push(
        draw_call(),
    ));

    assert(COLOR_BUFFER_BIT & COLOR_BUFFER_BIT == COLOR_BUFFER_BIT) by (bit_vector);
    // Both buffers are cleared.
    let clears = canvas.reset_calls();
    let one = list.drop_last();
    assert(one.drop_last() =~= Seq::empty());
    assert(buffers_clear_calls(one.drop_last()) =~= Seq::empty());
    assert(one.last() == first);
    assert(buffers_clear_calls(one) =~= first.clear_calls());
    assert(clears =~= first.clear_calls() + second.clear_calls());
    lemma_run_both(gpu, first.clear_calls(), second.clear_calls());
    let c0 = first.clear_calls();
    lemma_run_push(gpu, Seq::empty(), c0[0]);
    lemma_run_push(gpu, seq![c0[0]], c0[1]);
    assert(Seq::<Call>::empty().push(c0[0]) =~= seq![c0[0]]);
    assert(seq![c0[0]].push(c0[1]) =~= c0);
    let g1 = gpu.run(c0);
    assert(g1.blank.contains(first.texture@));
    let c1 = second.clear_calls();
    lemma_run_push(g1, Seq::empty(), c1[0]);
    lemma_run_push(g1, seq![c1[0]], c1[1]);
    assert(Seq::<Call>::empty().push(c1[0]) =~= seq![c1[0]]);
    assert(seq![c1[0]].push(c1[1]) =~= c1);
    let g2 = g1.run(c1);
    assert(g2 == gpu.run(clears));
    assert(g2.blank.contains(first.texture@) && g2.blank.contains(second.texture@));
    assert(g2.attachments == gpu.attachments);

    // The uniforms change nothing here.
    let u1 = uniform_calls(program, "time"@, Uniform::Seconds(time));
    let u2 = uniform_calls(program, "frame"@, Uniform::Int(0));
    lemma_run_push(g2, Seq::empty(), u1[0]);
    lemma_run_push(g2, seq![u1[0]], u1[1]);
    assert(Seq::<Call>::empty().push(u1[0]) =~= seq![u1[0]]);
    assert(seq![u1[0]].push(u1[1]) =~= u1);
    assert(g2.run(u1) == g2);
    lemma_run_push(g2, Seq::empty(), u2[0]);
    lemma_run_push(g2, seq![u2[0]], u2[1]);
    assert(Seq::<Call>::empty().push(u2[0]) =~= seq![u2[0]]);
    assert(seq![u2[0]].push(u2[1]) =~= u2);
    assert(g2.run(u2) == g2);
    lemma_run_both(gpu, clears, u1);
    lemma_run_both(gpu, clears + u1, u2);
    assert(gpu.run(clears + u1 + u2) == g2);

    // The input textures are put on their units.
    let binds = samplers_bind_calls(canvas.samplers@);
    lemma_inputs_leave_unit_0(g2, canvas.samplers@);
    let g3 = g2.run(binds);

    // The frame is drawn into the second buffer and reads the first.
    let tail = seq![
        Call::BindFramebuffer(second.framebuffer@),
        Call::Clear(COLOR_BUFFER_BIT),
        Call::ActiveTexture(0),
        Call::BindTexture(first.texture@),
        Call::UseProgram(program),
        Call::BindVertexArray(canvas.programs.0.vao@),
        Call::Viewport { origin: (0, 0), resolution: canvas.size() },
    ];
    assert(render.drop_last() =~= binds + tail);
    lemma_run_push(g3, Seq::empty(), tail[0]);
    lemma_run_push(g3, tail.take(1), tail[1]);
    lemma_run_push(g3, tail.take(2), tail[2]);
    lemma_run_push(g3, tail.take(3), tail[3]);
    lemma_run_push(g3, tail.take(4), tail[4]);
    lemma_run_push(g3, tail.take(5), tail[5]);
    lemma_run_push(g3, tail.take(6), tail[6]);
    assert(Seq::<Call>::empty().push(tail[0]) =~= tail.take(1));
    assert(tail.take(1).push(tail[1]) =~= tail.take(2));
    assert(tail.take(2).push(tail[2]) =~= tail.take(3));
    assert(tail.take(3).push(tail[3]) =~= tail.take(4));
    assert(tail.take(4).push(tail[4]) =~= tail.take(5));
    assert(tail.take(5).push(tail[5]) =~= tail.take(6));
    assert(tail.take(6).push(tail[6]) =~= tail);
    let g4 = g3.run(tail);
    lemma_run_both(g2, binds, tail);
    lemma_run_both(gpu, clears + u1 + u2, binds + tail);
    assert(wrap_calls(canvas, time) =~= (clears + u1 + u2) + (binds + tail));
    assert(gpu.run(wrap_calls(canvas, time)) == g4);
}

// ------------------------------------------------------------
// The color buffers stay attached

/// Whether none of the calls attaches a color buffer.
pub open spec fn attaches_nothing(calls: Seq<Call>) -> bool {
    forall|i: int| 0 <= i < calls.len() ==> !(#[trigger] calls[i] is AttachColor)
}

/// Calls that attach no color buffer leave every framebuffer with the color
/// buffer that it has.
pub proof fn lemma_attachments_stay(gpu: Gpu, calls: Seq<Call>)
    requires
        attaches_nothing(calls),
    ensures
        gpu.run(calls).attachments == gpu.attachments,
    decreases calls.len(),
{
    if calls.len() > 0 {
        let before = calls.drop_last();
        assert forall|i: int| 0 <= i < before.len() implies !(#[trigger] before[i] is AttachColor) by {
            assert(before[i] == calls[i]);
        }
        lemma_attachments_stay(gpu, before);
        assert(!(calls[calls.len() - 1] is AttachColor));
    }
}

proof fn lemma_binds_attach_nothing(samplers: Seq<Sampler>)
    ensures
        attaches_nothing(samplers_bind_calls(samplers)),
    decreases samplers.len(),
{
    if samplers.len() > 0 {
        lemma_binds_attach_nothing(samplers.drop_last());
        let before = samplers_bind_calls(samplers.drop_last());
        let calls = samplers_bind_calls(samplers);
        assert forall|i: int| 0 <= i < calls.len() implies !(#[trigger] calls[i] is AttachColor) by {
            if i < before.len() {
                assert(calls[i] == before[i]);
            } else {
                assert(calls[i] == samplers.last().bind_calls()[i - before.len()]);
            }
        }
    }
}

proof fn lemma_clears_attach_nothing(list: Seq<ColorBuffer>)
    ensures
        attaches_nothing(buffers_clear_calls(list)),
    decreases list.len(),
{
    if list.len() > 0 {
        lemma_clears_attach_nothing(list.drop_last());
        let before = buffers_clear_calls(list.drop_last());
        let calls = buffers_clear_calls(list);
        assert forall|i: int| 0 <= i < calls.len() implies !(#[trigger] calls[i] is AttachColor) by {
            if i < before.len() {
                assert(calls[i] == before[i]);
            } else {
                assert(calls[i] == list.last().clear_calls()[i - before.len()]);
            }
        }
    }
}

proof fn lemma_both_attach_nothing(first: Seq<Call>, second: Seq<Call>)
    requires
        attaches_nothing(first),
        attaches_nothing(second),
    ensures
        attaches_nothing(first + second),
{
    let calls = first + second;
    assert forall|i: int| 0 <= i < calls.len() implies !(#[trigger] calls[i] is AttachColor) by {
        if i < first.len() {
            assert(calls[i] == first[i]);
        } else {
            assert(calls[i] == second[i - first.len()]);
        }
    }
}

/// Showing a frame leaves every framebuffer with the color buffer that it
/// has: what is attached when a canvas is made stays attached.
pub proof fn lemma_frame_keeps_attachments(gpu: Gpu, canvas: Canvas, frame: u32, time: FrameTime)
    ensures
        gpu.run(canvas.frame_calls(frame, time)).attachments == gpu.attachments,
{
    let reset = if frame == 0 {
        canvas.kind.reset_calls()
    } else {
        Seq::<Call>::empty()
    };
    let u1 = uniform_calls(canvas.kind.painter(), "time"@, Uniform::Seconds(time));
    let u2 = uniform_calls(canvas.kind.painter(), "frame"@, Uniform::Int(frame as i32));
    let render = canvas.ready(frame).kind.render_calls();
    let blit = canvas.shown(frame).kind.blit_calls((0, 0), COLOR_BUFFER_BIT);
    match canvas.kind {
        CanvasKind::Simple(simple) => {
            lemma_binds_attach_nothing(simple.samplers@);
            let binds = samplers_bind_calls(simple.samplers@);
            let paint = crate::canvas::paint_calls(simple.colorbuffer.framebuffer@);
            let draw = crate::canvas::run_calls(&simple.programs.0, simple.size());
            assert(attaches_nothing(paint));
            assert(attaches_nothing(draw));
            lemma_both_attach_nothing(binds, paint);
            lemma_both_attach_nothing(binds + paint, draw);
            assert(render == binds + paint + draw);
        },
        CanvasKind::Feedback(feedback) => {
            lemma_clears_attach_nothing(feedback.colorbuffers.list@);
            lemma_binds_attach_nothing(feedback.samplers@);
            let ready = canvas.ready(frame).kind->Feedback_0;
            let binds = samplers_bind_calls(ready.samplers@);
            let paint = crate::canvas::paint_calls(ready.target().framebuffer@);
            let read = seq![Call::ActiveTexture(0), Call::BindTexture(ready.source().texture@)];
            let draw = crate::canvas::run_calls(&ready.programs.0, ready.size());
            assert(attaches_nothing(paint));
            assert(attaches_nothing(read));
            assert(attaches_nothing(draw));
            lemma_both_attach_nothing(binds, paint);
            lemma_both_attach_nothing(binds + paint, read);
            lemma_both_attach_nothing(binds + paint + read, draw);
            assert(render == binds + paint + read + draw);
        },
    }
    assert(attaches_nothing(reset));
    assert(attaches_nothing(u1));
    assert(attaches_nothing(u2));
    assert(attaches_nothing(blit));
    lemma_both_attach_nothing(reset, u1);
    lemma_both_attach_nothing(reset + u1, u2);
    lemma_both_attach_nothing(reset + u1 + u2, render);
    lemma_both_attach_nothing(reset + u1 + u2 + render, blit);
    lemma_attachments_stay(gpu, canvas.frame_calls(frame, time));
}

/// Making a color buffer attaches its texture to its framebuffer, and leaves
/// the other framebuffers with the color buffers that they have.
pub proof fn lemma_build_attaches(gpu: Gpu, buffer: ColorBuffer, resolution: (u32, u32))
    ensures
        gpu.run(buffer.build_calls(resolution)).holds(buffer),
        forall|other: GLuint|
            other != buffer.framebuffer@ && gpu.attachments.contains_key(other) ==> gpu.run(
                buffer.build_calls(resolution),
            ).attachments.contains_key(other) && gpu.run(
                buffer.build_calls(resolution),
            ).attachments[other] == gpu.attachments[other],
{
    let calls = buffer.build_calls(resolution);
    lemma_run_push(gpu, Seq::empty(), calls[0]);
    lemma_run_push(gpu, calls.take(1), calls[1]);
    lemma_run_push(gpu, calls.take(2), calls[2]);
    lemma_run_push(gpu, calls.take(3), calls[3]);
    lemma_run_push(gpu, calls.take(4), calls[4]);
    lemma_run_push(gpu, calls.take(5), calls[5]);
    lemma_run_push(gpu, calls.take(6), calls[6]);
    assert(Seq::<Call>::empty().push(calls[0]) =~= calls.take(1));
    assert(calls.take(1).push(calls[1]) =~= calls.take(2));
    assert(calls.take(2).push(calls[2]) =~= calls.take(3));
    assert(calls.take(3).push(calls[3]) =~= calls.take(4));
    assert(calls.take(4).push(calls[4]) =~= calls.take(5));
    assert(calls.take(5).push(calls[5]) =~= calls.take(6));
    assert(calls.take(6).push(calls[6]) =~= calls);
}

/// Once the calls that make a feedback canvas have been run, each of its two
/// color buffers is attached to its framebuffer.
pub proof fn lemma_feedback_canvas_is_attached(
    gpu: Gpu,
    canvas: FeedbackCanvas,
    vertices: GLuint,
    code: Seq<char>,
)
    requires
        canvas.wf(),
    ensures
        gpu.run(canvas.build_calls(vertices, code)).holds(canvas.colorbuffers.list@[0]),
        gpu.run(canvas.build_calls(vertices, code)).holds(canvas.colorbuffers.list@[1]),
{
    let list = canvas.colorbuffers.list@;
    let size = canvas.size();
    let one = list.drop_last();
    assert(one.drop_last() =~= Seq::empty());
    assert(crate::buffers::buffers_build_calls(one.drop_last(), size) =~= Seq::empty());
    assert(one.last() == list[0]);
    assert(crate::buffers::buffers_build_calls(one, size) =~= list[0].build_calls(size));
    let buffers = crate::buffers::buffers_build_calls(list, size);
    assert(buffers =~= list[0].build_calls(size) + list[1].build_calls(size));
    let whole = canvas.build_calls(vertices, code);
    let before = whole.take(whole.len() - buffers.len());
    assert(whole =~= before + buffers);
    lemma_run_both(gpu, before, buffers);
    let there = gpu.run(before);
    lemma_run_both(there, list[0].build_calls(size), list[1].build_calls(size));
    lemma_build_attaches(there, list[0], size);
    lemma_build_attaches(there.run(list[0].build_calls(size)), list[1], size);
}

} // verus!
