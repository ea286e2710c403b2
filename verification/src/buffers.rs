//! Off-screen color buffers, alone and in a ring, and the viewport.

use crate::ogl::Call;
use crate::ogl::ChannelCount;
use crate::ogl::TextureComponentDataType;
use crate::ogl::FunctionPointers;
use crate::ogl::GLuint;
use crate::ogl::Image;
use crate::ogl::ImageView;
use crate::ogl::InterpolationType;
use crate::ogl::COLOR_BUFFER_BIT;
use crate::quad::consecutive;
use crate::raii::FramebufferObject;
use crate::raii::Texture;
use vstd::prelude::*;

verus! {

/// An off-screen color buffer: a framebuffer that draws into a texture.
#[derive(Debug)]
pub struct ColorBuffer {
    pub framebuffer: FramebufferObject,
    pub texture: Texture,
    /// The type of the numbers that the texture holds.
    pub component: TextureComponentDataType,
}

impl ColorBuffer {
    /// The names of the objects of the buffer, in the order of their making.
    pub open spec fn names(&self) -> Seq<GLuint> {
        seq![self.framebuffer@, self.texture@]
    }

    /// The calls that make the buffer for pictures of the given size: the
    /// texture has four channels, is sampled at the nearest texel and has
    /// mipmaps, and is the color buffer of the framebuffer.
    pub open spec fn build_calls(&self, resolution: (u32, u32)) -> Seq<Call> {
        seq![
            Call::GenFramebuffer(self.framebuffer@),
            Call::BindFramebuffer(self.framebuffer@),
            Call::GenTexture(self.texture@),
            Call::BindTexture(self.texture@),
            Call::SetupTexture {
                wrap_mode: None,
                minification_filter: InterpolationType::Nearest,
                magnification_filter: InterpolationType::Nearest,
                mipmap_filter: Some(InterpolationType::Nearest),
            },
            Call::FillTexture {
                image: ImageView {
                    data: None,
                    resolution,
                    channels: ChannelCount::Four,
                    component: self.component,
                },
                mipmap: true,
            },
            Call::AttachColor(self.texture@),
        ]
    }

    /// The calls that clear the buffer.
    pub open spec fn clear_calls(&self) -> Seq<Call> {
        seq![Call::BindFramebuffer(self.framebuffer@), Call::Clear(COLOR_BUFFER_BIT)]
    }

    /// The calls that give the buffer up.
    pub open spec fn release_calls(&self) -> Seq<Call> {
        seq![Call::DeleteFramebuffer(self.framebuffer@), Call::DeleteTexture(self.texture@)]
    }

    pub fn new(
        pointers: &mut FunctionPointers,
        resolution: [u32; 2],
        component: TextureComponentDataType,
    ) -> (buffer: Self)
        requires
            old(pointers)@.names + 2 <= u32::MAX,
        ensures
            buffer.names() == consecutive(old(pointers)@.names, 2),
            buffer.component == component,
            final(pointers)@ == old(pointers)@.after(
                buffer.build_calls((resolution@[0], resolution@[1])),
                2,
            ),
    {
        let framebuffer = FramebufferObject::new(pointers);
        framebuffer.bind(pointers);
        let texture = Texture::new(pointers);
        texture.bind(pointers);
        texture.setup(
            pointers,
            None,
            InterpolationType::Nearest,
            InterpolationType::Nearest,
            Some(InterpolationType::Nearest),
        );
        let image = Image { data: None, resolution, channels: ChannelCount::Four, component };
        texture.fill(pointers, image, true);
        framebuffer.attach_color(pointers, &texture);
        let buffer = ColorBuffer { framebuffer, texture, component };
        proof {
            assert(buffer.names() =~= consecutive(old(pointers)@.names, 2));
            assert(pointers@.calls =~= old(pointers)@.calls + buffer.build_calls(
                (resolution@[0], resolution@[1]),
            ));
        }
        buffer
    }

    pub fn bind_framebuffer(&self, pointers: &mut FunctionPointers)
        ensures
            final(pointers)@ == old(pointers)@.after(
                seq![Call::BindFramebuffer(self.framebuffer@)],
                0,
            ),
    {
        self.framebuffer.bind(pointers)
    }

    pub fn bind_texture(&self, pointers: &mut FunctionPointers)
        ensures
            final(pointers)@ == old(pointers)@.after(seq![Call::BindTexture(self.texture@)], 0),
    {
        self.texture.bind(pointers)
    }

    /// Gives the objects of the buffer up.
    pub fn release(&self, pointers: &mut FunctionPointers)
        ensures
            final(pointers)@ == old(pointers)@.after(self.release_calls(), 0),
    {
        self.framebuffer.release(pointers);
        self.texture.release(pointers);
        proof {
            assert(pointers@.calls =~= old(pointers)@.calls + self.release_calls());
        }
    }
}

// ------------------------------------------------------------

/// The names of the objects of the buffers, in the order of their making.
pub open spec fn buffer_names(list: Seq<ColorBuffer>) -> Seq<GLuint>
    decreases list.len(),
{
    if list.len() == 0 {
        Seq::empty()
    } else {
        buffer_names(list.drop_last()) + list.last().names()
    }
}

/// The calls that make the buffers, one after the other.
pub open spec fn buffers_build_calls(list: Seq<ColorBuffer>, resolution: (u32, u32)) -> Seq<Call>
    decreases list.len(),
{
    if list.len() == 0 {
        Seq::empty()
    } else {
        buffers_build_calls(list.drop_last(), resolution) + list.last().build_calls(resolution)
    }
}

/// The calls that clear the buffers, one after the other.
pub open spec fn buffers_clear_calls(list: Seq<ColorBuffer>) -> Seq<Call>
    decreases list.len(),
{
    if list.len() == 0 {
        Seq::empty()
    } else {
        buffers_clear_calls(list.drop_last()) + list.last().clear_calls()
    }
}

/// The calls that give the buffers up, one after the other.
pub open spec fn buffers_release_calls(list: Seq<ColorBuffer>) -> Seq<Call>
    decreases list.len(),
{
    if list.len() == 0 {
        Seq::empty()
    } else {
        buffers_release_calls(list.drop_last()) + list.last().release_calls()
    }
}

/// A ring of color buffers with a cursor on the one that is drawn into.
#[derive(Debug)]
pub struct ColorBuffers {
    pub list: Vec<ColorBuffer>,
    pub cursor: usize,
}

impl ColorBuffers {
    /// The ring holds a buffer and the cursor is on one of them.
    pub open spec fn wf(&self) -> bool {
        self.cursor < self.list@.len()
    }

    /// The cursor after it has gone on to the next buffer of the ring.
    pub open spec fn next_cursor(&self) -> nat {
        ((self.cursor + 1) % (self.list@.len() as int)) as nat
    }

    /// Makes a ring of `count` buffers, the cursor on the first.
    pub fn new(
        pointers: &mut FunctionPointers,
        resolution: [u32; 2],
        component: TextureComponentDataType,
        count: usize,
    ) -> (buffers: Self)
        requires
            count > 0,
            old(pointers)@.names + 2 * count <= u32::MAX,
        ensures
            buffers.wf(),
            buffers.cursor == 0,
            buffers.list@.len() == count,
            forall|i: int| 0 <= i < count ==> buffers.list@[i].component == component,
            buffer_names(buffers.list@) == consecutive(old(pointers)@.names, 2 * count as nat),
            final(pointers)@ == old(pointers)@.after(
                buffers_build_calls(buffers.list@, (resolution@[0], resolution@[1])),
                2 * count as nat,
            ),
    {
        let ghost size = (resolution@[0], resolution@[1]);
        let mut list: Vec<ColorBuffer> = Vec::new();
        let mut made: usize = 0;
        proof {
            assert(buffer_names(list@) =~= consecutive(old(pointers)@.names, 0));
            assert(pointers@.calls =~= old(pointers)@.calls + buffers_build_calls(list@, size));
        }
        while made < count
            invariant
                made <= count,
                size == (resolution@[0], resolution@[1]),
                list@.len() == made,
                old(pointers)@.names + 2 * count <= u32::MAX,
                forall|i: int| 0 <= i < made ==> list@[i].component == component,
                buffer_names(list@) == consecutive(old(pointers)@.names, 2 * made as nat),
                pointers@ == old(pointers)@.after(buffers_build_calls(list@, size), 2 * made as nat),
            decreases count - made,
        {
            let ghost before = list@;
            let buffer = ColorBuffer::new(pointers, resolution, component);
            list.push(buffer);
            made += 1;
            proof {
                assert(list@.drop_last() =~= before);
                assert(buffer_names(list@) =~= consecutive(old(pointers)@.names, 2 * made as nat));
                crate::ogl::lemma_after_after(
                    old(pointers)@,
                    buffers_build_calls(before, size),
                    2 * (made - 1) as nat,
                    list@.last().build_calls(size),
                    2,
                );
            }
        }
        ColorBuffers { list, cursor: 0 }
    }

    pub fn cursor(&self) -> (cursor: usize)
        ensures
            cursor == self.cursor,
    {
        self.cursor
    }

    /// Moves the cursor on to the next buffer of the ring.
    pub fn next(&mut self)
        requires
            old(self).wf(),
        ensures
            final(self).list == old(self).list,
            final(self).cursor == old(self).next_cursor(),
            final(self).wf(),
    {
        let length: usize = self.list.len();
        self.cursor = if self.cursor + 1 == length {
            0
        } else {
            self.cursor + 1
        };
        proof {
            let cursor = old(self).cursor as int;
            if cursor + 1 == length {
                assert((cursor + 1) % (length as int) == 0) by (nonlinear_arith)
                    requires
                        cursor + 1 == length,
                        length > 0,
                ;
            } else {
                assert((cursor + 1) % (length as int) == cursor + 1) by (nonlinear_arith)
                    requires
                        0 <= cursor + 1 < length,
                ;
            }
        }
    }

    /// Clears every buffer and puts the cursor back on the first; the
    /// buffers stay what they are.
    pub fn reset(&mut self, pointers: &mut FunctionPointers)
        requires
            old(self).wf(),
        ensures
            final(self).list == old(self).list,
            final(self).cursor == 0,
            final(self).wf(),
            final(pointers)@ == old(pointers)@.after(buffers_clear_calls(old(self).list@), 0),
    {
        let mut at: usize = 0;
        proof {
            assert(self.list@.take(0) =~= Seq::empty());
            assert(pointers@.calls =~= old(pointers)@.calls + buffers_clear_calls(
                self.list@.take(0),
            ));
        }
        while at < self.list.len()
            invariant
                at <= self.list@.len(),
                *self == *old(self),
                pointers@ == old(pointers)@.after(buffers_clear_calls(self.list@.take(at as int)), 0),
            decreases self.list@.len() - at,
        {
            self.list[at].bind_framebuffer(pointers);
            pointers.clear(COLOR_BUFFER_BIT);
            proof {
                let done = self.list@.take(at as int);
                let more = self.list@.take(at + 1);
                assert(more.drop_last() =~= done);
                assert(more.last() == self.list@[at as int]);
                assert(pointers@.calls =~= old(pointers)@.calls + buffers_clear_calls(more));
            }
            at += 1;
        }
        proof {
            assert(self.list@.take(at as int) =~= self.list@);
        }
        self.cursor = 0;
    }

    /// Gives the objects of the buffers up.
    pub fn release(&self, pointers: &mut FunctionPointers)
        ensures
            final(pointers)@ == old(pointers)@.after(buffers_release_calls(self.list@), 0),
    {
        let mut at: usize = 0;
        proof {
            assert(self.list@.take(0) =~= Seq::empty());
            assert(pointers@.calls =~= old(pointers)@.calls + buffers_release_calls(
                self.list@.take(0),
            ));
        }
        while at < self.list.len()
            invariant
                at <= self.list@.len(),
                pointers@ == old(pointers)@.after(
                    buffers_release_calls(self.list@.take(at as int)),
                    0,
                ),
            decreases self.list@.len() - at,
        {
            self.list[at].release(pointers);
            proof {
                let done = self.list@.take(at as int);
                let more = self.list@.take(at + 1);
                assert(more.drop_last() =~= done);
                assert(more.last() == self.list@[at as int]);
                assert(pointers@.calls =~= old(pointers)@.calls + buffers_release_calls(more));
            }
            at += 1;
        }
        proof {
            assert(self.list@.take(at as int) =~= self.list@);
        }
    }
}

// ------------------------------------------------------------

/// The part of the bound framebuffer that is drawn into.
#[derive(Clone, Copy, Debug)]
pub struct Viewport {
    pub origin: [i32; 2],
    pub resolution: [u32; 2],
}

impl Viewport {
    pub fn new(origin: [i32; 2], resolution: [u32; 2]) -> (viewport: Self)
        ensures
            viewport.origin == origin,
            viewport.resolution == resolution,
    {
        Viewport { origin, resolution }
    }

    pub open spec fn set_call(&self) -> Call {
        Call::Viewport {
            origin: (self.origin@[0], self.origin@[1]),
            resolution: (self.resolution@[0], self.resolution@[1]),
        }
    }

    pub fn set(&self, pointers: &mut FunctionPointers)
        ensures
            final(pointers)@ == old(pointers)@.after(seq![self.set_call()], 0),
    {
        pointers.viewport(self.origin, self.resolution)
    }
}

} // verus!
