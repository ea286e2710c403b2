//! Input textures: an image under the name of the sampler that reads it, and
//! its place on a texture unit.

use crate::ogl::Call;
use crate::ogl::FunctionPointers;
use crate::ogl::GLenum;
use crate::ogl::GLint;
use crate::ogl::GLuint;
use crate::ogl::Image;
use crate::ogl::ImageView;
use crate::ogl::InterpolationType;
use crate::ogl::OGLError;
use crate::ogl::OGLResult;
use crate::ogl::Uniform;
use crate::ogl::OUT_OF_MEMORY;
use crate::raii::Texture;
use vstd::prelude::*;
use vstd::string::StringExecFns;

verus! {

/// A texture with the name of the sampler that reads it.
#[derive(Debug)]
pub struct NamedTexture {
    pub texture: Texture,
    pub name: String,
}

impl NamedTexture {
    /// The calls that make the texture from the image: it is sampled at the
    /// nearest texel and has no mipmaps.
    pub open spec fn build_calls(&self, image: ImageView) -> Seq<Call> {
        seq![
            Call::GenTexture(self.texture@),
            Call::BindTexture(self.texture@),
            Call::SetupTexture {
                wrap_mode: None,
                minification_filter: InterpolationType::Nearest,
                magnification_filter: InterpolationType::Nearest,
                mipmap_filter: None,
            },
            Call::FillTexture { image, mipmap: false },
        ]
    }

    /// Makes a texture from the image, for the sampler of the given name.
    /// If no name is left for the texture, nothing is recorded and the error
    /// says that memory has run out.
    pub fn new(pointers: &mut FunctionPointers, image: Image, name: &str) -> (made: OGLResult<Self>)
        ensures
            match made {
                Ok(texture) => {
                    &&& old(pointers)@.names < u32::MAX
                    &&& texture.texture@ == old(pointers)@.names
                    &&& texture.name@ == name@
                    &&& final(pointers)@ == old(pointers)@.after(texture.build_calls(image@), 1)
                },
                Err(error) => {
                    &&& old(pointers)@.names == u32::MAX
                    &&& final(pointers)@ == old(pointers)@
                    &&& error matches OGLError::GL(flag)
                    &&& flag == OUT_OF_MEMORY
                },
            },
    {
        if pointers.spare() == 0 {
            return Err(OGLError::GL(OUT_OF_MEMORY));
        }
        let ghost picture = image@;
        let texture = Texture::new(pointers);
        texture.bind(pointers);
        texture.setup(
            pointers,
            None,
            InterpolationType::Nearest,
            InterpolationType::Nearest,
            None,
        );
        texture.fill(pointers, image, false);
        let made = NamedTexture { texture, name: String::from_str(name) };
        proof {
            assert(pointers@.calls =~= old(pointers)@.calls + made.build_calls(picture));
        }
        Ok(made)
    }

    pub fn bind_texture(&self, pointers: &mut FunctionPointers)
        ensures
            final(pointers)@ == old(pointers)@.after(seq![Call::BindTexture(self.texture@)], 0),
    {
        self.texture.bind(pointers)
    }

    pub fn name(&self) -> (name: &str)
        ensures
            name@ == self.name@,
    {
        self.name.as_str()
    }

    /// Gives the texture up.
    pub fn release(&self, pointers: &mut FunctionPointers)
        ensures
            final(pointers)@ == old(pointers)@.after(seq![Call::DeleteTexture(self.texture@)], 0),
    {
        self.texture.release(pointers)
    }
}

// ------------------------------------------------------------

/// An input texture on its texture unit.
#[derive(Debug)]
pub struct Sampler {
    pub texture: NamedTexture,
    pub unit: GLenum,
}

impl Sampler {
    pub fn new(texture: NamedTexture, unit: GLenum) -> (sampler: Self)
        ensures
            sampler.texture == texture,
            sampler.unit == unit,
    {
        Sampler { texture, unit }
    }

    /// The calls that put the texture on its unit.
    pub open spec fn bind_calls(&self) -> Seq<Call> {
        seq![Call::ActiveTexture(self.unit), Call::BindTexture(self.texture.texture@)]
    }

    /// The call that tells the program on which unit the sampler of the
    /// texture's name finds its texture. The program must have the sampler.
    pub open spec fn uniform_call(&self, program: GLuint) -> Call {
        Call::SetUniform {
            program,
            name: self.texture.name@,
            value: Uniform::Int(self.unit as GLint),
            required: true,
        }
    }

    pub fn activate_unit(&self, pointers: &mut FunctionPointers)
        ensures
            final(pointers)@ == old(pointers)@.after(seq![Call::ActiveTexture(self.unit)], 0),
    {
        pointers.active_texture(self.unit)
    }

    pub fn bind_texture(&self, pointers: &mut FunctionPointers)
        ensures
            final(pointers)@ == old(pointers)@.after(
                seq![Call::BindTexture(self.texture.texture@)],
                0,
            ),
    {
        self.texture.bind_texture(pointers)
    }

    pub fn unit(&self) -> (unit: u32)
        ensures
            unit == self.unit,
    {
        self.unit
    }
}

/// The textures of the samplers, in order.
pub open spec fn sampler_textures(samplers: Seq<Sampler>) -> Seq<NamedTexture> {
    Seq::new(samplers.len(), |i: int| samplers[i].texture)
}

/// Whether the samplers sit on the units from `base` on, in order.
pub open spec fn on_units_from(samplers: Seq<Sampler>, base: nat) -> bool {
    forall|i: int| 0 <= i < samplers.len() ==> (#[trigger] samplers[i]).unit == base + i
}

/// The calls that tell the program the unit of each sampler, in order.
pub open spec fn samplers_uniform_calls(samplers: Seq<Sampler>, program: GLuint) -> Seq<Call> {
    Seq::new(samplers.len(), |i: int| samplers[i].uniform_call(program))
}

/// The calls that put each texture on its unit, in order.
pub open spec fn samplers_bind_calls(samplers: Seq<Sampler>) -> Seq<Call>
    decreases samplers.len(),
{
    if samplers.len() == 0 {
        Seq::empty()
    } else {
        samplers_bind_calls(samplers.drop_last()) + samplers.last().bind_calls()
    }
}

/// The calls that give the textures of the samplers up, in order.
pub open spec fn samplers_release_calls(samplers: Seq<Sampler>) -> Seq<Call> {
    Seq::new(samplers.len(), |i: int| Call::DeleteTexture(samplers[i].texture.texture@))
}

/// The most input textures that a canvas takes: the units of all of them
/// are numbers that a sampler uniform can hold.
pub const MAX_TEXTURES: usize = 0x7fff_fffe;

/// The list in the opposite order.
pub(crate) fn reversed<T>(list: Vec<T>) -> (turned: Vec<T>)
    ensures
        turned@.len() == list@.len(),
        forall|i: int| 0 <= i < turned@.len() ==> turned@[i] == list@[list@.len() - 1 - i],
{
    let mut list = list;
    let ghost all = list@;
    let mut turned: Vec<T> = Vec::new();
    while list.len() > 0
        invariant
            list@.len() + turned@.len() == all.len(),
            forall|i: int| 0 <= i < list@.len() ==> list@[i] == all[i],
            forall|i: int| 0 <= i < turned@.len() ==> turned@[i] == all[all.len() - 1 - i],
        decreases list@.len(),
    {
        match list.pop() {
            Some(item) => {
                turned.push(item);
            },
            None => {},
        }
    }
    turned
}

/// Puts the textures on the units from `base` on, and tells the program in
/// use the unit of each.
pub fn place_textures(
    pointers: &mut FunctionPointers,
    program: &crate::raii::Program,
    textures: Vec<NamedTexture>,
    base: u32,
) -> (samplers: Vec<Sampler>)
    requires
        base <= 1,
        textures@.len() <= MAX_TEXTURES,
    ensures
        sampler_textures(samplers@) == textures@,
        on_units_from(samplers@, base as nat),
        final(pointers)@ == old(pointers)@.after(samplers_uniform_calls(samplers@, program@), 0),
{
    let ghost all = textures@;
    let mut samplers: Vec<Sampler> = Vec::new();
    let mut reversed = reversed(textures);
    proof {
        assert(pointers@.calls =~= old(pointers)@.calls + samplers_uniform_calls(
            samplers@,
            program@,
        ));
    }
    while reversed.len() > 0
        invariant
            all.len() <= MAX_TEXTURES,
            base <= 1,
            samplers@.len() + reversed@.len() == all.len(),
            forall|i: int|
                0 <= i < reversed@.len() ==> reversed@[i] == all[all.len() - 1 - i],
            forall|i: int| 0 <= i < samplers@.len() ==> (#[trigger] samplers@[i]).texture == all[i],
            on_units_from(samplers@, base as nat),
            pointers@ == old(pointers)@.after(samplers_uniform_calls(samplers@, program@), 0),
        decreases reversed@.len(),
    {
        match reversed.pop() {
            Some(texture) => {
                let index: usize = samplers.len();
                let unit: u32 = base + (index as u32);
                program.set_uniform(pointers, texture.name(), Uniform::Int(unit as GLint), true);
                let ghost before = samplers@;
                samplers.push(Sampler::new(texture, unit));
                proof {
                    assert(samplers_uniform_calls(samplers@, program@) =~= samplers_uniform_calls(
                        before,
                        program@,
                    ) + seq![samplers@[index as int].uniform_call(program@)]);
                    crate::ogl::lemma_after_after(
                        old(pointers)@,
                        samplers_uniform_calls(before, program@),
                        0,
                        seq![samplers@[index as int].uniform_call(program@)],
                        0,
                    );
                }
            },
            None => {},
        }
    }
    proof {
        assert(sampler_textures(samplers@) =~= all);
    }
    samplers
}

/// Puts each texture on its unit.
pub fn bind_samplers(pointers: &mut FunctionPointers, samplers: &Vec<Sampler>)
    ensures
        final(pointers)@ == old(pointers)@.after(samplers_bind_calls(samplers@), 0),
{
    let mut at: usize = 0;
    proof {
        assert(samplers@.take(0) =~= Seq::empty());
        assert(pointers@.calls =~= old(pointers)@.calls + samplers_bind_calls(samplers@.take(0)));
    }
    while at < samplers.len()
        invariant
            at <= samplers@.len(),
            pointers@ == old(pointers)@.after(samplers_bind_calls(samplers@.take(at as int)), 0),
        decreases samplers@.len() - at,
    {
        samplers[at].activate_unit(pointers);
        samplers[at].bind_texture(pointers);
        proof {
            let done = samplers@.take(at as int);
            let more = samplers@.take(at + 1);
            assert(more.drop_last() =~= done);
            assert(more.last() == samplers@[at as int]);
            assert(pointers@.calls =~= old(pointers)@.calls + samplers_bind_calls(more));
        }
        at += 1;
    }
    proof {
        assert(samplers@.take(at as int) =~= samplers@);
    }
}

/// Gives the textures of the samplers up.
pub fn release_samplers(pointers: &mut FunctionPointers, samplers: &Vec<Sampler>)
    ensures
        final(pointers)@ == old(pointers)@.after(samplers_release_calls(samplers@), 0),
{
    let mut at: usize = 0;
    proof {
        assert(pointers@.calls =~= old(pointers)@.calls + samplers_release_calls(
            samplers@.take(0),
        ));
    }
    while at < samplers.len()
        invariant
            at <= samplers@.len(),
            pointers@ == old(pointers)@.after(samplers_release_calls(samplers@.take(at as int)), 0),
        decreases samplers@.len() - at,
    {
        samplers[at].texture.release(pointers);
        proof {
            assert(pointers@.calls =~= old(pointers)@.calls + samplers_release_calls(
                samplers@.take(at + 1),
            ));
        }
        at += 1;
    }
    proof {
        assert(samplers@.take(at as int) =~= samplers@);
    }
}

} // verus!
