//! The runtime state machine: a player that runs the program of the user,
//! or a player that runs the diagnostic program because something failed.
//!
//! A reload gives the current player up and records the calls that make the
//! next one. The next player becomes the state once the graphics backend has
//! run the calls: if they failed, the player is given up in its turn and the
//! diagnostic player is made, with the message of the failure.

use crate::canvas::textures_release_calls;
use crate::canvas::Canvas;
use crate::canvas::CanvasPlayer;
use crate::canvas::Player;
use crate::glsl::CodeAnnotations;
use crate::ogl::Call;
use crate::ogl::TextureComponentDataType;
use crate::ogl::FunctionPointers;
use crate::ogl::Image;
use crate::ogl::ImageView;
use crate::ogl::OGLError;
use crate::ogl::OGLResult;
use crate::ogl::INVALID_VALUE;
use crate::ogl::OUT_OF_MEMORY;
use crate::quad::consecutive;
use crate::shaders::error_shader;
use crate::shaders::error_source;
use crate::textures::reversed;
use crate::textures::NamedTexture;
use crate::textures::MAX_TEXTURES;
use crate::timeline::Timeline;
use crate::timeline::TimelineView;
use vstd::prelude::*;

verus! {

/// What a reload needs besides the source: the settings of the source, the
/// clock, and the input textures in the order of their units.
pub struct RuntimeSetup {
    pub resolution: [u32; 2],
    pub feedback: bool,
    pub timeline: Timeline,
    pub textures: Vec<NamedTexture>,
}

/// The calls that make each texture from the image at its place, in order.
pub open spec fn textures_build_calls(textures: Seq<NamedTexture>, images: Seq<ImageView>) -> Seq<
    Call,
>
    decreases textures.len(),
{
    if textures.len() == 0 || images.len() != textures.len() {
        Seq::empty()
    } else {
        textures_build_calls(textures.drop_last(), images.drop_last()) + textures.last().build_calls(
            images.last(),
        )
    }
}

/// The views of the images, in order.
pub open spec fn image_views(images: Seq<Image>) -> Seq<ImageView> {
    Seq::new(images.len(), |i: int| images[i]@)
}

impl CodeAnnotations {
    /// Puts the settings of a source and the images of its texture bindings
    /// together: each image becomes the texture of the sampler that is named
    /// at the same place among the bindings, and the clock runs at the rate
    /// and over the range that the source sets.
    ///
    /// Nothing is recorded if the images are not as many as the bindings (a
    /// value is out of range) or if the names for the textures run out
    /// (memory has run out).
    pub fn runtime_setup(&self, pointers: &mut FunctionPointers, images: Vec<Image>) -> (made:
        OGLResult<RuntimeSetup>)
        ensures
            match made {
                Ok(setup) => {
                    &&& images@.len() == self@.texture_paths.len()
                    &&& old(pointers)@.names + images@.len() <= u32::MAX
                    &&& (setup.resolution@[0], setup.resolution@[1]) == self@.resolution
                    &&& setup.feedback == self@.feedback
                    &&& setup.timeline@ == (TimelineView {
                        fps: self@.rate,
                        frame: 0,
                        range: self@.range,
                        started: false,
                        origin: 0,
                    })
                    &&& setup.textures@.len() == images@.len()
                    &&& forall|i: int|
                        0 <= i < images@.len() ==> (#[trigger] setup.textures@[i]).name@
                            == self@.texture_paths[i].0 && setup.textures@[i].texture@
                            == old(pointers)@.names + i
                    &&& final(pointers)@ == old(pointers)@.after(
                        textures_build_calls(setup.textures@, image_views(images@)),
                        images@.len(),
                    )
                },
                Err(error) => {
                    &&& final(pointers)@ == old(pointers)@
                    &&& error matches OGLError::GL(flag)
                    &&& if images@.len() != self@.texture_paths.len() {
                        flag == INVALID_VALUE
                    } else {
                        old(pointers)@.names + images@.len() > u32::MAX && flag == OUT_OF_MEMORY
                    }
                },
            },
    {
        let paths = self.texture_paths();
        if images.len() != paths.len() {
            return Err(OGLError::GL(INVALID_VALUE));
        }
        if images.len() > pointers.spare() as usize {
            return Err(OGLError::GL(OUT_OF_MEMORY));
        }
        let ghost all = image_views(images@);
        let ghost names = self@.texture_paths;
        let count: usize = images.len();
        let mut left = reversed(images);
        let mut textures: Vec<NamedTexture> = Vec::new();
        proof {
            assert(pointers@.calls =~= old(pointers)@.calls + textures_build_calls(
                textures@,
                all.take(0),
            ));
        }
        while left.len() > 0
            invariant
                all.len() == count,
                paths.deep_view() == names,
                names.len() == count,
                textures@.len() + left@.len() == count,
                old(pointers)@.names + count <= u32::MAX,
                forall|i: int| 0 <= i < left@.len() ==> left@[i]@ == all[count - 1 - i],
                forall|i: int|
                    0 <= i < textures@.len() ==> (#[trigger] textures@[i]).name@ == names[i].0
                        && textures@[i].texture@ == old(pointers)@.names + i,
                pointers@ == old(pointers)@.after(
                    textures_build_calls(textures@, all.take(textures@.len() as int)),
                    textures@.len() as nat,
                ),
            decreases left@.len(),
        {
            match left.pop() {
                Some(image) => {
                    let index: usize = textures.len();
                    let ghost before = textures@;
                    proof {
                        assert(paths.deep_view()[index as int] == names[index as int]);
                    }
                    match NamedTexture::new(pointers, image, paths[index].0.as_str()) {
                        Ok(texture) => {
                            textures.push(texture);
                            proof {
                                let images = all.take(index + 1);
                                assert(textures@.drop_last() =~= before);
                                assert(images.drop_last() =~= all.take(index as int));
                                assert(images.last() == all[index as int]);
                                crate::ogl::lemma_after_after(
                                    old(pointers)@,
                                    textures_build_calls(before, all.take(index as int)),
                                    index as nat,
                                    textures@.last().build_calls(all[index as int]),
                                    1,
                                );
                            }
                        },
                        Err(_) => {},
                    }
                },
                None => {},
            }
        }
        proof {
            assert(all.take(count as int) =~= all);
        }
        Ok(
            RuntimeSetup {
                resolution: self.resolution(),
                feedback: self.feedback(),
                timeline: Timeline::new(self.rate(), self.range()),
                textures,
            },
        )
    }
}

// ------------------------------------------------------------

/// What the diagnostic player is, with the message of the failure that it
/// stands for.
pub struct Errored {
    pub player: Player,
    pub message: Seq<char>,
}

/// Whether the player is as the diagnostic player is made: it has a simple
/// canvas of 500 by 500 pixels without input textures, and a clock of sixty
/// frames per second that never starts over.
pub open spec fn is_diagnostic(player: Player) -> bool {
    &&& player.canvas.wf()
    &&& !(player.canvas.kind is Feedback)
    &&& player.canvas.kind.size() == (500u32, 500u32)
    &&& player.canvas.kind.textures().len() == 0
    &&& player.clock.fps == 60
    &&& player.clock.range is None
}

/// The player of the diagnostic program, with the message of the failure
/// that it stands for.
pub struct RuntimeErrored {
    player: CanvasPlayer,
    message: String,
}

impl View for RuntimeErrored {
    type V = Errored;

    closed spec fn view(&self) -> Errored {
        Errored { player: self.player@, message: self.message@ }
    }
}

impl RuntimeErrored {
    /// The player is as the diagnostic player is made. Every errored state
    /// that is made is so, and stays so.
    pub open spec fn wf(&self) -> bool {
        is_diagnostic(self@.player)
    }

    /// Records the calls that make the diagnostic player; its clock has not
    /// started. Without enough names left for the objects of its canvas
    /// nothing is recorded, and the error says that memory has run out.
    pub fn new(
        pointers: &mut FunctionPointers,
        error: &str,
        component: TextureComponentDataType,
    ) -> (made: OGLResult<Self>)
        ensures
            match made {
                Ok(errored) => {
                    &&& old(pointers)@.names + 11 <= u32::MAX
                    &&& errored.wf()
                    &&& errored@.message == error@
                    &&& errored@.player.component == component
                    &&& errored@.player.clock == (TimelineView {
                        fps: 60,
                        frame: 0,
                        range: None,
                        started: false,
                        origin: 0,
                    })
                    &&& errored@.player.canvas.names() == consecutive(old(pointers)@.names, 11)
                    &&& final(pointers)@ == old(pointers)@.after(
                        errored@.player.canvas.build_calls(error_shader()),
                        11,
                    )
                },
                Err(failure) => {
                    &&& old(pointers)@.names + 11 > u32::MAX
                    &&& final(pointers)@ == old(pointers)@
                    &&& failure matches OGLError::GL(flag)
                    &&& flag == OUT_OF_MEMORY
                },
            },
    {
        let made = CanvasPlayer::new(
            pointers,
            Timeline::default(),
            error_source(),
            Vec::new(),
            [500, 500],
            false,
            component,
        );
        match made {
            Ok(player) => {
                proof {
                    assert(player@.canvas.kind.textures() =~= Seq::empty());
                }
                Ok(RuntimeErrored { player, message: error.to_owned() })
            },
            Err(failure) => {
                proof {
                    assert(pointers@.calls =~= old(pointers)@.calls);
                }
                Err(failure)
            },
        }
    }

    /// Shows the frame that is due, if one is.
    pub fn refresh(&mut self, pointers: &mut FunctionPointers) -> (shown: bool)
        requires
            old(self).wf(),
        ensures
            final(self).wf(),
            final(self)@.message == old(self)@.message,
            exists|nanos: nat| #[trigger]
                old(self)@.player.refreshed(
                    final(self)@.player,
                    old(pointers)@,
                    final(pointers)@,
                    shown,
                    nanos,
                ),
    {
        self.player.refresh(pointers)
    }

    pub fn resolution(&self) -> (resolution: [u32; 2])
        ensures
            (resolution@[0], resolution@[1]) == self@.player.canvas.kind.size(),
    {
        self.player.resolution()
    }

    /// The message of the failure that the diagnostic player stands for.
    pub fn message(&self) -> (message: &str)
        ensures
            message@ == self@.message,
    {
        self.message.as_str()
    }

    /// The diagnostic player.
    pub fn player(&self) -> (player: &CanvasPlayer)
        ensures
            player@ == self@.player,
    {
        &self.player
    }
}

// ------------------------------------------------------------

/// What the machine is in, as far as its transitions go.
pub enum Phase {
    /// The program of the user runs.
    Running,
    /// The diagnostic program runs, because of the failure that the message
    /// tells.
    Errored(Seq<char>),
}

/// The state of the runtime: the program of the user runs, or the
/// diagnostic program does.
pub enum RuntimeState {
    Running(CanvasPlayer),
    Errored(RuntimeErrored),
}

/// The next state of the runtime, while the calls that make its player wait
/// for the verdict of the graphics backend.
pub struct Reload {
    pub candidate: RuntimeState,
}

/// What a verdict makes of a reload.
pub enum Settled {
    /// The calls were run: the candidate is the state.
    Done(RuntimeState),
    /// The calls failed: the candidate is given up and the diagnostic
    /// player waits for its verdict.
    Retry(Reload),
    /// The calls failed and no player can be made.
    Failed(OGLError),
}

/// What a verdict makes of a reload, as far as the transitions go: the
/// candidate becomes the state if its calls were run. If they failed, the
/// diagnostic player is made with the message of the failure, if there is
/// `room` for it; but when the diagnostic player itself fails, nothing is
/// left to try.
pub enum Outcome {
    Done(Phase),
    Retry(Phase),
    Failed,
}

pub open spec fn settle_spec(candidate: Phase, verdict: Result<(), Seq<char>>, room: bool) -> Outcome {
    match verdict {
        Ok(_) => Outcome::Done(candidate),
        Err(message) => match candidate {
            Phase::Running => if room {
                Outcome::Retry(Phase::Errored(message))
            } else {
                Outcome::Failed
            },
            Phase::Errored(_) => Outcome::Failed,
        },
    }
}

/// What a verdict says, as far as the transitions go: that the calls were
/// run, or the message of the failure.
pub open spec fn verdict_text(verdict: OGLResult<()>) -> Result<(), Seq<char>> {
    match verdict {
        Ok(_) => Ok(()),
        Err(error) => Err(error.text()),
    }
}

impl Settled {
    pub open spec fn outcome(&self) -> Outcome {
        match self {
            Settled::Done(state) => Outcome::Done(state.phase()),
            Settled::Retry(reload) => Outcome::Retry(reload.candidate.phase()),
            Settled::Failed(_) => Outcome::Failed,
        }
    }

    pub open spec fn wf(&self) -> bool {
        match self {
            Settled::Done(state) => state.wf(),
            Settled::Retry(reload) => reload.candidate.wf(),
            Settled::Failed(_) => true,
        }
    }
}

impl RuntimeState {
    /// The player of the state is sound, and it is the diagnostic player if
    /// the state is errored. Every state that the machine comes to is so.
    pub open spec fn wf(&self) -> bool {
        match self {
            RuntimeState::Running(running) => running.wf(),
            RuntimeState::Errored(errored) => errored.wf(),
        }
    }

    pub open spec fn phase(&self) -> Phase {
        match self {
            RuntimeState::Running(_) => Phase::Running,
            RuntimeState::Errored(errored) => Phase::Errored(errored@.message),
        }
    }

    /// The player that shows the frames.
    pub open spec fn player(&self) -> Player {
        match self {
            RuntimeState::Running(running) => running@,
            RuntimeState::Errored(errored) => errored@.player,
        }
    }

    /// The machine starts with the diagnostic player and an empty message:
    /// records the calls that make the player.
    pub fn new(pointers: &mut FunctionPointers, component: TextureComponentDataType) -> (made:
        OGLResult<Reload>)
        ensures
            match made {
                Ok(reload) => {
                    &&& old(pointers)@.names + 11 <= u32::MAX
                    &&& reload.candidate.wf()
                    &&& reload.candidate.phase() == Phase::Errored(""@)
                    &&& reload.candidate.player().component == component
                    &&& reload.candidate.player().canvas.names() == consecutive(
                        old(pointers)@.names,
                        11,
                    )
                    &&& final(pointers)@ == old(pointers)@.after(
                        reload.candidate.player().canvas.build_calls(error_shader()),
                        11,
                    )
                },
                Err(failure) => {
                    &&& old(pointers)@.names + 11 > u32::MAX
                    &&& final(pointers)@ == old(pointers)@
                    &&& failure matches OGLError::GL(flag)
                    &&& flag == OUT_OF_MEMORY
                },
            },
    {
        match RuntimeErrored::new(pointers, "", component) {
            Ok(errored) => Ok(Reload { candidate: RuntimeState::Errored(errored) }),
            Err(failure) => Err(failure),
        }
    }

    /// Gives the current player up and records the calls that make a player
    /// for the source `code` with the given setup.
    ///
    /// With more input textures than a canvas takes, or without enough names
    /// left, no such player is made: the textures are given up, and the
    /// diagnostic player is made instead, with the message that a value is
    /// out of range, or that memory has run out. If the names do not even
    /// suffice for the diagnostic player, the reload fails.
    pub fn restart(self, pointers: &mut FunctionPointers, code: &str, setup: RuntimeSetup) -> (made:
        OGLResult<Reload>)
        ensures
            setup.textures@.len() <= MAX_TEXTURES && old(pointers)@.names + Canvas::names_needed(
                setup.feedback,
            ) <= u32::MAX ==> (made matches Ok(reload) && {
                &&& reload.candidate matches RuntimeState::Running(player)
                &&& player.wf()
                &&& player@.clock == setup.timeline@
                &&& player@.component == self.player().component
                &&& player@.canvas.kind is Feedback == setup.feedback
                &&& player@.canvas.kind.size() == (setup.resolution@[0], setup.resolution@[1])
                &&& player@.canvas.kind.textures() == setup.textures@
                &&& player@.canvas.names() == consecutive(
                    old(pointers)@.names,
                    Canvas::names_needed(setup.feedback),
                )
                &&& final(pointers)@ == old(pointers)@.after(
                    self.player().canvas.release_calls() + player@.canvas.build_calls(code@),
                    Canvas::names_needed(setup.feedback),
                )
            }),
            !(setup.textures@.len() <= MAX_TEXTURES && old(pointers)@.names + Canvas::names_needed(
                setup.feedback,
            ) <= u32::MAX) ==> match made {
                Ok(reload) => {
                    &&& old(pointers)@.names + 11 <= u32::MAX
                    &&& reload.candidate.wf()
                    &&& reload.candidate.phase() == Phase::Errored(
                        OGLError::GL(
                            if setup.textures@.len() > MAX_TEXTURES {
                                INVALID_VALUE
                            } else {
                                OUT_OF_MEMORY
                            },
                        ).text(),
                    )
                    &&& reload.candidate.player().component == self.player().component
                    &&& reload.candidate.player().canvas.names() == consecutive(
                        old(pointers)@.names,
                        11,
                    )
                    &&& final(pointers)@ == old(pointers)@.after(
                        self.player().canvas.release_calls() + textures_release_calls(
                            setup.textures@,
                        ) + reload.candidate.player().canvas.build_calls(error_shader()),
                        11,
                    )
                },
                Err(failure) => {
                    &&& old(pointers)@.names + 11 > u32::MAX
                    &&& final(pointers)@ == old(pointers)@.after(
                        self.player().canvas.release_calls() + textures_release_calls(
                            setup.textures@,
                        ),
                        0,
                    )
                    &&& failure matches OGLError::GL(flag)
                    &&& flag == OUT_OF_MEMORY
                },
            },
    {
        let component = self.component();
        self.release(pointers);
        let made = CanvasPlayer::new(
            pointers,
            setup.timeline,
            code,
            setup.textures,
            setup.resolution,
            setup.feedback,
            component,
        );
        match made {
            Ok(player) => {
                proof {
                    crate::ogl::lemma_after_after(
                        old(pointers)@,
                        self.player().canvas.release_calls(),
                        0,
                        player@.canvas.build_calls(code@),
                        Canvas::names_needed(setup.feedback),
                    );
                }
                Ok(Reload { candidate: RuntimeState::Running(player) })
            },
            Err(error) => {
                let message = error.message();
                proof {
                    crate::ogl::lemma_after_after(
                        old(pointers)@,
                        self.player().canvas.release_calls(),
                        0,
                        textures_release_calls(setup.textures@),
                        0,
                    );
                }
                match RuntimeErrored::new(pointers, message.as_str(), component) {
                    Ok(errored) => {
                        proof {
                            crate::ogl::lemma_after_after(
                                old(pointers)@,
                                self.player().canvas.release_calls() + textures_release_calls(
                                    setup.textures@,
                                ),
                                0,
                                errored@.player.canvas.build_calls(error_shader()),
                                11,
                            );
                        }
                        Ok(Reload { candidate: RuntimeState::Errored(errored) })
                    },
                    Err(failure) => Err(failure),
                }
            },
        }
    }

    /// Gives the current player up and records the calls that make the
    /// diagnostic player, with the message of a failure. Without enough
    /// names left for the player, the reload fails.
    pub fn into_errored(self, pointers: &mut FunctionPointers, error: &str) -> (made: OGLResult<
        Reload,
    >)
        ensures
            match made {
                Ok(reload) => {
                    &&& old(pointers)@.names + 11 <= u32::MAX
                    &&& reload.candidate.wf()
                    &&& reload.candidate.phase() == Phase::Errored(error@)
                    &&& reload.candidate.player().component == self.player().component
                    &&& reload.candidate.player().canvas.names() == consecutive(
                        old(pointers)@.names,
                        11,
                    )
                    &&& final(pointers)@ == old(pointers)@.after(
                        self.player().canvas.release_calls()
                            + reload.candidate.player().canvas.build_calls(error_shader()),
                        11,
                    )
                },
                Err(failure) => {
                    &&& old(pointers)@.names + 11 > u32::MAX
                    &&& final(pointers)@ == old(pointers)@.after(
                        self.player().canvas.release_calls(),
                        0,
                    )
                    &&& failure matches OGLError::GL(flag)
                    &&& flag == OUT_OF_MEMORY
                },
            },
    {
        let component = self.component();
        self.release(pointers);
        match RuntimeErrored::new(pointers, error, component) {
            Ok(errored) => {
                proof {
                    crate::ogl::lemma_after_after(
                        old(pointers)@,
                        self.player().canvas.release_calls(),
                        0,
                        errored@.player.canvas.build_calls(error_shader()),
                        11,
                    );
                }
                Ok(Reload { candidate: RuntimeState::Errored(errored) })
            },
            Err(failure) => Err(failure),
        }
    }

    /// Shows the frame that is due, if one is, with the current player.
    /// Tells whether a frame was shown: the presentation surface has
    /// changed then.
    pub fn refresh(&mut self, pointers: &mut FunctionPointers) -> (shown: bool)
        requires
            old(self).wf(),
        ensures
            final(self).wf(),
            final(self).phase() == old(self).phase(),
            exists|nanos: nat| #[trigger]
                old(self).player().refreshed(
                    final(self).player(),
                    old(pointers)@,
                    final(pointers)@,
                    shown,
                    nanos,
                ),
    {
        match self {
            RuntimeState::Running(running) => running.refresh(pointers),
            RuntimeState::Errored(errored) => errored.refresh(pointers),
        }
    }

    /// The size of the picture of the current player.
    pub fn resolution(&self) -> (resolution: [u32; 2])
        ensures
            (resolution@[0], resolution@[1]) == self.player().canvas.kind.size(),
    {
        match self {
            RuntimeState::Running(running) => running.resolution(),
            RuntimeState::Errored(errored) => errored.resolution(),
        }
    }

    /// The type of the numbers in the color buffers of the current player.
    pub fn component(&self) -> (component: TextureComponentDataType)
        ensures
            component == self.player().component,
    {
        match self {
            RuntimeState::Running(running) => running.component(),
            RuntimeState::Errored(errored) => errored.player().component(),
        }
    }

    /// Gives the objects of the current player up.
    pub fn release(&self, pointers: &mut FunctionPointers)
        ensures
            final(pointers)@ == old(pointers)@.after(self.player().canvas.release_calls(), 0),
    {
        match self {
            RuntimeState::Running(running) => running.release(pointers),
            RuntimeState::Errored(errored) => errored.player().release(pointers),
        }
    }
}

impl Reload {
    /// The message that the candidate stands for, if it is the diagnostic
    /// player.
    pub fn message(&self) -> (message: Option<&str>)
        ensures
            match message {
                Some(message) => self.candidate.phase() == Phase::Errored(message@),
                None => self.candidate.phase() == Phase::Running,
            },
    {
        match &self.candidate {
            RuntimeState::Running(_) => None,
            RuntimeState::Errored(errored) => Some(errored.message()),
        }
    }

    /// Takes the verdict of the graphics backend on the calls that make the
    /// candidate.
    ///
    /// If the calls were run, the candidate is the state. If they failed,
    /// the candidate is given up. Was it to run the program of the user,
    /// the calls that make the diagnostic player are recorded, with the
    /// message of the failure, and that player waits for its verdict; without
    /// enough names left for it, the reload has failed for want of memory.
    /// Was the candidate the diagnostic player itself, the reload has failed
    /// with the failure of the verdict.
    pub fn settle(self, pointers: &mut FunctionPointers, verdict: OGLResult<()>) -> (settled:
        Settled)
        requires
            self.candidate.wf(),
        ensures
            settled.wf(),
            settled.outcome() == settle_spec(
                self.candidate.phase(),
                verdict_text(verdict),
                old(pointers)@.names + 11 <= u32::MAX,
            ),
            match settled {
                Settled::Done(state) => state == self.candidate && final(pointers)@ == old(
                    pointers,
                )@,
                Settled::Retry(reload) => {
                    &&& reload.candidate.player().component
                        == self.candidate.player().component
                    &&& reload.candidate.player().canvas.names() == consecutive(
                        old(pointers)@.names,
                        11,
                    )
                    &&& final(pointers)@ == old(pointers)@.after(
                        self.candidate.player().canvas.release_calls()
                            + reload.candidate.player().canvas.build_calls(error_shader()),
                        11,
                    )
                },
                Settled::Failed(failure) => {
                    &&& final(pointers)@ == old(pointers)@.after(
                        self.candidate.player().canvas.release_calls(),
                        0,
                    )
                    &&& match self.candidate {
                        RuntimeState::Running(_) => failure matches OGLError::GL(flag) && flag
                            == OUT_OF_MEMORY,
                        RuntimeState::Errored(_) => verdict == Err::<(), OGLError>(failure),
                    }
                },
            },
    {
        match verdict {
            Ok(_) => Settled::Done(self.candidate),
            Err(failure) => match self.candidate {
                RuntimeState::Running(player) => {
                    let message = failure.message();
                    match RuntimeState::Running(player).into_errored(pointers, message.as_str()) {
                        Ok(reload) => Settled::Retry(reload),
                        Err(failure) => Settled::Failed(failure),
                    }
                },
                RuntimeState::Errored(errored) => {
                    errored.player().release(pointers);
                    Settled::Failed(failure)
                },
            },
        }
    }
}

/// A reload whose calls fail with the log of a shader that did not compile
/// leaves the machine errored with that log as the message, once the
/// diagnostic player has been made; and from there, as from anywhere, a
/// reload whose calls are run leaves the machine running.
pub proof fn lemma_failed_reload_recovers(failure: OGLError, log: String)
    requires
        failure == OGLError::ShaderCompilation(log),
    ensures
        settle_spec(Phase::Running, verdict_text(Err(failure)), true) == Outcome::Retry(
            Phase::Errored(log@),
        ),
        settle_spec(Phase::Errored(log@), verdict_text(Ok(())), true) == Outcome::Done(
            Phase::Errored(log@),
        ),
        settle_spec(Phase::Running, verdict_text(Ok(())), true) == Outcome::Done(Phase::Running),
{
}

/// Whatever the verdicts, a reload ends with the machine running, with the
/// machine errored, or in failure: there is no state in which a player that
/// failed shows frames.
pub proof fn lemma_settled_states(candidate: Phase, verdict: Result<(), Seq<char>>, room: bool)
    ensures
        settle_spec(candidate, verdict, room) matches Outcome::Done(phase) ==> verdict is Ok && phase
            == candidate,
        settle_spec(candidate, verdict, room) matches Outcome::Retry(phase) ==> verdict is Err
            && candidate == Phase::Running && phase == Phase::Errored(verdict->Err_0),
{
}

} // verus!
