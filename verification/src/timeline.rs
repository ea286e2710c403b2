//! Frame clock: turns elapsed wall-clock time into a rate-limited,
//! optionally looping sequence of frame indices.

use std::time::Duration;
use std::time::Instant;
use vstd::arithmetic::div_mod::lemma_div_denominator;
use vstd::arithmetic::div_mod::lemma_div_is_ordered;
use vstd::arithmetic::div_mod::lemma_fundamental_div_mod;
use vstd::arithmetic::mul::lemma_mul_is_commutative;
use vstd::prelude::*;

verus! {

/// Index of a frame within the running sequence.
pub type Frame = u32;

/// Number of nanoseconds in one second.
pub const NANOS_PER_SECOND: u128 = 1_000_000_000;

/// A point on the monotonic clock. Nothing is known of its value.
#[verifier::external_type_specification]
#[verifier::external_body]
pub struct ExInstant(Instant);

/// `Instant::now` reads the monotonic clock; nothing is claimed of the reading.
pub assume_specification[ Instant::now ]() -> (now: Instant);

/// `Instant::elapsed` measures the time since the instant was taken; the
/// measure depends on the clock, so nothing is claimed of it.
pub assume_specification[ Instant::elapsed ](onset: &Instant) -> (elapsed: Duration);

/// `Duration::as_nanos` gives the whole duration in nanoseconds; the duration
/// is opaque here, so nothing is claimed of the number.
pub assume_specification[ Duration::as_nanos ](duration: &Duration) -> (nanos: u128);

// ------------------------------------------------------------

/// A 32-bit count that is never zero.
#[derive(Clone, Copy, Debug)]
pub struct Positive {
    value: u32,
}

impl View for Positive {
    type V = u32;

    closed spec fn view(&self) -> u32 {
        self.value
    }
}

impl Positive {
    #[verifier::type_invariant]
    spec fn positive(self) -> bool {
        self.value > 0
    }

    /// The count `value`, unless it is zero.
    pub fn new(value: u32) -> (count: Option<Self>)
        ensures
            value == 0 <==> count is None,
            count matches Some(c) ==> c@ == value,
    {
        if value == 0 {
            None
        } else {
            Some(Positive { value })
        }
    }

    pub fn get(&self) -> (value: u32)
        ensures
            value == self@,
            value > 0,
    {
        proof {
            use_type_invariant(self);
        }
        self.value
    }
}

// ------------------------------------------------------------

/// Frame rate, in frames per second.
#[derive(Clone, Copy, Debug)]
pub struct FPS(pub Positive);

impl Default for FPS {
    /// Sixty frames per second.
    fn default() -> (rate: Self)
        ensures
            rate.0@ == 60,
    {
        FPS(Positive { value: 60 })
    }
}

// ------------------------------------------------------------

/// How many frames the sequence holds before it starts over.
#[derive(Clone, Copy, Debug)]
pub enum FrameRange {
    Bounded(Positive),
    Endless,
}

impl View for FrameRange {
    type V = Option<u32>;

    open spec fn view(&self) -> Option<u32> {
        match *self {
            FrameRange::Bounded(end) => Some(end@),
            FrameRange::Endless => None,
        }
    }
}

impl FrameRange {
    /// The number of frames of a bounded range.
    pub fn end(&self) -> (end: Option<u32>)
        ensures
            end == self@,
    {
        match self {
            FrameRange::Bounded(end) => Some(end.get()),
            FrameRange::Endless => None,
        }
    }
}

impl Default for FrameRange {
    fn default() -> (range: Self)
        ensures
            range == FrameRange::Endless,
    {
        FrameRange::Endless
    }
}

// ------------------------------------------------------------

/// The frame count that `nanos` nanoseconds amount to at `fps` frames per
/// second, truncated, and capped at the largest index.
pub open spec fn raw_frame(fps: nat, nanos: nat) -> nat {
    let frames = fps * nanos / (NANOS_PER_SECOND as nat);
    if frames > u32::MAX {
        u32::MAX as nat
    } else {
        frames
    }
}

/// The frame index shown `nanos` nanoseconds after the time origin.
pub open spec fn frame_at(fps: nat, range: Option<u32>, nanos: nat) -> Frame {
    match range {
        Some(end) => if end > 0 {
            (raw_frame(fps, nanos) % (end as nat)) as Frame
        } else {
            0
        },
        None => raw_frame(fps, nanos) as Frame,
    }
}

/// Which pass through a range of `end` frames is under way `nanos`
/// nanoseconds after the time origin.
pub open spec fn pass_at(fps: nat, end: nat, nanos: nat) -> nat
    recommends
        end > 0,
{
    raw_frame(fps, nanos) / end
}

/// What a frame clock is, as far as its behaviour goes.
pub struct TimelineView {
    pub fps: u32,
    pub frame: Frame,
    pub range: Option<u32>,
    /// Whether the clock has started.
    pub started: bool,
    /// The time origin, in nanoseconds since the clock has started.
    pub origin: nat,
}

impl TimelineView {
    pub open spec fn wf(self) -> bool {
        &&& self.fps > 0
        &&& self.range matches Some(end) ==> end > 0 && self.frame < end
        &&& !self.started ==> self.frame == 0 && self.origin == 0
    }

    /// The time since the time origin, when the clock reads `nanos`
    /// nanoseconds since its start.
    pub open spec fn elapsed(self, nanos: nat) -> nat {
        if nanos >= self.origin {
            (nanos - self.origin) as nat
        } else {
            0
        }
    }

    /// The clock after one advance call that reads `nanos` nanoseconds since
    /// the start of the clock, and the frame that the call yields.
    ///
    /// The first call starts the clock and yields frame 0. A later call
    /// yields the frame that is due at the time since the time origin,
    /// unless that frame was yielded last; and when the frame it yields is
    /// frame 0, the sequence has started over, and the reading becomes the
    /// time origin.
    pub open spec fn tick(self, nanos: nat) -> (TimelineView, Option<Frame>) {
        if !self.started {
            (TimelineView { started: true, ..self }, Some(0))
        } else {
            let frame = frame_at(self.fps as nat, self.range, self.elapsed(nanos));
            if frame == self.frame {
                (self, None)
            } else {
                (
                    TimelineView {
                        frame,
                        origin: if frame == 0 {
                            nanos
                        } else {
                            self.origin
                        },
                        ..self
                    },
                    Some(frame),
                )
            }
        }
    }

    /// The frames yielded by successive advance calls with the given readings.
    pub open spec fn yields(self, readings: Seq<nat>) -> Seq<Frame>
        decreases readings.len(),
    {
        if readings.len() == 0 {
            Seq::empty()
        } else {
            let (next, frame) = self.tick(readings[0]);
            let rest = next.yields(readings.drop_first());
            match frame {
                Some(frame) => seq![frame] + rest,
                None => rest,
            }
        }
    }
}

/// The frame that is due `nanos` nanoseconds after the time origin, unless it
/// is the frame `last` that was yielded before.
pub fn frame_due(fps: u32, range: FrameRange, last: Frame, nanos: u128) -> (due: Option<Frame>)
    ensures
        due == (if frame_at(fps as nat, range@, nanos as nat) == last {
            None
        } else {
            Some(frame_at(fps as nat, range@, nanos as nat))
        }),
{
    let limit: u128 = 0xffff_ffff;
    let raw: u128 = match nanos.checked_mul(fps as u128) {
        Some(product) => {
            let frames: u128 = product / NANOS_PER_SECOND;
            if frames > limit {
                limit
            } else {
                frames
            }
        },
        None => {
            proof {
                let product = (fps as nat) * (nanos as nat);
                lemma_mul_is_commutative(fps as int, nanos as int);
                assert(product > u128::MAX);
                lemma_div_is_ordered(
                    (u32::MAX as int) * (NANOS_PER_SECOND as int) + (NANOS_PER_SECOND as int),
                    product as int,
                    NANOS_PER_SECOND as int,
                );
                assert(((u32::MAX as int) * (NANOS_PER_SECOND as int) + (NANOS_PER_SECOND as int))
                    / (NANOS_PER_SECOND as int) == u32::MAX + 1) by (nonlinear_arith);
            }
            limit
        },
    };
    proof {
        lemma_mul_is_commutative(fps as int, nanos as int);
        assert(raw == raw_frame(fps as nat, nanos as nat));
    }
    let frame: Frame = match range {
        FrameRange::Bounded(end) => {
            let end: u32 = end.get();
            (raw % (end as u128)) as Frame
        },
        FrameRange::Endless => raw as Frame,
    };
    if frame == last {
        None
    } else {
        Some(frame)
    }
}

// ------------------------------------------------------------

/// A time expressed as a count of frames at a frame rate: `frames / rate`
/// seconds.
#[derive(Clone, Copy, Debug, PartialEq, Eq)]
pub struct FrameTime {
    pub frames: Frame,
    pub rate: u32,
}

/// Rate-limited, optionally looping generator of frame indices.
pub struct Timeline {
    fps: u32,
    frame: Frame,
    range: FrameRange,
    /// When the clock has started.
    onset: Option<Instant>,
    /// The time origin, in nanoseconds since the clock has started.
    origin: u128,
}

impl View for Timeline {
    type V = TimelineView;

    closed spec fn view(&self) -> TimelineView {
        TimelineView {
            fps: self.fps,
            frame: self.frame,
            range: self.range@,
            started: self.onset is Some,
            origin: self.origin as nat,
        }
    }
}

impl Default for Timeline {
    /// A clock at sixty frames per second that never starts over.
    fn default() -> (timeline: Self)
        ensures
            timeline@ == (TimelineView {
                fps: 60,
                frame: 0,
                range: None,
                started: false,
                origin: 0,
            }),
    {
        Timeline::new(FPS::default(), FrameRange::default())
    }
}

impl Timeline {
    #[verifier::type_invariant]
    spec fn valid(self) -> bool {
        self@.wf()
    }

    pub fn new(rate: FPS, range: FrameRange) -> (timeline: Self)
        ensures
            timeline@ == (TimelineView {
                fps: rate.0@,
                frame: 0,
                range: range@,
                started: false,
                origin: 0,
            }),
            timeline@.wf(),
    {
        let fps: u32 = rate.0.get();
        match range {
            FrameRange::Bounded(end) => {
                let _: u32 = end.get();
            },
            FrameRange::Endless => {},
        }
        Timeline { fps, frame: 0, range, onset: None, origin: 0 }
    }

    pub fn fps(&self) -> (fps: u32)
        ensures
            fps == self@.fps,
            fps > 0,
    {
        proof {
            use_type_invariant(self);
        }
        self.fps
    }

    pub fn range(&self) -> (range: Option<u32>)
        ensures
            range == self@.range,
    {
        match self.range {
            FrameRange::Bounded(end) => Some(end.get()),
            FrameRange::Endless => None,
        }
    }

    /// The index of the frame that was yielded last.
    pub fn frame(&self) -> (frame: Frame)
        ensures
            frame == self@.frame,
    {
        self.frame
    }

    /// The time of the current frame: its index over the frame rate.
    pub fn time(&self) -> (time: FrameTime)
        ensures
            time.frames == self@.frame,
            time.rate == self@.fps,
            time.rate > 0,
    {
        proof {
            use_type_invariant(self);
        }
        FrameTime { frames: self.frame, rate: self.fps }
    }

    /// Advances the clock. The first call starts the clock and yields frame
    /// 0. A later call reads the time since the start and yields the frame
    /// that is due then, or nothing if that frame was yielded last; when the
    /// sequence starts over at frame 0, the reading becomes the time origin.
    ///
    /// What the clock reads is not known beforehand: whatever it reads, the
    /// call does what the reading asks for.
    pub fn next(&mut self) -> (due: Option<Frame>)
        ensures
            final(self)@.wf(),
            !old(self)@.started ==> (final(self)@, due) == old(self)@.tick(0),
            exists|nanos: nat| (final(self)@, due) == old(self)@.tick(nanos),
    {
        let nanos: u128 = match self.onset {
            Some(onset) => onset.elapsed().as_nanos(),
            None => 0,
        };
        self.advance(nanos)
    }

    /// Advances the clock on the reading of `nanos` nanoseconds since its
    /// start; the first call starts the clock, whatever the reading.
    pub fn advance(&mut self, nanos: u128) -> (due: Option<Frame>)
        ensures
            final(self)@.wf(),
            (final(self)@, due) == old(self)@.tick(nanos as nat),
    {
        proof {
            use_type_invariant(&*self);
        }
        if self.onset.is_none() {
            self.onset = Some(Instant::now());
            return Some(0);
        }
        let elapsed: u128 = if nanos >= self.origin {
            nanos - self.origin
        } else {
            0
        };
        let due = frame_due(self.fps, self.range, self.frame, elapsed);
        match due {
            Some(frame) => {
                proof {
                    lemma_tick_keeps_wf(self@, nanos as nat);
                }
                self.frame = frame;
                if frame == 0 {
                    self.origin = nanos;
                }
            },
            None => {},
        }
        due
    }
}

// ------------------------------------------------------------

/// A frame that an advance call yields is never the frame that the clock
/// showed before the call, once the clock has started.
pub proof fn lemma_yield_is_new(clock: TimelineView, nanos: nat)
    requires
        clock.started,
    ensures
        clock.tick(nanos).1 matches Some(frame) ==> frame != clock.frame && clock.tick(
            nanos,
        ).0.frame == frame,
        clock.tick(nanos).1 is None ==> clock.tick(nanos).0 == clock,
{
}

/// However fast the advance function is called, no two successive yields
/// carry the same frame index: a frame that is due again is suppressed.
pub proof fn lemma_no_duplicate_yield(clock: TimelineView, readings: Seq<nat>)
    requires
        clock.wf(),
    ensures
        forall|i: int|
            0 <= i && i + 1 < clock.yields(readings).len() ==> clock.yields(readings)[i]
                != #[trigger] clock.yields(readings)[i + 1],
        clock.started && clock.yields(readings).len() > 0 ==> clock.yields(readings)[0]
            != clock.frame,
        !clock.started && clock.yields(readings).len() > 1 ==> clock.yields(readings)[1] != 0,
    decreases readings.len(),
{
    if readings.len() > 0 {
        let (next, frame) = clock.tick(readings[0]);
        let rest = next.yields(readings.drop_first());
        lemma_tick_keeps_wf(clock, readings[0]);
        lemma_no_duplicate_yield(next, readings.drop_first());
        match frame {
            Some(frame) => {
                let all = seq![frame] + rest;
                assert(clock.yields(readings) == all);
                assert forall|i: int| 0 <= i && i + 1 < all.len() implies all[i] != #[trigger] all[i
                    + 1] by {
                    if i > 0 {
                        assert(all[i] == rest[i - 1]);
                        assert(all[i + 1] == rest[(i - 1) + 1]);
                    } else {
                        assert(all[1] == rest[0]);
                    }
                }
            },
            None => {},
        }
    }
}

/// Whether no reading is smaller than one before it.
pub open spec fn ordered(readings: Seq<nat>) -> bool {
    forall|i: int, j: int| 0 <= i <= j < readings.len() ==> readings[i] <= readings[j]
}

/// A started clock without end whose frame is not ahead of any of the
/// readings yields frames that grow from call to call and lie beyond its
/// frame.
proof fn lemma_yields_grow(clock: TimelineView, readings: Seq<nat>)
    requires
        clock.wf(),
        clock.started,
        clock.range is None,
        ordered(readings),
        forall|i: int|
            0 <= i < readings.len() ==> clock.frame <= frame_at(
                clock.fps as nat,
                None,
                clock.elapsed(#[trigger] readings[i]),
            ),
    ensures
        forall|i: int, j: int|
            0 <= i < j < clock.yields(readings).len() ==> clock.yields(readings)[i] < clock.yields(
                readings,
            )[j],
        forall|i: int|
            0 <= i < clock.yields(readings).len() ==> clock.frame < #[trigger] clock.yields(
                readings,
            )[i],
    decreases readings.len(),
{
    if readings.len() > 0 {
        let (next, frame) = clock.tick(readings[0]);
        let later = readings.drop_first();
        let rest = next.yields(later);
        lemma_tick_keeps_wf(clock, readings[0]);
        assert forall|i: int, j: int| 0 <= i <= j < later.len() implies later[i] <= later[j] by {
            assert(later[i] == readings[i + 1] && later[j] == readings[j + 1]);
        }
        assert(clock.frame <= frame_at(clock.fps as nat, None, clock.elapsed(readings[0])));
        assert(next.origin == clock.origin);
        assert forall|i: int| 0 <= i < later.len() implies next.frame <= frame_at(
            next.fps as nat,
            None,
            next.elapsed(#[trigger] later[i]),
        ) by {
            assert(later[i] == readings[i + 1]);
            assert(readings[0] <= readings[i + 1]);
            lemma_raw_frame_ordered(
                clock.fps as nat,
                clock.elapsed(readings[0]),
                clock.elapsed(readings[i + 1]),
            );
        }
        lemma_yields_grow(next, later);
        match frame {
            Some(frame) => {
                let all = seq![frame] + rest;
                assert(clock.yields(readings) == all);
                assert forall|i: int, j: int| 0 <= i < j < all.len() implies all[i] < all[j] by {
                    assert(all[j] == rest[j - 1]);
                    if i > 0 {
                        assert(all[i] == rest[i - 1]);
                    }
                }
                assert forall|i: int| 0 <= i < all.len() implies clock.frame < #[trigger] all[i] by {
                    if i > 0 {
                        assert(all[i] == rest[i - 1]);
                    }
                }
            },
            None => {},
        }
    }
}

/// On a clock without end that is advanced from its start on readings of
/// which none is smaller than one before, each yield carries a frame beyond
/// all the frames yielded before: however fast the calls come, no frame is
/// yielded twice.
pub proof fn lemma_no_frame_twice(clock: TimelineView, readings: Seq<nat>)
    requires
        clock.wf(),
        !clock.started,
        clock.range is None,
        ordered(readings),
    ensures
        forall|i: int, j: int|
            0 <= i < j < clock.yields(readings).len() ==> clock.yields(readings)[i] < clock.yields(
                readings,
            )[j],
{
    if readings.len() > 0 {
        let (next, frame) = clock.tick(readings[0]);
        let later = readings.drop_first();
        let rest = next.yields(later);
        lemma_tick_keeps_wf(clock, readings[0]);
        assert forall|i: int, j: int| 0 <= i <= j < later.len() implies later[i] <= later[j] by {
            assert(later[i] == readings[i + 1] && later[j] == readings[j + 1]);
        }
        lemma_yields_grow(next, later);
        let all = seq![0u32] + rest;
        assert(clock.yields(readings) == all);
        assert forall|i: int, j: int| 0 <= i < j < all.len() implies all[i] < all[j] by {
            assert(all[j] == rest[j - 1]);
            if i > 0 {
                assert(all[i] == rest[i - 1]);
            }
        }
    }
}

/// An advance call leaves a well-formed clock well-formed.
pub proof fn lemma_tick_keeps_wf(clock: TimelineView, nanos: nat)
    requires
        clock.wf(),
    ensures
        clock.tick(nanos).0.wf(),
        clock.tick(nanos).0.started,
{
    if clock.started {
        match clock.range {
            Some(end) => {
                let raw = raw_frame(clock.fps as nat, clock.elapsed(nanos));
                lemma_fundamental_div_mod(raw as int, end as int);
                assert(raw % (end as nat) < end) by (nonlinear_arith)
                    requires
                        end > 0,
                ;
            },
            None => {},
        }
    }
}

/// A started clock over a bounded range yields frame 0 exactly when the
/// frame count since the time origin is a whole number of passes and the
/// frame yielded last was another; the reading becomes the time origin then,
/// and at no other call.
pub proof fn lemma_wrap_takes_origin(clock: TimelineView, end: u32, nanos: nat)
    requires
        clock.wf(),
        clock.started,
        clock.range == Some(end),
    ensures
        clock.tick(nanos).1 == Some(0u32) <==> clock.frame != 0 && raw_frame(
            clock.fps as nat,
            clock.elapsed(nanos),
        ) % (end as nat) == 0,
        clock.tick(nanos).1 == Some(0u32) ==> clock.tick(nanos).0.origin == nanos && clock.tick(
            nanos,
        ).0.elapsed(nanos) == 0,
        clock.tick(nanos).1 != Some(0u32) ==> clock.tick(nanos).0.origin == clock.origin,
{
    let raw = raw_frame(clock.fps as nat, clock.elapsed(nanos));
    lemma_fundamental_div_mod(raw as int, end as int);
    assert(raw % (end as nat) < end) by (nonlinear_arith)
        requires
            end > 0,
    ;
}

/// The frame count does not fall as time goes by.
pub proof fn lemma_raw_frame_ordered(fps: nat, earlier: nat, later: nat)
    requires
        earlier <= later,
    ensures
        raw_frame(fps, earlier) <= raw_frame(fps, later),
{
    assert(fps * earlier <= fps * later) by (nonlinear_arith)
        requires
            earlier <= later,
    ;
    lemma_div_is_ordered((fps * earlier) as int, (fps * later) as int, NANOS_PER_SECOND as int);
}

/// Over a bounded range the clock never goes back to an earlier pass, and
/// within one pass the frame index does not decrease: it falls only when a
/// later pass has begun.
pub proof fn lemma_frames_ordered_within_pass(fps: nat, end: u32, earlier: nat, later: nat)
    requires
        end > 0,
        earlier <= later,
    ensures
        pass_at(fps, end as nat, earlier) <= pass_at(fps, end as nat, later),
        pass_at(fps, end as nat, earlier) == pass_at(fps, end as nat, later) ==> frame_at(
            fps,
            Some(end),
            earlier,
        ) <= frame_at(fps, Some(end), later),
        frame_at(fps, Some(end), later) < frame_at(fps, Some(end), earlier) ==> pass_at(
            fps,
            end as nat,
            earlier,
        ) < pass_at(fps, end as nat, later),
{
    let a = raw_frame(fps, earlier) as int;
    let b = raw_frame(fps, later) as int;
    lemma_raw_frame_ordered(fps, earlier, later);
    lemma_div_is_ordered(a, b, end as int);
    lemma_fundamental_div_mod(a, end as int);
    lemma_fundamental_div_mod(b, end as int);
    if a / (end as int) == b / (end as int) {
        assert((end as int) * (a / (end as int)) == (end as int) * (b / (end as int)));
        assert(a % (end as int) <= b % (end as int));
    }
}

/// The frame index is 0 exactly when the frame count is a whole number of
/// passes; and as long as the count is below the cap, the pass under way is
/// the elapsed time over the time that one pass takes, `end / fps` seconds.
pub proof fn lemma_wrap_at_pass_boundary(fps: nat, end: u32, nanos: nat)
    requires
        end > 0,
        fps * nanos / (NANOS_PER_SECOND as nat) <= u32::MAX,
    ensures
        frame_at(fps, Some(end), nanos) == 0 <==> raw_frame(fps, nanos) == (end as nat) * pass_at(
            fps,
            end as nat,
            nanos,
        ),
        pass_at(fps, end as nat, nanos) == (fps * nanos) / ((NANOS_PER_SECOND as nat) * (
        end as nat)),
{
    let raw = raw_frame(fps, nanos) as int;
    lemma_fundamental_div_mod(raw, end as int);
    lemma_div_denominator((fps * nanos) as int, NANOS_PER_SECOND as int, end as int);
}

} // verus!
