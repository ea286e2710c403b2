use shader_preview::timeline::frame_due;
use shader_preview::timeline::FrameRange;
use shader_preview::timeline::FrameTime;
use shader_preview::timeline::Positive;
use shader_preview::timeline::Timeline;
use shader_preview::timeline::FPS;

fn bounded(end: u32) -> FrameRange {
    FrameRange::Bounded(Positive::new(end).unwrap())
}

#[test]
fn positive_refuses_zero() {
    assert!(Positive::new(0).is_none());
    assert_eq!(Positive::new(7).unwrap().get(), 7);
    assert_eq!(Positive::new(u32::MAX).unwrap().get(), u32::MAX);
}

#[test]
fn defaults_are_sixty_frames_without_end() {
    assert_eq!(FPS::default().0.get(), 60);
    assert!(matches!(FrameRange::default(), FrameRange::Endless));
    let timeline = Timeline::default();
    assert_eq!(timeline.fps(), 60);
    assert_eq!(timeline.range(), None);
    assert_eq!(timeline.frame(), 0);
}

#[test]
fn timeline_keeps_rate_and_range() {
    let timeline = Timeline::new(FPS(Positive::new(25).unwrap()), bounded(100));
    assert_eq!(timeline.fps(), 25);
    assert_eq!(timeline.range(), Some(100));
    assert_eq!(timeline.time(), FrameTime { frames: 0, rate: 25 });
    assert_eq!(bounded(100).end(), Some(100));
    assert_eq!(FrameRange::Endless.end(), None);
}

#[test]
fn frame_index_is_elapsed_time_times_rate_truncated() {
    assert_eq!(frame_due(60, FrameRange::Endless, 0, 1_000_000_000), Some(60));
    assert_eq!(frame_due(60, FrameRange::Endless, 0, 16_666_667), Some(1));
    assert_eq!(frame_due(60, FrameRange::Endless, 7, 16_666_666), Some(0));
    assert_eq!(frame_due(60, FrameRange::Endless, 0, 999_999_999), Some(59));
    assert_eq!(frame_due(25, FrameRange::Endless, 0, 2_500_000_000), Some(62));
    assert_eq!(frame_due(1, FrameRange::Endless, 0, 3_999_999_999), Some(3));
}

#[test]
fn frame_that_was_yielded_is_not_yielded_again() {
    assert_eq!(frame_due(60, FrameRange::Endless, 0, 0), None);
    assert_eq!(frame_due(60, FrameRange::Endless, 0, 16_666_666), None);
    assert_eq!(frame_due(60, FrameRange::Endless, 60, 1_000_000_000), None);
    assert_eq!(frame_due(60, FrameRange::Endless, 60, 1_016_666_666), None);
    assert_eq!(frame_due(60, FrameRange::Endless, 60, 1_016_666_667), Some(61));
}

#[test]
fn bounded_range_starts_over() {
    assert_eq!(frame_due(25, bounded(100), 98, 3_960_000_000), Some(99));
    assert_eq!(frame_due(25, bounded(100), 99, 4_000_000_000), Some(0));
    assert_eq!(frame_due(25, bounded(100), 0, 4_040_000_000), Some(1));
    assert_eq!(frame_due(25, bounded(100), 5, 8_000_000_000), Some(0));
    assert_eq!(frame_due(60, bounded(1), 0, 123_456_789_000), None);
}

#[test]
fn frame_index_is_capped() {
    assert_eq!(frame_due(u32::MAX, FrameRange::Endless, 0, u128::MAX), Some(u32::MAX));
    assert_eq!(frame_due(2, FrameRange::Endless, 0, u128::MAX / 2), Some(u32::MAX));
    assert_eq!(frame_due(1, FrameRange::Endless, 0, 4_294_967_296_000_000_000), Some(u32::MAX));
    assert_eq!(frame_due(1, FrameRange::Endless, 0, 4_294_967_294_999_999_999), Some(4_294_967_294));
    assert_eq!(frame_due(u32::MAX, bounded(10), 0, u128::MAX), Some(5));
}

#[test]
fn frames_do_not_decrease_within_a_pass() {
    let mut last: u32 = 0;
    let mut nanos: u128 = 0;
    while nanos < 4_000_000_000 {
        let frame = match frame_due(25, bounded(100), u32::MAX, nanos) {
            Some(frame) => frame,
            None => unreachable!(),
        };
        assert!(last <= frame);
        assert_eq!(frame as u128, nanos * 25 / 1_000_000_000);
        last = frame;
        nanos += 7_654_321;
    }
    assert_eq!(frame_due(25, bounded(100), u32::MAX, 4_000_000_000), Some(0));
}

#[test]
fn first_advance_yields_frame_0_and_no_frame_twice() {
    let mut timeline = Timeline::new(FPS(Positive::new(60).unwrap()), FrameRange::Endless);
    assert_eq!(timeline.next(), Some(0));
    let mut last: u32 = 0;
    for _ in 0..20_000 {
        match timeline.next() {
            Some(frame) => {
                assert_ne!(frame, last);
                assert_eq!(timeline.frame(), frame);
                assert_eq!(timeline.time(), FrameTime { frames: frame, rate: 60 });
                last = frame;
            }
            None => assert_eq!(timeline.frame(), last),
        }
    }
}

#[test]
fn one_frame_range_yields_only_the_first_frame() {
    let mut timeline = Timeline::new(FPS(Positive::new(1000).unwrap()), bounded(1));
    assert_eq!(timeline.next(), Some(0));
    for _ in 0..1000 {
        assert_eq!(timeline.next(), None);
    }
}

#[test]
fn advance_follows_the_readings() {
    let mut timeline = Timeline::new(FPS(Positive::new(60).unwrap()), FrameRange::Endless);
    assert_eq!(timeline.advance(5_000_000_000), Some(0));
    assert_eq!(timeline.advance(0), None);
    assert_eq!(timeline.advance(16_666_666), None);
    assert_eq!(timeline.advance(16_666_667), Some(1));
    assert_eq!(timeline.advance(16_666_668), None);
    assert_eq!(timeline.advance(1_000_000_000), Some(60));
    assert_eq!(timeline.frame(), 60);
    assert_eq!(timeline.time(), FrameTime { frames: 60, rate: 60 });
    assert_eq!(timeline.advance(500_000_000), Some(30));
}

#[test]
fn time_origin_is_taken_anew_when_the_sequence_starts_over() {
    let mut timeline = Timeline::new(FPS(Positive::new(10).unwrap()), bounded(5));
    assert_eq!(timeline.advance(0), Some(0));
    assert_eq!(timeline.advance(100_000_000), Some(1));
    assert_eq!(timeline.advance(450_000_000), Some(4));
    // half a second after the origin the sequence starts over
    assert_eq!(timeline.advance(520_000_000), Some(0));
    // the time counts from the reading of the wrap on
    assert_eq!(timeline.advance(610_000_000), None);
    assert_eq!(timeline.advance(620_000_000), Some(1));
    assert_eq!(timeline.advance(1_019_999_999), Some(4));
    assert_eq!(timeline.advance(1_020_000_000), Some(0));
    // a reading that skips frame 0 leaves the origin where it is
    assert_eq!(timeline.advance(1_620_000_000), Some(1));
    assert_eq!(timeline.advance(1_720_000_000), Some(2));
    // a reading before the origin counts as no time
    assert_eq!(timeline.advance(0), Some(0));
    assert_eq!(timeline.advance(100_000_000), Some(1));
}
