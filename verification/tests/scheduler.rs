use webgl_spin::error::RenderError;
use webgl_spin::scheduler::{
    Frame, FrameScheduler, Phase, Registration, Step, Strategy, VERTEX_COUNT,
};

fn armed(strategy: Strategy) -> FrameScheduler {
    let mut s = FrameScheduler::new(strategy);
    s.arm();
    s
}

fn whole_tick(s: &mut FrameScheduler, now_ms: u64) -> Frame {
    let frame = s.begin_tick(now_ms).unwrap();
    assert!(s.end_tick());
    frame
}

fn tick_failed(reason: &str) -> RenderError {
    RenderError::TickFailed { reason: reason.to_string() }
}

#[test]
fn new_scheduler_is_idle() {
    let s = FrameScheduler::new(Strategy::PerFrame);
    assert_eq!(s.phase(), Phase::Idle);
    assert_eq!(s.ticks(), 0);
    assert_eq!(s.outstanding(), 0);
    assert_eq!(s.strategy(), Strategy::PerFrame);
}

#[test]
fn arming_per_frame_asks_for_the_next_frame() {
    let mut s = FrameScheduler::new(Strategy::PerFrame);
    assert_eq!(s.arm(), Some(Registration::NextFrame));
    assert_eq!(s.phase(), Phase::Armed);
    assert_eq!(s.outstanding(), 1);
    assert_eq!(s.ticks(), 0);
}

#[test]
fn arming_interval_asks_for_a_timer_of_its_period() {
    let mut s = FrameScheduler::new(Strategy::Interval { period_ms: 16 });
    assert_eq!(s.arm(), Some(Registration::Every { period_ms: 16 }));
    assert_eq!(s.phase(), Phase::Armed);
    assert_eq!(s.outstanding(), 1);
    assert_eq!(s.strategy(), Strategy::Interval { period_ms: 16 });
}

#[test]
fn arming_twice_registers_once() {
    let mut s = FrameScheduler::new(Strategy::PerFrame);
    assert_eq!(s.arm(), Some(Registration::NextFrame));
    assert_eq!(s.arm(), None);
    assert_eq!(s.outstanding(), 1);
    let mut t = armed(Strategy::Interval { period_ms: 16 });
    assert_eq!(t.arm(), None);
    assert_eq!(t.outstanding(), 1);
}

#[test]
fn arming_after_ticks_keeps_the_count() {
    let mut s = armed(Strategy::PerFrame);
    whole_tick(&mut s, 1);
    whole_tick(&mut s, 2);
    assert_eq!(s.arm(), None);
    assert_eq!(s.ticks(), 2);
    assert_eq!(s.phase(), Phase::Armed);
}

#[test]
fn arming_while_drawing_changes_nothing() {
    let mut s = armed(Strategy::PerFrame);
    s.begin_tick(1).unwrap();
    assert_eq!(s.arm(), None);
    assert_eq!(s.phase(), Phase::Drawing);
    assert_eq!(s.outstanding(), 0);
}

#[test]
fn tick_of_an_idle_scheduler_fails_and_changes_nothing() {
    let mut s = FrameScheduler::new(Strategy::PerFrame);
    assert_eq!(s.begin_tick(1_000), Err(tick_failed("tick delivered to an idle scheduler")));
    assert_eq!(s.phase(), Phase::Idle);
    assert_eq!(s.ticks(), 0);
    assert_eq!(s.outstanding(), 0);
}

#[test]
fn a_tick_cannot_begin_before_the_one_before_it_has_ended() {
    for strategy in [Strategy::PerFrame, Strategy::Interval { period_ms: 16 }] {
        let mut s = armed(strategy);
        assert_eq!(s.begin_tick(10).unwrap().sequence, 1);
        assert_eq!(
            s.begin_tick(11),
            Err(tick_failed("tick delivered while a frame is being drawn"))
        );
        assert_eq!(s.phase(), Phase::Drawing);
        assert_eq!(s.ticks(), 1);
        assert!(s.end_tick());
        assert_eq!(s.begin_tick(12).unwrap().sequence, 2);
    }
}

#[test]
fn ending_without_a_tick_changes_nothing() {
    let mut idle = FrameScheduler::new(Strategy::PerFrame);
    assert!(!idle.end_tick());
    assert_eq!(idle.phase(), Phase::Idle);
    assert_eq!(idle.outstanding(), 0);
    let mut s = armed(Strategy::PerFrame);
    assert!(!s.end_tick());
    assert_eq!(s.phase(), Phase::Armed);
    assert_eq!(s.outstanding(), 1);
    assert_eq!(s.ticks(), 0);
}

#[test]
fn per_frame_tick_writes_clears_draws_and_rearms() {
    let mut s = armed(Strategy::PerFrame);
    let frame = s.begin_tick(1_500).unwrap();
    assert_eq!(
        frame,
        Frame {
            sequence: 1,
            steps: vec![
                Step::WriteAngle { millis: 1_500 },
                Step::ClearColor,
                Step::DrawTriangles { first: 0, count: 3 },
                Step::Rearm,
            ],
        }
    );
    assert_eq!(s.phase(), Phase::Drawing);
    assert_eq!(s.ticks(), 1);
    assert_eq!(s.outstanding(), 0);
    assert!(s.end_tick());
    assert_eq!(s.phase(), Phase::Armed);
    assert_eq!(s.ticks(), 1);
    assert_eq!(s.outstanding(), 1);
}

#[test]
fn interval_tick_leaves_the_timer_to_repeat() {
    let mut s = armed(Strategy::Interval { period_ms: 16 });
    let frame = s.begin_tick(32).unwrap();
    assert_eq!(frame.sequence, 1);
    assert_eq!(
        frame.steps,
        vec![
            Step::WriteAngle { millis: 32 },
            Step::ClearColor,
            Step::DrawTriangles { first: 0, count: 3 },
        ]
    );
    assert_eq!(s.outstanding(), 1);
    assert!(s.end_tick());
    assert_eq!(s.outstanding(), 1);
}

#[test]
fn every_frame_draws_the_three_vertices_once() {
    assert_eq!(VERTEX_COUNT, 3);
    for strategy in [Strategy::PerFrame, Strategy::Interval { period_ms: 16 }] {
        let mut s = armed(strategy);
        let frame = whole_tick(&mut s, 7);
        let draws: Vec<&Step> =
            frame.steps.iter().filter(|s| matches!(s, Step::DrawTriangles { .. })).collect();
        assert_eq!(draws, vec![&Step::DrawTriangles { first: 0, count: VERTEX_COUNT }]);
    }
}

#[test]
fn ticks_are_numbered_from_one_in_order() {
    let mut s = armed(Strategy::PerFrame);
    for n in 1..=50u64 {
        let frame = whole_tick(&mut s, n * 16);
        assert_eq!(frame.sequence, n);
        assert_eq!(s.ticks(), n);
    }
}

#[test]
fn a_thousand_rearms_hold_one_registration() {
    let mut s = armed(Strategy::PerFrame);
    for n in 0..1000u64 {
        let frame = s.begin_tick(n).unwrap();
        assert_eq!(s.outstanding(), 0);
        assert_eq!(frame.steps.iter().filter(|s| **s == Step::Rearm).count(), 1);
        assert!(s.end_tick());
        assert_eq!(s.outstanding(), 1);
        assert_eq!(s.phase(), Phase::Armed);
    }
    assert_eq!(s.ticks(), 1000);
}

#[test]
fn a_thousand_timer_ticks_hold_one_registration() {
    let mut s = armed(Strategy::Interval { period_ms: 16 });
    for n in 0..1000u64 {
        let frame = s.begin_tick(n * 16).unwrap();
        assert_eq!(s.outstanding(), 1);
        assert!(!frame.steps.contains(&Step::Rearm));
        assert!(s.end_tick());
        assert_eq!(s.outstanding(), 1);
    }
    assert_eq!(s.ticks(), 1000);
}

#[test]
fn the_time_of_a_tick_is_written_unchanged() {
    let mut s = armed(Strategy::PerFrame);
    for now in [0u64, 1, 999, 1_000, 1_761_600_000_123, u64::MAX] {
        let frame = whole_tick(&mut s, now);
        assert_eq!(frame.steps[0], Step::WriteAngle { millis: now });
    }
}

#[test]
fn two_ticks_may_read_the_same_millisecond() {
    let mut s = armed(Strategy::PerFrame);
    let a = whole_tick(&mut s, 5_000);
    let b = whole_tick(&mut s, 5_000);
    assert_eq!(a.steps, b.steps);
    assert_eq!((a.sequence, b.sequence), (1, 2));
}
