//! The frame scheduler: a state machine that decides, for each tick delivered
//! by the host, which graphics operations make up the frame and whether the
//! redraw callback has to be registered again.
//!
//! The scheduler performs no graphics or host calls itself. The host loop
//! begins each tick with the clock reading, carries out the steps that it is
//! given, in the order in which they are given, and then ends the tick. A
//! tick that is delivered before the one before it has ended is refused.

use vstd::prelude::*;
use crate::error::RenderError;

verus! {

/// How the host delivers ticks.
#[derive(Clone, Copy, Debug, PartialEq, Eq, Structural)]
pub enum Strategy {
    /// A one-shot callback on the next redraw opportunity, registered anew by
    /// every tick.
    PerFrame,
    /// A repeating timer, registered once.
    Interval { period_ms: u32 },
}

/// A request to the host's scheduling primitive.
#[derive(Clone, Copy, Debug, PartialEq, Eq, Structural)]
pub enum Registration {
    /// Fire once, on the next redraw opportunity.
    NextFrame,
    /// Fire every `period_ms` milliseconds.
    Every { period_ms: u32 },
}

/// Where a scheduler stands.
#[derive(Clone, Copy, Debug, PartialEq, Eq, Structural)]
pub enum Phase {
    /// Tick delivery has not been started.
    Idle,
    /// Waiting for the host to deliver the next tick.
    Armed,
    /// A tick has begun and its frame is being carried out.
    Drawing,
}

/// One operation of a frame.
#[derive(Clone, Copy, Debug, PartialEq, Eq, Structural)]
pub enum Step {
    /// Write the tick's time, `millis` milliseconds, into the angle uniform
    /// (as seconds).
    WriteAngle { millis: u64 },
    /// Clear the colour buffer.
    ClearColor,
    /// Draw `count` vertices as a triangle list, starting at vertex `first`.
    DrawTriangles { first: i32, count: i32 },
    /// Register the redraw callback again.
    Rearm,
}

/// The number of vertices of the one triangle that every frame draws.
pub const VERTEX_COUNT: i32 = 3;

/// What one tick has to do.
#[derive(Clone, Debug, PartialEq, Eq)]
pub struct Frame {
    /// The position of this tick among all ticks of the scheduler, from 1.
    pub sequence: u64,
    /// The operations of the frame, in the order in which they are issued.
    pub steps: Vec<Step>,
}

/// The mathematical state of a scheduler.
pub struct SchedulerState {
    pub strategy: Strategy,
    pub phase: Phase,
    /// Ticks begun so far.
    pub ticks: nat,
    /// Registrations that the host holds and has not delivered yet.
    pub outstanding: nat,
}

/// The registration that starts tick delivery under `strategy`.
pub open spec fn first_registration(strategy: Strategy) -> Registration {
    match strategy {
        Strategy::PerFrame => Registration::NextFrame,
        Strategy::Interval { period_ms } => Registration::Every { period_ms },
    }
}

/// The operations of a tick at `millis`, in order: write the uniform, clear,
/// draw the triangle, and, for a one-shot callback, register it again.
pub open spec fn frame_steps(strategy: Strategy, millis: u64) -> Seq<Step> {
    let drawing = seq![
        Step::WriteAngle { millis },
        Step::ClearColor,
        Step::DrawTriangles { first: 0, count: VERTEX_COUNT },
    ];
    match strategy {
        Strategy::PerFrame => drawing.push(Step::Rearm),
        Strategy::Interval { .. } => drawing,
    }
}

/// The registrations that the host still holds while a tick is being
/// carried out: a one-shot callback was used up by its delivery, a timer
/// stays.
pub open spec fn held_while_drawing(strategy: Strategy) -> nat {
    match strategy {
        Strategy::PerFrame => 0,
        Strategy::Interval { .. } => 1,
    }
}

/// The registrations that the steps of one frame add: one where the frame
/// ends by registering the callback again.
pub open spec fn rearmed(strategy: Strategy) -> nat {
    if frame_steps(strategy, 0).last() == Step::Rearm {
        1
    } else {
        0
    }
}

impl SchedulerState {
    /// A scheduler that has not been armed.
    pub open spec fn idle(strategy: Strategy) -> SchedulerState {
        SchedulerState { strategy, phase: Phase::Idle, ticks: 0, outstanding: 0 }
    }

    /// An idle scheduler holds no registration and has made no tick; an armed
    /// one holds exactly one registration; one that is drawing holds what its
    /// strategy leaves it during a tick.
    pub open spec fn valid(self) -> bool {
        &&& self.ticks <= u64::MAX
        &&& match self.phase {
            Phase::Idle => self.outstanding == 0 && self.ticks == 0,
            Phase::Armed => self.outstanding == 1,
            Phase::Drawing => self.outstanding == held_while_drawing(self.strategy) && self.ticks
                >= 1,
        }
    }

    /// The state after arming: unchanged where the scheduler was not idle.
    pub open spec fn arm(self) -> SchedulerState {
        if self.phase is Idle {
            SchedulerState { phase: Phase::Armed, outstanding: 1, ..self }
        } else {
            self
        }
    }

    /// Whether a tick can begin in this state.
    pub open spec fn can_begin(self) -> bool {
        self.phase is Armed && self.ticks < u64::MAX
    }

    /// The state after a tick has begun: the tick is counted and the
    /// registration that delivered it is used up, unless it repeats.
    /// Unchanged where no tick can begin.
    pub open spec fn begin(self) -> SchedulerState {
        if self.can_begin() {
            SchedulerState {
                phase: Phase::Drawing,
                ticks: self.ticks + 1,
                outstanding: held_while_drawing(self.strategy),
                ..self
            }
        } else {
            self
        }
    }

    /// The state after the host has carried the frame out: the scheduler
    /// waits again, with the registrations that the frame added. Unchanged
    /// where no tick had begun.
    pub open spec fn end(self) -> SchedulerState {
        if self.phase is Drawing {
            SchedulerState {
                phase: Phase::Armed,
                outstanding: self.outstanding + rearmed(self.strategy),
                ..self
            }
        } else {
            self
        }
    }

    /// The state after one whole tick.
    pub open spec fn tick(self) -> SchedulerState {
        self.begin().end()
    }

    /// The state after `n` whole ticks in a row.
    pub open spec fn ticks_later(self, n: nat) -> SchedulerState
        decreases n,
    {
        if n == 0 {
            self
        } else {
            self.ticks_later((n - 1) as nat).tick()
        }
    }
}

/// The reason given when a tick arrives at a scheduler that was never armed.
pub open spec fn idle_reason() -> Seq<char> {
    "tick delivered to an idle scheduler"@
}

/// The reason given when a tick arrives while the frame of the tick before
/// it is still being carried out.
pub open spec fn overlap_reason() -> Seq<char> {
    "tick delivered while a frame is being drawn"@
}

/// The reason given when the tick counter cannot count one more tick.
pub open spec fn exhausted_reason() -> Seq<char> {
    "tick counter exhausted"@
}

/// The reason for which a tick cannot begin in state `s`.
pub open spec fn refusal(s: SchedulerState) -> Seq<char> {
    match s.phase {
        Phase::Idle => idle_reason(),
        Phase::Drawing => overlap_reason(),
        Phase::Armed => exhausted_reason(),
    }
}

/// The scheduler of one running animation.
#[derive(Debug)]
pub struct FrameScheduler {
    strategy: Strategy,
    phase: Phase,
    ticks: u64,
    outstanding: u64,
}

impl View for FrameScheduler {
    type V = SchedulerState;

    closed spec fn view(&self) -> SchedulerState {
        SchedulerState {
            strategy: self.strategy,
            phase: self.phase,
            ticks: self.ticks as nat,
            outstanding: self.outstanding as nat,
        }
    }
}

impl FrameScheduler {
    #[verifier::type_invariant]
    spec fn inv(self) -> bool {
        self@.valid()
    }

    /// An idle scheduler for `strategy`.
    pub fn new(strategy: Strategy) -> (s: Self)
        ensures
            s@ == SchedulerState::idle(strategy),
    {
        FrameScheduler { strategy, phase: Phase::Idle, ticks: 0, outstanding: 0 }
    }

    /// Starts tick delivery. An idle scheduler becomes armed and returns the
    /// registration that the host has to make; any other stays as it is and
    /// asks for nothing, so that no second registration is ever made.
    pub fn arm(&mut self) -> (r: Option<Registration>)
        ensures
            final(self)@ == old(self)@.arm(),
            final(self)@.valid(),
            old(self)@.phase is Idle ==> r == Some(first_registration(old(self)@.strategy)),
            !(old(self)@.phase is Idle) ==> r.is_none(),
    {
        proof {
            use_type_invariant(&*self);
        }
        match self.phase {
            Phase::Idle => {
                let strategy = self.strategy;
                *self = FrameScheduler { strategy, phase: Phase::Armed, ticks: 0, outstanding: 1 };
                match strategy {
                    Strategy::PerFrame => Some(Registration::NextFrame),
                    Strategy::Interval { period_ms } => Some(Registration::Every { period_ms }),
                }
            },
            _ => None,
        }
    }

    /// Begins the tick that the host delivered at clock reading `now_ms`.
    ///
    /// An armed scheduler counts the tick and returns its frame: the tick's
    /// number and the steps to issue, in order. A scheduler that is idle,
    /// that is still drawing the frame before, or whose counter is at its
    /// limit, fails the tick with the reason and stays as it is.
    pub fn begin_tick(&mut self, now_ms: u64) -> (r: Result<Frame, RenderError>)
        ensures
            final(self)@ == old(self)@.begin(),
            final(self)@.valid(),
            old(self)@.can_begin() ==> (r matches Ok(frame) && frame.sequence == old(self)@.ticks
                + 1 && frame.steps@ == frame_steps(old(self)@.strategy, now_ms)),
            !old(self)@.can_begin() ==> (r matches Err(RenderError::TickFailed { reason })
                && reason@ == refusal(old(self)@)),
    {
        proof {
            use_type_invariant(&*self);
        }
        match self.phase {
            Phase::Idle => {
                return Err(
                    RenderError::TickFailed {
                        reason: "tick delivered to an idle scheduler".to_owned(),
                    },
                );
            },
            Phase::Drawing => {
                return Err(
                    RenderError::TickFailed {
                        reason: "tick delivered while a frame is being drawn".to_owned(),
                    },
                );
            },
            Phase::Armed => {},
        }
        if self.ticks == u64::MAX {
            return Err(RenderError::TickFailed { reason: "tick counter exhausted".to_owned() });
        }
        let strategy = self.strategy;
        let sequence: u64 = self.ticks + 1;
        let mut steps: Vec<Step> = Vec::new();
        steps.push(Step::WriteAngle { millis: now_ms });
        steps.push(Step::ClearColor);
        steps.push(Step::DrawTriangles { first: 0, count: VERTEX_COUNT });
        let held: u64 = match strategy {
            Strategy::PerFrame => {
                steps.push(Step::Rearm);
                self.outstanding - 1
            },
            Strategy::Interval { .. } => self.outstanding,
        };
        assert(steps@ =~= frame_steps(strategy, now_ms));
        *self = FrameScheduler {
            strategy,
            phase: Phase::Drawing,
            ticks: sequence,
            outstanding: held,
        };
        Ok(Frame { sequence, steps })
    }

    /// Ends the tick whose frame the host has carried out, and says whether
    /// there was one. The scheduler waits for the next tick, holding the
    /// registration that the frame made or the timer that repeats.
    pub fn end_tick(&mut self) -> (ended: bool)
        ensures
            final(self)@ == old(self)@.end(),
            final(self)@.valid(),
            ended == (old(self)@.phase is Drawing),
    {
        proof {
            use_type_invariant(&*self);
        }
        match self.phase {
            Phase::Drawing => {
                let strategy = self.strategy;
                let added: u64 = match strategy {
                    Strategy::PerFrame => 1,
                    Strategy::Interval { .. } => 0,
                };
                *self = FrameScheduler {
                    strategy,
                    phase: Phase::Armed,
                    ticks: self.ticks,
                    outstanding: self.outstanding + added,
                };
                true
            },
            _ => false,
        }
    }

    /// The strategy that the scheduler was made for.
    pub fn strategy(&self) -> (s: Strategy)
        ensures
            s == self@.strategy,
    {
        self.strategy
    }

    /// Where the scheduler stands.
    pub fn phase(&self) -> (p: Phase)
        ensures
            p == self@.phase,
    {
        self.phase
    }

    /// The number of ticks begun so far.
    pub fn ticks(&self) -> (n: u64)
        ensures
            n == self@.ticks,
    {
        self.ticks
    }

    /// The number of registrations that the host holds for this scheduler,
    /// never more than one.
    pub fn outstanding(&self) -> (n: u64)
        ensures
            n == self@.outstanding,
            self@.valid(),
            n <= 1,
    {
        proof {
            use_type_invariant(self);
        }
        self.outstanding
    }
}

/// Every frame writes the tick's own time first, unchanged, then clears, then
/// issues its one draw call over the three vertices of the triangle; nothing
/// follows but the registration of the next one-shot callback.
pub proof fn frame_writes_then_draws_once(strategy: Strategy, millis: u64)
    ensures
        frame_steps(strategy, millis)[0] == (Step::WriteAngle { millis }),
        frame_steps(strategy, millis)[1] == Step::ClearColor,
        frame_steps(strategy, millis)[2] == (Step::DrawTriangles { first: 0, count: 3 }),
        strategy is PerFrame ==> frame_steps(strategy, millis).len() == 4 && frame_steps(
            strategy,
            millis,
        )[3] == Step::Rearm,
        strategy is Interval ==> frame_steps(strategy, millis).len() == 3,
        forall|i: int|
            0 <= i < frame_steps(strategy, millis).len() && i != 2 ==> !(#[trigger] frame_steps(
                strategy,
                millis,
            )[i] is DrawTriangles),
{
}

/// The frames keep the order of the clock: of two clock readings, the later
/// one is written as the later time, and equal readings as equal times.
pub proof fn frames_keep_the_order_of_the_clock(strategy: Strategy, earlier: u64, later: u64)
    requires
        earlier <= later,
    ensures
        frame_steps(strategy, earlier)[0] matches Step::WriteAngle { millis: a } && frame_steps(
            strategy,
            later,
        )[0] matches Step::WriteAngle { millis: b } && a <= b && (earlier == later ==> a == b),
{
}

/// Arming, beginning and ending a tick keep a valid state valid, and a valid
/// state never holds more than one registration.
pub proof fn at_most_one_registration(s: SchedulerState)
    requires
        s.valid(),
    ensures
        s.outstanding <= 1,
        s.arm().valid(),
        s.begin().valid(),
        s.end().valid(),
        s.tick().valid(),
{
}

/// Ticks do not overlap: while the frame of one tick is being carried out,
/// no other tick can begin, and a tick that is delivered all the same is
/// neither counted nor drawn. Only the end of the running tick lets the next
/// one begin.
pub proof fn ticks_do_not_overlap(s: SchedulerState)
    requires
        s.valid(),
        s.can_begin(),
    ensures
        s.begin().phase is Drawing,
        !s.begin().can_begin(),
        s.begin().begin() == s.begin(),
        s.begin().end().phase is Armed,
        s.begin().end().ticks == s.ticks + 1,
{
}

/// What `n` whole ticks in a row keep and change, as long as the counter can
/// count them.
proof fn ticks_later_keeps_armed(s: SchedulerState, n: nat)
    requires
        s.valid(),
        s.phase is Armed,
        s.ticks + n <= u64::MAX,
    ensures
        s.ticks_later(n).valid(),
        s.ticks_later(n).phase is Armed,
        s.ticks_later(n).strategy == s.strategy,
        s.ticks_later(n).ticks == s.ticks + n,
    decreases n,
{
    if n > 0 {
        ticks_later_keeps_armed(s, (n - 1) as nat);
    }
}

/// Ticks are numbered in the order in which they are carried out: from an
/// armed scheduler, each of `n` ticks in a row can begin when the one before
/// it has ended, and counts exactly one further, so that the ticks of a newly
/// armed scheduler carry the numbers 1 to `n`.
pub proof fn ticks_are_numbered_in_order(s: SchedulerState, n: nat)
    requires
        s.valid(),
        s.phase is Armed,
        s.ticks + n <= u64::MAX,
    ensures
        s.ticks_later(n).ticks == s.ticks + n,
        forall|k: nat|
            k < n ==> (#[trigger] s.ticks_later(k)).can_begin() && s.ticks_later(k).begin().ticks
                == s.ticks + k + 1,
{
    ticks_later_keeps_armed(s, n);
    assert forall|k: nat| k < n implies (#[trigger] s.ticks_later(k)).can_begin() && s.ticks_later(
        k,
    ).begin().ticks == s.ticks + k + 1 by {
        ticks_later_keeps_armed(s, k);
    }
}

/// Registering again never adds up: an armed scheduler holds exactly one
/// registration after any number of whole ticks, and within the next tick,
/// between its delivery and its end, never more than one.
pub proof fn rearming_keeps_one_registration(s: SchedulerState, n: nat)
    requires
        s.valid(),
        s.phase is Armed,
    ensures
        s.ticks_later(n).valid(),
        s.ticks_later(n).phase is Armed,
        s.ticks_later(n).outstanding == 1,
        s.ticks_later(n).begin().outstanding <= 1,
        s.ticks_later(n).tick().outstanding == 1,
    decreases n,
{
    if n > 0 {
        rearming_keeps_one_registration(s, (n - 1) as nat);
    }
}

/// Arming twice is arming once: the second call changes nothing, so it adds
/// no registration.
pub proof fn arming_is_idempotent(s: SchedulerState)
    requires
        s.valid(),
    ensures
        s.arm().valid(),
        !(s.arm().phase is Idle),
        s.arm().arm() == s.arm(),
        s.phase is Idle ==> s.arm().outstanding == 1,
{
}

} // verus!
