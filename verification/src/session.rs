//! The timer's control loop: one session, and what each turn of the loop
//! decides.
//!
//! The loop belongs to the caller. Each turn it looks into the queue of
//! requests without waiting, reads the clock, and hands both to
//! [`TimerSession::step`]. It draws the frame of the [`Action`] that comes
//! back, if there is one, tells [`settle`] whether that went well, and then
//! sleeps for [`POLL_MILLIS`] or ends. The clock is a span since a moment
//! that the caller fixed at the start and that never runs backwards.

use crate::input::Request;
use crate::span::{clamped_sub, duration_nanos, max_nanos, nanos_less, zero};
use std::time::Duration;
use vstd::prelude::*;

verus! {

/// The milliseconds between two turns of the loop.
pub const POLL_MILLIS: u64 = 100;

/// Whether time accrues.
#[allow(non_camel_case_types)]
#[derive(Debug, Clone, Copy, PartialEq, Eq)]
pub enum Timer {
    RUN,
    STOP,
}

/// What a look into the queue of requests gave.
#[derive(Debug, Clone, Copy, PartialEq, Eq)]
pub enum Polled {
    /// Something was typed, and this is what it asks for.
    Input(Request),
    /// Nothing is waiting.
    Empty,
    /// The listener is gone.
    Disconnected,
}

/// Why the loop broke off.
#[derive(Debug, Clone, Copy, PartialEq, Eq)]
pub enum Abort {
    /// The listener is gone.
    Disconnected,
    /// A frame could not be written.
    WriteFailed,
    /// The stopwatch has run past the longest span there is.
    Overflow,
}

/// How the loop ended.
#[derive(Debug, Clone, Copy, PartialEq, Eq)]
pub enum Outcome {
    /// The user left.
    FinishedNormally,
    /// The countdown reached zero.
    FinishedCountdownZero,
    /// The loop broke off.
    Aborted(Abort),
}

/// What follows a turn of the loop.
#[derive(Debug, Clone, Copy, PartialEq, Eq)]
pub enum Next {
    /// Sleep for the poll period, then take the next turn.
    Sleep,
    /// End the loop.
    Finish(Outcome),
}

/// What to draw: a span and the mode to show with it.
#[derive(Debug, Clone, Copy, PartialEq, Eq)]
pub struct Frame {
    pub shown: Duration,
    pub mode: Timer,
}

/// What a turn of the loop has decided: a frame to draw first, if any, and
/// what follows once it is drawn.
#[derive(Debug, Clone, Copy, PartialEq, Eq)]
pub struct Action {
    pub frame: Option<Frame>,
    pub next: Next,
}

/// A frame with the length of its span in nanoseconds.
pub ghost struct Shown {
    pub nanos: nat,
    pub mode: Timer,
}

/// An action with the length of its frame's span in nanoseconds.
pub ghost struct Plan {
    pub frame: Option<Shown>,
    pub next: Next,
}

impl View for Frame {
    type V = Shown;

    open spec fn view(&self) -> Shown {
        Shown { nanos: duration_nanos(self.shown), mode: self.mode }
    }
}

impl View for Action {
    type V = Plan;

    open spec fn view(&self) -> Plan {
        Plan {
            frame: match self.frame {
                Some(frame) => Some(frame@),
                None => None,
            },
            next: self.next,
        }
    }
}

/// The plan that draws nothing.
pub open spec fn plan_only(next: Next) -> Plan {
    Plan { frame: None, next }
}

/// The plan that shows what is left of a countdown, and ends the loop when
/// nothing is left.
pub open spec fn countdown_plan(left: nat, mode: Timer) -> Plan {
    Plan {
        frame: Some(Shown { nanos: left, mode }),
        next: if left == 0 {
            Next::Finish(Outcome::FinishedCountdownZero)
        } else {
            Next::Sleep
        },
    }
}

/// The plan that shows what a stopwatch has counted.
pub open spec fn stopwatch_plan(counted: nat, mode: Timer) -> Plan {
    Plan { frame: Some(Shown { nanos: counted, mode }), next: Next::Sleep }
}

/// The plan that shows a running timer at a reading of the clock. `target`
/// tells a countdown from a stopwatch, `saved` is what the timer held when it
/// was last started, at the reading `based`. A stopwatch that would run past
/// the longest span there is breaks the loop off.
pub open spec fn running_plan(
    target: Option<nat>,
    saved: nat,
    based: nat,
    now: nat,
    mode: Timer,
) -> Plan {
    let elapsed = nanos_less(now, based);
    if target is Some {
        countdown_plan(nanos_less(saved, elapsed), mode)
    } else if saved + elapsed > max_nanos() {
        plan_only(Next::Finish(Outcome::Aborted(Abort::Overflow)))
    } else {
        stopwatch_plan(saved + elapsed, mode)
    }
}

/// What is left of `saved_duration` at the reading `now` of the clock, when it
/// has been running down since the reading `based_time`: nothing, once more
/// time has gone by than there was.
pub fn sub_duration(saved_duration: &Duration, based_time: &Duration, now: &Duration) -> (left:
    Duration)
    ensures
        duration_nanos(left) == nanos_less(
            duration_nanos(*saved_duration),
            nanos_less(duration_nanos(*now), duration_nanos(*based_time)),
        ),
{
    let elapsed = clamped_sub(*now, *based_time);
    clamped_sub(*saved_duration, elapsed)
}

/// What `saved_duration` has grown to at the reading `now` of the clock, when
/// it has been counting since the reading `based_time`. It fails where that is
/// longer than the longest span there is.
pub fn add_duration(saved_duration: &Duration, based_time: &Duration, now: &Duration) -> (counted:
    Result<Duration, Abort>)
    ensures
        match counted {
            Ok(d) => duration_nanos(d) == duration_nanos(*saved_duration) + nanos_less(
                duration_nanos(*now),
                duration_nanos(*based_time),
            ) && duration_nanos(d) <= max_nanos(),
            Err(e) => e == Abort::Overflow && duration_nanos(*saved_duration) + nanos_less(
                duration_nanos(*now),
                duration_nanos(*based_time),
            ) > max_nanos(),
        },
{
    let elapsed = clamped_sub(*now, *based_time);
    match saved_duration.checked_add(elapsed) {
        Some(d) => Ok(d),
        None => Err(Abort::Overflow),
    }
}

/// The action that shows what is left of a countdown, and ends the loop when
/// nothing is left.
pub fn countdown_print(saved_duration: Duration, timer: Timer) -> (action: Action)
    ensures
        action@ == countdown_plan(duration_nanos(saved_duration), timer),
        action.frame == Some(Frame { shown: saved_duration, mode: timer }),
{
    let next = if saved_duration.is_zero() {
        Next::Finish(Outcome::FinishedCountdownZero)
    } else {
        Next::Sleep
    };
    Action { frame: Some(Frame { shown: saved_duration, mode: timer }), next }
}

/// The action that shows what a stopwatch has counted.
pub fn stopwatch_print(saved_duration: Duration, timer: Timer) -> (action: Action)
    ensures
        action@ == stopwatch_plan(duration_nanos(saved_duration), timer),
        action.frame == Some(Frame { shown: saved_duration, mode: timer }),
{
    Action { frame: Some(Frame { shown: saved_duration, mode: timer }), next: Next::Sleep }
}

/// The action that shows a running timer at the reading `now` of the clock.
/// `target` tells a countdown from a stopwatch, `saved_duration` is what the
/// timer held when it was last started, at the reading `based_time`.
pub fn calculate_and_print_duraition(
    target: &Option<Duration>,
    saved_duration: &Duration,
    based_time: &Duration,
    now: &Duration,
    timer: Timer,
) -> (action: Action)
    ensures
        action@ == running_plan(
            match *target {
                Some(t) => Some(duration_nanos(t)),
                None => None,
            },
            duration_nanos(*saved_duration),
            duration_nanos(*based_time),
            duration_nanos(*now),
            timer,
        ),
{
    match target {
        Some(_) => {
            let subed = sub_duration(saved_duration, based_time, now);
            countdown_print(subed, timer)
        },
        None => match add_duration(saved_duration, based_time, now) {
            Ok(added) => stopwatch_print(added, timer),
            Err(e) => Action { frame: None, next: Next::Finish(Outcome::Aborted(e)) },
        },
    }
}

/// What follows a frame once it has been drawn: what the action said, or the
/// end of the loop where the frame could not be written.
pub fn settle(next: Next, written: bool) -> (settled: Next)
    ensures
        settled == if written {
            next
        } else {
            Next::Finish(Outcome::Aborted(Abort::WriteFailed))
        },
{
    if written {
        next
    } else {
        Next::Finish(Outcome::Aborted(Abort::WriteFailed))
    }
}

impl Outcome {
    /// The last line that the timer prints.
    pub fn message(&self) -> (text: &'static str)
        ensures
            text@ == match *self {
                Outcome::FinishedNormally => "finish!"@,
                Outcome::FinishedCountdownZero => "finish!"@,
                Outcome::Aborted(Abort::Disconnected) => "channel disconnected"@,
                Outcome::Aborted(Abort::WriteFailed) => "stdout write error"@,
                Outcome::Aborted(Abort::Overflow) => "time overflow"@,
            },
    {
        match self {
            Outcome::FinishedNormally => "finish!",
            Outcome::FinishedCountdownZero => "finish!",
            Outcome::Aborted(Abort::Disconnected) => "channel disconnected",
            Outcome::Aborted(Abort::WriteFailed) => "stdout write error",
            Outcome::Aborted(Abort::Overflow) => "time overflow",
        }
    }
}

/// One run of the timer: a stopwatch that counts up, or a countdown that runs
/// down to zero.
#[derive(Debug, Clone, Copy)]
pub struct TimerSession {
    mode: Timer,
    accumulated: Duration,
    interval_start: Duration,
    target: Option<Duration>,
}

/// A session with its spans in nanoseconds.
pub ghost struct SessionState {
    /// Whether time accrues.
    pub mode: Timer,
    /// What the intervals that are over have left: the time counted by a
    /// stopwatch, the time that remains of a countdown.
    pub accumulated: nat,
    /// The reading of the clock at which the running interval began. It
    /// means something only while the timer runs.
    pub interval_start: nat,
    /// The length of a countdown; a stopwatch has none.
    pub target: Option<nat>,
}

/// One turn of the loop: what the queue gave and what the clock read.
pub ghost struct Tick {
    pub polled: Polled,
    pub now: nat,
}

impl SessionState {
    /// The time gone by in the running interval at the reading `now`.
    pub open spec fn elapsed(self, now: nat) -> nat {
        nanos_less(now, self.interval_start)
    }

    /// What the timer shows at the reading `now`: while it runs, what it held
    /// and the running interval, added for a stopwatch, taken off for a
    /// countdown and never below zero; while it is stopped, what it holds.
    pub open spec fn shown(self, now: nat) -> nat {
        if self.mode == Timer::STOP {
            self.accumulated
        } else if self.target is Some {
            nanos_less(self.accumulated, self.elapsed(now))
        } else {
            self.accumulated + self.elapsed(now)
        }
    }

    /// The session once it was asked to run at the reading `now`: a stopped
    /// one runs from `now` on, a running one is as it was.
    pub open spec fn resumed(self, now: nat) -> SessionState {
        if self.mode == Timer::STOP {
            SessionState { mode: Timer::RUN, interval_start: now, ..self }
        } else {
            self
        }
    }

    /// The session once it was asked to stop at the reading `now`: a running
    /// one keeps what it shows then, a stopped one is as it was.
    pub open spec fn paused(self, now: nat) -> SessionState {
        if self.mode == Timer::RUN {
            SessionState { mode: Timer::STOP, accumulated: self.shown(now), ..self }
        } else {
            self
        }
    }

    /// The plan that shows the session at the reading `now` as if it ran,
    /// under the mode `mode`.
    pub open spec fn plan(self, now: nat, mode: Timer) -> Plan {
        running_plan(self.target, self.accumulated, self.interval_start, now, mode)
    }

    /// One turn of the loop: the session after it, and the plan.
    ///
    /// A request to leave ends the loop. A request to toggle stops a
    /// running timer, which is then shown once, or starts a stopped one, which
    /// is not. With nothing in the queue a running timer is shown and a
    /// stopped one is left alone. A countdown that shows zero ends the loop, a
    /// stopwatch that would run past the longest span breaks it off, and so
    /// does a listener that is gone.
    pub open spec fn step(self, polled: Polled, now: nat) -> (SessionState, Plan) {
        let idle = plan_only(Next::Sleep);
        match polled {
            Polled::Disconnected => (
                self,
                plan_only(Next::Finish(Outcome::Aborted(Abort::Disconnected))),
            ),
            Polled::Empty => if self.mode == Timer::RUN {
                (self, self.plan(now, Timer::RUN))
            } else {
                (self, idle)
            },
            Polled::Input(request) => match request {
                Request::Exit => (self, plan_only(Next::Finish(Outcome::FinishedNormally))),
                Request::Nothing => (self, idle),
                Request::Toggle => if self.mode == Timer::STOP {
                    (self.resumed(now), idle)
                } else if self.plan(now, Timer::STOP).frame is Some {
                    (self.paused(now), self.plan(now, Timer::STOP))
                } else {
                    (self, self.plan(now, Timer::STOP))
                },
            },
        }
    }

    /// The session after the turns `ticks`, taken in order.
    pub open spec fn after(self, ticks: Seq<Tick>) -> SessionState
        decreases ticks.len(),
    {
        if ticks.len() == 0 {
            self
        } else {
            self.after(ticks.drop_last()).step(ticks.last().polled, ticks.last().now).0
        }
    }

    /// What the turn `ticks[k]` draws, if anything, when the turns before it
    /// have been taken.
    pub open spec fn drawn(self, ticks: Seq<Tick>, k: int) -> Option<Shown> {
        self.after(ticks.take(k)).step(ticks[k].polled, ticks[k].now).1.frame
    }
}

impl View for TimerSession {
    type V = SessionState;

    closed spec fn view(&self) -> SessionState {
        SessionState {
            mode: self.mode,
            accumulated: duration_nanos(self.accumulated),
            interval_start: duration_nanos(self.interval_start),
            target: match self.target {
                Some(t) => Some(duration_nanos(t)),
                None => None,
            },
        }
    }
}

impl TimerSession {
    /// A stopwatch that starts to run at the reading `now` of the clock.
    pub fn stopwatch(now: Duration) -> (session: TimerSession)
        ensures
            session@ == (SessionState {
                mode: Timer::RUN,
                accumulated: 0,
                interval_start: duration_nanos(now),
                target: None,
            }),
    {
        TimerSession { mode: Timer::RUN, accumulated: zero(), interval_start: now, target: None }
    }

    /// A countdown of the length `target` that starts to run at the reading
    /// `now` of the clock.
    pub fn countdown(target: Duration, now: Duration) -> (session: TimerSession)
        ensures
            session@ == (SessionState {
                mode: Timer::RUN,
                accumulated: duration_nanos(target),
                interval_start: duration_nanos(now),
                target: Some(duration_nanos(target)),
            }),
    {
        TimerSession {
            mode: Timer::RUN,
            accumulated: target,
            interval_start: now,
            target: Some(target),
        }
    }

    /// Whether time accrues.
    pub fn mode(&self) -> (mode: Timer)
        ensures
            mode == self@.mode,
    {
        self.mode
    }

    /// What the intervals that are over have left.
    pub fn accumulated(&self) -> (d: Duration)
        ensures
            duration_nanos(d) == self@.accumulated,
    {
        self.accumulated
    }

    /// The length of the countdown, if the session is one.
    pub fn target(&self) -> (target: Option<Duration>)
        ensures
            match target {
                Some(t) => self@.target == Some(duration_nanos(t)),
                None => self@.target is None,
            },
    {
        self.target
    }

    /// Asks the session to run: a stopped one runs from the reading `now` on,
    /// a running one is left as it is.
    pub fn resume(&mut self, now: Duration)
        ensures
            final(self)@ == old(self)@.resumed(duration_nanos(now)),
    {
        match self.mode {
            Timer::STOP => {
                self.mode = Timer::RUN;
                self.interval_start = now;
            },
            Timer::RUN => {},
        }
    }

    /// One turn of the loop: takes what the queue gave and the reading of the
    /// clock, moves the session on and says what to do.
    pub fn step(&mut self, polled: Polled, now: Duration) -> (action: Action)
        ensures
            (final(self)@, action@) == old(self)@.step(polled, duration_nanos(now)),
    {
        let idle = Action { frame: None, next: Next::Sleep };
        match polled {
            Polled::Disconnected => Action {
                frame: None,
                next: Next::Finish(Outcome::Aborted(Abort::Disconnected)),
            },
            Polled::Empty => match self.mode {
                Timer::RUN => calculate_and_print_duraition(
                    &self.target,
                    &self.accumulated,
                    &self.interval_start,
                    &now,
                    Timer::RUN,
                ),
                Timer::STOP => idle,
            },
            Polled::Input(request) => match request {
                Request::Exit => Action {
                    frame: None,
                    next: Next::Finish(Outcome::FinishedNormally),
                },
                Request::Nothing => idle,
                Request::Toggle => match self.mode {
                    Timer::STOP => {
                        self.resume(now);
                        idle
                    },
                    Timer::RUN => {
                        let action = calculate_and_print_duraition(
                            &self.target,
                            &self.accumulated,
                            &self.interval_start,
                            &now,
                            Timer::STOP,
                        );
                        match action.frame {
                            Some(frame) => {
                                self.mode = Timer::STOP;
                                self.accumulated = frame.shown;
                            },
                            None => {},
                        }
                        action
                    },
                },
            },
        }
    }
}

/// A countdown that has run for as long as it had left, or longer, shows
/// exactly zero, and the loop ends with that: on a turn without a key, and on
/// the turn that stops the timer, which then holds zero.
pub proof fn lemma_countdown_clamp(s: SessionState, now: nat)
    requires
        s.target is Some,
        s.mode == Timer::RUN,
        s.elapsed(now) >= s.accumulated,
    ensures
        s.shown(now) == 0,
        s.step(Polled::Empty, now) == (
            s,
            Plan {
                frame: Some(Shown { nanos: 0, mode: Timer::RUN }),
                next: Next::Finish(Outcome::FinishedCountdownZero),
            },
        ),
        s.step(Polled::Input(Request::Toggle), now) == (
            SessionState { mode: Timer::STOP, accumulated: 0, ..s },
            Plan {
                frame: Some(Shown { nanos: 0, mode: Timer::STOP }),
                next: Next::Finish(Outcome::FinishedCountdownZero),
            },
        ),
{
}

/// No turn of the loop changes the length of a countdown, or makes a
/// countdown of a stopwatch, and what a countdown holds never grows.
pub proof fn lemma_step_keeps_target(s: SessionState, polled: Polled, now: nat)
    ensures
        s.step(polled, now).0.target == s.target,
        s.target is Some ==> s.step(polled, now).0.accumulated <= s.accumulated,
{
}

/// What a turn of the loop draws for a stopwatch is what the stopwatch shows
/// at that reading of the clock.
pub proof fn lemma_drawn_is_shown(s: SessionState, polled: Polled, now: nat)
    requires
        s.target is None,
        s.step(polled, now).1.frame is Some,
    ensures
        s.step(polled, now).1.frame.unwrap().nanos == s.shown(now),
{
}

/// What a stopwatch shows does not fall over a turn of the loop, whatever
/// the turn brings, as long as the clock does not run backwards.
pub proof fn lemma_shown_grows(s: SessionState, polled: Polled, now: nat, later: nat)
    requires
        s.target is None,
        now <= later,
    ensures
        s.shown(now) <= s.step(polled, now).0.shown(later),
{
}

/// Of two frames that a stopwatch draws in the course of the loop, the later
/// shows no less than the earlier, whatever keys come in between, as long as
/// the clock does not run backwards.
pub proof fn lemma_stopwatch_monotone(s: SessionState, ticks: Seq<Tick>, i: int, j: int)
    requires
        s.target is None,
        0 <= i <= j < ticks.len(),
        forall|a: int, b: int| 0 <= a <= b < ticks.len() ==> ticks[a].now <= ticks[b].now,
        s.drawn(ticks, i) is Some,
        s.drawn(ticks, j) is Some,
    ensures
        s.drawn(ticks, i).unwrap().nanos <= s.drawn(ticks, j).unwrap().nanos,
{
    lemma_after_keeps_target(s, ticks.take(i));
    lemma_after_keeps_target(s, ticks.take(j));
    lemma_drawn_is_shown(s.after(ticks.take(i)), ticks[i].polled, ticks[i].now);
    lemma_drawn_is_shown(s.after(ticks.take(j)), ticks[j].polled, ticks[j].now);
    lemma_shown_over_ticks(s, ticks, i, j);
}

/// The length of a countdown stays what it is over any turns of the loop.
proof fn lemma_after_keeps_target(s: SessionState, ticks: Seq<Tick>)
    ensures
        s.after(ticks).target == s.target,
    decreases ticks.len(),
{
    if ticks.len() > 0 {
        lemma_after_keeps_target(s, ticks.drop_last());
        lemma_step_keeps_target(
            s.after(ticks.drop_last()),
            ticks.last().polled,
            ticks.last().now,
        );
    }
}

/// What a stopwatch shows when a turn begins is no less than what it showed
/// when an earlier turn began.
proof fn lemma_shown_over_ticks(s: SessionState, ticks: Seq<Tick>, i: int, j: int)
    requires
        s.target is None,
        0 <= i <= j < ticks.len(),
        forall|a: int, b: int| 0 <= a <= b < ticks.len() ==> ticks[a].now <= ticks[b].now,
    ensures
        s.after(ticks.take(i)).shown(ticks[i].now) <= s.after(ticks.take(j)).shown(ticks[j].now),
    decreases j - i,
{
    if i < j {
        lemma_shown_over_ticks(s, ticks, i, j - 1);
        let before = s.after(ticks.take(j - 1));
        lemma_after_keeps_target(s, ticks.take(j - 1));
        assert(ticks.take(j).drop_last() =~= ticks.take(j - 1));
        assert(ticks.take(j).last() == ticks[j - 1]);
        lemma_shown_grows(before, ticks[j - 1].polled, ticks[j - 1].now, ticks[j].now);
    }
}

/// A session that is asked to run twice, with no stop between, is after the
/// second request as it was after the first, and holds what it held before
/// both.
pub proof fn lemma_resume_twice(s: SessionState, first: nat, second: nat)
    ensures
        s.resumed(first).resumed(second) == s.resumed(first),
        s.resumed(first).resumed(second).accumulated == s.accumulated,
{
}

} // verus!
