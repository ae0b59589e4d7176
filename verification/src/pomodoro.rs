//! The focus timer: alternating work and break periods counted down one
//! second at a time. The caller owns the clock; it reports each elapsed
//! second with `tick` and shows the notification a finished period yields.
use vstd::prelude::*;
use crate::duration::Duration;
use crate::text::{decimal, push_decimal, push_str_to, push_char};

verus! {

/// Whether the countdown runs.
#[derive(Clone, Copy, Debug, PartialEq, Eq, Structural)]
pub enum TimerState {
    Stopped,
    Running,
    Paused,
}

/// The kind of period being counted down.
#[derive(Clone, Copy, Debug, PartialEq, Eq, Structural)]
pub enum TimerMode {
    /// A focus period of 25 minutes.
    Work,
    /// A pause of 5 minutes.
    Break,
}

/// Length of a period of the given kind, in seconds.
pub open spec fn mode_seconds(m: TimerMode) -> nat {
    match m {
        TimerMode::Work => 1500,
        TimerMode::Break => 300,
    }
}

/// Display label of a period kind.
pub open spec fn mode_label(m: TimerMode) -> Seq<char> {
    match m {
        TimerMode::Work => "Focus Time"@,
        TimerMode::Break => "Break Time"@,
    }
}

/// The kind that follows a period: work and break alternate.
pub open spec fn next_mode(m: TimerMode) -> TimerMode {
    match m {
        TimerMode::Work => TimerMode::Break,
        TimerMode::Break => TimerMode::Work,
    }
}

impl TimerMode {
    /// Length of a period of this kind.
    pub fn duration(&self) -> (d: Duration)
        ensures
            d@ == mode_seconds(*self) * 1_000_000_000,
    {
        match self {
            TimerMode::Work => Duration::from_secs(25 * 60),
            TimerMode::Break => Duration::from_secs(5 * 60),
        }
    }

    /// Length of a period of this kind in whole seconds.
    pub fn seconds(&self) -> (r: u64)
        ensures
            r == mode_seconds(*self),
    {
        match self {
            TimerMode::Work => 1500,
            TimerMode::Break => 300,
        }
    }

    /// Display label.
    pub fn label(&self) -> (r: &'static str)
        ensures
            r@ == mode_label(*self),
    {
        match self {
            TimerMode::Work => "Focus Time",
            TimerMode::Break => "Break Time",
        }
    }

    /// Display icon: a tomato for work, a cup for breaks.
    pub fn icon(&self) -> (r: &'static str)
        ensures
            *self == TimerMode::Work ==> r@ == "\u{1F345}"@,
            *self == TimerMode::Break ==> r@ == "\u{2615}"@,
    {
        match self {
            TimerMode::Work => "\u{1F345}",
            TimerMode::Break => "\u{2615}",
        }
    }

    /// The kind of the period that follows this one.
    pub fn next(&self) -> (r: TimerMode)
        ensures
            r == next_mode(*self),
    {
        match self {
            TimerMode::Work => TimerMode::Break,
            TimerMode::Break => TimerMode::Work,
        }
    }
}

/// What a timer holds: its run state, the period kind, the seconds left
/// in the period and the number of finished work periods.
pub struct TimerView {
    pub state: TimerState,
    pub mode: TimerMode,
    pub remaining: nat,
    pub completed: nat,
}

/// A focus timer. Between one second and a whole period is always left.
pub struct PomodoroTimer {
    state: TimerState,
    mode: TimerMode,
    remaining: u64,
    completed: u32,
}

/// What one elapsed second did to the timer.
#[derive(Debug, PartialEq)]
pub enum TickOutcome {
    /// The timer was not running; nothing changed and the clock stops.
    Idle,
    /// One second was counted off; the clock goes on.
    Counted,
    /// The period ended; the timer stopped in the next period, and this
    /// notification is shown.
    Finished(String),
}

/// The notification shown when a period ends. It names the period that
/// follows twice, as the timer reports it after switching.
pub open spec fn finished_message(next: TimerMode) -> Seq<char> {
    mode_label(next) + " completed! Starting "@ + mode_label(next)
}

/// Two digits at least: a leading zero below ten.
pub open spec fn two_digits(n: nat) -> Seq<char> {
    if n < 10 {
        "0"@ + decimal(n)
    } else {
        decimal(n)
    }
}

/// The countdown display of a number of seconds: minutes and seconds.
pub open spec fn clock_text(secs: nat) -> Seq<char> {
    two_digits(secs / 60) + ":"@ + two_digits(secs % 60)
}

/// The timer after the start/pause button: a running timer pauses, any
/// other starts running.
pub open spec fn after_start_pause(t: TimerView) -> TimerView {
    TimerView {
        state: if t.state == TimerState::Running {
            TimerState::Paused
        } else {
            TimerState::Running
        },
        ..t
    }
}

/// The timer after the reset button: stopped, with the whole period left.
pub open spec fn after_reset(t: TimerView) -> TimerView {
    TimerView { state: TimerState::Stopped, remaining: mode_seconds(t.mode), ..t }
}

/// The timer after the mode button: stopped at the start of the other kind
/// of period.
pub open spec fn after_switch(t: TimerView) -> TimerView {
    TimerView {
        state: TimerState::Stopped,
        mode: next_mode(t.mode),
        remaining: mode_seconds(next_mode(t.mode)),
        completed: t.completed,
    }
}

/// The timer after one elapsed second while running: one second less, or,
/// with the last second gone, stopped at the start of the next period and
/// one more finished work period if it was a work period.
pub open spec fn after_tick(t: TimerView) -> TimerView {
    if t.state != TimerState::Running {
        t
    } else if t.remaining <= 1 {
        TimerView {
            state: TimerState::Stopped,
            mode: next_mode(t.mode),
            remaining: mode_seconds(next_mode(t.mode)),
            completed: if t.mode == TimerMode::Work {
                t.completed + 1
            } else {
                t.completed
            },
        }
    } else {
        TimerView { remaining: (t.remaining - 1) as nat, ..t }
    }
}

impl View for PomodoroTimer {
    type V = TimerView;

    closed spec fn view(&self) -> TimerView {
        TimerView {
            state: self.state,
            mode: self.mode,
            remaining: self.remaining as nat,
            completed: self.completed as nat,
        }
    }
}

/// Whether a timer holds between one second and a whole period.
pub open spec fn timer_valid(t: TimerView) -> bool {
    1 <= t.remaining <= mode_seconds(t.mode)
}

impl PomodoroTimer {
    #[verifier::type_invariant]
    spec fn well_formed(self) -> bool {
        1 <= self.remaining <= mode_seconds(self.mode)
    }

    /// A stopped timer at the start of a work period, nothing finished yet.
    pub fn new() -> (t: PomodoroTimer)
        ensures
            t@ == (TimerView {
                state: TimerState::Stopped,
                mode: TimerMode::Work,
                remaining: 1500,
                completed: 0,
            }),
    {
        PomodoroTimer { state: TimerState::Stopped, mode: TimerMode::Work, remaining: 1500, completed: 0 }
    }

    /// Whether the countdown runs.
    pub fn state(&self) -> (r: TimerState)
        ensures
            r == self@.state,
    {
        self.state
    }

    /// The kind of the current period.
    pub fn mode(&self) -> (r: TimerMode)
        ensures
            r == self@.mode,
    {
        self.mode
    }

    /// Seconds left in the current period.
    pub fn remaining_secs(&self) -> (r: u64)
        ensures
            r == self@.remaining,
            timer_valid(self@),
    {
        proof {
            use_type_invariant(self);
        }
        self.remaining
    }

    /// Finished work periods.
    pub fn completed_pomodoros(&self) -> (r: u32)
        ensures
            r == self@.completed,
    {
        self.completed
    }

    /// The start/pause button.
    pub fn start_pause(&mut self)
        ensures
            final(self)@ == after_start_pause(old(self)@),
    {
        proof {
            use_type_invariant(&*self);
        }
        let s = if self.state == TimerState::Running {
            TimerState::Paused
        } else {
            TimerState::Running
        };
        self.state = s;
    }

    /// The reset button.
    pub fn reset(&mut self)
        ensures
            final(self)@ == after_reset(old(self)@),
    {
        let secs = self.mode.seconds();
        *self = PomodoroTimer { state: TimerState::Stopped, mode: self.mode, remaining: secs, completed: self.completed };
    }

    /// The mode button.
    pub fn switch_mode(&mut self)
        ensures
            final(self)@ == after_switch(old(self)@),
    {
        let m = self.mode.next();
        let secs = m.seconds();
        *self = PomodoroTimer { state: TimerState::Stopped, mode: m, remaining: secs, completed: self.completed };
    }

    /// One elapsed second. The count of finished work periods must have
    /// room for one more.
    pub fn tick(&mut self) -> (r: TickOutcome)
        requires
            old(self)@.completed < u32::MAX,
        ensures
            final(self)@ == after_tick(old(self)@),
            old(self)@.state != TimerState::Running ==> r == TickOutcome::Idle,
            old(self)@.state == TimerState::Running && old(self)@.remaining > 1 ==> r
                == TickOutcome::Counted,
            old(self)@.state == TimerState::Running && old(self)@.remaining <= 1 ==> (r matches TickOutcome::Finished(m)
                && m@ == finished_message(next_mode(old(self)@.mode))),
    {
        proof {
            use_type_invariant(&*self);
        }
        if self.state != TimerState::Running {
            return TickOutcome::Idle;
        }
        if self.remaining <= 1 {
            let finished_work = self.mode == TimerMode::Work;
            let m = self.mode.next();
            let secs = m.seconds();
            let done = if finished_work {
                self.completed + 1
            } else {
                self.completed
            };
            *self = PomodoroTimer { state: TimerState::Stopped, mode: m, remaining: secs, completed: done };
            let mut msg = String::new();
            push_str_to(&mut msg, m.label());
            push_str_to(&mut msg, " completed! Starting ");
            push_str_to(&mut msg, m.label());
            proof {
                assert(msg@ == finished_message(m));
            }
            TickOutcome::Finished(msg)
        } else {
            let left = self.remaining - 1;
            *self = PomodoroTimer { state: self.state, mode: self.mode, remaining: left, completed: self.completed };
            TickOutcome::Counted
        }
    }

    /// The countdown display, minutes and seconds with two digits each.
    pub fn clock_display(&self) -> (r: String)
        ensures
            r@ == clock_text(self@.remaining),
    {
        let mut out = String::new();
        push_two_digits(&mut out, self.remaining / 60);
        push_char(&mut out, ':');
        push_two_digits(&mut out, self.remaining % 60);
        proof {
            reveal_strlit(":");
            assert(out@ =~= clock_text(self@.remaining));
        }
        out
    }

    /// The label of the start/pause button: "Pause" while running.
    pub fn start_pause_label(&self) -> (r: &'static str)
        ensures
            self@.state == TimerState::Running ==> r@ == "Pause"@,
            self@.state != TimerState::Running ==> r@ == "Start"@,
    {
        if self.state == TimerState::Running {
            "Pause"
        } else {
            "Start"
        }
    }

    /// The style class of the start/pause button.
    pub fn start_pause_class(&self) -> (r: &'static str)
        ensures
            self@.state == TimerState::Running ==> r@ == "btn-warning"@,
            self@.state != TimerState::Running ==> r@ == "btn-primary"@,
    {
        if self.state == TimerState::Running {
            "btn-warning"
        } else {
            "btn-primary"
        }
    }
}

fn push_two_digits(out: &mut String, n: u64)
    ensures
        final(out)@ == old(out)@ + two_digits(n as nat),
{
    if n < 10 {
        push_char(out, '0');
        push_decimal(out, n);
        proof {
            reveal_strlit("0");
        }
        assert(out@ =~= old(out)@ + two_digits(n as nat));
    } else {
        push_decimal(out, n);
    }
}

/// Switching the kind of period twice comes back to a stopped timer at the
/// start of the kind it began with.
pub proof fn lemma_switch_twice(t: TimerView)
    ensures
        after_switch(after_switch(t)) == after_reset(t),
{
}

/// Every button and every elapsed second keep a timer valid: between one
/// second and a whole period left.
pub proof fn lemma_steps_keep_valid(t: TimerView)
    requires
        timer_valid(t),
    ensures
        timer_valid(after_start_pause(t)),
        timer_valid(after_reset(t)),
        timer_valid(after_switch(t)),
        timer_valid(after_tick(t)),
{
}

/// The count of finished work periods grows only when a running work
/// period loses its last second, and then by one.
pub proof fn lemma_completed_counts_work(t: TimerView)
    ensures
        after_tick(t).completed == t.completed + (if t.state == TimerState::Running
            && t.remaining <= 1 && t.mode == TimerMode::Work {
            1int
        } else {
            0int
        }),
        after_start_pause(t).completed == t.completed,
        after_reset(t).completed == t.completed,
        after_switch(t).completed == t.completed,
{
}

/// A running timer with more than `n` seconds left has exactly `n` fewer
/// after `n` elapsed seconds, and still runs.
pub open spec fn ticks(t: TimerView, n: nat) -> TimerView
    decreases n,
{
    if n == 0 {
        t
    } else {
        after_tick(ticks(t, (n - 1) as nat))
    }
}

/// Counting down: `n` seconds on a running timer with more than `n` left
/// take exactly `n` seconds off and leave it running in the same period.
pub proof fn lemma_ticks_count_down(t: TimerView, n: nat)
    requires
        t.state == TimerState::Running,
        t.remaining > n,
    ensures
        ticks(t, n) == (TimerView { remaining: (t.remaining - n) as nat, ..t }),
    decreases n,
{
    if n > 0 {
        lemma_ticks_count_down(t, (n - 1) as nat);
    }
}

/// A whole work period: started at its beginning, it ends after 1500
/// seconds, stopped at the start of a break with one more finished work
/// period.
pub proof fn lemma_work_period_completes(t: TimerView)
    requires
        t.state == TimerState::Running,
        t.mode == TimerMode::Work,
        t.remaining == 1500,
    ensures
        ticks(t, 1500) == (TimerView {
            state: TimerState::Stopped,
            mode: TimerMode::Break,
            remaining: 300,
            completed: t.completed + 1,
        }),
{
    lemma_ticks_count_down(t, 1499);
}

} // verus!
