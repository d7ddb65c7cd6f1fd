use vstd::prelude::*;
use vstd::string::StringExecFns;
use crate::pretty_time::{pretty_seconds, pretty_seconds_spec};

verus! {

/// Time taken off the countdown by one tick.
pub const TICKER_SPEED_MS: u64 = 250;

/// Why a countdown is paused.
#[derive(Debug, Clone, PartialEq, Eq)]
pub enum PauseOrigin {
    Idle,
    PreventSleep(String),
    User,
}

/// What the countdown reports to its subscribers.
#[derive(Debug, Clone, PartialEq, Eq)]
pub enum TimerStatus {
    NotStarted(u32),
    Active(u32),
    Paused(PauseOrigin, u32),
    Finished,
}

/// A manual adjustment of the remaining time, in minutes.
#[derive(Debug, Clone, PartialEq, Eq)]
pub enum ChangeTime {
    Add(u32),
    Remove(u32),
}

/// The payload sent to subscribers on each status change.
#[derive(Debug, Clone, PartialEq, Eq)]
pub struct CountdownEvent {
    pub status: TimerStatus,
}

impl PauseOrigin {
    /// A copy of this origin.
    pub fn duplicate(&self) -> (r: PauseOrigin)
        ensures
            r == *self,
    {
        match self {
            PauseOrigin::Idle => PauseOrigin::Idle,
            PauseOrigin::PreventSleep(name) => PauseOrigin::PreventSleep(name.clone()),
            PauseOrigin::User => PauseOrigin::User,
        }
    }
}

/// Text shown for a status in the tray menu.
pub open spec fn status_text(s: TimerStatus) -> Seq<char> {
    match s {
        TimerStatus::Active(d) => pretty_seconds_spec(d as nat),
        TimerStatus::Paused(PauseOrigin::Idle, _) => "Paused due to idle"@,
        TimerStatus::Paused(PauseOrigin::PreventSleep(name), _) => "Paused by "@ + name@,
        TimerStatus::Paused(PauseOrigin::User, _) => "Next session is paused"@,
        TimerStatus::NotStarted(_) => "Not running"@,
        TimerStatus::Finished => "Not running"@,
    }
}

impl TimerStatus {
    /// A copy of this status.
    pub fn duplicate(&self) -> (r: TimerStatus)
        ensures
            r == *self,
    {
        match self {
            TimerStatus::NotStarted(d) => TimerStatus::NotStarted(*d),
            TimerStatus::Active(d) => TimerStatus::Active(*d),
            TimerStatus::Paused(origin, d) => TimerStatus::Paused(origin.duplicate(), *d),
            TimerStatus::Finished => TimerStatus::Finished,
        }
    }

    pub fn is_running(&self) -> (r: bool)
        ensures
            r == (*self is Active),
    {
        match self {
            TimerStatus::Active(_) => true,
            _ => false,
        }
    }

    pub fn is_prevent_sleep(&self) -> (r: bool)
        ensures
            r == (*self matches TimerStatus::Paused(PauseOrigin::PreventSleep(_), _)),
    {
        match self {
            TimerStatus::Paused(reason, _) => match reason {
                PauseOrigin::PreventSleep(_) => true,
                _ => false,
            },
            _ => false,
        }
    }

    pub fn to_text(&self) -> (r: String)
        ensures
            r@ == status_text(*self),
    {
        match self {
            TimerStatus::Active(duration) => pretty_seconds(*duration as u64),
            TimerStatus::Paused(origin, _) => match origin {
                PauseOrigin::Idle => String::from_str("Paused due to idle"),
                PauseOrigin::PreventSleep(app_name) => {
                    String::from_str("Paused by ").concat(app_name.as_str())
                },
                PauseOrigin::User => String::from_str("Next session is paused"),
            },
            TimerStatus::NotStarted(_) => String::from_str("Not running"),
            TimerStatus::Finished => String::from_str("Not running"),
        }
    }
}

/// The abstract state of a countdown.
pub struct TimerState {
    pub status: TimerStatus,
    /// Milliseconds left.
    pub remaining_ms: nat,
    /// The duration, in seconds, of the last `start`.
    pub configured: Option<u32>,
    /// Whether a tick task is live.
    pub ticking: bool,
}

/// Whole seconds of a remaining time, as reported in a status; a time beyond
/// `u32::MAX` seconds is reported as `u32::MAX`.
pub open spec fn secs(ms: nat) -> u32 {
    if ms / 1000 > u32::MAX { u32::MAX } else { (ms / 1000) as u32 }
}

fn secs_of(ms: u64) -> (r: u32)
    ensures
        r == secs(ms as nat),
{
    let whole = ms / 1000;
    if whole > u32::MAX as u64 { u32::MAX } else { whole as u32 }
}

impl TimerState {
    pub open spec fn initial() -> TimerState {
        TimerState { status: TimerStatus::NotStarted(0), remaining_ms: 0, configured: None, ticking: false }
    }

    pub open spec fn start(self, duration_s: u32) -> TimerState {
        TimerState {
            status: TimerStatus::Active(duration_s),
            remaining_ms: duration_s as nat * 1000,
            configured: Some(duration_s),
            ticking: true,
        }
    }

    /// The state after one tick, and the status emitted by it, if any.
    pub open spec fn tick(self) -> (TimerState, Option<TimerStatus>) {
        if !self.ticking {
            (self, None)
        } else if self.status is Paused {
            (self, Some(self.status))
        } else if self.remaining_ms > TICKER_SPEED_MS {
            let rem = (self.remaining_ms - TICKER_SPEED_MS) as nat;
            let st = TimerStatus::Active(secs(rem));
            (TimerState { status: st, remaining_ms: rem, ..self }, Some(st))
        } else {
            (
                TimerState { status: TimerStatus::Finished, remaining_ms: 0, ticking: false, ..self },
                Some(TimerStatus::Finished),
            )
        }
    }

    /// The state after `n` ticks.
    pub open spec fn ticks(self, n: nat) -> TimerState
        decreases n,
    {
        if n == 0 {
            self
        } else {
            self.tick().0.ticks((n - 1) as nat)
        }
    }

    /// Pausing captures the whole seconds left; a paused countdown takes the
    /// new origin.
    pub open spec fn pause(self, origin: PauseOrigin) -> TimerState {
        if self.status is Active || self.status is Paused {
            TimerState { status: TimerStatus::Paused(origin, secs(self.remaining_ms)), ..self }
        } else {
            self
        }
    }

    /// Resuming reports the whole seconds left, which ticks while paused do
    /// not change.
    pub open spec fn resume(self) -> TimerState {
        if self.status is Paused {
            TimerState { status: TimerStatus::Active(secs(self.remaining_ms)), ..self }
        } else {
            self
        }
    }

    pub open spec fn toggle(self, origin: PauseOrigin) -> TimerState {
        if self.status is Paused {
            self.resume()
        } else {
            self.pause(origin)
        }
    }

    pub open spec fn stop(self) -> TimerState {
        TimerState { remaining_ms: 0, ticking: false, ..self }
    }

    pub open spec fn restart(self) -> TimerState {
        match self.configured {
            Some(d) => self.start(d),
            None => self,
        }
    }

    /// Remaining milliseconds after an adjustment. Adding saturates at
    /// `u64::MAX`; removing `m` minutes works on whole seconds and never goes
    /// below `m` minutes.
    pub open spec fn changed_ms(self, change: ChangeTime) -> nat {
        match change {
            ChangeTime::Add(m) => {
                let sum = self.remaining_ms + m as nat * 60000;
                if sum > u64::MAX { u64::MAX as nat } else { sum }
            },
            ChangeTime::Remove(m) => {
                let left = (self.remaining_ms / 1000) as int - m as int * 60;
                let floor = m as int * 60;
                (if left > floor { left } else { floor }) as nat * 1000
            },
        }
    }

    /// The remaining time adjusted; the status snapshot is left as it is
    /// until the next tick, pause or resume.
    pub open spec fn change(self, change: ChangeTime) -> TimerState {
        TimerState { remaining_ms: self.changed_ms(change), ..self }
    }
}

/// A countdown to the next break. Ticks are driven from outside, one call of
/// `tick` per scheduled callback; the returned status is what subscribers
/// receive.
pub struct CountdownTimer {
    status: TimerStatus,
    remaining_ms: u64,
    duration: Option<u32>,
    ticking: bool,
}

impl View for CountdownTimer {
    type V = TimerState;

    closed spec fn view(&self) -> TimerState {
        TimerState {
            status: self.status,
            remaining_ms: self.remaining_ms as nat,
            configured: self.duration,
            ticking: self.ticking,
        }
    }
}

impl CountdownTimer {
    pub fn new() -> (r: CountdownTimer)
        ensures
            r@ == TimerState::initial(),
    {
        CountdownTimer { status: TimerStatus::NotStarted(0), remaining_ms: 0, duration: None, ticking: false }
    }

    /// Starts counting down `duration_s` seconds, replacing any running countdown.
    pub fn start(&mut self, duration_s: u32)
        ensures
            final(self)@ == old(self)@.start(duration_s),
    {
        self.remaining_ms = duration_s as u64 * 1000;
        self.duration = Some(duration_s);
        self.status = TimerStatus::Active(duration_s);
        self.ticking = true;
    }

    /// One scheduled tick; returns the status to emit, or `None` when no tick
    /// task is live.
    pub fn tick(&mut self) -> (r: Option<TimerStatus>)
        ensures
            (final(self)@, r) == old(self)@.tick(),
    {
        if !self.ticking {
            return None;
        }
        if let TimerStatus::Paused(_, _) = self.status {
            return Some(self.status.duplicate());
        }
        if self.remaining_ms > TICKER_SPEED_MS {
            self.remaining_ms = self.remaining_ms - TICKER_SPEED_MS;
            self.status = TimerStatus::Active(secs_of(self.remaining_ms));
            Some(TimerStatus::Active(secs_of(self.remaining_ms)))
        } else {
            self.remaining_ms = 0;
            self.ticking = false;
            self.status = TimerStatus::Finished;
            Some(TimerStatus::Finished)
        }
    }

    pub fn pause(&mut self, pause_origin: PauseOrigin)
        ensures
            final(self)@ == old(self)@.pause(pause_origin),
    {
        match self.status {
            TimerStatus::Active(_) | TimerStatus::Paused(_, _) => {
                self.status = TimerStatus::Paused(pause_origin, secs_of(self.remaining_ms));
            },
            _ => {},
        }
    }

    pub fn resume(&mut self)
        ensures
            final(self)@ == old(self)@.resume(),
    {
        if let TimerStatus::Paused(_, _) = self.status {
            self.status = TimerStatus::Active(secs_of(self.remaining_ms));
        }
    }

    pub fn toggle(&mut self, pause_origin: PauseOrigin)
        ensures
            final(self)@ == old(self)@.toggle(pause_origin),
    {
        if let TimerStatus::Paused(_, _) = self.status {
            self.resume();
        } else {
            self.pause(pause_origin);
        }
    }

    /// Adjusts the remaining time; the status is left as it is.
    pub fn change(&mut self, change_time: ChangeTime)
        ensures
            final(self)@ == old(self)@.change(change_time),
            change_time matches ChangeTime::Remove(m) ==> final(self)@.remaining_ms >= m as nat * 60000,
    {
        let ms: u64 = match change_time {
            ChangeTime::Add(minutes) => self.remaining_ms.saturating_add(minutes as u64 * 60000),
            ChangeTime::Remove(minutes) => {
                let whole_s: u64 = self.remaining_ms / 1000;
                let floor_s: u64 = minutes as u64 * 60;
                if whole_s >= floor_s && whole_s - floor_s > floor_s {
                    assert((whole_s - floor_s) * 1000 <= whole_s * 1000) by (nonlinear_arith)
                        requires whole_s >= floor_s;
                    (whole_s - floor_s) * 1000
                } else {
                    floor_s * 1000
                }
            },
        };
        self.remaining_ms = ms;
    }

    /// Cancels the tick task and clears the remaining time; the status is kept.
    pub fn stop(&mut self)
        ensures
            final(self)@ == old(self)@.stop(),
    {
        self.remaining_ms = 0;
        self.ticking = false;
    }

    /// Starts again with the last configured duration, if there is one.
    pub fn restart(&mut self)
        ensures
            final(self)@ == old(self)@.restart(),
    {
        if let Some(d) = self.duration {
            self.start(d);
        }
    }

    pub fn timer_status(&self) -> (r: TimerStatus)
        ensures
            r == self@.status,
    {
        self.status.duplicate()
    }

    pub fn remaining_ms(&self) -> (r: u64)
        ensures
            r as nat == self@.remaining_ms,
    {
        self.remaining_ms
    }

    pub fn is_ticking(&self) -> (r: bool)
        ensures
            r == self@.ticking,
    {
        self.ticking
    }
}

/// While ticking and not paused, each tick takes one tick's length off the
/// remaining time and reports the whole seconds left.
proof fn lemma_counting_down(t: TimerState, k: nat)
    requires
        t.ticking,
        !(t.status is Paused),
        TICKER_SPEED_MS * k < t.remaining_ms,
    ensures
        k > 0 ==> t.ticks(k) == (TimerState {
            status: TimerStatus::Active(secs((t.remaining_ms - TICKER_SPEED_MS * k) as nat)),
            remaining_ms: (t.remaining_ms - TICKER_SPEED_MS * k) as nat,
            ..t
        }),
        k == 0 ==> t.ticks(k) == t,
    decreases k,
{
    if k > 0 {
        let t1 = t.tick().0;
        assert(t1.remaining_ms == t.remaining_ms - TICKER_SPEED_MS);
        lemma_counting_down(t1, (k - 1) as nat);
    }
}

/// Ticking `k + 1` times is ticking `k` times and once more.
proof fn lemma_ticks_last(t: TimerState, k: nat)
    ensures
        t.ticks(k + 1) == t.ticks(k).tick().0,
    decreases k,
{
    let t1 = t.tick().0;
    assert(t.ticks(k + 1) == t1.ticks(k));
    if k > 0 {
        lemma_ticks_last(t1, (k - 1) as nat);
        assert(t.ticks(k) == t1.ticks((k - 1) as nat));
    } else {
        assert(t1.ticks(0) == t1);
    }
}

/// A state without a live tick task is left as it is by any number of ticks,
/// and no tick of it emits anything.
proof fn lemma_idle_ticks(t: TimerState, m: nat)
    requires
        !t.ticking,
    ensures
        t.ticks(m) == t,
        t.tick().1 is None,
    decreases m,
{
    if m > 0 {
        lemma_idle_ticks(t, (m - 1) as nat);
    }
}

/// A countdown started with a positive duration emits `Active` on each of its
/// first `4 * duration_s - 1` ticks, emits `Finished` on the next one, and
/// after that no tick changes the state or emits anything.
pub proof fn lemma_start_finishes_once(s: TimerState, duration_s: u32)
    requires
        duration_s > 0,
    ensures
        ({
            let s0 = s.start(duration_s);
            let n = 4 * duration_s as nat;
            &&& forall|k: nat| k + 1 < n ==> (#[trigger] s0.ticks(k)).tick().1 == Some(
                TimerStatus::Active(secs((duration_s as nat * 1000 - TICKER_SPEED_MS * (k + 1)) as nat)),
            )
            &&& s0.ticks((n - 1) as nat).tick().1 == Some(TimerStatus::Finished)
            &&& s0.ticks(n).status == TimerStatus::Finished
            &&& !s0.ticks(n).ticking
            &&& forall|m: nat| (#[trigger] s0.ticks(n).ticks(m)) == s0.ticks(n)
            &&& s0.ticks(n).tick().1 is None
        }),
{
    let s0 = s.start(duration_s);
    let n = 4 * duration_s as nat;
    assert forall|k: nat| k + 1 < n implies (#[trigger] s0.ticks(k)).tick().1 == Some(
        TimerStatus::Active(secs((duration_s as nat * 1000 - TICKER_SPEED_MS * (k + 1)) as nat)),
    ) by {
        lemma_counting_down(s0, k);
    }
    lemma_counting_down(s0, (n - 1) as nat);
    lemma_ticks_last(s0, (n - 1) as nat);
    let f = s0.ticks(n);
    assert forall|m: nat| (#[trigger] f.ticks(m)) == f by {
        lemma_idle_ticks(f, m);
    }
    lemma_idle_ticks(f, 0);
}

/// A user pause freezes the countdown: the pause captures the whole seconds
/// left, ticks while paused change nothing and re-emit the paused status, and
/// resuming reports those same seconds, with the remaining time as it was
/// before the pause.
pub proof fn lemma_pause_resume_keeps_remaining(s: TimerState, n: nat)
    requires
        s.status is Active,
    ensures
        ({
            let p = s.pause(PauseOrigin::User);
            &&& p.status == TimerStatus::Paused(PauseOrigin::User, secs(s.remaining_ms))
            &&& p.ticks(n) == p
            &&& p.ticking ==> p.tick().1 == Some(p.status)
            &&& p.ticks(n).resume().remaining_ms == s.remaining_ms
            &&& p.ticks(n).resume().status == TimerStatus::Active(secs(s.remaining_ms))
            &&& p.ticks(n).resume().ticking == s.ticking
            &&& p.ticks(n).resume().configured == s.configured
        }),
    decreases n,
{
    if n > 0 {
        lemma_pause_resume_keeps_remaining(s, (n - 1) as nat);
    }
}

/// An explicit toggle clears any pause, one the user asked for included: the
/// countdown is active again with the whole seconds left, the origin given
/// to the toggle is ignored, and nothing else changes.
pub proof fn lemma_toggle_clears_pause(s: TimerState, paused_by: PauseOrigin, r: u32, origin: PauseOrigin)
    requires
        s.status == TimerStatus::Paused(paused_by, r),
    ensures
        s.toggle(origin) == (TimerState { status: TimerStatus::Active(secs(s.remaining_ms)), ..s }),
{
}

} // verus!
