use vstd::prelude::*;
use crate::countdown_timer::{CountdownTimer, PauseOrigin, TimerState, TimerStatus};

verus! {

/// Seconds without input after which the user counts as away.
pub const IDLE_DURATION_S: u64 = 60;

/// Consecutive active seconds needed before an automatic pause is lifted.
pub const MIN_ACTIVE_DURATION_S: u64 = 20;

/// Below this many remaining seconds, an application that keeps the display
/// awake pauses the countdown even while the user is active.
pub const PREVENT_SLEEP_GRACE_S: u32 = 10;

/// What the monitor believes the user is doing.
#[derive(Debug, Clone, Copy, PartialEq, Eq, Structural)]
pub enum Mode {
    Pause,
    Working,
}

/// One poll of the outside world.
#[derive(Debug, Clone, PartialEq, Eq)]
pub struct ActivitySample {
    /// Seconds since the last input; `None` when the query failed.
    pub idle_seconds: Option<u64>,
    /// The foreground application that keeps the display awake, if any.
    pub blocking_app: Option<String>,
    /// Whether idle detection is switched on and the countdown is configured active.
    pub enabled: bool,
    /// The countdown's status at the time of the poll.
    pub timer_status: TimerStatus,
}

/// The control call the monitor asks of the countdown.
#[derive(Debug, Clone, PartialEq, Eq)]
pub enum MonitorAction {
    Nothing,
    Pause(PauseOrigin),
    Resume,
}

/// Hysteresis state of the activity monitor.
#[derive(Debug, Clone, Copy, PartialEq, Eq)]
pub struct ActivityMonitor {
    pub mode: Mode,
    pub active_streak_seconds: u64,
}

/// Idle seconds of a sample; a failed query counts as not idle.
pub open spec fn idle_of(sample: ActivitySample) -> u64 {
    match sample.idle_seconds {
        Some(s) => s,
        None => 0,
    }
}

/// Whether the countdown is paused for a reason the monitor may lift.
pub open spec fn auto_paused(status: TimerStatus) -> bool {
    ||| status matches TimerStatus::Paused(PauseOrigin::Idle, _)
    ||| status matches TimerStatus::Paused(PauseOrigin::PreventSleep(_), _)
}

/// Whether a blocking application asks for an early pause: one is reported,
/// and the countdown is active with less than the grace time left.
pub open spec fn early_pause(sample: ActivitySample) -> bool {
    &&& sample.blocking_app is Some
    &&& sample.timer_status matches TimerStatus::Active(d) && d < PREVENT_SLEEP_GRACE_S
}

/// Whether the countdown is paused because the user asked for it.
pub open spec fn user_paused(status: TimerStatus) -> bool {
    status matches TimerStatus::Paused(PauseOrigin::User, _)
}

impl ActivityMonitor {
    /// The streak after a sample: one more second while not idle (saturating),
    /// zero once idle.
    pub open spec fn next_streak(self, sample: ActivitySample) -> u64 {
        if idle_of(sample) < IDLE_DURATION_S {
            if self.active_streak_seconds < u64::MAX {
                (self.active_streak_seconds + 1) as u64
            } else {
                u64::MAX
            }
        } else {
            0
        }
    }

    /// The monitor's state after a sample, and the call it makes. A pause the
    /// user asked for is left alone: it is neither re-tagged nor lifted.
    pub open spec fn step_spec(self, sample: ActivitySample) -> (ActivityMonitor, MonitorAction) {
        let streak = self.next_streak(sample);
        let keep = ActivityMonitor { mode: self.mode, active_streak_seconds: streak };
        if !sample.enabled {
            (keep, MonitorAction::Nothing)
        } else {
            match self.mode {
                Mode::Pause => {
                    if streak < MIN_ACTIVE_DURATION_S {
                        (keep, MonitorAction::Nothing)
                    } else if auto_paused(sample.timer_status) {
                        (ActivityMonitor { mode: Mode::Working, active_streak_seconds: streak }, MonitorAction::Resume)
                    } else {
                        (ActivityMonitor { mode: Mode::Working, active_streak_seconds: streak }, MonitorAction::Nothing)
                    }
                },
                Mode::Working => {
                    if idle_of(sample) > IDLE_DURATION_S && !user_paused(sample.timer_status) {
                        (ActivityMonitor { mode: Mode::Pause, active_streak_seconds: streak },
                         MonitorAction::Pause(PauseOrigin::Idle))
                    } else if early_pause(sample) {
                        (ActivityMonitor { mode: Mode::Pause, active_streak_seconds: streak },
                         MonitorAction::Pause(PauseOrigin::PreventSleep(sample.blocking_app->Some_0)))
                    } else {
                        (keep, MonitorAction::Nothing)
                    }
                },
            }
        }
    }

    /// The state after the same sample is seen `k` times in a row.
    pub open spec fn steps(self, sample: ActivitySample, k: nat) -> ActivityMonitor
        decreases k,
    {
        if k == 0 {
            self
        } else {
            self.step_spec(sample).0.steps(sample, (k - 1) as nat)
        }
    }

    pub fn new() -> (r: ActivityMonitor)
        ensures
            r == (ActivityMonitor { mode: Mode::Working, active_streak_seconds: 0 }),
    {
        ActivityMonitor { mode: Mode::Working, active_streak_seconds: 0 }
    }

    /// Takes one poll into account and returns the call to make on the countdown.
    pub fn step(&mut self, sample: &ActivitySample) -> (r: MonitorAction)
        ensures
            (*final(self), r) == old(self).step_spec(*sample),
    {
        let idle: u64 = match sample.idle_seconds {
            Some(s) => s,
            None => 0,
        };
        if idle < IDLE_DURATION_S {
            if self.active_streak_seconds < u64::MAX {
                self.active_streak_seconds = self.active_streak_seconds + 1;
            }
        } else {
            self.active_streak_seconds = 0;
        }
        if !sample.enabled {
            return MonitorAction::Nothing;
        }
        match self.mode {
            Mode::Pause => {
                if self.active_streak_seconds < MIN_ACTIVE_DURATION_S {
                    MonitorAction::Nothing
                } else {
                    self.mode = Mode::Working;
                    match &sample.timer_status {
                        TimerStatus::Paused(PauseOrigin::Idle, _) => MonitorAction::Resume,
                        TimerStatus::Paused(PauseOrigin::PreventSleep(_), _) => MonitorAction::Resume,
                        _ => MonitorAction::Nothing,
                    }
                }
            },
            Mode::Working => {
                let user_paused = match &sample.timer_status {
                    TimerStatus::Paused(PauseOrigin::User, _) => true,
                    _ => false,
                };
                if idle > IDLE_DURATION_S && !user_paused {
                    self.mode = Mode::Pause;
                    return MonitorAction::Pause(PauseOrigin::Idle);
                }
                if let (Some(name), TimerStatus::Active(d)) = (&sample.blocking_app, &sample.timer_status) {
                    if *d < PREVENT_SLEEP_GRACE_S {
                        self.mode = Mode::Pause;
                        return MonitorAction::Pause(PauseOrigin::PreventSleep(name.clone()));
                    }
                }
                MonitorAction::Nothing
            },
        }
    }
}

/// The countdown's state after the monitor's call is carried out.
pub open spec fn apply_spec(t: TimerState, action: MonitorAction) -> TimerState {
    match action {
        MonitorAction::Nothing => t,
        MonitorAction::Pause(origin) => t.pause(origin),
        MonitorAction::Resume => t.resume(),
    }
}

/// Carries out the monitor's call on the countdown.
pub fn apply_action(timer: &mut CountdownTimer, action: MonitorAction)
    ensures
        final(timer)@ == apply_spec(old(timer)@, action),
{
    match action {
        MonitorAction::Nothing => {},
        MonitorAction::Pause(origin) => timer.pause(origin),
        MonitorAction::Resume => timer.resume(),
    }
}

/// While paused, active samples only grow the streak until the threshold.
proof fn lemma_streak_grows(sample: ActivitySample, j: nat, k: nat)
    requires
        sample.enabled,
        idle_of(sample) < IDLE_DURATION_S,
        j + k < MIN_ACTIVE_DURATION_S,
    ensures
        (ActivityMonitor { mode: Mode::Pause, active_streak_seconds: j as u64 }).steps(sample, k)
            == (ActivityMonitor { mode: Mode::Pause, active_streak_seconds: (j + k) as u64 }),
    decreases k,
{
    if k > 0 {
        lemma_streak_grows(sample, j + 1, (k - 1) as nat);
    }
}

/// Resume hysteresis: after an idle sample has paused the countdown for
/// idleness, none of the first `MIN_ACTIVE_DURATION_S - 1` consecutive active
/// samples lifts the pause, and the next one does. An idle sample puts the
/// streak back to zero and never lifts a pause.
pub proof fn lemma_resume_needs_active_streak(
    m: ActivityMonitor,
    sample: ActivitySample,
    idle_sample: ActivitySample,
)
    requires
        sample.enabled,
        idle_of(sample) < IDLE_DURATION_S,
        sample.timer_status matches TimerStatus::Paused(PauseOrigin::Idle, _),
        idle_of(idle_sample) >= IDLE_DURATION_S,
    ensures
        m.step_spec(idle_sample).0.active_streak_seconds == 0,
        m.step_spec(idle_sample).1 != MonitorAction::Resume,
        ({
            let m0 = ActivityMonitor { mode: Mode::Pause, active_streak_seconds: 0 };
            &&& forall|k: nat| k + 1 < MIN_ACTIVE_DURATION_S ==>
                (#[trigger] m0.steps(sample, k)).step_spec(sample).1 == MonitorAction::Nothing
            &&& m0.steps(sample, (MIN_ACTIVE_DURATION_S - 1) as nat).step_spec(sample).1 == MonitorAction::Resume
        }),
{
    let m0 = ActivityMonitor { mode: Mode::Pause, active_streak_seconds: 0 };
    assert forall|k: nat| k + 1 < MIN_ACTIVE_DURATION_S implies
        (#[trigger] m0.steps(sample, k)).step_spec(sample).1 == MonitorAction::Nothing by {
        lemma_streak_grows(sample, 0, k);
    }
    lemma_streak_grows(sample, 0, (MIN_ACTIVE_DURATION_S - 1) as nat);
}

/// A pause the user asked for is never cleared by the monitor: whatever its
/// mode and whatever the sample, it makes no resume call, and carrying out
/// its call leaves the countdown as it was.
pub proof fn lemma_user_pause_kept(m: ActivityMonitor, sample: ActivitySample, t: TimerState)
    requires
        t.status matches TimerStatus::Paused(PauseOrigin::User, _),
        sample.timer_status == t.status,
    ensures
        m.step_spec(sample).1 != MonitorAction::Resume,
        apply_spec(t, m.step_spec(sample).1) == t,
{
}

/// Along any run of samples, a countdown paused by the user stays paused by
/// the user with the same seconds, the monitor's calls being carried out
/// after each sample.
pub proof fn lemma_user_pause_kept_along(m: ActivityMonitor, samples: Seq<ActivitySample>, t: TimerState)
    requires
        t.status matches TimerStatus::Paused(PauseOrigin::User, _),
        forall|i: int| 0 <= i < samples.len() ==> (#[trigger] samples[i]).timer_status == t.status,
    ensures
        run_spec(m, samples, t).1 == t,
    decreases samples.len(),
{
    if samples.len() > 0 {
        lemma_user_pause_kept(m, samples[0], t);
        let m1 = m.step_spec(samples[0]).0;
        let rest = samples.drop_first();
        assert forall|i: int| 0 <= i < rest.len() implies (#[trigger] rest[i]).timer_status == t.status by {
            assert(rest[i] == samples[i + 1]);
        }
        lemma_user_pause_kept_along(m1, rest, t);
    }
}

/// The monitor and the countdown after a run of samples, the monitor's call
/// being carried out after each one.
pub open spec fn run_spec(m: ActivityMonitor, samples: Seq<ActivitySample>, t: TimerState) -> (ActivityMonitor, TimerState)
    decreases samples.len(),
{
    if samples.len() == 0 {
        (m, t)
    } else {
        let (m1, a) = m.step_spec(samples[0]);
        run_spec(m1, samples.drop_first(), apply_spec(t, a))
    }
}

} // verus!
