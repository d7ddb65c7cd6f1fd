use vstd::prelude::*;

verus! {

/// The countdown of a running break session. Times are milliseconds on a
/// monotonic clock that the caller reads.
pub struct SessionTimer {
    duration_ms: u64,
    start_time_ms: Option<u64>,
    is_running: bool,
}

/// The abstract state of a session timer.
pub struct SessionTimerState {
    pub duration_ms: u64,
    pub start_time_ms: Option<u64>,
    pub is_running: bool,
}

impl View for SessionTimer {
    type V = SessionTimerState;

    closed spec fn view(&self) -> SessionTimerState {
        SessionTimerState { duration_ms: self.duration_ms, start_time_ms: self.start_time_ms, is_running: self.is_running }
    }
}

/// Time left of `duration` at `now` for a session started at `start`.
pub open spec fn remaining_spec(duration: u64, start: u64, now: u64) -> u64 {
    let elapsed: int = if now >= start { now - start } else { 0 };
    if elapsed >= duration { 0 } else { (duration - elapsed) as u64 }
}

impl SessionTimer {
    pub fn new() -> (r: SessionTimer)
        ensures
            r@ == (SessionTimerState { duration_ms: 0, start_time_ms: None, is_running: false }),
    {
        SessionTimer { duration_ms: 0, start_time_ms: None, is_running: false }
    }

    /// Starts, or restarts, a session of `duration_ms` at `now_ms`. Returns
    /// whether a new countdown loop has to be launched, which is when none
    /// was running.
    pub fn start(&mut self, duration_ms: u64, now_ms: u64) -> (launch: bool)
        ensures
            final(self)@ == (SessionTimerState { duration_ms, start_time_ms: Some(now_ms), is_running: true }),
            launch == !old(self)@.is_running,
    {
        self.duration_ms = duration_ms;
        self.start_time_ms = Some(now_ms);
        let launch = !self.is_running;
        self.is_running = true;
        launch
    }

    pub fn stop(&mut self)
        ensures
            final(self)@ == (SessionTimerState { start_time_ms: None, is_running: false, ..old(self)@ }),
    {
        self.is_running = false;
        self.start_time_ms = None;
    }

    /// Called by the countdown loop when the session is over.
    pub fn finish(&mut self)
        ensures
            final(self)@ == (SessionTimerState { is_running: false, ..old(self)@ }),
    {
        self.is_running = false;
    }

    pub fn is_running(&self) -> (r: bool)
        ensures
            r == self@.is_running,
    {
        self.is_running
    }

    /// Time left at `now_ms`; none when no session was started.
    pub fn remaining_time(&self, now_ms: u64) -> (r: Option<u64>)
        ensures
            r == (match self@.start_time_ms {
                Some(start) => Some(remaining_spec(self@.duration_ms, start, now_ms)),
                None => None,
            }),
    {
        match self.start_time_ms {
            Some(start) => {
                let elapsed: u64 = if now_ms >= start { now_ms - start } else { 0 };
                if elapsed >= self.duration_ms {
                    Some(0)
                } else {
                    Some(self.duration_ms - elapsed)
                }
            },
            None => None,
        }
    }
}

} // verus!
