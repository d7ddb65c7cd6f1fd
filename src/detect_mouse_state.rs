use vstd::prelude::*;
use crate::countdown_timer::{PauseOrigin, TimerState, TimerStatus};
use crate::detect_idling::{apply_spec, MonitorAction};

verus! {

/// Samples kept by the shake detector of the pointer loop.
pub const MAX_SHAKE_WINDOW: usize = 30;

/// Smallest horizontal step, in pixels, that counts as a move.
pub const SHAKE_MIN_DISTANCE: i32 = 10;

/// Direction reversals that make a shake.
pub const SHAKE_MIN_DIRECTION_CHANGES: usize = 3;

/// A discrete signal derived from pointer motion.
#[derive(Debug, Clone, Copy, PartialEq, Eq, Structural)]
pub enum MouseState {
    SHAKE,
}

pub open spec fn abs_diff(a: i32, b: i32) -> int {
    if a >= b { a - b } else { b - a }
}

/// Direction of the last counted move and number of reversals, over the
/// moves between the first `n` coordinates.
pub open spec fn shake_scan(xs: Seq<i32>, min_distance: i32, n: nat) -> (Option<bool>, nat)
    decreases n,
{
    if n <= 1 {
        (None, 0)
    } else {
        let (dir, changes) = shake_scan(xs, min_distance, (n - 1) as nat);
        let prev = xs[n - 2];
        let cur = xs[n - 1];
        if abs_diff(cur, prev) < min_distance {
            (dir, changes)
        } else {
            let up = cur > prev;
            match dir {
                None => (Some(up), changes),
                Some(last) => if last != up { (Some(up), changes + 1) } else { (dir, changes) },
            }
        }
    }
}

/// Whether a sequence of coordinates holds a shake: at least three samples,
/// and at least `min_direction_changes` reversals among the moves of at least
/// `min_distance`.
pub open spec fn is_shaking(xs: Seq<i32>, min_distance: i32, min_direction_changes: nat) -> bool {
    xs.len() >= 3 && shake_scan(xs, min_distance, xs.len()).1 >= min_direction_changes
}

proof fn lemma_scan_monotone(xs: Seq<i32>, min_distance: i32, n: nat, m: nat)
    requires
        n <= m,
    ensures
        shake_scan(xs, min_distance, n).1 <= shake_scan(xs, min_distance, m).1,
    decreases m - n,
{
    if n < m {
        lemma_scan_monotone(xs, min_distance, n, (m - 1) as nat);
    }
}

pub fn is_mouse_shaking(y_coords: &[i32], min_distance: i32, min_direction_changes: usize) -> (r: bool)
    ensures
        r == is_shaking(y_coords@, min_distance, min_direction_changes as nat),
{
    let len = y_coords.len();
    if len < 3 {
        return false;
    }
    let mut increasing: Option<bool> = None;
    let mut direction_changes: usize = 0;
    let mut i: usize = 1;
    while i < len
        invariant
            1 <= i <= len,
            len >= 3,
            len == y_coords@.len(),
            (increasing, direction_changes as nat) == shake_scan(y_coords@, min_distance, i as nat),
            direction_changes <= i,
        decreases len - i,
    {
        let prev = y_coords[i - 1];
        let current = y_coords[i];
        let diff: i64 = current as i64 - prev as i64;
        let dist: i64 = if diff < 0 { -diff } else { diff };
        i = i + 1;
        assert(dist == abs_diff(current, prev));
        if dist >= min_distance as i64 {
            let is_increasing = current > prev;
            match increasing {
                Some(last_direction) => {
                    if last_direction != is_increasing {
                        direction_changes = direction_changes + 1;
                        increasing = Some(is_increasing);
                    }
                },
                None => {
                    increasing = Some(is_increasing);
                },
            }
            assert((increasing, direction_changes as nat) == shake_scan(y_coords@, min_distance, i as nat));
            if direction_changes >= min_direction_changes {
                proof { lemma_scan_monotone(y_coords@, min_distance, i as nat, len as nat); }
                return true;
            }
        }
    }
    direction_changes >= min_direction_changes
}

/// Keeps the latest pointer X coordinates and reports shakes.
pub struct ShakeDetector {
    window: Vec<i32>,
    capacity: usize,
    min_distance: i32,
    min_direction_changes: usize,
}

/// The abstract state of a shake detector.
pub struct ShakeWindow {
    pub window: Seq<i32>,
    pub capacity: nat,
    pub min_distance: i32,
    pub min_direction_changes: nat,
}

impl View for ShakeDetector {
    type V = ShakeWindow;

    closed spec fn view(&self) -> ShakeWindow {
        ShakeWindow {
            window: self.window@,
            capacity: self.capacity as nat,
            min_distance: self.min_distance,
            min_direction_changes: self.min_direction_changes as nat,
        }
    }
}

/// The window after a sample is added, the oldest leaving when it is full.
pub open spec fn fifo_push<T>(window: Seq<T>, capacity: nat, x: T) -> Seq<T> {
    if window.len() >= capacity && window.len() > 0 {
        window.drop_first().push(x)
    } else {
        window.push(x)
    }
}

impl ShakeDetector {
    pub fn new(capacity: usize, min_distance: i32, min_direction_changes: usize) -> (r: ShakeDetector)
        ensures
            r@ == (ShakeWindow {
                window: Seq::empty(),
                capacity: capacity as nat,
                min_distance,
                min_direction_changes: min_direction_changes as nat,
            }),
    {
        ShakeDetector { window: Vec::new(), capacity, min_distance, min_direction_changes }
    }

    /// Adds a sample. On a shake the window is cleared and `SHAKE` returned.
    pub fn push(&mut self, x: i32) -> (r: Option<MouseState>)
        ensures
            ({
                let s = old(self)@;
                let w = fifo_push(s.window, s.capacity, x);
                if is_shaking(w, s.min_distance, s.min_direction_changes) {
                    r == Some(MouseState::SHAKE) && final(self)@ == (ShakeWindow { window: Seq::empty(), ..s })
                } else {
                    r is None && final(self)@ == (ShakeWindow { window: w, ..s })
                }
            }),
    {
        if self.window.len() >= self.capacity && self.window.len() > 0 {
            self.window.remove(0);
        }
        self.window.push(x);
        proof {
            assert(self.window@ =~= fifo_push(old(self)@.window, old(self).capacity as nat, x));
        }
        if is_mouse_shaking(self.window.as_slice(), self.min_distance, self.min_direction_changes) {
            self.window.clear();
            assert(self.window@ =~= Seq::<i32>::empty());
            Some(MouseState::SHAKE)
        } else {
            None
        }
    }
}

/// What the pointer says about the user.
#[derive(Debug, Clone, Copy, PartialEq, Eq, Structural)]
pub enum Mode {
    Idle,
    Working,
}

/// Squared distance between two pointer positions.
pub open spec fn dist2(a: (i32, i32), b: (i32, i32)) -> int {
    (a.0 - b.0) * (a.0 - b.0) + (a.1 - b.1) * (a.1 - b.1)
}

/// The positions from index `from` on.
pub open spec fn recent(s: Seq<(i32, i32)>, from: int) -> Seq<(i32, i32)> {
    s.subrange(from, s.len() as int)
}

/// Whether every two positions are closer than `threshold`.
pub open spec fn all_within(s: Seq<(i32, i32)>, threshold: u32) -> bool {
    forall|i: int, j: int| 0 <= i < j < s.len() ==> #[trigger] dist2(s[i], s[j]) < threshold * threshold
}

/// Whether some two positions are farther apart than `threshold`.
pub open spec fn some_beyond(s: Seq<(i32, i32)>, threshold: u32) -> bool {
    exists|i: int, j: int| 0 <= i < j < s.len() && #[trigger] dist2(s[i], s[j]) > threshold * threshold
}

proof fn lemma_dist2_nonneg(a: (i32, i32), b: (i32, i32))
    ensures
        dist2(a, b) >= 0,
{
    assert((a.0 - b.0) * (a.0 - b.0) >= 0) by (nonlinear_arith);
    assert((a.1 - b.1) * (a.1 - b.1) >= 0) by (nonlinear_arith);
}

fn square_diff(a: i32, b: i32) -> (r: u128)
    ensures
        r == (a - b) * (a - b),
        r <= 0x1_0000_0000u128 * 0x1_0000_0000u128,
{
    let d: i64 = a as i64 - b as i64;
    let m: u128 = if d < 0 { (-d) as u128 } else { d as u128 };
    assert(m == a - b || m == b - a);
    assert(m * m == (a - b) * (a - b)) by (nonlinear_arith)
        requires m == a - b || m == b - a;
    assert(m * m <= 0x1_0000_0000u128 * 0x1_0000_0000u128) by (nonlinear_arith)
        requires m <= 0x1_0000_0000u128;
    m * m
}

fn squared_distance(a: (i32, i32), b: (i32, i32)) -> (r: u128)
    ensures
        r == dist2(a, b),
{
    square_diff(a.0, b.0) + square_diff(a.1, b.1)
}

/// Largest squared distance between two of the positions from index `from`
/// on; zero when there are fewer than two.
pub fn max_pairwise_dist2(points: &Vec<(i32, i32)>, from: usize) -> (r: u128)
    requires
        from <= points.len(),
    ensures
        forall|i: int, j: int| from <= i < j < points.len() ==> #[trigger] dist2(points@[i], points@[j]) <= r,
        r == 0 || exists|i: int, j: int| from <= i < j < points.len() && #[trigger] dist2(points@[i], points@[j]) == r,
{
    let n = points.len();
    let mut best: u128 = 0;
    let mut i: usize = from;
    while i < n
        invariant
            from <= i <= n,
            n == points.len(),
            forall|a: int, b: int| from <= a < b < n && a < i ==> #[trigger] dist2(points@[a], points@[b]) <= best,
            best == 0 || exists|a: int, b: int| from <= a < b < n && #[trigger] dist2(points@[a], points@[b]) == best,
        decreases n - i,
    {
        let mut j: usize = i + 1;
        while j < n
            invariant
                from <= i < n,
                i < j <= n,
                n == points.len(),
                forall|a: int, b: int| from <= a < b < n && a < i ==> #[trigger] dist2(points@[a], points@[b]) <= best,
                forall|b: int| i < b < j ==> #[trigger] dist2(points@[i as int], points@[b]) <= best,
                best == 0 || exists|a: int, b: int| from <= a < b < n && #[trigger] dist2(points@[a], points@[b]) == best,
            decreases n - j,
        {
            let d = squared_distance(points[i], points[j]);
            if d > best {
                best = d;
            }
            j = j + 1;
        }
        i = i + 1;
    }
    best
}

/// Keeps the latest pointer positions and switches between idle and working.
pub struct IdleDetector {
    samples: Vec<(i32, i32)>,
    idle_window: usize,
    working_window: usize,
    movement_threshold: u32,
    mode: Mode,
}

/// The abstract state of an idle detector.
pub struct IdleWindow {
    pub samples: Seq<(i32, i32)>,
    /// Samples that must all stay close for the user to count as idle.
    pub idle_window: nat,
    /// Samples among which a far move makes the user count as working.
    pub working_window: nat,
    pub movement_threshold: u32,
    pub mode: Mode,
}

impl IdleWindow {
    pub open spec fn capacity(self) -> nat {
        if self.idle_window >= self.working_window { self.idle_window } else { self.working_window }
    }

    /// The state after a sample, and the mode it switches to, if any.
    pub open spec fn push_spec(self, p: (i32, i32)) -> (IdleWindow, Option<Mode>) {
        let s = fifo_push(self.samples, self.capacity(), p);
        let next = IdleWindow { samples: s, ..self };
        match self.mode {
            Mode::Working => {
                if s.len() >= self.idle_window
                    && all_within(recent(s, s.len() - self.idle_window), self.movement_threshold) {
                    (IdleWindow { mode: Mode::Idle, ..next }, Some(Mode::Idle))
                } else {
                    (next, None)
                }
            },
            Mode::Idle => {
                if s.len() >= self.working_window
                    && some_beyond(recent(s, s.len() - self.working_window), self.movement_threshold) {
                    (IdleWindow { mode: Mode::Working, ..next }, Some(Mode::Working))
                } else {
                    (next, None)
                }
            },
        }
    }
}

impl View for IdleDetector {
    type V = IdleWindow;

    closed spec fn view(&self) -> IdleWindow {
        IdleWindow {
            samples: self.samples@,
            idle_window: self.idle_window as nat,
            working_window: self.working_window as nat,
            movement_threshold: self.movement_threshold,
            mode: self.mode,
        }
    }
}

impl IdleDetector {
    /// A detector in working mode with no samples yet.
    pub fn new(idle_window: usize, working_window: usize, movement_threshold: u32) -> (r: IdleDetector)
        ensures
            r@ == (IdleWindow {
                samples: Seq::empty(),
                idle_window: idle_window as nat,
                working_window: working_window as nat,
                movement_threshold,
                mode: Mode::Working,
            }),
    {
        IdleDetector { samples: Vec::new(), idle_window, working_window, movement_threshold, mode: Mode::Working }
    }

    pub fn mode(&self) -> (r: Mode)
        ensures
            r == self@.mode,
    {
        self.mode
    }

    /// Adds a sample; returns the new mode when it changes.
    pub fn push(&mut self, p: (i32, i32)) -> (r: Option<Mode>)
        ensures
            (final(self)@, r) == old(self)@.push_spec(p),
    {
        let capacity = if self.idle_window >= self.working_window { self.idle_window } else { self.working_window };
        if self.samples.len() >= capacity && self.samples.len() > 0 {
            self.samples.remove(0);
        }
        self.samples.push(p);
        proof {
            assert(self.samples@ =~= fifo_push(old(self)@.samples, old(self)@.capacity(), p));
        }
        let n = self.samples.len();
        let t = self.movement_threshold as u128;
        assert(t * t <= 0x1_0000_0000u128 * 0x1_0000_0000u128) by (nonlinear_arith)
            requires t <= 0x1_0000_0000u128;
        let limit: u128 = t * t;
        match self.mode {
            Mode::Working => {
                if n >= self.idle_window {
                    let from = n - self.idle_window;
                    let m = max_pairwise_dist2(&self.samples, from);
                    let ghost s = self.samples@;
                    let close = n - from < 2 || m < limit;
                    proof {
                        let r = recent(s, from as int);
                        if close {
                            assert forall|i: int, j: int| 0 <= i < j < r.len() implies
                                #[trigger] dist2(r[i], r[j]) < self.movement_threshold * self.movement_threshold by {
                                assert(dist2(s[from + i], s[from + j]) <= m);
                            }
                        } else if m > 0 {
                            let (a, b) = choose|a: int, b: int| from <= a < b < n && #[trigger] dist2(s[a], s[b]) == m;
                            assert(r[a - from] == s[a] && r[b - from] == s[b]);
                            assert(dist2(r[a - from], r[b - from]) == m);
                        } else {
                            lemma_dist2_nonneg(r[0], r[1]);
                            assert(dist2(r[0], r[1]) >= limit);
                        }
                    }
                    if close {
                        self.mode = Mode::Idle;
                        return Some(Mode::Idle);
                    }
                }
                None
            },
            Mode::Idle => {
                if n >= self.working_window {
                    let from = n - self.working_window;
                    let m = max_pairwise_dist2(&self.samples, from);
                    let ghost s = self.samples@;
                    let far = m > limit;
                    proof {
                        let r = recent(s, from as int);
                        if far {
                            let (a, b) = choose|a: int, b: int| from <= a < b < n && #[trigger] dist2(s[a], s[b]) == m;
                            assert(r[a - from] == s[a] && r[b - from] == s[b]);
                            assert(dist2(r[a - from], r[b - from]) == m);
                        } else {
                            assert forall|i: int, j: int| 0 <= i < j < r.len() implies
                                !(#[trigger] dist2(r[i], r[j]) > self.movement_threshold * self.movement_threshold) by {
                                assert(dist2(s[from + i], s[from + j]) <= m);
                            }
                        }
                    }
                    if far {
                        self.mode = Mode::Working;
                        return Some(Mode::Working);
                    }
                }
                None
            },
        }
    }
}

/// The call a pointer mode switch makes on the countdown: an idle pointer
/// pauses a running countdown for idleness, and a working pointer lifts only
/// a pause for idleness. Any other status is left alone.
pub open spec fn pointer_mode_action_spec(mode: Mode, status: TimerStatus) -> MonitorAction {
    match mode {
        Mode::Idle => if status is Active { MonitorAction::Pause(PauseOrigin::Idle) } else { MonitorAction::Nothing },
        Mode::Working => if status matches TimerStatus::Paused(PauseOrigin::Idle, _) {
            MonitorAction::Resume
        } else {
            MonitorAction::Nothing
        },
    }
}

pub fn pointer_mode_action(mode: Mode, status: &TimerStatus) -> (r: MonitorAction)
    ensures
        r == pointer_mode_action_spec(mode, *status),
{
    match mode {
        Mode::Idle => match status {
            TimerStatus::Active(_) => MonitorAction::Pause(PauseOrigin::Idle),
            _ => MonitorAction::Nothing,
        },
        Mode::Working => match status {
            TimerStatus::Paused(PauseOrigin::Idle, _) => MonitorAction::Resume,
            _ => MonitorAction::Nothing,
        },
    }
}

/// Pointer mode switches never change a pause the user asked for.
pub proof fn lemma_pointer_keeps_user_pause(mode: Mode, t: TimerState)
    requires
        t.status matches TimerStatus::Paused(PauseOrigin::User, _),
    ensures
        apply_spec(t, pointer_mode_action_spec(mode, t.status)) == t,
{
}

} // verus!
