//! The Pomodoro timer state machine: phases, transition rules with cycle
//! counting, the pause-tolerant time accounting, and the read-only display
//! projections.

use vstd::prelude::*;
use vstd::string::StringExecFns;
use crate::time_format::{dec_chars, mmss_chars, convert_millis_to_time, u128_to_dec};

verus! {

/// The immutable configuration of a run: the three interval lengths in
/// milliseconds and the number of work cycles per set.
#[derive(Clone, Copy, Debug)]
pub struct Settings {
    pub work_time: u64,
    pub short_wait_time: u64,
    pub long_wait_time: u64,
    pub work_cycles: u32,
    pub dark_mode: bool,
}

impl Settings {
    /// All intervals are at least a millisecond long and a set has at least
    /// one cycle.
    pub open spec fn wf(&self) -> bool {
        &&& 1 <= self.work_time
        &&& 1 <= self.short_wait_time
        &&& 1 <= self.long_wait_time
        &&& 1 <= self.work_cycles
    }

    /// Builds the settings from whole minutes, converted to milliseconds.
    pub fn new(
        work_minutes: u64,
        short_wait_minutes: u64,
        long_wait_minutes: u64,
        cycles: u32,
        dark_mode: bool,
    ) -> (s: Settings)
        requires
            1 <= work_minutes && work_minutes <= u64::MAX / 60000,
            1 <= short_wait_minutes && short_wait_minutes <= u64::MAX / 60000,
            1 <= long_wait_minutes && long_wait_minutes <= u64::MAX / 60000,
            1 <= cycles,
        ensures
            s.work_time == work_minutes * 60000,
            s.short_wait_time == short_wait_minutes * 60000,
            s.long_wait_time == long_wait_minutes * 60000,
            s.work_cycles == cycles,
            s.dark_mode == dark_mode,
            s.wf(),
    {
        Settings {
            work_time: work_minutes * 60 * 1000,
            short_wait_time: short_wait_minutes * 60 * 1000,
            long_wait_time: long_wait_minutes * 60 * 1000,
            work_cycles: cycles,
            dark_mode: dark_mode,
        }
    }
}

/// The timer's phase. Every phase but the idle menu carries the remaining
/// time of its countdown in milliseconds.
#[derive(Clone, Copy, PartialEq, Eq, Structural, Debug)]
pub enum PomoState {
    Menu,
    Work { time_left: u64 },
    ShortWait { time_left: u64 },
    LongWait { time_left: u64 },
}

impl PomoState {
    /// The remaining milliseconds carried by the phase, if any.
    pub open spec fn spec_inner(&self) -> Option<u64> {
        match *self {
            PomoState::Menu => None,
            PomoState::Work { time_left } => Some(time_left),
            PomoState::ShortWait { time_left } => Some(time_left),
            PomoState::LongWait { time_left } => Some(time_left),
        }
    }

    /// The remaining milliseconds carried by the phase; zero while idle.
    pub open spec fn spec_time_left(&self) -> u64 {
        match *self {
            PomoState::Menu => 0,
            PomoState::Work { time_left } => time_left,
            PomoState::ShortWait { time_left } => time_left,
            PomoState::LongWait { time_left } => time_left,
        }
    }

    /// The same phase with its countdown replaced; the idle menu is left as
    /// it is.
    pub open spec fn with_time(self, t: u64) -> PomoState {
        match self {
            PomoState::Menu => PomoState::Menu,
            PomoState::Work { .. } => PomoState::Work { time_left: t },
            PomoState::ShortWait { .. } => PomoState::ShortWait { time_left: t },
            PomoState::LongWait { .. } => PomoState::LongWait { time_left: t },
        }
    }

    /// The remaining milliseconds carried by the phase, if any.
    pub fn get_inner(&self) -> (r: Option<u64>)
        ensures
            r == self.spec_inner(),
    {
        match *self {
            PomoState::Menu => None,
            PomoState::Work { time_left } => Some(time_left),
            PomoState::ShortWait { time_left } => Some(time_left),
            PomoState::LongWait { time_left } => Some(time_left),
        }
    }
}

/// What the progress gauge is tinted with; the mapping to a concrete
/// terminal color is left to the presentation layer.
#[derive(Clone, Copy, PartialEq, Eq, Structural, Debug)]
pub enum PomoColor {
    /// The neutral tint of the idle menu.
    Neutral,
    /// A work interval: interpolated between green (all time remaining)
    /// and red (none left).
    Shade { red: u8, green: u8 },
    /// The fixed accent of a short break.
    ShortAccent,
    /// The fixed accent of the long break.
    LongAccent,
}

/// One running timer session: the current phase, the work cycles still
/// owed in the running set, the pause flag, and the last clock reading
/// the countdown was advanced to.
pub struct App {
    pub state: PomoState,
    pub settings: Settings,
    pub cycle: Option<u32>,
    pub last_update_time: u128,
    pub paused: bool,
}

impl App {
    /// The session invariant: the settings are well formed; the cycle count
    /// is absent exactly while idle and otherwise stays between one and the
    /// configured set size (a short break still owes at least two cycles,
    /// since the set's last work interval is followed by the long break);
    /// a running countdown is positive and never above its phase's
    /// configured duration.
    pub open spec fn wf(&self) -> bool {
        &&& self.settings.wf()
        &&& match self.state {
            PomoState::Menu => self.cycle is None,
            PomoState::Work { time_left } => {
                &&& 1 <= time_left <= self.settings.work_time
                &&& match self.cycle {
                    Some(c) => 1 <= c <= self.settings.work_cycles,
                    None => false,
                }
            },
            PomoState::ShortWait { time_left } => {
                &&& 1 <= time_left <= self.settings.short_wait_time
                &&& match self.cycle {
                    Some(c) => 2 <= c <= self.settings.work_cycles,
                    None => false,
                }
            },
            PomoState::LongWait { time_left } => {
                &&& 1 <= time_left <= self.settings.long_wait_time
                &&& match self.cycle {
                    Some(c) => 1 <= c <= self.settings.work_cycles,
                    None => false,
                }
            },
        }
    }

    /// Whether the session invariant `wf` holds, decided at run time, so an
    /// unverified caller can check it before the operations that rely on it.
    pub fn is_wf(&self) -> (b: bool)
        ensures
            b == self.wf(),
    {
        let settings_ok: bool = self.settings.work_time >= 1 && self.settings.short_wait_time >= 1
            && self.settings.long_wait_time >= 1 && self.settings.work_cycles >= 1;
        match self.state {
            PomoState::Menu => settings_ok && self.cycle.is_none(),
            PomoState::Work { time_left } => settings_ok && 1 <= time_left && time_left
                <= self.settings.work_time && match self.cycle {
                Some(c) => 1 <= c && c <= self.settings.work_cycles,
                None => false,
            },
            PomoState::ShortWait { time_left } => settings_ok && 1 <= time_left && time_left
                <= self.settings.short_wait_time && match self.cycle {
                Some(c) => 2 <= c && c <= self.settings.work_cycles,
                None => false,
            },
            PomoState::LongWait { time_left } => settings_ok && 1 <= time_left && time_left
                <= self.settings.long_wait_time && match self.cycle {
                Some(c) => 1 <= c && c <= self.settings.work_cycles,
                None => false,
            },
        }
    }

    /// The session right after `start` under clock reading `now`: a fresh
    /// work interval, a full set of cycles, the reading recorded, the pause
    /// flag and settings untouched.
    pub open spec fn started(self, now: u128) -> App {
        App {
            state: PomoState::Work { time_left: self.settings.work_time },
            cycle: Some(self.settings.work_cycles),
            last_update_time: now,
            ..self
        }
    }

    /// The phase and cycle count after the running phase is exhausted: a
    /// work interval hands over to a break (the long one on the set's last
    /// cycle, a short one otherwise, the count untouched); a short break
    /// hands back to work and uses up one cycle; the long break starts the
    /// next set over with the full count. The next phase always begins at
    /// its full configured duration: any overshoot is discarded. Idle or
    /// countless states, unreachable under `wf`, are left unchanged.
    pub open spec fn exhausted_step(self) -> (PomoState, Option<u32>) {
        match (self.state, self.cycle) {
            (PomoState::Work { .. }, Some(c)) => if c == 1 {
                (PomoState::LongWait { time_left: self.settings.long_wait_time }, Some(c))
            } else {
                (PomoState::ShortWait { time_left: self.settings.short_wait_time }, Some(c))
            },
            (PomoState::ShortWait { .. }, Some(c)) => (
                PomoState::Work { time_left: self.settings.work_time },
                Some((c - 1) as u32),
            ),
            (PomoState::LongWait { .. }, _) => (
                PomoState::Work { time_left: self.settings.work_time },
                Some(self.settings.work_cycles),
            ),
            (_, _) => (self.state, self.cycle),
        }
    }

    /// The session after `advance(now)`: the reading is always recorded;
    /// while paused or idle nothing else changes; otherwise the wall-clock
    /// time elapsed since the last reading counts against the running
    /// countdown, and exhausting it (reaching zero or below) triggers
    /// `exhausted_step`. A reading earlier than the last one counts as no
    /// elapsed time.
    pub open spec fn advanced(self, now: u128) -> App {
        let delta = if now >= self.last_update_time {
            now - self.last_update_time
        } else {
            0
        };
        if self.paused || self.state is Menu {
            App { last_update_time: now, ..self }
        } else if delta < self.state.spec_time_left() {
            App {
                state: self.state.with_time((self.state.spec_time_left() - delta) as u64),
                last_update_time: now,
                ..self
            }
        } else {
            App {
                state: self.exhausted_step().0,
                cycle: self.exhausted_step().1,
                last_update_time: now,
                ..self
            }
        }
    }

    /// A fresh session: idle, unpaused, no cycles underway, with `now_ms`
    /// recorded as the last observed clock reading.
    pub fn new(settings: Settings, now_ms: u128) -> (app: App)
        requires
            settings.wf(),
        ensures
            app.state == PomoState::Menu,
            app.cycle is None,
            !app.paused,
            app.last_update_time == now_ms,
            app.settings == settings,
            app.wf(),
    {
        App {
            state: PomoState::Menu,
            settings: settings,
            cycle: None,
            last_update_time: now_ms,
            paused: false,
        }
    }

    /// Unconditionally begins a fresh work interval with the full set of
    /// cycles, recording `now_ms` as the last observed clock reading.
    /// Valid from any phase: restarting discards prior progress. The pause
    /// flag is untouched.
    pub fn start(&mut self, now_ms: u128)
        requires
            old(self).settings.wf(),
        ensures
            *final(self) == old(self).started(now_ms),
            final(self).wf(),
    {
        self.state = PomoState::Work { time_left: self.settings.work_time };
        self.cycle = Some(self.settings.work_cycles);
        self.last_update_time = now_ms;
    }

    /// Flips the pause flag; phase, cycle count and the recorded clock
    /// reading are untouched.
    pub fn toggle_pause(&mut self)
        ensures
            *final(self) == (App { paused: !old(self).paused, ..*old(self) }),
    {
        self.paused = !self.paused;
    }

    /// Advances the countdown to the clock reading `now`, exactly as
    /// `advanced` describes; the invariant is preserved.
    pub fn advance(&mut self, now: u128)
        requires
            old(self).wf(),
        ensures
            *final(self) == old(self).advanced(now),
            final(self).wf(),
    {
        let delta: u128 = if now >= self.last_update_time {
            now - self.last_update_time
        } else {
            0
        };
        self.last_update_time = now;
        if self.paused {
            return;
        }
        let time_left: u64 = match self.state.get_inner() {
            Some(t) => t,
            None => {
                return;
            },
        };
        if delta < time_left as u128 {
            let new_time: u64 = time_left - delta as u64;
            self.state = match self.state {
                PomoState::Menu => PomoState::Menu,
                PomoState::Work { .. } => PomoState::Work { time_left: new_time },
                PomoState::ShortWait { .. } => PomoState::ShortWait { time_left: new_time },
                PomoState::LongWait { .. } => PomoState::LongWait { time_left: new_time },
            };
            return;
        }
        match (self.state, self.cycle) {
            (PomoState::Work { .. }, Some(c)) => {
                if c == 1 {
                    self.state = PomoState::LongWait { time_left: self.settings.long_wait_time };
                } else {
                    self.state = PomoState::ShortWait { time_left: self.settings.short_wait_time };
                }
            },
            (PomoState::ShortWait { .. }, Some(c)) => {
                self.state = PomoState::Work { time_left: self.settings.work_time };
                self.cycle = Some(c - 1);
            },
            (PomoState::LongWait { .. }, _) => {
                self.state = PomoState::Work { time_left: self.settings.work_time };
                self.cycle = Some(self.settings.work_cycles);
            },
            (_, _) => {},
        }
    }

    /// Reads the wall clock and advances the countdown to it. The reading
    /// is outside this library's control, so the new state is pinned only
    /// as `advanced` of whatever reading came back.
    pub fn update(&mut self)
        requires
            old(self).wf(),
        ensures
            exists|now: u128| *final(self) == old(self).advanced(now),
            final(self).wf(),
    {
        let now: u128 = crate::clock::get_sys_time();
        self.advance(now);
    }

    /// The number of the work cycle underway, counted upward from one
    /// (`set size - cycles still owed + 1`); zero while idle.
    pub open spec fn spec_cycle_number(&self) -> nat {
        match self.cycle {
            Some(c) => (self.settings.work_cycles - c + 1) as nat,
            None => 0,
        }
    }

    /// The progress gauge fraction as remaining over total: one while
    /// paused (whatever the phase), zero while idle, else the running
    /// countdown over its phase's configured duration.
    pub open spec fn spec_ratio_parts(&self) -> (u64, u64) {
        if self.paused {
            (1u64, 1u64)
        } else {
            match self.state {
                PomoState::Menu => (0u64, 1u64),
                PomoState::Work { time_left } => (time_left, self.settings.work_time),
                PomoState::ShortWait { time_left } => (time_left, self.settings.short_wait_time),
                PomoState::LongWait { time_left } => (time_left, self.settings.long_wait_time),
            }
        }
    }

    /// The progress gauge fraction, as a numerator and a positive
    /// denominator; the fraction never exceeds one. While paused it is
    /// exactly one, whatever the phase.
    pub fn get_ratio_parts(&self) -> (r: (u64, u64))
        requires
            self.wf(),
        ensures
            r == self.spec_ratio_parts(),
            self.paused ==> r == ((1u64, 1u64)),
            r.0 <= r.1 && 1 <= r.1,
    {
        if self.paused {
            return (1, 1);
        }
        match self.state {
            PomoState::Menu => (0, 1),
            PomoState::Work { time_left } => (time_left, self.settings.work_time),
            PomoState::ShortWait { time_left } => (time_left, self.settings.short_wait_time),
            PomoState::LongWait { time_left } => (time_left, self.settings.long_wait_time),
        }
    }

    /// The gauge tint for the current session: neutral while idle, the two
    /// break accents as they are, and during work a shade whose green part
    /// is the progress fraction scaled to 255 and whose red part is the
    /// rest — green with all time remaining, red as it nears zero.
    pub open spec fn spec_color(&self) -> PomoColor {
        match self.state {
            PomoState::Menu => PomoColor::Neutral,
            PomoState::Work { .. } => {
                let green = self.spec_ratio_parts().0 as int * 255 / self.spec_ratio_parts().1 as int;
                PomoColor::Shade { red: (255 - green) as u8, green: green as u8 }
            },
            PomoState::ShortWait { .. } => PomoColor::ShortAccent,
            PomoState::LongWait { .. } => PomoColor::LongAccent,
        }
    }

    /// The gauge tint, exactly as `spec_color` describes.
    pub fn get_color(&self) -> (r: PomoColor)
        requires
            self.wf(),
        ensures
            r == self.spec_color(),
    {
        match self.state {
            PomoState::Menu => PomoColor::Neutral,
            PomoState::Work { .. } => {
                let parts: (u64, u64) = self.get_ratio_parts();
                proof {
                    assert(parts.0 as int * 255 / parts.1 as int <= 255) by (nonlinear_arith)
                        requires
                            parts.0 <= parts.1,
                            1 <= parts.1,
                    ;
                }
                let green: u8 = (parts.0 as u128 * 255 / parts.1 as u128) as u8;
                PomoColor::Shade { red: 255 - green, green: green }
            },
            PomoState::ShortWait { .. } => PomoColor::ShortAccent,
            PomoState::LongWait { .. } => PomoColor::LongAccent,
        }
    }

    /// The label drawn over the gauge: a fixed pause marker while paused,
    /// whatever the phase; the key prompt while idle; otherwise the phase
    /// name with its countdown as `MM:SS`, and for work and short breaks
    /// the cycle indicator `current/set size`.
    pub open spec fn spec_state_text(&self) -> Seq<char> {
        if self.paused {
            "PAUSED"@
        } else {
            match self.state {
                PomoState::Menu => "Press 's' to start, 'q' to quit, 'p' to pause"@,
                PomoState::Work { time_left } => "Work: "@ + mmss_chars(time_left as nat)
                    + " - Cycle "@ + dec_chars(self.spec_cycle_number()) + "/"@ + dec_chars(
                    self.settings.work_cycles as nat,
                ),
                PomoState::ShortWait { time_left } => "Short break: "@ + mmss_chars(
                    time_left as nat,
                ) + " - Cycle "@ + dec_chars(self.spec_cycle_number()) + "/"@ + dec_chars(
                    self.settings.work_cycles as nat,
                ),
                PomoState::LongWait { time_left } => "Long break: "@ + mmss_chars(
                    time_left as nat,
                ),
            }
        }
    }

    /// The gauge label, exactly as `spec_state_text` describes.
    pub fn get_state_text(&self) -> (r: String)
        requires
            self.wf(),
        ensures
            r@ == self.spec_state_text(),
    {
        if self.paused {
            return String::from_str("PAUSED");
        }
        match self.state {
            PomoState::Menu => String::from_str("Press 's' to start, 'q' to quit, 'p' to pause"),
            PomoState::Work { time_left } => {
                let number: u32 = self.cycle_number();
                String::from_str("Work: ").concat(
                    convert_millis_to_time(time_left as u128).as_str(),
                ).concat(" - Cycle ").concat(u128_to_dec(number as u128).as_str()).concat(
                    "/",
                ).concat(u128_to_dec(self.settings.work_cycles as u128).as_str())
            },
            PomoState::ShortWait { time_left } => {
                let number: u32 = self.cycle_number();
                String::from_str("Short break: ").concat(
                    convert_millis_to_time(time_left as u128).as_str(),
                ).concat(" - Cycle ").concat(u128_to_dec(number as u128).as_str()).concat(
                    "/",
                ).concat(u128_to_dec(self.settings.work_cycles as u128).as_str())
            },
            PomoState::LongWait { time_left } => {
                String::from_str("Long break: ").concat(
                    convert_millis_to_time(time_left as u128).as_str(),
                )
            },
        }
    }

    /// The number of the work cycle underway, counted upward from one.
    fn cycle_number(&self) -> (n: u32)
        requires
            self.wf(),
            !(self.state is Menu),
        ensures
            n == self.spec_cycle_number(),
    {
        match self.cycle {
            Some(c) => self.settings.work_cycles - c + 1,
            None => {
                proof {
                    assert(false);
                }
                0
            },
        }
    }
}

/// One tick short of exhausting a fresh work interval leaves the timer
/// working with one millisecond remaining: for every positive work
/// duration, advancing to `start_time + work duration - 1` right after a
/// start at `start_time`, while unpaused, yields `Work { time_left: 1 }`.
pub proof fn lemma_tick_before_work_boundary(app: App, start_time: u128)
    requires
        app.settings.wf(),
        !app.paused,
        start_time + app.settings.work_time - 1 <= u128::MAX,
    ensures
        app.started(start_time).advanced((start_time + app.settings.work_time - 1) as u128).state
            == (PomoState::Work { time_left: 1u64 }),
{
}

/// Exhausting a fresh work interval moves the timer to a break: for every
/// positive work duration, advancing to `start_time + work duration` right
/// after a start at `start_time`, while unpaused, leaves a short break
/// when the set has more than one cycle and the long break otherwise; the
/// cycle count is untouched.
pub proof fn lemma_work_boundary_transitions(app: App, start_time: u128)
    requires
        app.settings.wf(),
        !app.paused,
        start_time + app.settings.work_time <= u128::MAX,
    ensures
        ({
            let next = app.started(start_time).advanced((start_time + app.settings.work_time) as u128);
            &&& next.state == if app.settings.work_cycles > 1 {
                (PomoState::ShortWait { time_left: app.settings.short_wait_time })
            } else {
                (PomoState::LongWait { time_left: app.settings.long_wait_time })
            }
            &&& next.cycle == Some(app.settings.work_cycles)
        }),
{
}

/// Exhausting a short break hands back a fresh work interval and uses up
/// exactly one cycle of the running set.
pub proof fn lemma_short_break_consumes_cycle(app: App, now: u128, c: u32)
    requires
        app.wf(),
        !app.paused,
        app.state is ShortWait,
        app.cycle == Some(c),
        now >= app.last_update_time + app.state.spec_time_left(),
    ensures
        app.advanced(now).state == (PomoState::Work { time_left: app.settings.work_time }),
        app.advanced(now).cycle == Some((c - 1) as u32),
{
}

/// The long break closes the set and the session loops: exhausting it
/// always hands back a fresh work interval with the full cycle count,
/// whatever the count was.
pub proof fn lemma_long_break_loops(app: App, now: u128)
    requires
        app.wf(),
        !app.paused,
        app.state is LongWait,
        now >= app.last_update_time + app.state.spec_time_left(),
    ensures
        app.advanced(now).state == (PomoState::Work { time_left: app.settings.work_time }),
        app.advanced(now).cycle == Some(app.settings.work_cycles),
{
}

/// Pausing freezes the countdown: while paused, advancing to any clock
/// reading, however large, leaves phase, cycle count and pause flag as
/// they are and only records the reading — so repeated paused ticks
/// change nothing but the recorded time.
pub proof fn lemma_advance_paused_is_noop(app: App, now: u128, later: u128)
    requires
        app.paused,
    ensures
        app.advanced(now).state == app.state,
        app.advanced(now).cycle == app.cycle,
        app.advanced(now).paused,
        app.advanced(now).last_update_time == now,
        app.advanced(now).advanced(later).state == app.state,
        app.advanced(now).advanced(later).cycle == app.cycle,
{
}

/// While idle, advancing to any clock reading is a no-op on the phase and
/// the cycle count; only the recorded reading moves.
pub proof fn lemma_advance_idle_is_noop(app: App, now: u128)
    requires
        app.state is Menu,
    ensures
        app.advanced(now).state == PomoState::Menu,
        app.advanced(now).cycle == app.cycle,
        app.advanced(now).paused == app.paused,
        app.advanced(now).last_update_time == now,
{
}

} // verus!
