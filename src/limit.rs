//! Timers that turn elapsed time into discrete events. Time is counted in
//! whole microseconds.
use vstd::prelude::*;

verus! {

/// `a + b`, or `u64::MAX` where the sum does not fit.
pub open spec fn sat_add(a: u64, b: u64) -> u64 {
    if a + b > u64::MAX {
        u64::MAX
    } else {
        (a + b) as u64
    }
}

/// A timer that is ready once more than `delay` has elapsed since its last reset.
#[derive(Debug, Clone, Copy, PartialEq, Eq, Structural)]
pub struct DelayTrigger {
    pub time: u64,
    pub delay: u64,
}

impl DelayTrigger {
    pub open spec fn ready(&self) -> bool {
        self.time > self.delay
    }

    /// A timer with the given delay and no time elapsed.
    pub fn new(delay: u64) -> (r: Self)
        ensures
            r.time == 0,
            r.delay == delay,
    {
        DelayTrigger { time: 0, delay }
    }

    /// Adds `dt` to the elapsed time.
    pub fn elapsed(&mut self, dt: u64)
        ensures
            final(self).time == sat_add(old(self).time, dt),
            final(self).delay == old(self).delay,
    {
        self.time = self.time.saturating_add(dt);
    }

    /// Restarts the elapsed time from zero.
    pub fn reset(&mut self)
        ensures
            final(self).time == 0,
            final(self).delay == old(self).delay,
    {
        self.time = 0;
    }

    /// Reports whether the timer is ready, restarting it when it is.
    pub fn get_event(&mut self) -> (r: bool)
        ensures
            r == old(self).ready(),
            final(self).delay == old(self).delay,
            final(self).time == if r {
                0
            } else {
                old(self).time
            },
    {
        if self.is_ready() {
            self.reset();
            true
        } else {
            false
        }
    }

    /// Whether more than the delay has elapsed.
    pub fn is_ready(&self) -> (r: bool)
        ensures
            r == self.ready(),
    {
        self.time > self.delay
    }
}

/// The states of a [`SingleFireTrigger`].
#[derive(Debug, Clone, Copy, PartialEq, Eq, Structural)]
pub enum TriggerState {
    Off,
    Armed,
    Fired,
}

/// A one-shot timer: armed once, it fires a single event after its delay and
/// then stays fired until it is reset.
#[derive(Debug, Clone, Copy, PartialEq, Eq, Structural)]
pub struct SingleFireTrigger {
    pub state: TriggerState,
    pub timer: DelayTrigger,
}

impl SingleFireTrigger {
    pub open spec fn armed(&self) -> bool {
        self.state == TriggerState::Armed
    }

    pub open spec fn ready(&self) -> bool {
        self.armed() && self.timer.ready()
    }

    /// An unarmed trigger with the given delay and its timer at zero.
    pub open spec fn new_spec(delay: u64) -> SingleFireTrigger {
        SingleFireTrigger { state: TriggerState::Off, timer: DelayTrigger { time: 0, delay } }
    }

    /// An unarmed trigger with the given delay.
    pub fn new(delay: u64) -> (r: Self)
        ensures
            r == SingleFireTrigger::new_spec(delay),
    {
        SingleFireTrigger { state: TriggerState::Off, timer: DelayTrigger::new(delay) }
    }

    /// Arms an unarmed trigger and restarts its timer; an armed or fired
    /// trigger is left as it is.
    pub fn arm(&mut self)
        ensures
            *final(self) == old(self).armed_result(),
    {
        if self.state == TriggerState::Off {
            self.state = TriggerState::Armed;
            self.timer.reset();
        }
    }

    /// Disarms the trigger.
    pub fn reset(&mut self)
        ensures
            final(self).state == TriggerState::Off,
            final(self).timer == old(self).timer,
    {
        self.state = TriggerState::Off;
    }

    /// The trigger after `elapsed(dt)`: its timer runs whatever its state.
    pub open spec fn elapsed_result(&self, dt: u64) -> SingleFireTrigger {
        SingleFireTrigger {
            state: self.state,
            timer: DelayTrigger { time: sat_add(self.timer.time, dt), delay: self.timer.delay },
        }
    }

    /// The trigger after `arm`: an unarmed trigger becomes armed with its
    /// timer at zero; an armed or fired one is unchanged.
    pub open spec fn armed_result(&self) -> SingleFireTrigger {
        if self.state == TriggerState::Off {
            SingleFireTrigger {
                state: TriggerState::Armed,
                timer: DelayTrigger { time: 0, delay: self.timer.delay },
            }
        } else {
            *self
        }
    }

    /// The trigger after a soft reset.
    pub open spec fn soft_reset_result(&self) -> SingleFireTrigger {
        if self.armed() && !self.ready() {
            SingleFireTrigger {
                state: self.state,
                timer: DelayTrigger { time: 0, delay: self.timer.delay },
            }
        } else {
            *self
        }
    }

    /// Restarts the timer of an armed trigger that is not yet ready; any other
    /// trigger is left as it is.
    pub fn soft_reset(&mut self)
        ensures
            *final(self) == old(self).soft_reset_result(),
    {
        if self.is_armed() && !self.is_ready() {
            self.timer.reset();
        }
    }

    /// Adds `dt` to the elapsed time.
    pub fn elapsed(&mut self, dt: u64)
        ensures
            *final(self) == old(self).elapsed_result(dt),
    {
        self.timer.elapsed(dt)
    }

    /// Whether the trigger is armed and has not fired yet.
    pub fn is_armed(&self) -> (r: bool)
        ensures
            r == self.armed(),
    {
        self.state == TriggerState::Armed
    }

    /// Whether the trigger is armed and its delay has elapsed.
    pub fn is_ready(&self) -> (r: bool)
        ensures
            r == self.ready(),
    {
        if self.is_armed() {
            self.timer.is_ready()
        } else {
            false
        }
    }

    /// Fires the trigger if it is ready, and reports whether it did.
    pub fn get_event(&mut self) -> (r: bool)
        ensures
            r == old(self).ready(),
            final(self).timer == old(self).timer,
            final(self).state == if r {
                TriggerState::Fired
            } else {
                old(self).state
            },
    {
        if self.is_ready() {
            self.state = TriggerState::Fired;
            true
        } else {
            false
        }
    }
}

/// The states of a [`RateLimiter`].
#[derive(Debug, Clone, Copy, PartialEq, Eq, Structural)]
pub enum LimiterState {
    Off,
    First,
    Repeat,
}

/// A press-and-hold limiter: the first event comes at once, the second after
/// `repeat_delay` (or `repeat_rate` when there is none), each later one after
/// `repeat_rate`.
#[derive(Debug, Clone, Copy, PartialEq, Eq, Structural)]
pub struct RateLimiter {
    pub time: u64,
    pub state: LimiterState,
    pub repeat_delay: Option<u64>,
    pub repeat_rate: u64,
}

/// The state a limiter moves to when it hands out an event.
pub open spec fn next_limiter_state(s: LimiterState) -> LimiterState {
    match s {
        LimiterState::Off => LimiterState::First,
        LimiterState::First => LimiterState::Repeat,
        LimiterState::Repeat => LimiterState::Repeat,
    }
}

impl RateLimiter {
    pub open spec fn ready(&self) -> bool {
        match self.state {
            LimiterState::Off => true,
            LimiterState::First => match self.repeat_delay {
                Some(delay) => self.time > delay,
                None => self.time > self.repeat_rate,
            },
            LimiterState::Repeat => self.time > self.repeat_rate,
        }
    }

    /// The limiter after `get_event`: when ready, its clock restarts and its
    /// state advances; otherwise it is unchanged.
    pub open spec fn event_result(&self) -> RateLimiter {
        if self.ready() {
            RateLimiter { time: 0, state: next_limiter_state(self.state), ..*self }
        } else {
            *self
        }
    }

    /// The limiter after `elapsed(dt)`.
    pub open spec fn elapsed_result(&self, dt: u64) -> RateLimiter {
        if self.state == LimiterState::Off {
            *self
        } else {
            RateLimiter { time: sat_add(self.time, dt), ..*self }
        }
    }

    /// A limiter in its initial state with the given rate and delay.
    pub open spec fn new_spec(rate: u64, delay: Option<u64>) -> RateLimiter {
        RateLimiter { time: 0, state: LimiterState::Off, repeat_delay: delay, repeat_rate: rate }
    }

    /// A limiter in its initial state, ready at once.
    pub fn new(rate: u64, delay: Option<u64>) -> (r: Self)
        ensures
            r == RateLimiter::new_spec(rate, delay),
    {
        RateLimiter { time: 0, repeat_delay: delay, repeat_rate: rate, state: LimiterState::Off }
    }

    /// Adds `dt` to the elapsed time; a limiter in its initial state ignores it.
    pub fn elapsed(&mut self, dt: u64)
        ensures
            *final(self) == old(self).elapsed_result(dt),
    {
        if self.state == LimiterState::Off {
            return;
        }
        self.time = self.time.saturating_add(dt);
    }

    /// Returns the limiter to its initial state: the next event comes at once.
    pub fn reset(&mut self)
        ensures
            *final(self) == (RateLimiter { state: LimiterState::Off, ..*old(self) }),
    {
        self.state = LimiterState::Off;
    }

    /// Hands out an event if the limiter is ready, advancing its state and
    /// restarting its clock.
    pub fn get_event(&mut self) -> (r: Option<()>)
        ensures
            r.is_some() == old(self).ready(),
            *final(self) == old(self).event_result(),
    {
        if self.is_ready() {
            self.do_event();
            Some(())
        } else {
            None
        }
    }

    fn do_event(&mut self)
        ensures
            *final(self) == (RateLimiter {
                time: 0,
                state: next_limiter_state(old(self).state),
                ..*old(self)
            }),
    {
        self.state =
        match self.state {
            LimiterState::Off => LimiterState::First,
            LimiterState::First => LimiterState::Repeat,
            LimiterState::Repeat => LimiterState::Repeat,
        };
        self.time = 0;
    }

    /// Whether an event is due.
    pub fn is_ready(&self) -> (r: bool)
        ensures
            r == self.ready(),
    {
        match self.state {
            LimiterState::Off => true,
            LimiterState::First => match self.repeat_delay {
                Some(delay) => self.time > delay,
                None => self.time > self.repeat_rate,
            },
            LimiterState::Repeat => self.time > self.repeat_rate,
        }
    }
}

} // verus!
