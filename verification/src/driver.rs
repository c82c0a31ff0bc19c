//! The loop that draws, waits for input and ticks, as a state machine.
//!
//! The program that owns the terminal runs the loop. While the driver is
//! running it draws the application, waits for input for at most
//! `poll_timeout`, and hands what came to `step` together with a fresh
//! reading of the clock. When `step` answers `Action::Stop`, it leaves the
//! loop.

use vstd::prelude::*;
use crate::clock::TickClock;
use crate::input::Input;
use crate::state::App;

verus! {

/// Where the loop stands.
#[derive(Clone, Copy, Debug, PartialEq, Eq)]
pub enum Phase {
    Running,
    /// The end: nothing leads out of it.
    Terminating,
}

/// What the caller does after a step.
#[derive(Clone, Copy, Debug, PartialEq, Eq)]
pub enum Action {
    /// Draw and wait for input again.
    Continue,
    /// Leave the loop.
    Stop,
}

/// The application with its clock and the phase of its loop.
#[derive(Clone, Debug, PartialEq, Eq)]
pub struct Driver {
    pub app: App,
    pub clock: TickClock,
    pub phase: Phase,
}

impl Driver {
    /// Whether the application is well formed.
    pub open spec fn wf(&self) -> bool {
        self.app.wf()
    }

    /// The application after the input of one step has been looked at.
    pub open spec fn app_after_input(self, input: Input) -> App {
        match input {
            Input::Key(key) => self.app.after_key(key),
            _ => self.app,
        }
    }

    /// The driver after one step.
    ///
    /// A driver that is terminating stays as it is. A quit key makes a
    /// running driver terminate and changes nothing else. Any other input is
    /// applied to the application; then, if a whole tick interval has passed
    /// at `now`, the application advances by one tick and the clock starts
    /// again from `now`.
    pub open spec fn after_step(self, input: Input, now: u128) -> Driver {
        if self.phase is Terminating {
            self
        } else if input.is_quit() {
            Driver { phase: Phase::Terminating, ..self }
        } else if self.clock.due_at(now) {
            Driver {
                app: self.app_after_input(input).after_tick(),
                clock: TickClock { interval: self.clock.interval, last_tick: now },
                phase: Phase::Running,
            }
        } else {
            Driver { app: self.app_after_input(input), ..self }
        }
    }

    /// A running driver whose tick clock starts at `now`.
    pub fn new(app: App, tick_interval: u128, now: u128) -> (driver: Driver)
        ensures
            driver == (Driver {
                app,
                clock: TickClock { interval: tick_interval, last_tick: now },
                phase: Phase::Running,
            }),
    {
        Driver { app, clock: TickClock::started(tick_interval, now), phase: Phase::Running }
    }

    pub fn is_running(&self) -> (running: bool)
        ensures
            running == (self.phase is Running),
    {
        match self.phase {
            Phase::Running => true,
            Phase::Terminating => false,
        }
    }

    /// How long the wait for input that starts at `now` may last: what is
    /// left of the tick interval, and nothing once it is over.
    pub fn poll_timeout(&self, now: u128) -> (wait: u128)
        ensures
            wait == self.clock.timeout_at(now),
            wait <= self.clock.interval,
    {
        self.clock.poll_timeout(now)
    }

    /// Takes what the wait for input brought, and the time after the wait.
    pub fn step(&mut self, input: Input, now: u128) -> (action: Action)
        ensures
            *final(self) == old(self).after_step(input, now),
            old(self).wf() ==> final(self).wf(),
            action is Stop <==> final(self).phase is Terminating,
            input.is_quit() ==> {
                &&& action is Stop
                &&& final(self).app == old(self).app
                &&& final(self).clock == old(self).clock
            },
            old(self).phase is Terminating ==> *final(self) == *old(self),
    {
        if !self.is_running() {
            return Action::Stop;
        }
        if input.is_quit() {
            self.phase = Phase::Terminating;
            return Action::Stop;
        }
        match input {
            Input::Key(key) => {
                self.app.on_key(key);
            },
            _ => {},
        }
        if self.clock.is_due(now) {
            self.app.advance();
            self.clock.restart(now);
        }
        Action::Continue
    }
}

} // verus!
