use vstd::prelude::*;

use crate::countdown::{ticked, tick_down};
use crate::table::{consumes_edge, decide, decision, next_state, Action, State};

verus! {

/// The values shared between the polling loop and the two interrupt handlers.
///
/// `pending` is the edge latch, `remaining_ms` the cooldown countdown (stale
/// outside `Cooldown`), `exhaust_runtime_ms` the configured length of a
/// cooldown, and `ticker_enabled` whether the countdown ticker is armed.
#[derive(Clone, Copy, Debug, PartialEq, Eq, Structural)]
pub struct Interlock {
    pub state: State,
    pub pending: bool,
    pub remaining_ms: u32,
    pub exhaust_runtime_ms: u32,
    pub ticker_enabled: bool,
}

/// The two physical outputs, as last driven by the polling loop.
///
/// `relay_active` is the relay's working position (laser path open, exhaust
/// running); `false` is its safe resting position.
#[derive(Clone, Copy, Debug, PartialEq, Eq, Structural)]
pub struct Outputs {
    pub indicator_on: bool,
    pub relay_active: bool,
}

/// The context at start-up: idle, nothing pending, countdown zero, ticker off.
pub open spec fn initial(exhaust_runtime_ms: u32) -> Interlock {
    Interlock {
        state: State::Idle,
        pending: false,
        remaining_ms: 0,
        exhaust_runtime_ms,
        ticker_enabled: false,
    }
}

/// The context after an edge on the trigger line: the latch is set.
pub open spec fn edge_spec(s: Interlock) -> Interlock {
    Interlock { pending: true, ..s }
}

/// The context after `n` edges.
pub open spec fn edges(s: Interlock, n: nat) -> Interlock
    decreases n,
{
    if n == 0 {
        s
    } else {
        edge_spec(edges(s, (n - 1) as nat))
    }
}

/// The context after a firing of the ticker: one step off the countdown while
/// the ticker is armed, nothing otherwise.
pub open spec fn tick_spec(s: Interlock) -> Interlock {
    if s.ticker_enabled {
        Interlock { remaining_ms: ticked(s.remaining_ms as nat) as u32, ..s }
    } else {
        s
    }
}

/// The context after `n` firings of the ticker.
pub open spec fn ticks(s: Interlock, n: nat) -> Interlock
    decreases n,
{
    if n == 0 {
        s
    } else {
        tick_spec(ticks(s, (n - 1) as nat))
    }
}

/// The action that a poll with trigger level `level` takes on context `s`.
pub open spec fn poll_action(s: Interlock, level: bool) -> Action {
    decision(s.pending, level, s.state, s.remaining_ms)
}

/// The context after a poll with trigger level `level`: the state follows the
/// table, a consumed edge is cleared, starting a cooldown loads the exhaust
/// runtime, and the ticker is armed exactly while cooling down.
pub open spec fn poll_spec(s: Interlock, level: bool) -> Interlock {
    let a = poll_action(s, level);
    Interlock {
        state: next_state(a, s.state),
        pending: if consumes_edge(a) {
            false
        } else {
            s.pending
        },
        remaining_ms: if a is CooldownStart {
            s.exhaust_runtime_ms
        } else {
            s.remaining_ms
        },
        exhaust_runtime_ms: s.exhaust_runtime_ms,
        ticker_enabled: if a is LaserOn || a is CooldownDone {
            false
        } else if a is CooldownStart {
            true
        } else {
            s.ticker_enabled
        },
    }
}

/// The outputs driven at power-up: indicator off, relay at rest.
pub open spec fn safe_outputs() -> Outputs {
    Outputs { indicator_on: false, relay_active: false }
}

/// The outputs after carrying out an action.
pub open spec fn actuate_spec(o: Outputs, a: Action) -> Outputs {
    match a {
        Action::LaserOn => Outputs { indicator_on: true, relay_active: true },
        Action::CooldownDone => safe_outputs(),
        Action::Blink => Outputs { indicator_on: !o.indicator_on, ..o },
        _ => o,
    }
}

/// What holds of the context and the outputs in every reachable configuration:
/// lasing drives the indicator and the relay, idle drives neither, the relay
/// stays in its working position through a cooldown, the ticker is armed
/// exactly while cooling down, and the countdown never exceeds the runtime.
pub open spec fn consistent(s: Interlock, o: Outputs) -> bool {
    &&& (s.state is Lasing ==> o.indicator_on && o.relay_active)
    &&& (s.state is Idle ==> !o.indicator_on && !o.relay_active)
    &&& (s.state is Cooldown ==> o.relay_active)
    &&& s.ticker_enabled == (s.state is Cooldown)
    &&& s.remaining_ms <= s.exhaust_runtime_ms
}

impl Interlock {
    /// The context at start-up for a cooldown of `exhaust_runtime_ms`.
    pub fn new(exhaust_runtime_ms: u32) -> (r: Interlock)
        ensures
            r == initial(exhaust_runtime_ms),
    {
        Interlock {
            state: State::Idle,
            pending: false,
            remaining_ms: 0,
            exhaust_runtime_ms,
            ticker_enabled: false,
        }
    }

    /// Edge notification: latches that the trigger line changed. Further edges
    /// before the next poll change nothing.
    pub fn edge(&mut self)
        ensures
            *final(self) == edge_spec(*old(self)),
    {
        self.pending = true;
    }

    /// Ticker firing: takes one step off the countdown, saturating at zero,
    /// while the ticker is armed; does nothing while it is not.
    pub fn tick(&mut self)
        ensures
            *final(self) == tick_spec(*old(self)),
    {
        if self.ticker_enabled {
            self.remaining_ms = tick_down(self.remaining_ms);
        }
    }

    /// One polling step on a snapshot of the trigger level: decides by the
    /// transition table, commits the new state, clears a consumed edge, loads
    /// the countdown when a cooldown starts and arms or disarms the ticker.
    /// Returns the action, for the caller to carry out on the outputs.
    pub fn poll(&mut self, level: bool) -> (a: Action)
        ensures
            a == poll_action(*old(self), level),
            *final(self) == poll_spec(*old(self), level),
    {
        let a = decide(self.pending, level, self.state, self.remaining_ms);
        match a {
            Action::LaserOn => {
                self.ticker_enabled = false;
                self.state = State::Lasing;
                self.pending = false;
            },
            Action::CooldownStart => {
                self.remaining_ms = self.exhaust_runtime_ms;
                self.ticker_enabled = true;
                self.state = State::Cooldown;
                self.pending = false;
            },
            Action::DiscardEdge => {
                self.pending = false;
            },
            Action::CooldownDone => {
                self.ticker_enabled = false;
                self.state = State::Idle;
            },
            Action::Blink => {},
            Action::Hold => {},
        }
        a
    }
}

impl Outputs {
    /// The outputs driven at power-up.
    pub fn safe() -> (r: Outputs)
        ensures
            r == safe_outputs(),
    {
        Outputs { indicator_on: false, relay_active: false }
    }

    /// Carries out an action on the outputs: switching on drives both,
    /// finishing a cooldown releases both, a blink toggles the indicator only.
    pub fn actuate(&mut self, a: Action)
        ensures
            *final(self) == actuate_spec(*old(self), a),
    {
        match a {
            Action::LaserOn => {
                self.indicator_on = true;
                self.relay_active = true;
            },
            Action::CooldownDone => {
                self.indicator_on = false;
                self.relay_active = false;
            },
            Action::Blink => {
                self.indicator_on = !self.indicator_on;
            },
            _ => {},
        }
    }
}

} // verus!
