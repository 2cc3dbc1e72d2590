use vstd::prelude::*;

verus! {

/// Operating state of the interlock.
#[derive(Clone, Copy, Debug, PartialEq, Eq, Structural)]
pub enum State {
    Idle,
    Lasing,
    Cooldown,
}

/// What one polling step decides: one entry of the transition table.
#[derive(Clone, Copy, Debug, PartialEq, Eq, Structural)]
pub enum Action {
    /// A pending edge with the trigger asserted while idle or cooling down:
    /// switch the laser path on and stop the ticker.
    LaserOn,
    /// A pending edge with the trigger released while lasing: load the
    /// exhaust runtime into the countdown and start the ticker.
    CooldownStart,
    /// A pending edge that matches no transition: consume it and do nothing else.
    DiscardEdge,
    /// No edge, cooling down and the countdown has run out: switch everything
    /// off, stop the ticker and return to idle.
    CooldownDone,
    /// No edge, cooling down with time left: toggle the indicator.
    Blink,
    /// No edge while idle or lasing: nothing to do.
    Hold,
}

/// The transition table read top to bottom, first match wins.
pub open spec fn decision(flag: bool, level: bool, state: State, remaining_ms: u32) -> Action {
    if flag && level && (state is Idle || state is Cooldown) {
        Action::LaserOn
    } else if flag && !level && state is Lasing {
        Action::CooldownStart
    } else if flag {
        Action::DiscardEdge
    } else if state is Cooldown && remaining_ms == 0 {
        Action::CooldownDone
    } else if state is Cooldown {
        Action::Blink
    } else {
        Action::Hold
    }
}

/// The inputs on which each entry of the table applies, stated for each entry
/// on its own, without reference to the order of the entries.
pub open spec fn applies(action: Action, flag: bool, level: bool, state: State, remaining_ms: u32) -> bool {
    match action {
        Action::LaserOn => flag && level && (state is Idle || state is Cooldown),
        Action::CooldownStart => flag && !level && state is Lasing,
        Action::DiscardEdge => flag && ((level && state is Lasing) || (!level && !(state is Lasing))),
        Action::CooldownDone => !flag && state is Cooldown && remaining_ms == 0,
        Action::Blink => !flag && state is Cooldown && remaining_ms > 0,
        Action::Hold => !flag && !(state is Cooldown),
    }
}

/// Whether an action consumes the pending edge.
pub open spec fn consumes_edge(action: Action) -> bool {
    action is LaserOn || action is CooldownStart || action is DiscardEdge
}

/// The state that an action leads to.
pub open spec fn next_state(action: Action, state: State) -> State {
    match action {
        Action::LaserOn => State::Lasing,
        Action::CooldownStart => State::Cooldown,
        Action::CooldownDone => State::Idle,
        _ => state,
    }
}

/// Looks up the transition table for one snapshot of the shared values.
pub fn decide(flag: bool, level: bool, state: State, remaining_ms: u32) -> (a: Action)
    ensures
        a == decision(flag, level, state, remaining_ms),
        applies(a, flag, level, state, remaining_ms),
{
    match (flag, level, state) {
        (true, true, State::Idle) | (true, true, State::Cooldown) => Action::LaserOn,
        (true, false, State::Lasing) => Action::CooldownStart,
        (true, _, _) => Action::DiscardEdge,
        (false, _, State::Cooldown) => {
            if remaining_ms == 0 {
                Action::CooldownDone
            } else {
                Action::Blink
            }
        },
        (false, _, _) => Action::Hold,
    }
}

/// The table is total and its entries do not overlap: for every snapshot of
/// flag, level, state and countdown exactly one entry applies, and it is the
/// one that the ordered lookup picks.
pub proof fn lemma_table_total(flag: bool, level: bool, state: State, remaining_ms: u32)
    ensures
        forall|a: Action| #[trigger]
            applies(a, flag, level, state, remaining_ms) <==> a == decision(
                flag,
                level,
                state,
                remaining_ms,
            ),
{
}

} // verus!
