use vstd::prelude::*;

use crate::countdown::{after_ticks, lemma_after_ticks, lemma_countdown_drains, ticks_to_drain, ticked};
use crate::interlock::{
    actuate_spec, consistent, edge_spec, edges, initial, poll_action, poll_spec, safe_outputs,
    tick_spec, ticks, Interlock, Outputs,
};
use crate::table::{Action, State};

verus! {

/// Something that happens to the interlock: an edge on the trigger line, a
/// firing of the ticker, or a poll that samples the trigger at `level` and
/// carries out the resulting action on the outputs.
#[derive(Clone, Copy, Debug, PartialEq, Eq, Structural)]
pub enum Event {
    Edge,
    Tick,
    Poll { level: bool },
}

/// Context and outputs after one event.
pub open spec fn step(s: Interlock, o: Outputs, e: Event) -> (Interlock, Outputs) {
    match e {
        Event::Edge => (edge_spec(s), o),
        Event::Tick => (tick_spec(s), o),
        Event::Poll { level } => (poll_spec(s, level), actuate_spec(o, poll_action(s, level))),
    }
}

/// Context and outputs after start-up followed by the events of `trace`, in order.
pub open spec fn run(exhaust_runtime_ms: u32, trace: Seq<Event>) -> (Interlock, Outputs)
    decreases trace.len(),
{
    if trace.len() == 0 {
        (initial(exhaust_runtime_ms), safe_outputs())
    } else {
        let prev = run(exhaust_runtime_ms, trace.drop_last());
        step(prev.0, prev.1, trace.last())
    }
}

/// Every event keeps the context and the outputs consistent.
pub proof fn lemma_step_consistent(s: Interlock, o: Outputs, e: Event)
    requires
        consistent(s, o),
    ensures
        consistent(step(s, o, e).0, step(s, o, e).1),
{
}

/// Safety: in every configuration reachable from start-up the context and the
/// outputs are consistent. In particular the indicator and the relay are both
/// driven while lasing and neither is while idle; during a cooldown the relay
/// stays in its working position and only the indicator blinks.
pub proof fn lemma_reachable_consistent(exhaust_runtime_ms: u32, trace: Seq<Event>)
    ensures
        consistent(run(exhaust_runtime_ms, trace).0, run(exhaust_runtime_ms, trace).1),
    decreases trace.len(),
{
    if trace.len() > 0 {
        lemma_reachable_consistent(exhaust_runtime_ms, trace.drop_last());
        let prev = run(exhaust_runtime_ms, trace.drop_last());
        lemma_step_consistent(prev.0, prev.1, trace.last());
    }
}

/// Outside a cooldown, in a consistent configuration, the indicator is on and
/// the relay is in its working position exactly when lasing, and both are at
/// rest otherwise. A blink never moves the relay.
pub proof fn lemma_outputs_follow_state(s: Interlock, o: Outputs)
    requires
        consistent(s, o),
        !(s.state is Cooldown),
    ensures
        o.indicator_on <==> s.state is Lasing,
        o.relay_active <==> s.state is Lasing,
        actuate_spec(o, Action::Blink).relay_active == o.relay_active,
{
}

/// Any number of edges between two polls leave the context as one edge does.
pub proof fn lemma_edges_coalesce(s: Interlock, n: nat)
    requires
        n >= 1,
    ensures
        edges(s, n) == edge_spec(s),
    decreases n,
{
    assert(edges(s, n) == edge_spec(edges(s, (n - 1) as nat)));
    if n > 1 {
        lemma_edges_coalesce(s, (n - 1) as nat);
        assert(edge_spec(edge_spec(s)) == edge_spec(s));
    } else {
        assert(edges(s, 0) == s);
    }
}

/// A spurious edge, one whose live level and state match neither switching on
/// nor starting a cooldown, is consumed and changes nothing else, however
/// many edges were coalesced into it.
pub proof fn lemma_spurious_edge_discarded(s: Interlock, level: bool, n: nat)
    requires
        n >= 1,
        !(level && (s.state is Idle || s.state is Cooldown)),
        !(!level && s.state is Lasing),
    ensures
        poll_action(edges(s, n), level) == Action::DiscardEdge,
        poll_spec(edges(s, n), level) == (Interlock { pending: false, ..s }),
{
    lemma_edges_coalesce(s, n);
}

/// While the ticker is armed, `n` firings take the countdown where `n`
/// saturating steps take it, and change nothing else.
pub proof fn lemma_ticks_armed(s: Interlock, n: nat)
    requires
        s.ticker_enabled,
    ensures
        ticks(s, n) == (Interlock { remaining_ms: after_ticks(s.remaining_ms as nat, n) as u32, ..s }),
    decreases n,
{
    lemma_after_ticks(s.remaining_ms as nat, n);
    if n > 0 {
        lemma_ticks_armed(s, (n - 1) as nat);
        lemma_after_ticks(s.remaining_ms as nat, (n - 1) as nat);
        assert(n * 16 == (n - 1) * 16 + 16) by (nonlinear_arith);
        let r = s.remaining_ms as nat;
        assert(after_ticks(r, n) == ticked(after_ticks(r, (n - 1) as nat)));
    }
}

/// While the ticker is disarmed, firings change nothing.
pub proof fn lemma_ticks_disarmed(s: Interlock, n: nat)
    requires
        !s.ticker_enabled,
    ensures
        ticks(s, n) == s,
    decreases n,
{
    if n > 0 {
        lemma_ticks_disarmed(s, (n - 1) as nat);
    }
}

/// Cooldown completion: a cooldown that starts with the full exhaust runtime
/// on the countdown is still running after fewer than `ticks_to_drain`
/// firings, stands at exactly zero after that many, and the next poll without
/// a pending edge returns the interlock to idle with the outputs at rest.
pub proof fn lemma_cooldown_completes(s: Interlock, o: Outputs, n: nat, level: bool)
    requires
        s.state is Cooldown,
        s.ticker_enabled,
        !s.pending,
        s.remaining_ms == s.exhaust_runtime_ms,
    ensures
        n < ticks_to_drain(s.exhaust_runtime_ms as nat) ==> ticks(s, n).remaining_ms > 0,
        n >= ticks_to_drain(s.exhaust_runtime_ms as nat) ==> ticks(s, n).remaining_ms == 0,
        poll_action(ticks(s, ticks_to_drain(s.exhaust_runtime_ms as nat)), level)
            == Action::CooldownDone,
        poll_spec(ticks(s, ticks_to_drain(s.exhaust_runtime_ms as nat)), level).state == State::Idle,
        actuate_spec(o, Action::CooldownDone) == safe_outputs(),
{
    let k = ticks_to_drain(s.exhaust_runtime_ms as nat);
    lemma_ticks_armed(s, n);
    lemma_ticks_armed(s, k);
    lemma_countdown_drains(s.remaining_ms as nat, n);
    lemma_countdown_drains(s.remaining_ms as nat, k);
    lemma_after_ticks(s.remaining_ms as nat, n);
}

/// Re-trigger during a cooldown: with time left on the countdown, an edge
/// with the trigger asserted switches straight back to lasing, whatever the
/// time left, and disarms the ticker. The countdown left over plays no part
/// afterwards: however many firings come while lasing, releasing the trigger
/// starts a fresh cooldown with the full exhaust runtime.
pub proof fn lemma_retrigger_during_cooldown(s: Interlock, n: nat)
    requires
        s.state is Cooldown,
        s.remaining_ms > 0,
    ensures
        poll_action(edge_spec(s), true) == Action::LaserOn,
        poll_spec(edge_spec(s), true).state == State::Lasing,
        !poll_spec(edge_spec(s), true).ticker_enabled,
        poll_spec(edge_spec(ticks(poll_spec(edge_spec(s), true), n)), false).state
            == State::Cooldown,
        poll_spec(edge_spec(ticks(poll_spec(edge_spec(s), true), n)), false).remaining_ms
            == s.exhaust_runtime_ms,
{
    lemma_ticks_disarmed(poll_spec(edge_spec(s), true), n);
}

} // verus!
