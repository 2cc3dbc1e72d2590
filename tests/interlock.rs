use laser_exhaust::config::{Config, DEFAULT_EXHAUST_RUNTIME_SECS, DEFAULT_INITIAL_IGNORE_SECS};
use laser_exhaust::countdown::{tick_down, TICK_STEP_MS};
use laser_exhaust::interlock::{Interlock, Outputs};
use laser_exhaust::table::{decide, Action, State};

fn cooldown_with(remaining_ms: u32) -> Interlock {
    Interlock {
        state: State::Cooldown,
        pending: false,
        remaining_ms,
        exhaust_runtime_ms: 20000,
        ticker_enabled: true,
    }
}

#[test]
fn boot_trigger_assert_then_release() {
    let config = Config::from_secs(0, 20).unwrap();
    assert_eq!(config.exhaust_runtime_ms, 20000);
    assert_eq!(config.initial_ignore_period_ms, 0);
    let mut ctx = Interlock::new(config.exhaust_runtime_ms);
    let mut out = Outputs::safe();
    assert!(!out.relay_active && !out.indicator_on);

    ctx.edge();
    let a = ctx.poll(true);
    out.actuate(a);
    assert_eq!(a, Action::LaserOn);
    assert_eq!(ctx.state, State::Lasing);
    assert!(out.relay_active && out.indicator_on);
    assert!(!ctx.pending);

    ctx.edge();
    let b = ctx.poll(false);
    out.actuate(b);
    assert_eq!(b, Action::CooldownStart);
    assert_eq!(ctx.state, State::Cooldown);
    assert_eq!(ctx.remaining_ms, 20000);
    assert!(ctx.ticker_enabled);
    assert!(out.relay_active);
}

#[test]
fn cooldown_elapsed_returns_to_idle() {
    let mut ctx = cooldown_with(0);
    let mut out = Outputs { indicator_on: true, relay_active: true };
    let a = ctx.poll(false);
    out.actuate(a);
    assert_eq!(a, Action::CooldownDone);
    assert_eq!(ctx.state, State::Idle);
    assert!(!ctx.ticker_enabled);
    assert!(!out.relay_active && !out.indicator_on);
}

#[test]
fn cooldown_in_progress_blinks() {
    let mut ctx = cooldown_with(5000);
    let mut out = Outputs { indicator_on: true, relay_active: true };
    let a = ctx.poll(false);
    out.actuate(a);
    assert_eq!(a, Action::Blink);
    assert_eq!(ctx.state, State::Cooldown);
    assert_eq!(ctx.remaining_ms, 5000);
    assert!(!out.indicator_on);
    assert!(out.relay_active);
    out.actuate(ctx.poll(false));
    assert!(out.indicator_on);
    assert_eq!(ctx.remaining_ms, 5000);
}

#[test]
fn spurious_edge_while_idle_is_discarded() {
    let mut ctx = Interlock::new(20000);
    ctx.edge();
    let a = ctx.poll(false);
    assert_eq!(a, Action::DiscardEdge);
    assert!(!ctx.pending);
    assert_eq!(ctx.state, State::Idle);
    assert_eq!(ctx, Interlock::new(20000));
}

#[test]
fn table_each_entry() {
    for state in [State::Idle, State::Lasing, State::Cooldown] {
        for level in [false, true] {
            for remaining in [0u32, 1, 5000] {
                let a = decide(true, level, state, remaining);
                let expected = match (level, state) {
                    (true, State::Idle) | (true, State::Cooldown) => Action::LaserOn,
                    (false, State::Lasing) => Action::CooldownStart,
                    _ => Action::DiscardEdge,
                };
                assert_eq!(a, expected);
                let b = decide(false, level, state, remaining);
                let expected = match (state, remaining) {
                    (State::Cooldown, 0) => Action::CooldownDone,
                    (State::Cooldown, _) => Action::Blink,
                    _ => Action::Hold,
                };
                assert_eq!(b, expected);
            }
        }
    }
}

#[test]
fn many_edges_coalesce_into_one() {
    let mut once = Interlock::new(20000);
    once.state = State::Lasing;
    let mut many = once;
    once.edge();
    for _ in 0..7 {
        many.edge();
    }
    assert_eq!(once, many);
    let a = many.poll(true);
    assert_eq!(a, Action::DiscardEdge);
    assert_eq!(many.state, State::Lasing);
    assert!(!many.pending);
}

#[test]
fn no_pending_edge_while_idle_or_lasing_is_a_no_op() {
    let mut idle = Interlock::new(20000);
    let before = idle;
    assert_eq!(idle.poll(true), Action::Hold);
    assert_eq!(idle, before);
    let mut lasing = Interlock::new(20000);
    lasing.state = State::Lasing;
    let before = lasing;
    assert_eq!(lasing.poll(false), Action::Hold);
    assert_eq!(lasing, before);
}

#[test]
fn tick_saturates_at_zero() {
    assert_eq!(TICK_STEP_MS, 16);
    assert_eq!(tick_down(100), 84);
    assert_eq!(tick_down(16), 0);
    assert_eq!(tick_down(5), 0);
    assert_eq!(tick_down(0), 0);
    assert_eq!(tick_down(u32::MAX), u32::MAX - 16);
}

#[test]
fn tick_is_a_no_op_while_disarmed() {
    let mut ctx = cooldown_with(5000);
    ctx.ticker_enabled = false;
    ctx.tick();
    assert_eq!(ctx.remaining_ms, 5000);
    ctx.ticker_enabled = true;
    ctx.tick();
    assert_eq!(ctx.remaining_ms, 4984);
}

#[test]
fn cooldown_drains_in_ceiling_ticks() {
    // 20000 / 16 is exactly 1250; 20001 needs one more firing.
    for (runtime, ticks) in [(20000u32, 1250u32), (20001, 1251), (15, 1), (0, 0)] {
        let mut ctx = cooldown_with(runtime);
        ctx.exhaust_runtime_ms = runtime;
        for _ in 0..ticks.saturating_sub(1) {
            ctx.tick();
        }
        if ticks > 0 {
            assert!(ctx.remaining_ms > 0);
            ctx.tick();
        }
        assert_eq!(ctx.remaining_ms, 0);
        ctx.tick();
        assert_eq!(ctx.remaining_ms, 0);
        assert_eq!(ctx.poll(false), Action::CooldownDone);
        assert_eq!(ctx.state, State::Idle);
    }
}

#[test]
fn retrigger_during_cooldown_restarts_fresh() {
    let mut ctx = cooldown_with(1234);
    let mut out = Outputs { indicator_on: false, relay_active: true };
    ctx.edge();
    let a = ctx.poll(true);
    out.actuate(a);
    assert_eq!(a, Action::LaserOn);
    assert_eq!(ctx.state, State::Lasing);
    assert!(!ctx.ticker_enabled);
    assert!(out.indicator_on && out.relay_active);
    for _ in 0..10 {
        ctx.tick();
    }
    ctx.edge();
    assert_eq!(ctx.poll(false), Action::CooldownStart);
    assert_eq!(ctx.state, State::Cooldown);
    assert_eq!(ctx.remaining_ms, 20000);
}

#[test]
fn blink_never_moves_relay() {
    let mut out = Outputs { indicator_on: false, relay_active: true };
    for _ in 0..5 {
        out.actuate(Action::Blink);
        assert!(out.relay_active);
    }
    assert!(out.indicator_on);
}

#[test]
fn config_conversion() {
    let d = Config::default_settings();
    assert_eq!(d.initial_ignore_period_ms, 0);
    assert_eq!(d.exhaust_runtime_ms, 20000);
    assert_eq!(Config::from_secs(DEFAULT_INITIAL_IGNORE_SECS, DEFAULT_EXHAUST_RUNTIME_SECS), Some(d));
    assert_eq!(
        Config::from_secs(3, 45),
        Some(Config { initial_ignore_period_ms: 3000, exhaust_runtime_ms: 45000 })
    );
    assert_eq!(Config::from_secs(4294967, 0).unwrap().initial_ignore_period_ms, 4294967000);
    assert_eq!(Config::from_secs(4294968, 0), None);
    assert_eq!(Config::from_secs(0, 4294968), None);
    assert_eq!(Config::from_secs(u64::MAX, 20), None);
}
