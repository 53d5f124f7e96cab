use agent_core::breaker::{BreakerState, CircuitBreaker};
use agent_core::coalesce::CoalesceBuffer;
use agent_core::config::{
    AgentConfig, AgentConfigUpdate, CoalesceSection, CompactionSection, CompactionTier,
    CompactionUpdate, ConfigError, TuningUpdate,
};
use agent_core::cortex::{cortex_tick, ChannelLoad, RateLimits, Role};
use agent_core::supervisor::Supervisor;

fn coalesce_cfg(enabled: bool, multi_user_only: bool) -> CoalesceSection {
    CoalesceSection { enabled, debounce_ms: 1500, max_wait_ms: 5000, min_messages: 2, multi_user_only }
}

fn thresholds(b: u32, a: u32, e: u32) -> CompactionSection {
    CompactionSection { background_threshold: b, aggressive_threshold: a, emergency_threshold: e }
}

fn empty_update() -> AgentConfigUpdate {
    AgentConfigUpdate {
        agent_id: "main".to_string(),
        routing: None,
        tuning: None,
        compaction: None,
        cortex: None,
        coalesce: None,
        memory_persistence: None,
        browser: None,
    }
}

#[test]
fn breaker_opens_after_threshold_failures() {
    let mut b = CircuitBreaker::new(3, 60);
    assert!(b.would_admit());
    b.record_failure(10);
    b.record_failure(11);
    assert_eq!(b.state, BreakerState::Closed);
    assert!(b.would_admit());
    b.record_failure(12);
    assert_eq!(b.state, BreakerState::Open { opened_at: 12 });
    assert!(!b.would_admit());
    assert!(!b.try_admit());
}

#[test]
fn breaker_success_resets_failures() {
    let mut b = CircuitBreaker::new(3, 60);
    b.record_failure(1);
    b.record_failure(2);
    b.record_success();
    assert_eq!(b.consecutive_failures, 0);
    b.record_failure(3);
    b.record_failure(4);
    assert_eq!(b.state, BreakerState::Closed);
}

#[test]
fn breaker_half_open_allows_one_trial() {
    let mut b = CircuitBreaker::new(1, 30);
    b.record_failure(100);
    assert!(!b.would_admit());
    b.tick(129);
    assert_eq!(b.state, BreakerState::Open { opened_at: 100 });
    b.tick(130);
    assert_eq!(b.state, BreakerState::HalfOpen { trial_taken: false });
    assert!(b.try_admit());
    assert!(!b.try_admit());
    b.record_success();
    assert_eq!(b.state, BreakerState::Closed);
    assert!(b.try_admit());
}

#[test]
fn breaker_failed_trial_reopens() {
    let mut b = CircuitBreaker::new(1, 30);
    b.record_failure(0);
    b.tick(40);
    assert!(b.try_admit());
    b.record_failure(41);
    assert_eq!(b.state, BreakerState::Open { opened_at: 41 });
}

#[test]
fn coalesce_two_quick_messages_flush_together() {
    let cfg = coalesce_cfg(true, false);
    let mut buf: CoalesceBuffer<&str> = CoalesceBuffer::new();
    assert_eq!(buf.accept(&cfg, true, "one", 0), None);
    assert_eq!(buf.accept(&cfg, true, "two", 100), Some(vec!["one", "two"]));
    assert_eq!(buf.len(), 0);
}

#[test]
fn coalesce_single_message_flushes_after_debounce() {
    let cfg = coalesce_cfg(true, false);
    let mut buf: CoalesceBuffer<&str> = CoalesceBuffer::new();
    assert_eq!(buf.accept(&cfg, true, "only", 1000), None);
    assert_eq!(buf.deadline(&cfg), Some(2500));
    assert_eq!(buf.poll(&cfg, 2499), None);
    assert_eq!(buf.poll(&cfg, 2500), Some(vec!["only"]));
    assert_eq!(buf.deadline(&cfg), None);
}

#[test]
fn coalesce_single_user_bypass_dispatches_immediately() {
    let cfg = coalesce_cfg(true, true);
    let mut buf: CoalesceBuffer<u32> = CoalesceBuffer::new();
    assert_eq!(buf.accept(&cfg, false, 1, 0), Some(vec![1]));
    assert_eq!(buf.accept(&cfg, false, 2, 10), Some(vec![2]));
    assert_eq!(buf.len(), 0);
}

#[test]
fn coalesce_disabled_passes_through() {
    let cfg = coalesce_cfg(false, false);
    let mut buf: CoalesceBuffer<u32> = CoalesceBuffer::new();
    assert_eq!(buf.accept(&cfg, true, 7, 0), Some(vec![7]));
}

#[test]
fn coalesce_max_wait_bounds_the_delay() {
    let cfg = CoalesceSection { enabled: true, debounce_ms: 1500, max_wait_ms: 5000, min_messages: 10, multi_user_only: false };
    let mut buf: CoalesceBuffer<u32> = CoalesceBuffer::new();
    assert_eq!(buf.accept(&cfg, true, 1, 0), None);
    assert_eq!(buf.accept(&cfg, true, 2, 1400), None);
    assert_eq!(buf.accept(&cfg, true, 3, 2800), None);
    assert_eq!(buf.accept(&cfg, true, 4, 4200), None);
    assert_eq!(buf.deadline(&cfg), Some(5000));
    assert_eq!(buf.accept(&cfg, true, 5, 5000), Some(vec![1, 2, 3, 4, 5]));
}

#[test]
fn thresholds_must_be_strictly_increasing() {
    assert_eq!(thresholds(8500, 8500, 9500).validate(), Err(ConfigError::ThresholdsNotIncreasing));
    assert_eq!(thresholds(8000, 9600, 9500).validate(), Err(ConfigError::ThresholdsNotIncreasing));
    assert_eq!(thresholds(9000, 8500, 9500).validate(), Err(ConfigError::ThresholdsNotIncreasing));
    assert_eq!(thresholds(8000, 8500, 9500).validate(), Ok(()));
}

#[test]
fn compaction_tiers_at_usage_fractions() {
    let t = thresholds(8000, 8500, 9500);
    assert_eq!(t.tier(79, 100), CompactionTier::Unneeded);
    assert_eq!(t.tier(80, 100), CompactionTier::Background);
    assert_eq!(t.tier(84, 100), CompactionTier::Background);
    assert_eq!(t.tier(85, 100), CompactionTier::Aggressive);
    assert_eq!(t.tier(94, 100), CompactionTier::Aggressive);
    assert_eq!(t.tier(95, 100), CompactionTier::Emergency);
    assert_eq!(t.tier(128000, 128000), CompactionTier::Emergency);
    assert_eq!(t.tier(102399, 128000), CompactionTier::Unneeded);
    assert_eq!(t.tier(102400, 128000), CompactionTier::Background);
    assert_eq!(t.tier(50, 0), CompactionTier::Unneeded);
    assert_eq!(t.tier(u64::MAX, u64::MAX), CompactionTier::Emergency);
}

#[test]
fn resolved_defaults_are_valid() {
    let c = AgentConfig::resolved_defaults();
    assert_eq!(c.validate(), Ok(()));
    assert_eq!(c.tuning.max_concurrent_branches, 5);
    assert_eq!(c.cortex.circuit_breaker_threshold, 3);
    assert_eq!(c.coalesce.debounce_ms, 1500);
    assert_eq!(c.routing.worker, "provider/small-model");
}

#[test]
fn update_merges_present_fields_only() {
    let c = AgentConfig::resolved_defaults();
    let mut u = empty_update();
    u.tuning = Some(TuningUpdate {
        max_concurrent_branches: Some(8),
        max_turns: None,
        branch_max_turns: None,
        context_window: None,
        history_backfill_count: None,
    });
    let n = c.apply_update(&u).unwrap();
    assert_eq!(n.tuning.max_concurrent_branches, 8);
    assert_eq!(n.tuning.max_turns, 5);
    assert_eq!(n.compaction, c.compaction);
    assert_eq!(n.routing.channel, c.routing.channel);
}

#[test]
fn update_with_disordered_thresholds_is_rejected() {
    let c = AgentConfig::resolved_defaults();
    let mut u = empty_update();
    u.compaction = Some(CompactionUpdate {
        background_threshold: None,
        aggressive_threshold: Some(9700),
        emergency_threshold: None,
    });
    assert_eq!(c.apply_update(&u).err(), Some(ConfigError::ThresholdsNotIncreasing));
    assert_eq!(c.compaction.aggressive_threshold, 8500);
}

#[test]
fn rate_limit_cooldowns_expire() {
    let mut limits = RateLimits::new();
    limits.record(Role::Worker, 100, 60);
    assert!(limits.is_limited(Role::Worker, 159));
    assert!(!limits.is_limited(Role::Branch, 120));
    assert_eq!(limits.expire(159), 0);
    assert_eq!(limits.expire(160), 1);
    assert!(!limits.is_limited(Role::Worker, 161));
}

#[test]
fn cortex_tick_plans_compaction_and_bulletins() {
    let cfg = AgentConfig::resolved_defaults();
    let mut sup = Supervisor::from_config(&cfg, 30);
    let mut limits = RateLimits::new();
    let channels = vec![
        ChannelLoad { used_tokens: 10_000, last_bulletin_at: Some(5000) },
        ChannelLoad { used_tokens: 110_000, last_bulletin_at: Some(1000) },
        ChannelLoad { used_tokens: 125_000, last_bulletin_at: None },
    ];
    let plan = cortex_tick(&mut sup, &mut limits, &cfg, &channels, 5000);
    assert_eq!(
        plan.compaction,
        vec![CompactionTier::Unneeded, CompactionTier::Aggressive, CompactionTier::Emergency]
    );
    assert_eq!(plan.bulletin_due, vec![false, true, true]);
    assert_eq!(plan.cooldowns_ended, 0);
}
