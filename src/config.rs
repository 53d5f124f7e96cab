//! The resolved configuration of one agent, its validation, and partial
//! updates.
//!
//! Fractions of the context window are held in basis points: `8000` stands
//! for 80% of the window.

use vstd::prelude::*;

verus! {

/// Basis points in a whole context window.
pub const FULL_WINDOW_BP: u32 = 10000;

/// Model routing per process type, and the cooldown after a rate limit.
#[derive(Debug, Clone)]
pub struct RoutingSection {
    pub channel: String,
    pub branch: String,
    pub worker: String,
    pub compactor: String,
    pub cortex: String,
    pub rate_limit_cooldown_secs: u64,
}

/// Concurrency, turn and context tuning.
#[derive(Debug, Clone, Copy, PartialEq, Eq, Structural)]
pub struct TuningSection {
    pub max_concurrent_branches: usize,
    pub max_turns: usize,
    pub branch_max_turns: usize,
    pub context_window: usize,
    pub history_backfill_count: usize,
}

/// The three compaction thresholds, in basis points of the context window.
#[derive(Debug, Clone, Copy, PartialEq, Eq, Structural)]
pub struct CompactionSection {
    pub background_threshold: u32,
    pub aggressive_threshold: u32,
    pub emergency_threshold: u32,
}

/// Cortex tick, timeout, breaker and bulletin parameters.
#[derive(Debug, Clone, Copy, PartialEq, Eq, Structural)]
pub struct CortexSection {
    pub tick_interval_secs: u64,
    pub worker_timeout_secs: u64,
    pub branch_timeout_secs: u64,
    pub circuit_breaker_threshold: u8,
    pub bulletin_interval_secs: u64,
    pub bulletin_max_words: usize,
    pub bulletin_max_turns: usize,
}

/// Inbound message coalescing parameters.
#[derive(Debug, Clone, Copy, PartialEq, Eq, Structural)]
pub struct CoalesceSection {
    pub enabled: bool,
    pub debounce_ms: u64,
    pub max_wait_ms: u64,
    pub min_messages: usize,
    pub multi_user_only: bool,
}

/// How often conversation content is persisted to memory.
#[derive(Debug, Clone, Copy, PartialEq, Eq, Structural)]
pub struct MemoryPersistenceSection {
    pub enabled: bool,
    pub message_interval: usize,
}

/// Toggles of the optional browser-automation capability.
#[derive(Debug, Clone, Copy, PartialEq, Eq, Structural)]
pub struct BrowserSection {
    pub enabled: bool,
    pub headless: bool,
    pub evaluate_enabled: bool,
}

/// The resolved configuration of one agent.
#[derive(Debug, Clone)]
pub struct AgentConfig {
    pub routing: RoutingSection,
    pub tuning: TuningSection,
    pub compaction: CompactionSection,
    pub cortex: CortexSection,
    pub coalesce: CoalesceSection,
    pub memory_persistence: MemoryPersistenceSection,
    pub browser: BrowserSection,
}

/// Why a configuration was rejected.
#[derive(Debug, Clone, Copy, PartialEq, Eq, Structural)]
pub enum ConfigError {
    /// The compaction thresholds are not strictly increasing
    /// (background < aggressive < emergency).
    ThresholdsNotIncreasing,
}

/// How urgently a context needs compaction.
#[derive(Debug, Clone, Copy, PartialEq, Eq, Structural)]
pub enum CompactionTier {
    Unneeded,
    Background,
    Aggressive,
    Emergency,
}

impl CompactionSection {
    /// The thresholds are strictly ordered.
    pub open spec fn valid(self) -> bool {
        self.background_threshold < self.aggressive_threshold
            && self.aggressive_threshold < self.emergency_threshold
    }

    /// Checks that background < aggressive < emergency.
    pub fn validate(&self) -> (r: Result<(), ConfigError>)
        ensures
            r is Ok <==> self.valid(),
            r is Err ==> r == Err::<(), ConfigError>(ConfigError::ThresholdsNotIncreasing),
    {
        if self.background_threshold < self.aggressive_threshold
            && self.aggressive_threshold < self.emergency_threshold {
            Ok(())
        } else {
            Err(ConfigError::ThresholdsNotIncreasing)
        }
    }

    /// The tier for `used` tokens out of a window of `window` tokens.
    pub open spec fn tier_spec(self, used: u64, window: u64) -> CompactionTier {
        if reaches(used, window, self.emergency_threshold) {
            CompactionTier::Emergency
        } else if reaches(used, window, self.aggressive_threshold) {
            CompactionTier::Aggressive
        } else if reaches(used, window, self.background_threshold) {
            CompactionTier::Background
        } else {
            CompactionTier::Unneeded
        }
    }

    /// The compaction tier for `used` tokens out of a context window of
    /// `window` tokens: the highest threshold that the usage fraction reaches.
    pub fn tier(&self, used: u64, window: u64) -> (r: CompactionTier)
        ensures
            r == self.tier_spec(used, window),
    {
        if reaches_exec(used, window, self.emergency_threshold) {
            CompactionTier::Emergency
        } else if reaches_exec(used, window, self.aggressive_threshold) {
            CompactionTier::Aggressive
        } else if reaches_exec(used, window, self.background_threshold) {
            CompactionTier::Background
        } else {
            CompactionTier::Unneeded
        }
    }
}

/// The usage fraction `used / window` is at least `threshold_bp` basis points.
/// An empty window has no measurable usage.
pub open spec fn reaches(used: u64, window: u64, threshold_bp: u32) -> bool {
    window > 0 && used * FULL_WINDOW_BP >= threshold_bp * window
}

fn reaches_exec(used: u64, window: u64, threshold_bp: u32) -> (r: bool)
    ensures
        r == reaches(used, window, threshold_bp),
{
    if window == 0 {
        return false;
    }
    let u: u128 = used as u128;
    let w: u128 = window as u128;
    let t: u128 = threshold_bp as u128;
    assert(u * 10000 <= 0xffff_ffff_ffff_ffffu128 * 10000) by (nonlinear_arith)
        requires u <= 0xffff_ffff_ffff_ffffu128;
    assert(t * w <= 0xffff_ffffu128 * 0xffff_ffff_ffff_ffffu128) by (nonlinear_arith)
        requires t <= 0xffff_ffffu128, w <= 0xffff_ffff_ffff_ffffu128;
    let lhs: u128 = u * 10000;
    let rhs: u128 = t * w;
    lhs >= rhs
}

/// With strictly ordered thresholds each tier covers exactly its band of
/// usage fractions: below background nothing, from background up to
/// aggressive the background tier, from aggressive up to emergency the
/// aggressive tier, and from emergency on the emergency tier.
pub proof fn lemma_tiers_follow_usage_bands(t: CompactionSection, used: u64, window: u64)
    requires
        t.valid(),
        window > 0,
    ensures
        t.tier_spec(used, window) == CompactionTier::Unneeded <==> used * FULL_WINDOW_BP
            < t.background_threshold * window,
        t.tier_spec(used, window) == CompactionTier::Background <==> t.background_threshold * window
            <= used * FULL_WINDOW_BP < t.aggressive_threshold * window,
        t.tier_spec(used, window) == CompactionTier::Aggressive <==> t.aggressive_threshold * window
            <= used * FULL_WINDOW_BP < t.emergency_threshold * window,
        t.tier_spec(used, window) == CompactionTier::Emergency <==> t.emergency_threshold * window
            <= used * FULL_WINDOW_BP,
{
    assert(t.background_threshold * window <= t.aggressive_threshold * window) by (nonlinear_arith)
        requires t.background_threshold < t.aggressive_threshold, window > 0;
    assert(t.aggressive_threshold * window <= t.emergency_threshold * window) by (nonlinear_arith)
        requires t.aggressive_threshold < t.emergency_threshold, window > 0;
}

/// A partial update of the routing section; absent fields keep their value.
#[derive(Debug, Clone)]
pub struct RoutingUpdate {
    pub channel: Option<String>,
    pub branch: Option<String>,
    pub worker: Option<String>,
    pub compactor: Option<String>,
    pub cortex: Option<String>,
    pub rate_limit_cooldown_secs: Option<u64>,
}

/// A partial update of the tuning section.
#[derive(Debug, Clone, Copy)]
pub struct TuningUpdate {
    pub max_concurrent_branches: Option<usize>,
    pub max_turns: Option<usize>,
    pub branch_max_turns: Option<usize>,
    pub context_window: Option<usize>,
    pub history_backfill_count: Option<usize>,
}

/// A partial update of the compaction thresholds.
#[derive(Debug, Clone, Copy)]
pub struct CompactionUpdate {
    pub background_threshold: Option<u32>,
    pub aggressive_threshold: Option<u32>,
    pub emergency_threshold: Option<u32>,
}

/// A partial update of the cortex section.
#[derive(Debug, Clone, Copy)]
pub struct CortexUpdate {
    pub tick_interval_secs: Option<u64>,
    pub worker_timeout_secs: Option<u64>,
    pub branch_timeout_secs: Option<u64>,
    pub circuit_breaker_threshold: Option<u8>,
    pub bulletin_interval_secs: Option<u64>,
    pub bulletin_max_words: Option<usize>,
    pub bulletin_max_turns: Option<usize>,
}

/// A partial update of the coalescing section.
#[derive(Debug, Clone, Copy)]
pub struct CoalesceUpdate {
    pub enabled: Option<bool>,
    pub debounce_ms: Option<u64>,
    pub max_wait_ms: Option<u64>,
    pub min_messages: Option<usize>,
    pub multi_user_only: Option<bool>,
}

/// A partial update of the memory persistence section.
#[derive(Debug, Clone, Copy)]
pub struct MemoryPersistenceUpdate {
    pub enabled: Option<bool>,
    pub message_interval: Option<usize>,
}

/// A partial update of the browser section.
#[derive(Debug, Clone, Copy)]
pub struct BrowserUpdate {
    pub enabled: Option<bool>,
    pub headless: Option<bool>,
    pub evaluate_enabled: Option<bool>,
}

/// A partial update of an agent's configuration: each present section is
/// merged field by field, each absent one is kept.
#[derive(Debug, Clone)]
pub struct AgentConfigUpdate {
    pub agent_id: String,
    pub routing: Option<RoutingUpdate>,
    pub tuning: Option<TuningUpdate>,
    pub compaction: Option<CompactionUpdate>,
    pub cortex: Option<CortexUpdate>,
    pub coalesce: Option<CoalesceUpdate>,
    pub memory_persistence: Option<MemoryPersistenceUpdate>,
    pub browser: Option<BrowserUpdate>,
}

/// The new value where one is given, else the current one.
pub open spec fn pick<T>(o: Option<T>, current: T) -> T {
    match o {
        Some(v) => v,
        None => current,
    }
}

fn pick_copy<T: Copy>(o: Option<T>, current: T) -> (r: T)
    ensures
        r == pick(o, current),
{
    match o {
        Some(v) => v,
        None => current,
    }
}

fn pick_string(o: &Option<String>, current: &String) -> (r: String)
    ensures
        r == pick(*o, *current),
{
    match o {
        Some(v) => v.clone(),
        None => current.clone(),
    }
}

impl RoutingSection {
    pub open spec fn merged(self, u: RoutingUpdate) -> RoutingSection {
        RoutingSection {
            channel: pick(u.channel, self.channel),
            branch: pick(u.branch, self.branch),
            worker: pick(u.worker, self.worker),
            compactor: pick(u.compactor, self.compactor),
            cortex: pick(u.cortex, self.cortex),
            rate_limit_cooldown_secs: pick(u.rate_limit_cooldown_secs, self.rate_limit_cooldown_secs),
        }
    }

    /// Copies the section.
    pub fn duplicate(&self) -> (r: RoutingSection)
        ensures
            r == *self,
    {
        RoutingSection {
            channel: self.channel.clone(),
            branch: self.branch.clone(),
            worker: self.worker.clone(),
            compactor: self.compactor.clone(),
            cortex: self.cortex.clone(),
            rate_limit_cooldown_secs: self.rate_limit_cooldown_secs,
        }
    }

    /// Merges a partial update into the section.
    pub fn merge(&self, u: &RoutingUpdate) -> (r: RoutingSection)
        ensures
            r == self.merged(*u),
    {
        RoutingSection {
            channel: pick_string(&u.channel, &self.channel),
            branch: pick_string(&u.branch, &self.branch),
            worker: pick_string(&u.worker, &self.worker),
            compactor: pick_string(&u.compactor, &self.compactor),
            cortex: pick_string(&u.cortex, &self.cortex),
            rate_limit_cooldown_secs: pick_copy(u.rate_limit_cooldown_secs, self.rate_limit_cooldown_secs),
        }
    }
}

impl TuningSection {
    pub open spec fn merged(self, u: TuningUpdate) -> TuningSection {
        TuningSection {
            max_concurrent_branches: pick(u.max_concurrent_branches, self.max_concurrent_branches),
            max_turns: pick(u.max_turns, self.max_turns),
            branch_max_turns: pick(u.branch_max_turns, self.branch_max_turns),
            context_window: pick(u.context_window, self.context_window),
            history_backfill_count: pick(u.history_backfill_count, self.history_backfill_count),
        }
    }

    /// Merges a partial update into the section.
    pub fn merge(&self, u: &TuningUpdate) -> (r: TuningSection)
        ensures
            r == self.merged(*u),
    {
        TuningSection {
            max_concurrent_branches: pick_copy(u.max_concurrent_branches, self.max_concurrent_branches),
            max_turns: pick_copy(u.max_turns, self.max_turns),
            branch_max_turns: pick_copy(u.branch_max_turns, self.branch_max_turns),
            context_window: pick_copy(u.context_window, self.context_window),
            history_backfill_count: pick_copy(u.history_backfill_count, self.history_backfill_count),
        }
    }
}

impl CompactionSection {
    pub open spec fn merged(self, u: CompactionUpdate) -> CompactionSection {
        CompactionSection {
            background_threshold: pick(u.background_threshold, self.background_threshold),
            aggressive_threshold: pick(u.aggressive_threshold, self.aggressive_threshold),
            emergency_threshold: pick(u.emergency_threshold, self.emergency_threshold),
        }
    }

    /// Merges a partial update into the section.
    pub fn merge(&self, u: &CompactionUpdate) -> (r: CompactionSection)
        ensures
            r == self.merged(*u),
    {
        CompactionSection {
            background_threshold: pick_copy(u.background_threshold, self.background_threshold),
            aggressive_threshold: pick_copy(u.aggressive_threshold, self.aggressive_threshold),
            emergency_threshold: pick_copy(u.emergency_threshold, self.emergency_threshold),
        }
    }
}

impl CortexSection {
    pub open spec fn merged(self, u: CortexUpdate) -> CortexSection {
        CortexSection {
            tick_interval_secs: pick(u.tick_interval_secs, self.tick_interval_secs),
            worker_timeout_secs: pick(u.worker_timeout_secs, self.worker_timeout_secs),
            branch_timeout_secs: pick(u.branch_timeout_secs, self.branch_timeout_secs),
            circuit_breaker_threshold: pick(u.circuit_breaker_threshold, self.circuit_breaker_threshold),
            bulletin_interval_secs: pick(u.bulletin_interval_secs, self.bulletin_interval_secs),
            bulletin_max_words: pick(u.bulletin_max_words, self.bulletin_max_words),
            bulletin_max_turns: pick(u.bulletin_max_turns, self.bulletin_max_turns),
        }
    }

    /// Merges a partial update into the section.
    pub fn merge(&self, u: &CortexUpdate) -> (r: CortexSection)
        ensures
            r == self.merged(*u),
    {
        CortexSection {
            tick_interval_secs: pick_copy(u.tick_interval_secs, self.tick_interval_secs),
            worker_timeout_secs: pick_copy(u.worker_timeout_secs, self.worker_timeout_secs),
            branch_timeout_secs: pick_copy(u.branch_timeout_secs, self.branch_timeout_secs),
            circuit_breaker_threshold: pick_copy(u.circuit_breaker_threshold, self.circuit_breaker_threshold),
            bulletin_interval_secs: pick_copy(u.bulletin_interval_secs, self.bulletin_interval_secs),
            bulletin_max_words: pick_copy(u.bulletin_max_words, self.bulletin_max_words),
            bulletin_max_turns: pick_copy(u.bulletin_max_turns, self.bulletin_max_turns),
        }
    }
}

impl CoalesceSection {
    pub open spec fn merged(self, u: CoalesceUpdate) -> CoalesceSection {
        CoalesceSection {
            enabled: pick(u.enabled, self.enabled),
            debounce_ms: pick(u.debounce_ms, self.debounce_ms),
            max_wait_ms: pick(u.max_wait_ms, self.max_wait_ms),
            min_messages: pick(u.min_messages, self.min_messages),
            multi_user_only: pick(u.multi_user_only, self.multi_user_only),
        }
    }

    /// Merges a partial update into the section.
    pub fn merge(&self, u: &CoalesceUpdate) -> (r: CoalesceSection)
        ensures
            r == self.merged(*u),
    {
        CoalesceSection {
            enabled: pick_copy(u.enabled, self.enabled),
            debounce_ms: pick_copy(u.debounce_ms, self.debounce_ms),
            max_wait_ms: pick_copy(u.max_wait_ms, self.max_wait_ms),
            min_messages: pick_copy(u.min_messages, self.min_messages),
            multi_user_only: pick_copy(u.multi_user_only, self.multi_user_only),
        }
    }
}

impl MemoryPersistenceSection {
    pub open spec fn merged(self, u: MemoryPersistenceUpdate) -> MemoryPersistenceSection {
        MemoryPersistenceSection {
            enabled: pick(u.enabled, self.enabled),
            message_interval: pick(u.message_interval, self.message_interval),
        }
    }

    /// Merges a partial update into the section.
    pub fn merge(&self, u: &MemoryPersistenceUpdate) -> (r: MemoryPersistenceSection)
        ensures
            r == self.merged(*u),
    {
        MemoryPersistenceSection {
            enabled: pick_copy(u.enabled, self.enabled),
            message_interval: pick_copy(u.message_interval, self.message_interval),
        }
    }
}

impl BrowserSection {
    pub open spec fn merged(self, u: BrowserUpdate) -> BrowserSection {
        BrowserSection {
            enabled: pick(u.enabled, self.enabled),
            headless: pick(u.headless, self.headless),
            evaluate_enabled: pick(u.evaluate_enabled, self.evaluate_enabled),
        }
    }

    /// Merges a partial update into the section.
    pub fn merge(&self, u: &BrowserUpdate) -> (r: BrowserSection)
        ensures
            r == self.merged(*u),
    {
        BrowserSection {
            enabled: pick_copy(u.enabled, self.enabled),
            headless: pick_copy(u.headless, self.headless),
            evaluate_enabled: pick_copy(u.evaluate_enabled, self.evaluate_enabled),
        }
    }
}

impl AgentConfig {
    /// The configuration with every present section of `u` merged in.
    pub open spec fn merged(self, u: AgentConfigUpdate) -> AgentConfig {
        AgentConfig {
            routing: match u.routing {
                Some(r) => self.routing.merged(r),
                None => self.routing,
            },
            tuning: match u.tuning {
                Some(t) => self.tuning.merged(t),
                None => self.tuning,
            },
            compaction: match u.compaction {
                Some(c) => self.compaction.merged(c),
                None => self.compaction,
            },
            cortex: match u.cortex {
                Some(c) => self.cortex.merged(c),
                None => self.cortex,
            },
            coalesce: match u.coalesce {
                Some(c) => self.coalesce.merged(c),
                None => self.coalesce,
            },
            memory_persistence: match u.memory_persistence {
                Some(m) => self.memory_persistence.merged(m),
                None => self.memory_persistence,
            },
            browser: match u.browser {
                Some(b) => self.browser.merged(b),
                None => self.browser,
            },
        }
    }

    /// A configuration is valid when its compaction thresholds are strictly
    /// ordered.
    pub open spec fn valid(self) -> bool {
        self.compaction.valid()
    }

    /// Checks the configuration at load time.
    pub fn validate(&self) -> (r: Result<(), ConfigError>)
        ensures
            r is Ok <==> self.valid(),
            r is Err ==> r == Err::<(), ConfigError>(ConfigError::ThresholdsNotIncreasing),
    {
        self.compaction.validate()
    }

    /// The resolved defaults that an agent without overrides runs with.
    pub fn resolved_defaults() -> (r: AgentConfig)
        ensures
            r.routing.channel@ == "provider/large-model"@,
            r.routing.branch@ == "provider/large-model"@,
            r.routing.worker@ == "provider/small-model"@,
            r.routing.compactor@ == "provider/small-model"@,
            r.routing.cortex@ == "provider/small-model"@,
            r.routing.rate_limit_cooldown_secs == 60,
            r.tuning == (TuningSection {
                max_concurrent_branches: 5,
                max_turns: 5,
                branch_max_turns: 50,
                context_window: 128000,
                history_backfill_count: 50,
            }),
            r.compaction == (CompactionSection {
                background_threshold: 8000,
                aggressive_threshold: 8500,
                emergency_threshold: 9500,
            }),
            r.cortex == (CortexSection {
                tick_interval_secs: 30,
                worker_timeout_secs: 300,
                branch_timeout_secs: 60,
                circuit_breaker_threshold: 3,
                bulletin_interval_secs: 3600,
                bulletin_max_words: 1500,
                bulletin_max_turns: 15,
            }),
            r.coalesce == (CoalesceSection {
                enabled: true,
                debounce_ms: 1500,
                max_wait_ms: 5000,
                min_messages: 2,
                multi_user_only: true,
            }),
            r.memory_persistence == (MemoryPersistenceSection { enabled: true, message_interval: 50 }),
            r.browser == (BrowserSection { enabled: true, headless: true, evaluate_enabled: false }),
            r.valid(),
    {
        AgentConfig {
            routing: RoutingSection {
                channel: String::from_str("provider/large-model"),
                branch: String::from_str("provider/large-model"),
                worker: String::from_str("provider/small-model"),
                compactor: String::from_str("provider/small-model"),
                cortex: String::from_str("provider/small-model"),
                rate_limit_cooldown_secs: 60,
            },
            tuning: TuningSection {
                max_concurrent_branches: 5,
                max_turns: 5,
                branch_max_turns: 50,
                context_window: 128000,
                history_backfill_count: 50,
            },
            compaction: CompactionSection {
                background_threshold: 8000,
                aggressive_threshold: 8500,
                emergency_threshold: 9500,
            },
            cortex: CortexSection {
                tick_interval_secs: 30,
                worker_timeout_secs: 300,
                branch_timeout_secs: 60,
                circuit_breaker_threshold: 3,
                bulletin_interval_secs: 3600,
                bulletin_max_words: 1500,
                bulletin_max_turns: 15,
            },
            coalesce: CoalesceSection {
                enabled: true,
                debounce_ms: 1500,
                max_wait_ms: 5000,
                min_messages: 2,
                multi_user_only: true,
            },
            memory_persistence: MemoryPersistenceSection { enabled: true, message_interval: 50 },
            browser: BrowserSection { enabled: true, headless: true, evaluate_enabled: false },
        }
    }

    /// Applies a partial update. The result is the merged configuration when
    /// it is valid; otherwise the update is rejected and the current
    /// configuration stays in effect.
    pub fn apply_update(&self, u: &AgentConfigUpdate) -> (r: Result<AgentConfig, ConfigError>)
        ensures
            r is Ok <==> self.merged(*u).valid(),
            match r {
                Ok(c) => c == self.merged(*u),
                Err(e) => e == ConfigError::ThresholdsNotIncreasing,
            },
    {
        let routing = match &u.routing {
            Some(ru) => self.routing.merge(ru),
            None => self.routing.duplicate(),
        };
        let tuning = match &u.tuning {
            Some(t) => self.tuning.merge(t),
            None => self.tuning,
        };
        let compaction = match &u.compaction {
            Some(c) => self.compaction.merge(c),
            None => self.compaction,
        };
        let cortex = match &u.cortex {
            Some(c) => self.cortex.merge(c),
            None => self.cortex,
        };
        let coalesce = match &u.coalesce {
            Some(c) => self.coalesce.merge(c),
            None => self.coalesce,
        };
        let memory_persistence = match &u.memory_persistence {
            Some(m) => self.memory_persistence.merge(m),
            None => self.memory_persistence,
        };
        let browser = match &u.browser {
            Some(b) => self.browser.merge(b),
            None => self.browser,
        };
        let merged = AgentConfig {
            routing,
            tuning,
            compaction,
            cortex,
            coalesce,
            memory_persistence,
            browser,
        };
        match merged.validate() {
            Ok(()) => Ok(merged),
            Err(e) => Err(e),
        }
    }
}

} // verus!
