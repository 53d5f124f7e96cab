//! The per-agent cortex tick: circuit evaluation, compaction tiers,
//! bulletin scheduling and rate-limit cooldowns.

use vstd::prelude::*;
use crate::clock::{elapsed, elapsed_since, sat_add, saturating_add};
use crate::config::{AgentConfig, CompactionTier};
use crate::supervisor::Supervisor;

verus! {

/// Model-routing roles, each with its own rate-limit cooldown.
#[derive(Debug, Clone, Copy, PartialEq, Eq, Structural)]
pub enum Role {
    Channel,
    Branch,
    Worker,
    Compactor,
    Cortex,
}

/// The position of a role in the cooldown table.
pub open spec fn role_index(r: Role) -> int {
    match r {
        Role::Channel => 0,
        Role::Branch => 1,
        Role::Worker => 2,
        Role::Compactor => 3,
        Role::Cortex => 4,
    }
}

fn role_slot(r: Role) -> (i: usize)
    ensures
        i == role_index(r),
{
    match r {
        Role::Channel => 0,
        Role::Branch => 1,
        Role::Worker => 2,
        Role::Compactor => 3,
        Role::Cortex => 4,
    }
}

/// Per-role cooldown windows opened by provider rate-limit failures.
pub struct RateLimits {
    until: Vec<u64>,
}

impl RateLimits {
    /// The second until which each role cools down; zero when it does not.
    pub closed spec fn until(&self) -> Seq<u64> {
        self.until@
    }

    pub open spec fn wf(&self) -> bool {
        self.until().len() == 5
    }

    /// No role cools down.
    pub fn new() -> (r: RateLimits)
        ensures
            r.wf(),
            forall|i: int| 0 <= i < 5 ==> r.until()[i] == 0,
    {
        RateLimits { until: vec![0, 0, 0, 0, 0] }
    }

    /// Opens a cooldown of `cooldown_secs` for `role` after a rate-limit
    /// failure at `now`.
    pub fn record(&mut self, role: Role, now: u64, cooldown_secs: u64)
        requires
            old(self).wf(),
        ensures
            final(self).wf(),
            final(self).until() == old(self).until().update(role_index(role), sat_add(now, cooldown_secs)),
    {
        let i = role_slot(role);
        self.until.set(i, saturating_add(now, cooldown_secs));
    }

    /// Whether `role` is cooling down at `now`.
    pub fn is_limited(&self, role: Role, now: u64) -> (r: bool)
        requires
            self.wf(),
        ensures
            r == (now < self.until()[role_index(role)]),
    {
        now < self.until[role_slot(role)]
    }

    /// Ends every window that has run out at `now`; returns how many ended.
    pub fn expire(&mut self, now: u64) -> (r: usize)
        requires
            old(self).wf(),
        ensures
            final(self).wf(),
            forall|i: int|
                0 <= i < 5 ==> #[trigger] final(self).until()[i] == if old(self).until()[i] != 0
                    && old(self).until()[i] <= now {
                    0
                } else {
                    old(self).until()[i]
                },
            r <= 5,
    {
        let mut ended: usize = 0;
        let mut i: usize = 0;
        while i < 5
            invariant
                self.until@.len() == 5,
                i <= 5,
                ended <= i,
                forall|k: int|
                    0 <= k < i ==> #[trigger] self.until@[k] == if old(self).until@[k] != 0
                        && old(self).until@[k] <= now {
                        0
                    } else {
                        old(self).until@[k]
                    },
                forall|k: int| i <= k < 5 ==> #[trigger] self.until@[k] == old(self).until@[k],
            decreases 5 - i,
        {
            let u = self.until[i];
            if u != 0 && u <= now {
                self.until.set(i, 0);
                ended = ended + 1;
            }
            i = i + 1;
        }
        ended
    }
}

/// What the tick needs to know of one active channel.
#[derive(Debug, Clone, Copy)]
pub struct ChannelLoad {
    /// Tokens of the context window in use.
    pub used_tokens: u64,
    /// When its last bulletin was made, if ever.
    pub last_bulletin_at: Option<u64>,
}

/// What one tick asks for, channel by channel (in the order given).
pub struct TickPlan {
    /// The compaction tier of each channel.
    pub compaction: Vec<CompactionTier>,
    /// Whether each channel is due for a bulletin.
    pub bulletin_due: Vec<bool>,
    /// How many rate-limit cooldowns ended.
    pub cooldowns_ended: usize,
}

/// A channel is due for a bulletin when it never had one or its last is
/// at least `bulletin_interval_secs` old.
pub open spec fn bulletin_due_spec(cfg: AgentConfig, load: ChannelLoad, now: u64) -> bool {
    match load.last_bulletin_at {
        None => true,
        Some(at) => elapsed(now, at) >= cfg.cortex.bulletin_interval_secs,
    }
}

/// One cortex tick at `now`, in order: the breaker moves from open to
/// half-open once its cooldown has elapsed; each channel gets the
/// compaction tier of its usage fraction and is marked due for a bulletin
/// when its last one is old enough; cooldowns that ran out end.
pub fn cortex_tick(
    supervisor: &mut Supervisor,
    limits: &mut RateLimits,
    cfg: &AgentConfig,
    channels: &Vec<ChannelLoad>,
    now: u64,
) -> (r: TickPlan)
    requires
        old(supervisor).wf(),
        old(limits).wf(),
    ensures
        final(supervisor).wf(),
        final(supervisor).breaker() == old(supervisor).breaker().after_tick(now),
        final(supervisor).running() == old(supervisor).running(),
        final(limits).wf(),
        forall|i: int|
            0 <= i < 5 ==> #[trigger] final(limits).until()[i] == if old(limits).until()[i] != 0
                && old(limits).until()[i] <= now {
                0
            } else {
                old(limits).until()[i]
            },
        r.compaction@.len() == channels@.len(),
        r.bulletin_due@.len() == channels@.len(),
        forall|i: int|
            0 <= i < channels@.len() ==> #[trigger] r.compaction@[i] == cfg.compaction.tier_spec(
                channels@[i].used_tokens,
                cfg.tuning.context_window as u64,
            ),
        forall|i: int|
            0 <= i < channels@.len() ==> #[trigger] r.bulletin_due@[i] == bulletin_due_spec(
                *cfg,
                channels@[i],
                now,
            ),
{
    supervisor.tick_breaker(now);
    let window = cfg.tuning.context_window as u64;
    let mut compaction: Vec<CompactionTier> = Vec::new();
    let mut bulletin_due: Vec<bool> = Vec::new();
    let mut i: usize = 0;
    while i < channels.len()
        invariant
            i <= channels@.len(),
            window == cfg.tuning.context_window as u64,
            compaction@.len() == i,
            bulletin_due@.len() == i,
            forall|k: int|
                0 <= k < i ==> #[trigger] compaction@[k] == cfg.compaction.tier_spec(
                    channels@[k].used_tokens,
                    window,
                ),
            forall|k: int|
                0 <= k < i ==> #[trigger] bulletin_due@[k] == bulletin_due_spec(*cfg, channels@[k], now),
        decreases channels@.len() - i,
    {
        let load = channels[i];
        compaction.push(cfg.compaction.tier(load.used_tokens, window));
        let due = match load.last_bulletin_at {
            None => true,
            Some(at) => elapsed_since(now, at) >= cfg.cortex.bulletin_interval_secs,
        };
        bulletin_due.push(due);
        i = i + 1;
    }
    let cooldowns_ended = limits.expire(now);
    TickPlan { compaction, bulletin_due, cooldowns_ended }
}

} // verus!
