//! Admission, timeouts and terminal outcomes of Branches and Workers.

use vstd::prelude::*;
use crate::breaker::CircuitBreaker;
use crate::clock::{sat_add, saturating_add};
use crate::config::AgentConfig;
use crate::process::{clone_opt, opt_view, ProcessEvent};
use crate::status::ItemKind;
use crate::text::str_eq;

verus! {

/// Why a spawn was refused.
#[derive(Debug, Clone, Copy, PartialEq, Eq, Structural)]
pub enum AdmissionError {
    /// The agent's circuit breaker refuses new work.
    CircuitOpen,
    /// The channel already runs `max_concurrent_branches` Branches.
    ConcurrencyLimitReached,
}

/// How a process ended, as reported by the model-invocation loop.
#[derive(Debug, Clone)]
pub enum Outcome {
    /// Finished with a result or conclusion.
    Completed(String),
    /// Stopped at its turn budget; a normal end, not a failure.
    BudgetExhausted(String),
    /// Failed with a reason.
    Failed(String),
}

/// A Branch or Worker that is running.
#[derive(Debug, Clone)]
pub struct RunningProcess {
    pub id: String,
    pub kind: ItemKind,
    pub channel_id: Option<String>,
    pub description: String,
    /// The second at which it times out.
    pub deadline: u64,
    /// The turn budget that the model-invocation loop enforces.
    pub max_turns: usize,
}

/// The text that a terminal event carries for an outcome.
pub open spec fn outcome_text(o: Outcome) -> Seq<char> {
    match o {
        Outcome::Completed(t) => t@,
        Outcome::BudgetExhausted(t) => t@,
        Outcome::Failed(t) => t@,
    }
}

/// The text that a terminal event carries for a timeout.
pub open spec fn timeout_text() -> Seq<char> {
    "timed out"@
}

/// A process with this id is in `s`.
pub open spec fn has_id(s: Seq<RunningProcess>, id: Seq<char>) -> bool
    decreases s.len(),
{
    s.len() > 0 && (s.last().id@ == id || has_id(s.drop_last(), id))
}

/// No two processes in `s` share an id.
pub open spec fn unique_ids(s: Seq<RunningProcess>) -> bool
    decreases s.len(),
{
    s.len() == 0 || (unique_ids(s.drop_last()) && !has_id(s.drop_last(), s.last().id@))
}

/// Every Branch in `s` belongs to a channel.
pub open spec fn branches_have_channels(s: Seq<RunningProcess>) -> bool
    decreases s.len(),
{
    s.len() == 0 || (branches_have_channels(s.drop_last()) && (s.last().kind == ItemKind::Branch
        ==> s.last().channel_id is Some))
}

/// The number of Branches in `s` that run in channel `ch`.
pub open spec fn branch_count(s: Seq<RunningProcess>, ch: Seq<char>) -> nat
    decreases s.len(),
{
    if s.len() == 0 {
        0
    } else {
        branch_count(s.drop_last(), ch) + if is_branch_of(s.last(), ch) {
            1nat
        } else {
            0nat
        }
    }
}

/// `p` is a Branch running in channel `ch`.
pub open spec fn is_branch_of(p: RunningProcess, ch: Seq<char>) -> bool {
    p.kind == ItemKind::Branch && opt_view(p.channel_id) == Some(ch)
}

/// `s` without the processes whose id is `id`.
pub open spec fn without(s: Seq<RunningProcess>, id: Seq<char>) -> Seq<RunningProcess>
    decreases s.len(),
{
    if s.len() == 0 {
        s
    } else if s.last().id@ == id {
        without(s.drop_last(), id)
    } else {
        without(s.drop_last(), id).push(s.last())
    }
}

/// The process of `s` whose id is `id`, if any.
pub open spec fn find_entry(s: Seq<RunningProcess>, id: Seq<char>) -> Option<RunningProcess>
    decreases s.len(),
{
    if s.len() == 0 {
        None
    } else if s.last().id@ == id {
        Some(s.last())
    } else {
        find_entry(s.drop_last(), id)
    }
}

/// The processes of `s` still within their deadline at `now`.
pub open spec fn remaining(s: Seq<RunningProcess>, now: u64) -> Seq<RunningProcess>
    decreases s.len(),
{
    if s.len() == 0 {
        s
    } else if s.last().deadline <= now {
        remaining(s.drop_last(), now)
    } else {
        remaining(s.drop_last(), now).push(s.last())
    }
}

/// The processes of `s` whose deadline has passed at `now`, in order.
pub open spec fn expired(s: Seq<RunningProcess>, now: u64) -> Seq<RunningProcess>
    decreases s.len(),
{
    if s.len() == 0 {
        s
    } else if s.last().deadline <= now {
        expired(s.drop_last(), now).push(s.last())
    } else {
        expired(s.drop_last(), now)
    }
}

/// `e` is the one terminal event of process `p`, carrying `text`.
pub open spec fn is_terminal_event_for(e: ProcessEvent, p: RunningProcess, text: Seq<char>) -> bool {
    match e {
        ProcessEvent::BranchResult { branch_id, channel_id, conclusion } => p.kind
            == ItemKind::Branch && branch_id@ == p.id@ && Some(channel_id@) == opt_view(
            p.channel_id,
        ) && conclusion@ == text,
        ProcessEvent::WorkerComplete { worker_id, channel_id, result } => p.kind == ItemKind::Worker
            && worker_id@ == p.id@ && opt_view(channel_id) == opt_view(p.channel_id) && result@
            == text,
        _ => false,
    }
}

proof fn lemma_take_step(s: Seq<RunningProcess>, i: int)
    requires
        0 <= i < s.len(),
    ensures
        s.take(i + 1).drop_last() == s.take(i),
        s.take(i + 1).last() == s[i],
{
    assert(s.take(i + 1).drop_last() =~= s.take(i));
}

proof fn lemma_push_last(s: Seq<RunningProcess>, p: RunningProcess)
    ensures
        s.push(p).drop_last() == s,
        s.push(p).last() == p,
        s.push(p).len() > 0,
{
    assert(s.push(p).drop_last() =~= s);
}

proof fn lemma_without_not_has(s: Seq<RunningProcess>, id: Seq<char>, other: Seq<char>)
    ensures
        has_id(without(s, id), other) <==> (other != id && has_id(s, other)),
    decreases s.len(),
{
    if s.len() > 0 {
        lemma_without_not_has(s.drop_last(), id, other);
        lemma_push_last(without(s.drop_last(), id), s.last());
    }
}

proof fn lemma_without_unique(s: Seq<RunningProcess>, id: Seq<char>)
    requires
        unique_ids(s),
    ensures
        unique_ids(without(s, id)),
    decreases s.len(),
{
    if s.len() > 0 {
        lemma_without_unique(s.drop_last(), id);
        lemma_without_not_has(s.drop_last(), id, s.last().id@);
        lemma_push_last(without(s.drop_last(), id), s.last());
    }
}

proof fn lemma_without_count(s: Seq<RunningProcess>, id: Seq<char>, ch: Seq<char>)
    ensures
        branch_count(without(s, id), ch) <= branch_count(s, ch),
    decreases s.len(),
{
    if s.len() > 0 {
        lemma_without_count(s.drop_last(), id, ch);
        lemma_push_last(without(s.drop_last(), id), s.last());
    }
}

proof fn lemma_find_entry(s: Seq<RunningProcess>, id: Seq<char>)
    ensures
        find_entry(s, id) is Some <==> has_id(s, id),
        find_entry(s, id) matches Some(p) ==> p.id@ == id && (branches_have_channels(s) && p.kind
            == ItemKind::Branch ==> p.channel_id is Some),
    decreases s.len(),
{
    if s.len() > 0 {
        lemma_find_entry(s.drop_last(), id);
    }
}

proof fn lemma_without_absent(s: Seq<RunningProcess>, id: Seq<char>)
    requires
        !has_id(s, id),
    ensures
        without(s, id) == s,
    decreases s.len(),
{
    if s.len() > 0 {
        lemma_without_absent(s.drop_last(), id);
        assert(s.drop_last().push(s.last()) =~= s);
    }
}

proof fn lemma_without_channels(s: Seq<RunningProcess>, id: Seq<char>)
    requires
        branches_have_channels(s),
    ensures
        branches_have_channels(without(s, id)),
    decreases s.len(),
{
    if s.len() > 0 {
        lemma_without_channels(s.drop_last(), id);
        lemma_push_last(without(s.drop_last(), id), s.last());
    }
}

proof fn lemma_remaining_channels(s: Seq<RunningProcess>, now: u64)
    requires
        branches_have_channels(s),
    ensures
        branches_have_channels(remaining(s, now)),
    decreases s.len(),
{
    if s.len() > 0 {
        lemma_remaining_channels(s.drop_last(), now);
        lemma_push_last(remaining(s.drop_last(), now), s.last());
    }
}

proof fn lemma_remaining_has(s: Seq<RunningProcess>, now: u64, other: Seq<char>)
    ensures
        has_id(remaining(s, now), other) ==> has_id(s, other),
        has_id(expired(s, now), other) ==> has_id(s, other),
    decreases s.len(),
{
    if s.len() > 0 {
        lemma_remaining_has(s.drop_last(), now, other);
        lemma_push_last(remaining(s.drop_last(), now), s.last());
        lemma_push_last(expired(s.drop_last(), now), s.last());
    }
}

proof fn lemma_remaining_unique(s: Seq<RunningProcess>, now: u64)
    requires
        unique_ids(s),
    ensures
        unique_ids(remaining(s, now)),
        unique_ids(expired(s, now)),
        forall|x: Seq<char>| has_id(expired(s, now), x) ==> !has_id(remaining(s, now), x),
    decreases s.len(),
{
    if s.len() > 0 {
        lemma_remaining_unique(s.drop_last(), now);
        lemma_remaining_has(s.drop_last(), now, s.last().id@);
        lemma_push_last(remaining(s.drop_last(), now), s.last());
        lemma_push_last(expired(s.drop_last(), now), s.last());
        assert forall|x: Seq<char>| has_id(expired(s, now), x) implies !has_id(remaining(s, now), x) by {
            lemma_remaining_has(s.drop_last(), now, x);
        }
    }
}

proof fn lemma_remaining_count(s: Seq<RunningProcess>, now: u64, ch: Seq<char>)
    ensures
        branch_count(remaining(s, now), ch) <= branch_count(s, ch),
    decreases s.len(),
{
    if s.len() > 0 {
        lemma_remaining_count(s.drop_last(), now, ch);
        lemma_push_last(remaining(s.drop_last(), now), s.last());
    }
}

proof fn lemma_push_unique(s: Seq<RunningProcess>, p: RunningProcess)
    requires
        unique_ids(s),
        !has_id(s, p.id@),
    ensures
        unique_ids(s.push(p)),
        branches_have_channels(s) && (p.kind == ItemKind::Branch ==> p.channel_id is Some)
            ==> branches_have_channels(s.push(p)),
        forall|ch: Seq<char>| #[trigger]
            branch_count(s.push(p), ch) == branch_count(s, ch) + if is_branch_of(p, ch) {
                1nat
            } else {
                0nat
            },
{
    assert(s.push(p).drop_last() =~= s);
}

/// The terminal event of `p`, carrying `text`.
fn terminal_event(p: RunningProcess, text: String) -> (r: ProcessEvent)
    requires
        p.kind == ItemKind::Branch ==> p.channel_id is Some,
    ensures
        is_terminal_event_for(r, p, text@),
{
    match p.kind {
        ItemKind::Branch => {
            let channel_id = match p.channel_id {
                Some(c) => c,
                None => String::new(),
            };
            ProcessEvent::BranchResult { branch_id: p.id, channel_id, conclusion: text }
        },
        ItemKind::Worker => ProcessEvent::WorkerComplete {
            worker_id: p.id,
            channel_id: p.channel_id,
            result: text,
        },
    }
}

/// The concurrency, turn and time limits of one agent's processes.
#[derive(Debug, Clone, Copy, PartialEq, Eq, Structural)]
pub struct SupervisorLimits {
    /// Branches that may run at once in one channel.
    pub max_concurrent_branches: usize,
    /// Turn budget handed to each Branch.
    pub branch_max_turns: usize,
    /// Turn budget handed to each Worker.
    pub max_turns: usize,
    pub branch_timeout_secs: u64,
    pub worker_timeout_secs: u64,
}

/// Admission, timeout and outcome bookkeeping of one agent's processes.
pub struct Supervisor {
    breaker: CircuitBreaker,
    running: Vec<RunningProcess>,
    limits: SupervisorLimits,
}

impl Supervisor {
    pub closed spec fn running(&self) -> Seq<RunningProcess> {
        self.running@
    }

    pub closed spec fn breaker(&self) -> CircuitBreaker {
        self.breaker
    }

    pub closed spec fn limits(&self) -> SupervisorLimits {
        self.limits
    }

    pub open spec fn max_concurrent_branches(&self) -> nat {
        self.limits().max_concurrent_branches as nat
    }

    /// Running ids are unique, every Branch belongs to a channel, and no
    /// channel runs more than `max_concurrent_branches` Branches.
    pub closed spec fn wf(&self) -> bool {
        &&& unique_ids(self.running@)
        &&& branches_have_channels(self.running@)
        &&& forall|ch: Seq<char>|
            #[trigger] branch_count(self.running@, ch) <= self.limits.max_concurrent_branches
    }

    /// A supervisor with nothing running.
    pub fn new(limits: SupervisorLimits, breaker: CircuitBreaker) -> (r: Supervisor)
        ensures
            r.wf(),
            r.running() == Seq::<RunningProcess>::empty(),
            r.breaker() == breaker,
            r.limits() == limits,
    {
        Supervisor { breaker, running: Vec::new(), limits }
    }

    /// A supervisor with the limits of `cfg` and a closed breaker whose
    /// cooldown is `breaker_cooldown_secs`.
    pub fn from_config(cfg: &AgentConfig, breaker_cooldown_secs: u64) -> (r: Supervisor)
        ensures
            r.wf(),
            r.running() == Seq::<RunningProcess>::empty(),
            r.breaker() == CircuitBreaker::spec_new(
                cfg.cortex.circuit_breaker_threshold as u32,
                breaker_cooldown_secs,
            ),
            r.limits() == (SupervisorLimits {
                max_concurrent_branches: cfg.tuning.max_concurrent_branches,
                branch_max_turns: cfg.tuning.branch_max_turns,
                max_turns: cfg.tuning.max_turns,
                branch_timeout_secs: cfg.cortex.branch_timeout_secs,
                worker_timeout_secs: cfg.cortex.worker_timeout_secs,
            }),
    {
        let breaker = CircuitBreaker::new(cfg.cortex.circuit_breaker_threshold as u32, breaker_cooldown_secs);
        let limits = SupervisorLimits {
            max_concurrent_branches: cfg.tuning.max_concurrent_branches,
            branch_max_turns: cfg.tuning.branch_max_turns,
            max_turns: cfg.tuning.max_turns,
            branch_timeout_secs: cfg.cortex.branch_timeout_secs,
            worker_timeout_secs: cfg.cortex.worker_timeout_secs,
        };
        Supervisor::new(limits, breaker)
    }

    /// The agent's circuit breaker.
    pub fn circuit_breaker(&self) -> (r: &CircuitBreaker)
        ensures
            *r == self.breaker(),
    {
        &self.breaker
    }

    /// The processes running, in order of admission.
    pub fn running_processes(&self) -> (r: &Vec<RunningProcess>)
        ensures
            r@ == self.running(),
    {
        &self.running
    }

    /// The circuit-evaluation step of a cortex tick at `now`.
    pub fn tick_breaker(&mut self, now: u64)
        requires
            old(self).wf(),
        ensures
            final(self).wf(),
            final(self).breaker() == old(self).breaker().after_tick(now),
            final(self).running() == old(self).running(),
            final(self).limits() == old(self).limits(),
    {
        self.breaker.tick(now);
    }

    /// Whether a process with this id is running.
    pub fn is_running(&self, id: &str) -> (r: bool)
        ensures
            r == has_id(self.running(), id@),
    {
        let mut i: usize = 0;
        let mut found = false;
        while i < self.running.len()
            invariant
                i <= self.running@.len(),
                found == has_id(self.running@.take(i as int), id@),
            decreases self.running@.len() - i,
        {
            proof {
                lemma_take_step(self.running@, i as int);
            }
            if str_eq(self.running[i].id.as_str(), id) {
                found = true;
            }
            i = i + 1;
        }
        assert(self.running@.take(i as int) =~= self.running@);
        found
    }

    /// The number of Branches running in channel `channel_id`.
    pub fn running_branches(&self, channel_id: &str) -> (r: usize)
        requires
            self.wf(),
        ensures
            r == branch_count(self.running(), channel_id@),
    {
        let mut i: usize = 0;
        let mut count: usize = 0;
        while i < self.running.len()
            invariant
                self.wf(),
                i <= self.running@.len(),
                count == branch_count(self.running@.take(i as int), channel_id@),
            decreases self.running@.len() - i,
        {
            proof {
                lemma_take_step(self.running@, i as int);
                self.lemma_prefix_count(i as int + 1, channel_id@);
            }
            let p = &self.running[i];
            let is_branch = match p.kind {
                ItemKind::Branch => true,
                ItemKind::Worker => false,
            };
            if is_branch {
                match &p.channel_id {
                    Some(c) => {
                        if str_eq(c.as_str(), channel_id) {
                            count = count + 1;
                        }
                    },
                    None => {},
                }
            }
            i = i + 1;
        }
        assert(self.running@.take(i as int) =~= self.running@);
        count
    }

    /// Admits a Branch of channel `channel_id` and returns its start event.
    ///
    /// Refused with `CircuitOpen` while the breaker refuses work, and with
    /// `ConcurrencyLimitReached` while the channel already runs
    /// `max_concurrent_branches` Branches; a refused spawn changes nothing.
    /// An admitted Branch times out `branch_timeout_secs` after `now`.
    pub fn spawn_branch(&mut self, channel_id: String, branch_id: String, description: String, now: u64) -> (r:
        Result<ProcessEvent, AdmissionError>)
        requires
            old(self).wf(),
            !has_id(old(self).running(), branch_id@),
        ensures
            final(self).wf(),
            !old(self).breaker().admits() ==> r == Err::<ProcessEvent, AdmissionError>(
                AdmissionError::CircuitOpen,
            ) && *final(self) == *old(self),
            old(self).breaker().admits() && branch_count(old(self).running(), channel_id@)
                >= old(self).max_concurrent_branches() ==> r == Err::<ProcessEvent, AdmissionError>(
                AdmissionError::ConcurrencyLimitReached,
            ) && *final(self) == *old(self),
            old(self).breaker().admits() && branch_count(old(self).running(), channel_id@)
                < old(self).max_concurrent_branches() ==> {
                &&& r matches Ok(ProcessEvent::BranchStarted { branch_id: b, channel_id: c, description: d })
                    && b@ == branch_id@ && c@ == channel_id@ && d@ == description@
                &&& final(self).running() == old(self).running().push(
                    RunningProcess {
                        id: branch_id,
                        kind: ItemKind::Branch,
                        channel_id: Some(channel_id),
                        description,
                        deadline: sat_add(now, old(self).limits().branch_timeout_secs),
                        max_turns: old(self).limits().branch_max_turns,
                    },
                )
                &&& final(self).breaker() == old(self).breaker().after_admit()
                &&& final(self).limits() == old(self).limits()
            },
    {
        if !self.breaker.would_admit() {
            return Err(AdmissionError::CircuitOpen);
        }
        if self.running_branches(channel_id.as_str()) >= self.limits.max_concurrent_branches {
            return Err(AdmissionError::ConcurrencyLimitReached);
        }
        let _ = self.breaker.try_admit();
        let deadline = saturating_add(now, self.limits.branch_timeout_secs);
        let event = ProcessEvent::BranchStarted {
            branch_id: branch_id.clone(),
            channel_id: channel_id.clone(),
            description: description.clone(),
        };
        let p = RunningProcess {
            id: branch_id,
            kind: ItemKind::Branch,
            channel_id: Some(channel_id),
            description,
            deadline,
            max_turns: self.limits.branch_max_turns,
        };
        proof {
            lemma_push_unique(self.running@, p);
            assert(opt_view(p.channel_id) == Some(channel_id@));
        }
        self.running.push(p);
        Ok(event)
    }

    /// Admits a Worker and returns its start event. Workers have no count
    /// limit; only the breaker can refuse one, with `CircuitOpen`, and then
    /// nothing changes. An admitted Worker times out `worker_timeout_secs`
    /// after `now`.
    pub fn spawn_worker(&mut self, channel_id: Option<String>, worker_id: String, task: String, now: u64) -> (r:
        Result<ProcessEvent, AdmissionError>)
        requires
            old(self).wf(),
            !has_id(old(self).running(), worker_id@),
        ensures
            final(self).wf(),
            !old(self).breaker().admits() ==> r == Err::<ProcessEvent, AdmissionError>(
                AdmissionError::CircuitOpen,
            ) && *final(self) == *old(self),
            old(self).breaker().admits() ==> {
                &&& r matches Ok(ProcessEvent::WorkerStarted { worker_id: w, channel_id: c, task: t })
                    && w@ == worker_id@ && opt_view(c) == opt_view(channel_id) && t@ == task@
                &&& final(self).running() == old(self).running().push(
                    RunningProcess {
                        id: worker_id,
                        kind: ItemKind::Worker,
                        channel_id,
                        description: task,
                        deadline: sat_add(now, old(self).limits().worker_timeout_secs),
                        max_turns: old(self).limits().max_turns,
                    },
                )
                &&& final(self).breaker() == old(self).breaker().after_admit()
                &&& final(self).limits() == old(self).limits()
            },
    {
        if !self.breaker.would_admit() {
            return Err(AdmissionError::CircuitOpen);
        }
        let _ = self.breaker.try_admit();
        let deadline = saturating_add(now, self.limits.worker_timeout_secs);
        let event = ProcessEvent::WorkerStarted {
            worker_id: worker_id.clone(),
            channel_id: clone_opt(&channel_id),
            task: task.clone(),
        };
        let p = RunningProcess {
            id: worker_id,
            kind: ItemKind::Worker,
            channel_id,
            description: task,
            deadline,
            max_turns: self.limits.max_turns,
        };
        proof {
            lemma_push_unique(self.running@, p);
        }
        self.running.push(p);
        Ok(event)
    }

    /// Records the natural end of process `id` at `now` and returns its
    /// terminal event. A process that is no longer running (it completed or
    /// was reaped by its timeout before) yields `None` and changes nothing.
    /// A failure counts against the breaker; completion and an exhausted
    /// turn budget count as success.
    pub fn complete(&mut self, id: &str, outcome: Outcome, now: u64) -> (r: Option<ProcessEvent>)
        requires
            old(self).wf(),
        ensures
            final(self).wf(),
            r is Some <==> has_id(old(self).running(), id@),
            final(self).running() == without(old(self).running(), id@),
            !has_id(final(self).running(), id@),
            match find_entry(old(self).running(), id@) {
                None => *final(self) == *old(self),
                Some(p) => {
                    &&& r matches Some(e) && is_terminal_event_for(e, p, outcome_text(outcome))
                    &&& final(self).breaker() == if outcome is Failed {
                        old(self).breaker().after_failure(now)
                    } else {
                        old(self).breaker().after_success()
                    }
                    &&& final(self).limits() == old(self).limits()
                },
            },
    {
        proof {
            lemma_find_entry(self.running@, id@);
            lemma_without_not_has(self.running@, id@, id@);
        }
        if !self.is_running(id) {
            proof {
                lemma_without_absent(self.running@, id@);
            }
            return None;
        }
        let mut rest: Vec<RunningProcess> = Vec::new();
        std::mem::swap(&mut rest, &mut self.running);
        let ghost orig = rest@;
        let mut kept: Vec<RunningProcess> = Vec::new();
        let mut found: Option<RunningProcess> = None;
        let ghost mut k: int = 0;
        while rest.len() > 0
            invariant
                0 <= k <= orig.len(),
                rest@ == orig.skip(k),
                kept@ == without(orig.take(k), id@),
                found == find_entry(orig.take(k), id@),
            decreases rest@.len(),
        {
            let x = rest.remove(0);
            proof {
                lemma_take_step(orig, k);
                assert(orig.skip(k).remove(0) =~= orig.skip(k + 1));
                lemma_push_last(without(orig.take(k), id@), x);
            }
            if str_eq(x.id.as_str(), id) {
                found = Some(x);
            } else {
                kept.push(x);
            }
            proof {
                k = k + 1;
            }
        }
        proof {
            assert(orig.take(k) =~= orig);
            lemma_without_unique(orig, id@);
            lemma_without_channels(orig, id@);
            assert forall|ch: Seq<char>| #[trigger]
                branch_count(without(orig, id@), ch) <= self.limits.max_concurrent_branches by {
                lemma_without_count(orig, id@, ch);
            }
        }
        self.running = kept;
        match found {
            Some(p) => {
                let failed = match &outcome {
                    Outcome::Failed(_) => true,
                    _ => false,
                };
                if failed {
                    self.breaker.record_failure(now);
                } else {
                    self.breaker.record_success();
                }
                let text = match outcome {
                    Outcome::Completed(t) => t,
                    Outcome::BudgetExhausted(t) => t,
                    Outcome::Failed(t) => t,
                };
                Some(terminal_event(p, text))
            },
            None => None,
        }
    }

    /// Reaps every process whose deadline has passed at `now`: each is
    /// removed, counts as a failure against the breaker, and gets one
    /// terminal event with a timeout reason, in order of admission.
    pub fn reap_timeouts(&mut self, now: u64) -> (r: Vec<ProcessEvent>)
        requires
            old(self).wf(),
        ensures
            final(self).wf(),
            final(self).running() == remaining(old(self).running(), now),
            r@.len() == expired(old(self).running(), now).len(),
            forall|j: int|
                0 <= j < r@.len() ==> is_terminal_event_for(
                    #[trigger] r@[j],
                    expired(old(self).running(), now)[j],
                    timeout_text(),
                ),
            final(self).breaker() == old(self).breaker().after_failures(
                expired(old(self).running(), now).len(),
                now,
            ),
            final(self).limits() == old(self).limits(),
    {
        let mut rest: Vec<RunningProcess> = Vec::new();
        std::mem::swap(&mut rest, &mut self.running);
        let ghost orig = rest@;
        let ghost breaker0 = self.breaker;
        let mut kept: Vec<RunningProcess> = Vec::new();
        let mut events: Vec<ProcessEvent> = Vec::new();
        let ghost mut k: int = 0;
        while rest.len() > 0
            invariant
                0 <= k <= orig.len(),
                rest@ == orig.skip(k),
                kept@ == remaining(orig.take(k), now),
                branches_have_channels(orig),
                unique_ids(orig),
                forall|ch: Seq<char>| #[trigger] branch_count(orig, ch) <= self.limits.max_concurrent_branches,
                self.limits == old(self).limits,
                events@.len() == expired(orig.take(k), now).len(),
                forall|j: int|
                    0 <= j < events@.len() ==> is_terminal_event_for(
                        #[trigger] events@[j],
                        expired(orig.take(k), now)[j],
                        timeout_text(),
                    ),
                self.breaker == breaker0.after_failures(expired(orig.take(k), now).len(), now),
            decreases rest@.len(),
        {
            let x = rest.remove(0);
            proof {
                lemma_take_step(orig, k);
                self.lemma_channels_prefix(orig, k);
                assert(orig.skip(k).remove(0) =~= orig.skip(k + 1));
                lemma_push_last(remaining(orig.take(k), now), x);
                lemma_push_last(expired(orig.take(k), now), x);
            }
            if x.deadline <= now {
                self.breaker.record_failure(now);
                let e = terminal_event(x, String::from_str("timed out"));
                events.push(e);
            } else {
                kept.push(x);
            }
            proof {
                k = k + 1;
            }
        }
        proof {
            assert(orig.take(k) =~= orig);
            lemma_remaining_unique(orig, now);
            lemma_remaining_channels(orig, now);
            assert forall|ch: Seq<char>| #[trigger]
                branch_count(remaining(orig, now), ch) <= self.limits.max_concurrent_branches by {
                lemma_remaining_count(orig, now, ch);
                assert(branch_count(orig, ch) <= self.limits.max_concurrent_branches);
            }
        }
        self.running = kept;
        events
    }

    proof fn lemma_channels_prefix(&self, s: Seq<RunningProcess>, k: int)
        requires
            branches_have_channels(s),
            0 <= k < s.len(),
        ensures
            s[k].kind == ItemKind::Branch ==> s[k].channel_id is Some,
        decreases s.len(),
    {
        if k < s.len() - 1 {
            assert(s.drop_last()[k] == s[k]);
            self.lemma_channels_prefix(s.drop_last(), k);
        }
    }

    proof fn lemma_prefix_count(&self, k: int, ch: Seq<char>)
        requires
            self.wf(),
            0 <= k <= self.running@.len(),
        ensures
            branch_count(self.running@.take(k), ch) <= self.limits.max_concurrent_branches,
        decreases self.running@.len() - k,
    {
        if k < self.running@.len() {
            self.lemma_prefix_count(k + 1, ch);
            lemma_take_step(self.running@, k);
        } else {
            assert(self.running@.take(k) =~= self.running@);
        }
    }
}

/// No channel ever runs more Branches than `max_concurrent_branches`: the
/// bound holds in every state that spawning, completion and reaping produce.
pub proof fn lemma_branch_limit_never_exceeded(s: Supervisor, ch: Seq<char>)
    requires
        s.wf(),
    ensures
        branch_count(s.running(), ch) <= s.max_concurrent_branches(),
{
}

/// Each process gets one terminal event, also when its timeout and its
/// natural completion race. Once completion has reported it, it is no longer
/// running, so neither a second completion nor reaping reports it again;
/// once reaping has reported it, it is no longer running, so a late
/// completion reports nothing. Reaping reports each process once.
pub proof fn lemma_one_terminal_event_per_process(s: Supervisor, id: Seq<char>, now: u64)
    requires
        s.wf(),
    ensures
        !has_id(without(s.running(), id), id),
        !has_id(expired(without(s.running(), id), now), id),
        has_id(expired(s.running(), now), id) ==> !has_id(remaining(s.running(), now), id),
        unique_ids(expired(s.running(), now)),
{
    lemma_without_not_has(s.running(), id, id);
    lemma_remaining_has(without(s.running(), id), now, id);
    lemma_remaining_unique(s.running(), now);
}

} // verus!
