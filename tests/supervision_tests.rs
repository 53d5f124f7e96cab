use agent_core::breaker::CircuitBreaker;
use agent_core::process::ProcessEvent;
use agent_core::status::{ItemKind, StatusBlock};
use agent_core::supervisor::{AdmissionError, Outcome, Supervisor, SupervisorLimits};

fn supervisor(max_branches: usize, threshold: u32) -> Supervisor {
    let limits = SupervisorLimits {
        max_concurrent_branches: max_branches,
        branch_max_turns: 50,
        max_turns: 5,
        branch_timeout_secs: 60,
        worker_timeout_secs: 300,
    };
    Supervisor::new(limits, CircuitBreaker::new(threshold, 30))
}

fn spawn(s: &mut Supervisor, ch: &str, id: &str, now: u64) -> Result<ProcessEvent, AdmissionError> {
    assert!(!s.is_running(id));
    s.spawn_branch(ch.to_string(), id.to_string(), format!("goal of {id}"), now)
}

#[test]
fn branch_limit_is_never_exceeded() {
    let mut s = supervisor(2, 5);
    assert!(spawn(&mut s, "c1", "b1", 0).is_ok());
    assert!(spawn(&mut s, "c1", "b2", 0).is_ok());
    assert_eq!(spawn(&mut s, "c1", "b3", 0).err(), Some(AdmissionError::ConcurrencyLimitReached));
    assert_eq!(s.running_branches("c1"), 2);
    assert!(!s.is_running("b3"));
    assert!(spawn(&mut s, "c2", "b4", 0).is_ok());
    assert_eq!(s.running_branches("c2"), 1);
}

#[test]
fn completed_branch_frees_its_slot() {
    let mut s = supervisor(1, 5);
    assert!(spawn(&mut s, "c1", "b1", 0).is_ok());
    assert_eq!(spawn(&mut s, "c1", "b2", 0).err(), Some(AdmissionError::ConcurrencyLimitReached));
    assert!(s.complete("b1", Outcome::Completed("ok".to_string()), 5).is_some());
    assert!(spawn(&mut s, "c1", "b2", 6).is_ok());
}

#[test]
fn workers_have_no_count_limit() {
    let mut s = supervisor(0, 5);
    for n in 0..10 {
        let id = format!("w{n}");
        assert!(s.spawn_worker(Some("c1".to_string()), id, "task".to_string(), 0).is_ok());
    }
    assert_eq!(s.running_processes().len(), 10);
    assert_eq!(spawn(&mut s, "c1", "b1", 0).err(), Some(AdmissionError::ConcurrencyLimitReached));
}

#[test]
fn started_event_describes_branch() {
    let mut s = supervisor(3, 5);
    match spawn(&mut s, "c1", "b1", 0) {
        Ok(ProcessEvent::BranchStarted { branch_id, channel_id, description }) => {
            assert_eq!(branch_id, "b1");
            assert_eq!(channel_id, "c1");
            assert_eq!(description, "goal of b1");
        }
        other => panic!("unexpected {other:?}"),
    }
    assert_eq!(s.running_processes()[0].deadline, 60);
    assert_eq!(s.running_processes()[0].max_turns, 50);
    assert!(s.spawn_worker(None, "w1".to_string(), "t".to_string(), 10).is_ok());
    assert_eq!(s.running_processes()[1].deadline, 310);
    assert_eq!(s.running_processes()[1].max_turns, 5);
}

#[test]
fn completion_after_timeout_emits_nothing() {
    let mut s = supervisor(3, 5);
    assert!(spawn(&mut s, "c1", "b1", 0).is_ok());
    assert!(s.reap_timeouts(59).is_empty());
    let reaped = s.reap_timeouts(60);
    assert_eq!(reaped.len(), 1);
    match &reaped[0] {
        ProcessEvent::BranchResult { branch_id, channel_id, conclusion } => {
            assert_eq!(branch_id, "b1");
            assert_eq!(channel_id, "c1");
            assert_eq!(conclusion, "timed out");
        }
        other => panic!("unexpected {other:?}"),
    }
    assert!(s.complete("b1", Outcome::Completed("late".to_string()), 61).is_none());
    assert!(s.reap_timeouts(1000).is_empty());
}

#[test]
fn timeout_after_completion_emits_nothing() {
    let mut s = supervisor(3, 5);
    assert!(s.spawn_worker(None, "w1".to_string(), "t".to_string(), 0).is_ok());
    match s.complete("w1", Outcome::Completed("result".to_string()), 10) {
        Some(ProcessEvent::WorkerComplete { worker_id, channel_id, result }) => {
            assert_eq!(worker_id, "w1");
            assert_eq!(channel_id, None);
            assert_eq!(result, "result");
        }
        other => panic!("unexpected {other:?}"),
    }
    assert!(s.reap_timeouts(10_000).is_empty());
    assert!(s.complete("w1", Outcome::Failed("again".to_string()), 11).is_none());
}

#[test]
fn failures_open_the_circuit_for_new_spawns() {
    let mut s = supervisor(5, 2);
    assert!(spawn(&mut s, "c1", "b1", 0).is_ok());
    assert!(spawn(&mut s, "c1", "b2", 0).is_ok());
    assert!(s.complete("b1", Outcome::Failed("model error".to_string()), 1).is_some());
    assert!(spawn(&mut s, "c1", "b3", 2).is_ok());
    assert!(s.complete("b2", Outcome::Failed("model error".to_string()), 3).is_some());
    assert_eq!(spawn(&mut s, "c1", "b4", 4).err(), Some(AdmissionError::CircuitOpen));
    assert_eq!(
        s.spawn_worker(None, "w1".to_string(), "t".to_string(), 4).err(),
        Some(AdmissionError::CircuitOpen)
    );
}

#[test]
fn budget_exhaustion_is_not_a_failure() {
    let mut s = supervisor(5, 1);
    assert!(spawn(&mut s, "c1", "b1", 0).is_ok());
    assert!(s.complete("b1", Outcome::BudgetExhausted("out of turns".to_string()), 1).is_some());
    assert_eq!(s.circuit_breaker().consecutive_failures, 0);
    assert!(spawn(&mut s, "c1", "b2", 2).is_ok());
}

#[test]
fn timeouts_count_as_failures() {
    let mut s = supervisor(5, 1);
    assert!(s.spawn_worker(None, "w1".to_string(), "t".to_string(), 0).is_ok());
    assert_eq!(s.reap_timeouts(300).len(), 1);
    assert_eq!(spawn(&mut s, "c1", "b1", 301).err(), Some(AdmissionError::CircuitOpen));
    s.tick_breaker(330);
    assert!(spawn(&mut s, "c1", "b1", 331).is_ok());
    assert_eq!(spawn(&mut s, "c1", "b2", 331).err(), Some(AdmissionError::CircuitOpen));
}

#[test]
fn status_block_tracks_worker_lifecycle() {
    let b = StatusBlock::new(10);
    let b = b.register_worker("w1".to_string(), "starting".to_string());
    let b = b.update_worker_status("w1", "searching".to_string());
    assert_eq!(b.active_workers().len(), 1);
    assert_eq!(b.active_workers()[0].status, "searching");
    let b = b.complete_worker("w1", "found it".to_string());
    assert!(b.active_workers().is_empty());
    assert_eq!(b.history().len(), 1);
    assert_eq!(b.history()[0].id, "w1");
    assert_eq!(b.history()[0].kind, ItemKind::Worker);
    assert_eq!(b.history()[0].summary, "found it");
}

#[test]
fn status_block_missing_ids_are_no_ops() {
    let b = StatusBlock::new(10);
    let b = b.update_worker_status("ghost", "x".to_string());
    let b = b.complete_worker("ghost", "x".to_string());
    let b = b.complete_branch("ghost", "x".to_string());
    assert!(b.active_workers().is_empty());
    assert!(b.history().is_empty());
}

#[test]
fn status_block_worker_never_both_active_and_completed() {
    let b = StatusBlock::new(4);
    let b = b.register_worker("w1".to_string(), "s".to_string());
    let b = b.complete_worker("w1", "r".to_string());
    let b = b.register_worker("w1".to_string(), "again".to_string());
    assert!(b.active_workers().is_empty());
    assert_eq!(b.history().len(), 1);
}

#[test]
fn status_block_history_is_bounded() {
    let mut b = StatusBlock::new(2);
    for n in 0..4 {
        b = b.register_branch(format!("b{n}"), "d".to_string());
        b = b.complete_branch(&format!("b{n}"), format!("c{n}"));
    }
    assert_eq!(b.history().len(), 2);
    assert_eq!(b.history()[0].id, "b2");
    assert_eq!(b.history()[1].id, "b3");
    assert!(b.active_branches().is_empty());
}

#[test]
fn status_block_branches_and_workers_are_separate() {
    let b = StatusBlock::new(5);
    let b = b.register_branch("p1".to_string(), "plan".to_string());
    let b = b.register_worker("p1".to_string(), "run".to_string());
    assert_eq!(b.active_branches().len(), 1);
    assert_eq!(b.active_workers().len(), 1);
    let b = b.register_branch("p1".to_string(), "dup".to_string());
    assert_eq!(b.active_branches().len(), 1);
    assert_eq!(b.active_branches()[0].description, "plan");
    let b = b.complete_branch("p1", "concluded".to_string());
    assert_eq!(b.active_workers().len(), 1);
    assert_eq!(b.history()[0].kind, ItemKind::Branch);
}

#[test]
fn supervisor_events_keep_status_block_current() {
    let mut s = supervisor(2, 5);
    let mut block = StatusBlock::new(8);
    let started = s.spawn_worker(Some("c1".to_string()), "w1".to_string(), "fetch".to_string(), 0).unwrap();
    block = block.apply_event(&started);
    assert_eq!(block.active_workers()[0].status, "fetch");
    let update = ProcessEvent::WorkerStatus {
        worker_id: "w1".to_string(),
        channel_id: Some("c1".to_string()),
        status: "reading".to_string(),
    };
    block = block.apply_event(&update);
    assert_eq!(block.active_workers()[0].status, "reading");
    let branch = spawn(&mut s, "c1", "b1", 0).unwrap();
    block = block.apply_event(&branch);
    assert_eq!(block.active_branches()[0].description, "goal of b1");

    let done = s.complete("w1", Outcome::Completed("42 rows".to_string()), 5).unwrap();
    block = block.apply_event(&done);
    assert!(block.active_workers().is_empty());
    for e in s.reap_timeouts(60) {
        block = block.apply_event(&e);
    }
    assert!(block.active_branches().is_empty());
    assert_eq!(block.history().len(), 2);
    assert_eq!(block.history()[0].summary, "42 rows");
    assert_eq!(block.history()[1].summary, "timed out");
    assert_eq!(block.history()[1].kind, ItemKind::Branch);
}
