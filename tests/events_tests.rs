use agent_core::bus::{EventBus, Received};
use agent_core::events::{
    api_event_type, forward_step, lagged_payload, to_api_event, ApiEvent, ForwardAction, Incoming,
};
use agent_core::process::{process_id_info, ProcessEvent, ProcessId};

fn typing(n: usize) -> ApiEvent {
    ApiEvent::TypingState {
        agent_id: "a".to_string(),
        channel_id: format!("c{n}"),
        is_typing: n % 2 == 0,
    }
}

fn channel_of(e: &ApiEvent) -> String {
    match e {
        ApiEvent::TypingState { channel_id, .. } => channel_id.clone(),
        _ => panic!("unexpected event kind"),
    }
}

#[test]
fn process_id_info_splits_each_kind() {
    assert_eq!(
        process_id_info(&ProcessId::Channel("c1".to_string())),
        ("channel".to_string(), "c1".to_string())
    );
    assert_eq!(
        process_id_info(&ProcessId::Branch("b7".to_string())),
        ("branch".to_string(), "b7".to_string())
    );
    assert_eq!(
        process_id_info(&ProcessId::Worker("w2".to_string())),
        ("worker".to_string(), "w2".to_string())
    );
}

#[test]
fn api_form_worker_started_keeps_fields() {
    let e = ProcessEvent::WorkerStarted {
        worker_id: "w1".to_string(),
        channel_id: Some("c1".to_string()),
        task: "search".to_string(),
    };
    let a = to_api_event(&"agent".to_string(), &e);
    match a {
        ApiEvent::WorkerStarted { agent_id, channel_id, worker_id, task } => {
            assert_eq!(agent_id, "agent");
            assert_eq!(channel_id, Some("c1".to_string()));
            assert_eq!(worker_id, "w1");
            assert_eq!(task, "search");
        }
        other => panic!("wrong api form: {other:?}"),
    }
}

#[test]
fn api_form_branch_result_to_branch_completed() {
    let e = ProcessEvent::BranchResult {
        branch_id: "b1".to_string(),
        channel_id: "c9".to_string(),
        conclusion: "done".to_string(),
    };
    let a = to_api_event(&"agent".to_string(), &e);
    assert_eq!(api_event_type(&a), "branch_completed");
    match a {
        ApiEvent::BranchCompleted { agent_id, channel_id, branch_id, conclusion } => {
            assert_eq!(agent_id, "agent");
            assert_eq!(channel_id, "c9");
            assert_eq!(branch_id, "b1");
            assert_eq!(conclusion, "done");
        }
        other => panic!("wrong api form: {other:?}"),
    }
}

#[test]
fn api_form_tool_started_splits_process_id() {
    let e = ProcessEvent::ToolStarted {
        process_id: ProcessId::Worker("w5".to_string()),
        channel_id: None,
        tool_name: "shell".to_string(),
    };
    match to_api_event(&"agent".to_string(), &e) {
        ApiEvent::ToolStarted { agent_id, channel_id, process_type, process_id, tool_name } => {
            assert_eq!(agent_id, "agent");
            assert_eq!(channel_id, None);
            assert_eq!(process_type, "worker");
            assert_eq!(process_id, "w5");
            assert_eq!(tool_name, "shell");
        }
        other => panic!("wrong api form: {other:?}"),
    }
}

#[test]
fn api_form_worker_status_and_tool_completed() {
    let s = ProcessEvent::WorkerStatus {
        worker_id: "w1".to_string(),
        channel_id: None,
        status: "thinking".to_string(),
    };
    let a = to_api_event(&"x".to_string(), &s);
    assert_eq!(api_event_type(&a), "worker_status");
    let t = ProcessEvent::ToolCompleted {
        process_id: ProcessId::Branch("b2".to_string()),
        channel_id: Some("c".to_string()),
        tool_name: "recall".to_string(),
    };
    match to_api_event(&"x".to_string(), &t) {
        ApiEvent::ToolCompleted { process_type, process_id, .. } => {
            assert_eq!(process_type, "branch");
            assert_eq!(process_id, "b2");
        }
        other => panic!("wrong api form: {other:?}"),
    }
}

#[test]
fn event_type_names() {
    assert_eq!(api_event_type(&typing(0)), "typing_state");
    let inbound = ApiEvent::InboundMessage {
        agent_id: "a".to_string(),
        channel_id: "c".to_string(),
        sender_id: "s".to_string(),
        text: "hi".to_string(),
    };
    assert_eq!(api_event_type(&inbound), "inbound_message");
    let outbound = ApiEvent::OutboundMessage {
        agent_id: "a".to_string(),
        channel_id: "c".to_string(),
        text: "hi".to_string(),
    };
    assert_eq!(api_event_type(&outbound), "outbound_message");
}

#[test]
fn lagged_payload_carries_count() {
    assert_eq!(lagged_payload(0), "{\"skipped\":0}");
    assert_eq!(lagged_payload(42), "{\"skipped\":42}");
    assert_eq!(lagged_payload(u64::MAX), "{\"skipped\":18446744073709551615}");
}

#[test]
fn forward_step_actions() {
    let agent = "agent".to_string();
    let e = ProcessEvent::BranchStarted {
        branch_id: "b".to_string(),
        channel_id: "c".to_string(),
        description: "d".to_string(),
    };
    match forward_step(&agent, &Incoming::Event(e)) {
        ForwardAction::Publish(a) => assert_eq!(api_event_type(&a), "branch_started"),
        other => panic!("expected publish, got {other:?}"),
    }
    assert!(matches!(forward_step(&agent, &Incoming::Lagged(3)), ForwardAction::Continue));
    assert!(matches!(forward_step(&agent, &Incoming::Closed), ForwardAction::Stop));
}

#[test]
fn lagging_subscriber_gets_one_marker_then_events_in_order() {
    let mut bus = EventBus::new(3);
    let mut sub = bus.subscribe();
    for n in 0..5 {
        bus.publish(typing(n));
    }
    match bus.recv(&mut sub) {
        Received::Lagged(n) => assert_eq!(n, 2),
        other => panic!("expected lag marker, got {other:?}"),
    }
    for n in 2..5 {
        match bus.recv(&mut sub) {
            Received::Event(e) => assert_eq!(channel_of(&e), format!("c{n}")),
            other => panic!("expected event, got {other:?}"),
        }
    }
    assert!(matches!(bus.recv(&mut sub), Received::Empty));
    bus.publish(typing(5));
    match bus.recv(&mut sub) {
        Received::Event(e) => assert_eq!(channel_of(&e), "c5"),
        other => panic!("expected event, got {other:?}"),
    }
    bus.close();
    assert!(matches!(bus.recv(&mut sub), Received::Closed));
}

#[test]
fn subscriber_keeping_up_never_lags() {
    let mut bus = EventBus::new(2);
    let mut sub = bus.subscribe();
    for n in 0..6 {
        bus.publish(typing(n));
        match bus.recv(&mut sub) {
            Received::Event(e) => assert_eq!(channel_of(&e), format!("c{n}")),
            other => panic!("expected event, got {other:?}"),
        }
    }
    assert_eq!(bus.published_count(), 6);
}

#[test]
fn late_subscriber_sees_only_new_events() {
    let mut bus = EventBus::new(4);
    bus.publish(typing(0));
    let mut sub = bus.subscribe();
    assert!(matches!(bus.recv(&mut sub), Received::Empty));
    bus.publish(typing(1));
    match bus.recv(&mut sub) {
        Received::Event(e) => assert_eq!(channel_of(&e), "c1"),
        other => panic!("expected event, got {other:?}"),
    }
}
