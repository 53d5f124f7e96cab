//! Events in the externally stable shape, and how internal process events
//! map onto it.

use vstd::prelude::*;
use crate::process::{clone_opt, opt_view, process_id_info, ProcessEvent};

verus! {

/// Summary of an agent's configuration, exposed to outside consumers.
#[derive(Debug, Clone)]
pub struct AgentInfo {
    pub id: String,
    pub workspace: String,
    pub context_window: usize,
    pub max_turns: usize,
    pub max_concurrent_branches: usize,
}

/// Events sent to outside consumers; each carries the agent it comes from.
#[derive(Debug, Clone)]
#[allow(inconsistent_fields)]
pub enum ApiEvent {
    InboundMessage { agent_id: String, channel_id: String, sender_id: String, text: String },
    OutboundMessage { agent_id: String, channel_id: String, text: String },
    TypingState { agent_id: String, channel_id: String, is_typing: bool },
    WorkerStarted { agent_id: String, channel_id: Option<String>, worker_id: String, task: String },
    WorkerStatusUpdate {
        agent_id: String,
        channel_id: Option<String>,
        worker_id: String,
        status: String,
    },
    WorkerCompleted {
        agent_id: String,
        channel_id: Option<String>,
        worker_id: String,
        result: String,
    },
    BranchStarted { agent_id: String, channel_id: String, branch_id: String, description: String },
    BranchCompleted { agent_id: String, channel_id: String, branch_id: String, conclusion: String },
    ToolStarted {
        agent_id: String,
        channel_id: Option<String>,
        process_type: String,
        process_id: String,
        tool_name: String,
    },
    ToolCompleted {
        agent_id: String,
        channel_id: Option<String>,
        process_type: String,
        process_id: String,
        tool_name: String,
    },
}

/// The external type tag of each event kind.
pub open spec fn event_type_spec(e: ApiEvent) -> Seq<char> {
    match e {
        ApiEvent::InboundMessage { .. } => "inbound_message"@,
        ApiEvent::OutboundMessage { .. } => "outbound_message"@,
        ApiEvent::TypingState { .. } => "typing_state"@,
        ApiEvent::WorkerStarted { .. } => "worker_started"@,
        ApiEvent::WorkerStatusUpdate { .. } => "worker_status"@,
        ApiEvent::WorkerCompleted { .. } => "worker_completed"@,
        ApiEvent::BranchStarted { .. } => "branch_started"@,
        ApiEvent::BranchCompleted { .. } => "branch_completed"@,
        ApiEvent::ToolStarted { .. } => "tool_started"@,
        ApiEvent::ToolCompleted { .. } => "tool_completed"@,
    }
}

/// The agent that an event comes from.
pub open spec fn event_agent(e: ApiEvent) -> Seq<char> {
    match e {
        ApiEvent::InboundMessage { agent_id, .. } => agent_id@,
        ApiEvent::OutboundMessage { agent_id, .. } => agent_id@,
        ApiEvent::TypingState { agent_id, .. } => agent_id@,
        ApiEvent::WorkerStarted { agent_id, .. } => agent_id@,
        ApiEvent::WorkerStatusUpdate { agent_id, .. } => agent_id@,
        ApiEvent::WorkerCompleted { agent_id, .. } => agent_id@,
        ApiEvent::BranchStarted { agent_id, .. } => agent_id@,
        ApiEvent::BranchCompleted { agent_id, .. } => agent_id@,
        ApiEvent::ToolStarted { agent_id, .. } => agent_id@,
        ApiEvent::ToolCompleted { agent_id, .. } => agent_id@,
    }
}

/// The external type tag of an event, as used for stream framing.
pub fn api_event_type(e: &ApiEvent) -> (r: &'static str)
    ensures
        r@ == event_type_spec(*e),
{
    match e {
        ApiEvent::InboundMessage { .. } => "inbound_message",
        ApiEvent::OutboundMessage { .. } => "outbound_message",
        ApiEvent::TypingState { .. } => "typing_state",
        ApiEvent::WorkerStarted { .. } => "worker_started",
        ApiEvent::WorkerStatusUpdate { .. } => "worker_status",
        ApiEvent::WorkerCompleted { .. } => "worker_completed",
        ApiEvent::BranchStarted { .. } => "branch_started",
        ApiEvent::BranchCompleted { .. } => "branch_completed",
        ApiEvent::ToolStarted { .. } => "tool_started",
        ApiEvent::ToolCompleted { .. } => "tool_completed",
    }
}

/// `a` is the external form of the internal event `e` of agent `agent`:
/// every field is carried over, and a process id is split into its type
/// name and its id.
pub open spec fn is_api_form_of(agent: Seq<char>, e: ProcessEvent, a: ApiEvent) -> bool {
    match (e, a) {
        (
            ProcessEvent::WorkerStarted { worker_id, channel_id, task },
            ApiEvent::WorkerStarted { agent_id, channel_id: c, worker_id: w, task: t },
        ) => agent_id@ == agent && opt_view(c) == opt_view(channel_id) && w@ == worker_id@
            && t@ == task@,
        (
            ProcessEvent::WorkerStatus { worker_id, channel_id, status },
            ApiEvent::WorkerStatusUpdate { agent_id, channel_id: c, worker_id: w, status: s },
        ) => agent_id@ == agent && opt_view(c) == opt_view(channel_id) && w@ == worker_id@
            && s@ == status@,
        (
            ProcessEvent::WorkerComplete { worker_id, channel_id, result },
            ApiEvent::WorkerCompleted { agent_id, channel_id: c, worker_id: w, result: r },
        ) => agent_id@ == agent && opt_view(c) == opt_view(channel_id) && w@ == worker_id@
            && r@ == result@,
        (
            ProcessEvent::BranchStarted { branch_id, channel_id, description },
            ApiEvent::BranchStarted { agent_id, channel_id: c, branch_id: b, description: d },
        ) => agent_id@ == agent && c@ == channel_id@ && b@ == branch_id@ && d@ == description@,
        (
            ProcessEvent::BranchResult { branch_id, channel_id, conclusion },
            ApiEvent::BranchCompleted { agent_id, channel_id: c, branch_id: b, conclusion: k },
        ) => agent_id@ == agent && c@ == channel_id@ && b@ == branch_id@ && k@ == conclusion@,
        (
            ProcessEvent::ToolStarted { process_id, channel_id, tool_name },
            ApiEvent::ToolStarted { agent_id, channel_id: c, process_type, process_id: p, tool_name: n },
        ) => agent_id@ == agent && opt_view(c) == opt_view(channel_id)
            && process_type@ == process_id.kind_name() && p@ == process_id.id_view()
            && n@ == tool_name@,
        (
            ProcessEvent::ToolCompleted { process_id, channel_id, tool_name },
            ApiEvent::ToolCompleted {
                agent_id,
                channel_id: c,
                process_type,
                process_id: p,
                tool_name: n,
            },
        ) => agent_id@ == agent && opt_view(c) == opt_view(channel_id)
            && process_type@ == process_id.kind_name() && p@ == process_id.id_view()
            && n@ == tool_name@,
        _ => false,
    }
}

/// Converts an internal process event of agent `agent_id` into the shape
/// that outside consumers receive.
pub fn to_api_event(agent_id: &String, event: &ProcessEvent) -> (r: ApiEvent)
    ensures
        is_api_form_of(agent_id@, *event, r),
{
    match event {
        ProcessEvent::WorkerStarted { worker_id, channel_id, task } => ApiEvent::WorkerStarted {
            agent_id: agent_id.clone(),
            channel_id: clone_opt(channel_id),
            worker_id: worker_id.clone(),
            task: task.clone(),
        },
        ProcessEvent::WorkerStatus { worker_id, channel_id, status } => ApiEvent::WorkerStatusUpdate {
            agent_id: agent_id.clone(),
            channel_id: clone_opt(channel_id),
            worker_id: worker_id.clone(),
            status: status.clone(),
        },
        ProcessEvent::WorkerComplete { worker_id, channel_id, result } => ApiEvent::WorkerCompleted {
            agent_id: agent_id.clone(),
            channel_id: clone_opt(channel_id),
            worker_id: worker_id.clone(),
            result: result.clone(),
        },
        ProcessEvent::BranchStarted { branch_id, channel_id, description } => ApiEvent::BranchStarted {
            agent_id: agent_id.clone(),
            channel_id: channel_id.clone(),
            branch_id: branch_id.clone(),
            description: description.clone(),
        },
        ProcessEvent::BranchResult { branch_id, channel_id, conclusion } => ApiEvent::BranchCompleted {
            agent_id: agent_id.clone(),
            channel_id: channel_id.clone(),
            branch_id: branch_id.clone(),
            conclusion: conclusion.clone(),
        },
        ProcessEvent::ToolStarted { process_id, channel_id, tool_name } => {
            let (process_type, id_str) = process_id_info(process_id);
            ApiEvent::ToolStarted {
                agent_id: agent_id.clone(),
                channel_id: clone_opt(channel_id),
                process_type,
                process_id: id_str,
                tool_name: tool_name.clone(),
            }
        },
        ProcessEvent::ToolCompleted { process_id, channel_id, tool_name } => {
            let (process_type, id_str) = process_id_info(process_id);
            ApiEvent::ToolCompleted {
                agent_id: agent_id.clone(),
                channel_id: clone_opt(channel_id),
                process_type,
                process_id: id_str,
                tool_name: tool_name.clone(),
            }
        },
    }
}

/// The decimal text of one digit.
pub open spec fn digit_text(d: nat) -> Seq<char> {
    if d == 0 {
        "0"@
    } else if d == 1 {
        "1"@
    } else if d == 2 {
        "2"@
    } else if d == 3 {
        "3"@
    } else if d == 4 {
        "4"@
    } else if d == 5 {
        "5"@
    } else if d == 6 {
        "6"@
    } else if d == 7 {
        "7"@
    } else if d == 8 {
        "8"@
    } else {
        "9"@
    }
}

/// The decimal text of `n`, without leading zeros.
pub open spec fn decimal(n: nat) -> Seq<char>
    decreases n,
{
    if n < 10 {
        digit_text(n)
    } else {
        decimal(n / 10) + digit_text(n % 10)
    }
}

fn digit_str(d: u64) -> (r: &'static str)
    requires
        d < 10,
    ensures
        r@ == digit_text(d as nat),
{
    if d == 0 {
        "0"
    } else if d == 1 {
        "1"
    } else if d == 2 {
        "2"
    } else if d == 3 {
        "3"
    } else if d == 4 {
        "4"
    } else if d == 5 {
        "5"
    } else if d == 6 {
        "6"
    } else if d == 7 {
        "7"
    } else if d == 8 {
        "8"
    } else {
        "9"
    }
}

fn push_decimal(n: u64, out: &mut String)
    ensures
        final(out)@ == old(out)@ + decimal(n as nat),
    decreases n,
{
    if n >= 10 {
        push_decimal(n / 10, out);
    }
    out.append(digit_str(n % 10));
}

/// The payload of the marker that tells a lagging subscriber how many
/// events it missed: `{"skipped":N}`.
pub fn lagged_payload(skipped: u64) -> (r: String)
    ensures
        r@ == "{\"skipped\":"@ + decimal(skipped as nat) + "}"@,
{
    let mut out = String::from_str("{\"skipped\":");
    push_decimal(skipped, &mut out);
    out.append("}");
    out
}

/// What the forwarder of one agent's events reads from that agent.
#[derive(Debug, Clone)]
pub enum Incoming {
    /// The next internal event.
    Event(ProcessEvent),
    /// The forwarder fell behind and this many events were dropped for it.
    Lagged(u64),
    /// The agent's publisher is gone.
    Closed,
}

/// What the forwarder does with what it read.
#[derive(Debug, Clone)]
pub enum ForwardAction {
    /// Publish this event on the aggregated stream.
    Publish(ApiEvent),
    /// Keep reading.
    Continue,
    /// Stop forwarding.
    Stop,
}

/// One step of forwarding agent `agent_id`'s events into the aggregated
/// stream: events are converted and published, a lag is passed over (the
/// loss only affects observability), and a closed source ends the
/// forwarding.
pub fn forward_step(agent_id: &String, incoming: &Incoming) -> (r: ForwardAction)
    ensures
        match *incoming {
            Incoming::Event(e) => r matches ForwardAction::Publish(a) && is_api_form_of(agent_id@, e, a),
            Incoming::Lagged(_) => r is Continue,
            Incoming::Closed => r is Stop,
        },
{
    match incoming {
        Incoming::Event(e) => ForwardAction::Publish(to_api_event(agent_id, e)),
        Incoming::Lagged(_) => ForwardAction::Continue,
        Incoming::Closed => ForwardAction::Stop,
    }
}

} // verus!
