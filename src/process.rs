//! Process identity, internal process events and their external shape.

use vstd::prelude::*;

verus! {

/// Identifies the unit of agent work that an event concerns.
#[derive(Debug, Clone, PartialEq, Eq, Hash)]
pub enum ProcessId {
    Channel(String),
    Branch(String),
    Worker(String),
}

impl ProcessId {
    /// The opaque identifier carried by the variant.
    pub open spec fn id_view(&self) -> Seq<char> {
        match self {
            ProcessId::Channel(s) => s@,
            ProcessId::Branch(s) => s@,
            ProcessId::Worker(s) => s@,
        }
    }

    /// The external name of the variant.
    pub open spec fn kind_name(&self) -> Seq<char> {
        match self {
            ProcessId::Channel(_) => "channel"@,
            ProcessId::Branch(_) => "branch"@,
            ProcessId::Worker(_) => "worker"@,
        }
    }
}

/// Splits a process identifier into its external type name and its id.
pub fn process_id_info(id: &ProcessId) -> (r: (String, String))
    ensures
        r.0@ == id.kind_name(),
        r.1@ == id.id_view(),
{
    match id {
        ProcessId::Channel(channel_id) => (String::from_str("channel"), channel_id.clone()),
        ProcessId::Branch(branch_id) => (String::from_str("branch"), branch_id.clone()),
        ProcessId::Worker(worker_id) => (String::from_str("worker"), worker_id.clone()),
    }
}

/// The view of an optional identifier.
pub open spec fn opt_view(o: Option<String>) -> Option<Seq<char>> {
    match o {
        Some(s) => Some(s@),
        None => None,
    }
}

/// Copies an optional identifier.
pub fn clone_opt(o: &Option<String>) -> (r: Option<String>)
    ensures
        r == *o,
        opt_view(r) == opt_view(*o),
{
    match o {
        Some(s) => Some(s.clone()),
        None => None,
    }
}

/// Lifecycle and activity events produced inside an agent.
#[derive(Debug, Clone)]
pub enum ProcessEvent {
    WorkerStarted { worker_id: String, channel_id: Option<String>, task: String },
    WorkerStatus { worker_id: String, channel_id: Option<String>, status: String },
    WorkerComplete { worker_id: String, channel_id: Option<String>, result: String },
    BranchStarted { branch_id: String, channel_id: String, description: String },
    BranchResult { branch_id: String, channel_id: String, conclusion: String },
    ToolStarted { process_id: ProcessId, channel_id: Option<String>, tool_name: String },
    ToolCompleted { process_id: ProcessId, channel_id: Option<String>, tool_name: String },
}

impl ProcessEvent {
    /// Whether the event ends the life of a Branch or a Worker.
    pub open spec fn is_terminal(&self) -> bool {
        match self {
            ProcessEvent::WorkerComplete { .. } => true,
            ProcessEvent::BranchResult { .. } => true,
            _ => false,
        }
    }
}

} // verus!
