//! The AI client surface that the orchestration event streamer and the child
//! tracker call, with the request and response types it mentions, and the
//! client this build runs with: it has no cloud backend, so every call fails.
use vstd::prelude::*;

verus! {

/// The identifier of an ambient agent task.
pub struct AmbientAgentTaskId {
    pub id: String,
}

/// The state of an ambient agent task, by the name the server gives it.
pub struct AmbientAgentTaskState {
    pub name: String,
}

/// An ambient agent task as the server reports it.
pub struct AmbientAgentTask {
    pub task_id: AmbientAgentTaskId,
    pub state: AmbientAgentTaskState,
}

/// Filter parameters for listing ambient agent tasks: only the fields the
/// orchestration streamer sets.
pub struct TaskListFilter {
    pub states: Option<Vec<AmbientAgentTaskState>>,
    pub ancestor_run_id: Option<String>,
}

impl TaskListFilter {
    /// The filter that lets every task through.
    pub fn empty() -> (r: TaskListFilter)
        ensures
            r.states is None,
            r.ancestor_run_id is None,
    {
        TaskListFilter { states: None, ancestor_run_id: None }
    }
}

/// A message that one agent run sent to another, as the server returns it.
pub struct ReadAgentMessageResponse {
    pub message_id: String,
    pub sender_run_id: String,
    pub subject: String,
    pub body: String,
    pub sent_at: String,
    pub delivered_at: Option<String>,
    pub read_at: Option<String>,
}

/// Why a call of the AI client failed.
pub struct AIClientError {
    pub message: String,
}

/// The calls that the orchestration event streamer and the child tracker make
/// of the cloud AI backend.
pub trait AIClient {
    fn list_ambient_agent_tasks(&self, limit: i32, filter: TaskListFilter) -> Result<
        Vec<AmbientAgentTask>,
        AIClientError,
    >;

    fn get_ambient_agent_task(&self, task_id: &AmbientAgentTaskId) -> Result<
        AmbientAgentTask,
        AIClientError,
    >;

    fn update_event_sequence_on_server(&self, run_id: &str, sequence: i64) -> Result<
        (),
        AIClientError,
    >;

    fn read_agent_message(&self, message_id: &str) -> Result<
        ReadAgentMessageResponse,
        AIClientError,
    >;
}

/// The AI client of this build: there is no cloud backend, so every call
/// fails with a message that names what was refused.
pub struct DisabledAIClient;

/// The failure of every listing of ambient agent tasks.
pub open spec fn list_tasks_refusal() -> Seq<char> {
    "listing ambient agent tasks is disabled in this build - no cloud backend"@
}

/// The failure of every fetch of an ambient agent task.
pub open spec fn get_task_refusal() -> Seq<char> {
    "fetching ambient agent tasks is disabled in this build - no cloud backend"@
}

/// The failure of every attempt to persist an event cursor.
pub open spec fn update_sequence_refusal() -> Seq<char> {
    "persisting event cursors to the server is disabled in this build - no cloud backend"@
}

/// The failure of every read of an agent message.
pub open spec fn read_message_refusal() -> Seq<char> {
    "reading agent messages is disabled in this build - no cloud backend"@
}

impl AIClient for DisabledAIClient {
    fn list_ambient_agent_tasks(&self, limit: i32, filter: TaskListFilter) -> (r: Result<
        Vec<AmbientAgentTask>,
        AIClientError,
    >)
        ensures
            r matches Err(e) && e.message@ == list_tasks_refusal(),
    {
        Err(
            AIClientError {
                message: "listing ambient agent tasks is disabled in this build - no cloud backend".to_owned(),
            },
        )
    }

    fn get_ambient_agent_task(&self, task_id: &AmbientAgentTaskId) -> (r: Result<
        AmbientAgentTask,
        AIClientError,
    >)
        ensures
            r matches Err(e) && e.message@ == get_task_refusal(),
    {
        Err(
            AIClientError {
                message: "fetching ambient agent tasks is disabled in this build - no cloud backend".to_owned(),
            },
        )
    }

    fn update_event_sequence_on_server(&self, run_id: &str, sequence: i64) -> (r: Result<
        (),
        AIClientError,
    >)
        ensures
            r matches Err(e) && e.message@ == update_sequence_refusal(),
    {
        Err(
            AIClientError {
                message: "persisting event cursors to the server is disabled in this build - no cloud backend".to_owned(),
            },
        )
    }

    fn read_agent_message(&self, message_id: &str) -> (r: Result<
        ReadAgentMessageResponse,
        AIClientError,
    >)
        ensures
            r matches Err(e) && e.message@ == read_message_refusal(),
    {
        Err(
            AIClientError {
                message: "reading agent messages is disabled in this build - no cloud backend".to_owned(),
            },
        )
    }
}

} // verus!
