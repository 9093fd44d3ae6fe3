//! Hydration of agent-to-agent messages. This build has no cloud mailbox: it
//! fetches no message bodies and sends no delivery receipts, so hydration
//! yields nothing and marking messages delivered fails for none of them.
use std::sync::Arc;

use vstd::prelude::*;

use crate::ai_client::{AIClient, AIClientError, AmbientAgentTaskId};
use crate::server_api::ServerApi;

verus! {

/// An event of an agent run, as far as hydration reads it.
pub struct AgentRunEvent {
    /// The kind of event, such as `new_message`.
    pub event_type: String,
    /// The run the event belongs to.
    pub run_id: String,
}

/// A message addressed to an agent run, with its body.
pub struct ReceivedMessageInput {
    pub message_id: String,
    pub sender_run_id: String,
    pub subject: String,
    pub body: String,
}

/// Turns message events into the messages they announce. In this build it
/// has no client and no side effects.
pub struct MessageHydrator;

impl MessageHydrator {
    /// A hydrator with no client.
    pub fn disabled() -> (r: MessageHydrator)
        ensures
            r == MessageHydrator,
    {
        MessageHydrator
    }

    /// A hydrator backed by `ai_client`, which this build does not use.
    pub fn new<C: AIClient>(ai_client: Arc<C>) -> (r: MessageHydrator)
        ensures
            r == MessageHydrator,
    {
        MessageHydrator
    }

    /// A hydrator scoped to the task `task_id` through `server_api`; this
    /// build uses neither.
    pub fn for_task(server_api: Arc<ServerApi>, task_id: AmbientAgentTaskId) -> (r:
        MessageHydrator)
        ensures
            r == MessageHydrator,
    {
        MessageHydrator
    }

    /// The message that `event` delivers to the run `recipient_run_id`: none
    /// in this build, whatever the event.
    pub fn hydrate_event_for_recipient(&self, event: &AgentRunEvent, recipient_run_id: &str) -> (r:
        Option<ReceivedMessageInput>)
        ensures
            r is None,
    {
        None
    }

    /// Marks the messages `message_ids` delivered, as far as possible, and
    /// returns each one that failed with its error: none in this build.
    pub fn mark_messages_delivered_best_effort(&self, message_ids: &[&str]) -> (r: Vec<
        (String, AIClientError),
    >)
        ensures
            r@.len() == 0,
    {
        Vec::new()
    }
}

} // verus!
