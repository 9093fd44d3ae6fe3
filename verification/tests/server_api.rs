use openwarp::ai_client::{
    AIClient, AmbientAgentTaskId, AmbientAgentTaskState, DisabledAIClient, TaskListFilter,
};
use openwarp::code_review::{
    map_retrieval_outcome, DiffMode, FileInvalidationError, FileInvalidationTask,
};
use openwarp::git::GitExecTarget;
use openwarp::hydrator::{AgentRunEvent, MessageHydrator};
use openwarp::server_api::{ServerApi, ServerApiProvider};
use std::sync::Arc;

#[test]
fn disabled_client_refuses_every_call() {
    let client = DisabledAIClient;
    let err = client
        .list_ambient_agent_tasks(10, TaskListFilter::empty())
        .err()
        .expect("listing must fail");
    assert_eq!(
        err.message,
        "listing ambient agent tasks is disabled in this build - no cloud backend"
    );
    let id = AmbientAgentTaskId { id: "task-1".to_string() };
    let err = client.get_ambient_agent_task(&id).err().expect("fetch must fail");
    assert_eq!(
        err.message,
        "fetching ambient agent tasks is disabled in this build - no cloud backend"
    );
    let err = client
        .update_event_sequence_on_server("run-1", 42)
        .err()
        .expect("update must fail");
    assert_eq!(
        err.message,
        "persisting event cursors to the server is disabled in this build - no cloud backend"
    );
    let err = client.read_agent_message("m-1").err().expect("read must fail");
    assert_eq!(
        err.message,
        "reading agent messages is disabled in this build - no cloud backend"
    );
}

#[test]
fn task_list_filter_with_states_is_refused_too() {
    let filter = TaskListFilter {
        states: Some(vec![AmbientAgentTaskState { name: "running".to_string() }]),
        ancestor_run_id: Some("run-0".to_string()),
    };
    assert!(DisabledAIClient.list_ambient_agent_tasks(5, filter).is_err());
}

#[test]
fn provider_hands_out_the_disabled_api() {
    let provider = ServerApiProvider::new_for_test();
    let api = provider.get();
    let err = api
        .stream_agent_events("children of run-1", 0)
        .err()
        .expect("streaming must fail");
    assert_eq!(
        err.message,
        "agent event streaming (children of run-1) is disabled in this build - no cloud RTC endpoint"
    );
    let client = provider.get_ai_client();
    assert!(client.read_agent_message("m").is_err());
    let client = api.ai_client();
    assert!(client.update_event_sequence_on_server("r", 1).is_err());
    let _ = ServerApiProvider::new_disabled();
}

#[test]
fn hydrator_yields_nothing() {
    let event = AgentRunEvent {
        event_type: "new_message".to_string(),
        run_id: "run-1".to_string(),
    };
    let disabled = MessageHydrator::disabled();
    assert!(disabled.hydrate_event_for_recipient(&event, "run-1").is_none());
    assert!(disabled.hydrate_event_for_recipient(&event, "run-2").is_none());
    let with_client = MessageHydrator::new(Arc::new(DisabledAIClient));
    assert!(with_client.hydrate_event_for_recipient(&event, "run-1").is_none());
    let for_task = MessageHydrator::for_task(
        Arc::new(ServerApi::new_disabled()),
        AmbientAgentTaskId { id: "t".to_string() },
    );
    assert!(for_task
        .mark_messages_delivered_best_effort(&["m-1", "m-2"])
        .is_empty());
}

#[test]
fn file_invalidation_copies_its_task() {
    let task = FileInvalidationTask {
        file: "src/main.rs".to_string(),
        exec_target: GitExecTarget::local("/repo".to_string()),
        mode: DiffMode::OtherBranch("main".to_string()),
        merge_base: Some("abc123".to_string()),
    };
    let request = task.run();
    assert_eq!(request.file, "src/main.rs");
    assert_eq!(request.exec_target.repo_path(), "/repo");
    assert!(matches!(request.mode, DiffMode::OtherBranch(ref b) if b == "main"));
    assert_eq!(request.merge_base.as_deref(), Some("abc123"));
    let err = FileInvalidationError { message: "git failed".to_string() };
    assert!(err.is_transient());
}

#[test]
fn retrieval_outcomes_become_task_results() {
    let ok: Result<(String, Option<u32>), String> = Ok(("a.rs".to_string(), Some(3)));
    match map_retrieval_outcome(ok) {
        Ok((file, diff)) => {
            assert_eq!(file, "a.rs");
            assert_eq!(diff, Some(3));
        }
        Err(_) => panic!("a retrieved diff must pass"),
    }
    let failed: Result<u32, String> = Err("git diff failed".to_string());
    match map_retrieval_outcome(failed) {
        Err(e) => {
            assert_eq!(e.message, "git diff failed");
            assert!(e.is_transient());
        }
        Ok(_) => panic!("a failure must stay a failure"),
    }
}
