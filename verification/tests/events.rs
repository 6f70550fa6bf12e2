use a2a_rs::{
    Artifact, Part, TaskArtifactUpdateEvent, TaskState, TaskStatus, TaskStatusUpdateEvent, TextPart,
};

fn err(text: &str) -> Result<(), String> {
    Err(text.to_string())
}

fn artifact() -> Artifact {
    Artifact {
        artifact_id: "artifact-123".to_string(),
        parts: vec![Part::Text(TextPart { text: "Generated content".to_string(), metadata: None })],
        description: None,
        extensions: None,
        metadata: None,
        name: Some("Generated Artifact".to_string()),
    }
}

fn status(state: TaskState) -> TaskStatus {
    TaskStatus { state, message: None, timestamp: None }
}

#[test]
fn artifact_event_flags() {
    let mut event =
        TaskArtifactUpdateEvent::new("task-456".to_string(), "context-789".to_string(), artifact());
    assert_eq!(event.kind, "artifact-update");
    assert_eq!(event.append, None);
    assert_eq!(event.last_chunk, None);
    assert_eq!(event.metadata, None);
    assert_eq!(event.validate(), Ok(()));
    assert!(!event.is_streaming_chunk());
    assert!(!event.is_final_chunk());

    event.append = Some(true);
    event.last_chunk = Some(true);
    assert_eq!(event.validate(), err("Artifact cannot both append and be the last chunk"));
    assert!(event.is_streaming_chunk());
    assert!(event.is_final_chunk());

    event.last_chunk = Some(false);
    assert_eq!(event.validate(), Ok(()));
    assert!(event.is_streaming_chunk());
    assert!(!event.is_final_chunk());

    event.append = None;
    event.last_chunk = Some(true);
    assert_eq!(event.validate(), Ok(()));
    assert!(event.is_streaming_chunk());
    assert!(event.is_final_chunk());

    event.append = Some(false);
    event.last_chunk = Some(false);
    assert_eq!(event.validate(), Ok(()));
    assert!(!event.is_streaming_chunk());
}

#[test]
fn artifact_event_rules_in_order() {
    let good = || {
        TaskArtifactUpdateEvent::new("task-456".to_string(), "context-789".to_string(), artifact())
    };
    let mut event = good();
    event.kind = "status-update".to_string();
    event.task_id = "".to_string();
    assert_eq!(event.validate(), err("TaskArtifactUpdateEvent kind must be 'artifact-update'"));
    let mut event = good();
    event.task_id = "".to_string();
    event.context_id = "".to_string();
    assert_eq!(event.validate(), err("Task ID cannot be empty"));
    let mut event = good();
    event.task_id = "task 1".to_string();
    assert_eq!(
        event.validate(),
        err("Task ID can only contain alphanumeric characters, hyphens, and underscores")
    );
    let mut event = good();
    event.context_id = "".to_string();
    event.artifact.parts = vec![];
    assert_eq!(event.validate(), err("Context ID cannot be empty"));
    let mut event = good();
    event.artifact.parts = vec![];
    event.append = Some(true);
    event.last_chunk = Some(true);
    assert_eq!(event.validate(), err("Artifact must contain at least one part"));
}

#[test]
fn status_event_final_needs_terminal_state() {
    for state in [
        TaskState::Completed,
        TaskState::Failed,
        TaskState::Canceled,
        TaskState::Rejected,
    ] {
        let event = TaskStatusUpdateEvent::new(
            "task-abc".to_string(),
            "ctx-def".to_string(),
            status(state),
            true,
        );
        assert_eq!(event.kind, "status-update");
        assert_eq!(event.validate(), Ok(()));
        assert!(event.is_terminal_state());
        assert!(event.is_final_event());
    }
    for state in [
        TaskState::Submitted,
        TaskState::Working,
        TaskState::InputRequired,
        TaskState::AuthRequired,
        TaskState::Unknown,
    ] {
        let event = TaskStatusUpdateEvent::new(
            "task-abc".to_string(),
            "ctx-def".to_string(),
            status(state),
            true,
        );
        assert_eq!(
            event.validate(),
            err("Final status update events must have terminal task states")
        );
        assert!(!event.is_terminal_state());
        let event = TaskStatusUpdateEvent::new(
            "task-abc".to_string(),
            "ctx-def".to_string(),
            status(state),
            false,
        );
        assert_eq!(event.validate(), Ok(()));
        assert!(!event.is_final_event());
    }
}

#[test]
fn status_event_rules_in_order() {
    let good = || {
        TaskStatusUpdateEvent::new(
            "task-abc".to_string(),
            "ctx-def".to_string(),
            status(TaskState::Working),
            true,
        )
    };
    let mut event = good();
    event.kind = "artifact-update".to_string();
    assert_eq!(event.validate(), err("TaskStatusUpdateEvent kind must be 'status-update'"));
    let mut event = good();
    event.task_id = "a".repeat(256);
    assert_eq!(event.validate(), err("Task ID is too long (max 255 characters)"));
    let mut event = good();
    event.context_id = "".to_string();
    assert_eq!(event.validate(), err("Context ID cannot be empty"));
}
