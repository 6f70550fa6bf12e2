//! The events that a server streams while it works on a task.

use crate::json::JsonValue;
use crate::task::{Artifact, TaskState, TaskStatus};
use crate::text::{outcome, owned, same_text};
use crate::validation::{task_id_verdict, validate_task_id};
use vstd::prelude::*;

verus! {

/// An update on an artifact of a task.
#[derive(Debug, Clone, PartialEq)]
pub struct TaskArtifactUpdateEvent {
    /// The kind of the record: always `artifact-update`.
    pub kind: String,
    /// The identifier of the task.
    pub task_id: String,
    /// The context that the task belongs to.
    pub context_id: String,
    /// The artifact.
    pub artifact: Artifact,
    /// Whether the artifact continues an earlier one.
    pub append: Option<bool>,
    /// Whether this is the last chunk of the artifact.
    pub last_chunk: Option<bool>,
    /// Metadata of extensions.
    pub metadata: Option<JsonValue>,
}

impl TaskArtifactUpdateEvent {
    /// The verdict on the event: the kind is `artifact-update`; the task
    /// identifier is valid; the context identifier is not empty; the
    /// artifact has a part; the event does not both append and end the
    /// artifact.
    pub open spec fn verdict(&self) -> Result<(), Seq<char>> {
        if self.kind@ != "artifact-update"@ {
            Err("TaskArtifactUpdateEvent kind must be 'artifact-update'"@)
        } else if task_id_verdict(self.task_id@) is Err {
            task_id_verdict(self.task_id@)
        } else if self.context_id@.len() == 0 {
            Err("Context ID cannot be empty"@)
        } else if self.artifact.parts@.len() == 0 {
            Err("Artifact must contain at least one part"@)
        } else if self.append == Some(true) && self.last_chunk == Some(true) {
            Err("Artifact cannot both append and be the last chunk"@)
        } else {
            Ok(())
        }
    }

    /// An event for `artifact` of the task `task_id`, with neither flag set.
    pub fn new(task_id: String, context_id: String, artifact: Artifact) -> (r: Self)
        ensures
            r.kind@ == "artifact-update"@,
            r.task_id == task_id,
            r.context_id == context_id,
            r.artifact == artifact,
            r.append is None,
            r.last_chunk is None,
            r.metadata is None,
    {
        Self {
            kind: owned("artifact-update"),
            task_id,
            context_id,
            artifact,
            append: None,
            last_chunk: None,
            metadata: None,
        }
    }

    /// Validates the event.
    pub fn validate(&self) -> (r: Result<(), String>)
        ensures
            outcome(r) == self.verdict(),
    {
        if !same_text(self.kind.as_str(), "artifact-update") {
            return Err(owned("TaskArtifactUpdateEvent kind must be 'artifact-update'"));
        }
        let r = validate_task_id(self.task_id.as_str());
        if r.is_err() {
            return r;
        }
        if self.context_id.as_str().is_empty() {
            return Err(owned("Context ID cannot be empty"));
        }
        if self.artifact.parts.len() == 0 {
            return Err(owned("Artifact must contain at least one part"));
        }
        match (self.append, self.last_chunk) {
            (Some(true), Some(true)) => Err(
                owned("Artifact cannot both append and be the last chunk"),
            ),
            _ => Ok(()),
        }
    }

    /// Whether the event is part of a streamed artifact: it appends or ends
    /// one.
    pub fn is_streaming_chunk(&self) -> (r: bool)
        ensures
            r == (self.append == Some(true) || self.last_chunk == Some(true)),
    {
        matches!(self.append, Some(true)) || matches!(self.last_chunk, Some(true))
    }

    /// Whether the event ends a streamed artifact.
    pub fn is_final_chunk(&self) -> (r: bool)
        ensures
            r == (self.last_chunk == Some(true)),
    {
        matches!(self.last_chunk, Some(true))
    }
}

/// An update on the status of a task.
#[derive(Debug, Clone, PartialEq)]
pub struct TaskStatusUpdateEvent {
    /// The kind of the record: always `status-update`.
    pub kind: String,
    /// The identifier of the task.
    pub task_id: String,
    /// The context that the task belongs to.
    pub context_id: String,
    /// The status of the task.
    pub status: TaskStatus,
    /// Whether the event ends the stream.
    pub final_event: bool,
    /// Metadata of extensions.
    pub metadata: Option<JsonValue>,
}

impl TaskStatusUpdateEvent {
    /// The verdict on the event: the kind is `status-update`; the task
    /// identifier is valid; the context identifier is not empty; an event
    /// that ends the stream holds a terminal state.
    pub open spec fn verdict(&self) -> Result<(), Seq<char>> {
        if self.kind@ != "status-update"@ {
            Err("TaskStatusUpdateEvent kind must be 'status-update'"@)
        } else if task_id_verdict(self.task_id@) is Err {
            task_id_verdict(self.task_id@)
        } else if self.context_id@.len() == 0 {
            Err("Context ID cannot be empty"@)
        } else if self.final_event && !self.status.state.terminal() {
            Err("Final status update events must have terminal task states"@)
        } else {
            Ok(())
        }
    }

    /// An event on the status of the task `task_id`.
    pub fn new(task_id: String, context_id: String, status: TaskStatus, final_event: bool) -> (r:
        Self)
        ensures
            r.kind@ == "status-update"@,
            r.task_id == task_id,
            r.context_id == context_id,
            r.status == status,
            r.final_event == final_event,
            r.metadata is None,
    {
        Self {
            kind: owned("status-update"),
            task_id,
            context_id,
            status,
            final_event,
            metadata: None,
        }
    }

    /// Validates the event.
    pub fn validate(&self) -> (r: Result<(), String>)
        ensures
            outcome(r) == self.verdict(),
    {
        if !same_text(self.kind.as_str(), "status-update") {
            return Err(owned("TaskStatusUpdateEvent kind must be 'status-update'"));
        }
        let r = validate_task_id(self.task_id.as_str());
        if r.is_err() {
            return r;
        }
        if self.context_id.as_str().is_empty() {
            return Err(owned("Context ID cannot be empty"));
        }
        if self.final_event && !self.status.state.is_terminal() {
            return Err(owned("Final status update events must have terminal task states"));
        }
        Ok(())
    }

    /// Whether the task has reached a terminal state.
    pub fn is_terminal_state(&self) -> (r: bool)
        ensures
            r == self.status.state.terminal(),
    {
        self.status.state.is_terminal()
    }

    /// Whether the event ends the stream.
    pub fn is_final_event(&self) -> (r: bool)
        ensures
            r == self.final_event,
    {
        self.final_event
    }
}

/// An event that both appends to an artifact and ends it fails validation,
/// whatever else it holds.
pub proof fn lemma_append_excludes_last_chunk(event: TaskArtifactUpdateEvent)
    requires
        event.append == Some(true),
        event.last_chunk == Some(true),
    ensures
        event.verdict() is Err,
{
}

/// An event that ends the stream in a state that is not terminal fails
/// validation, whatever else it holds.
pub proof fn lemma_final_event_needs_terminal_state(event: TaskStatusUpdateEvent)
    requires
        event.final_event,
        !event.status.state.terminal(),
    ensures
        event.verdict() is Err,
{
}

/// An event that passes validation and ends the stream holds a state that no
/// transition leaves.
pub proof fn lemma_valid_final_event_is_terminal(event: TaskStatusUpdateEvent, to: TaskState)
    requires
        event.verdict() is Ok,
        event.final_event,
    ensures
        !crate::validation::transition_allowed(event.status.state, to),
{
}

} // verus!
