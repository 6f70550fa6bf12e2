//! Tasks and their states.

use crate::json::JsonValue;
use crate::message::{Message, Part};
use vstd::prelude::*;

verus! {

/// The states that a task can be in.
#[derive(Debug, Clone, Copy, PartialEq, Eq, Structural)]
pub enum TaskState {
    Submitted,
    Working,
    InputRequired,
    Completed,
    Canceled,
    Failed,
    Rejected,
    AuthRequired,
    Unknown,
}

impl TaskState {
    /// A terminal state has no outgoing transition.
    pub open spec fn terminal(self) -> bool {
        self is Completed || self is Failed || self is Canceled || self is Rejected
    }

    /// Whether the state is terminal.
    pub fn is_terminal(&self) -> (r: bool)
        ensures
            r == self.terminal(),
    {
        match self {
            TaskState::Completed
            | TaskState::Failed
            | TaskState::Canceled
            | TaskState::Rejected => true,
            _ => false,
        }
    }

    /// The name of the state, as it is written in diagnostics.
    pub open spec fn label(self) -> Seq<char> {
        match self {
            TaskState::Submitted => "Submitted"@,
            TaskState::Working => "Working"@,
            TaskState::InputRequired => "InputRequired"@,
            TaskState::Completed => "Completed"@,
            TaskState::Canceled => "Canceled"@,
            TaskState::Failed => "Failed"@,
            TaskState::Rejected => "Rejected"@,
            TaskState::AuthRequired => "AuthRequired"@,
            TaskState::Unknown => "Unknown"@,
        }
    }

    /// The name of the state, as it is written in diagnostics.
    pub fn name(&self) -> (r: &'static str)
        ensures
            r@ == self.label(),
    {
        match self {
            TaskState::Submitted => "Submitted",
            TaskState::Working => "Working",
            TaskState::InputRequired => "InputRequired",
            TaskState::Completed => "Completed",
            TaskState::Canceled => "Canceled",
            TaskState::Failed => "Failed",
            TaskState::Rejected => "Rejected",
            TaskState::AuthRequired => "AuthRequired",
            TaskState::Unknown => "Unknown",
        }
    }
}

/// The state of a task with what accompanies it.
#[derive(Debug, Clone, PartialEq)]
pub struct TaskStatus {
    /// The state of the task.
    pub state: TaskState,
    /// A message for the client about the status.
    pub message: Option<Message>,
    /// When the status was recorded, as an ISO 8601 date and time.
    pub timestamp: Option<String>,
}

/// An error as a task records it.
#[derive(Debug, Clone, PartialEq)]
pub struct A2AErrorResponse {
    /// The code of the error.
    pub code: i32,
    /// The message of the error.
    pub message: String,
    /// More about the error.
    pub data: Option<JsonValue>,
}

/// Something that an agent made for a task.
#[derive(Debug, Clone, PartialEq)]
pub struct Artifact {
    /// The identifier of the artifact.
    pub artifact_id: String,
    /// The parts of the artifact.
    pub parts: Vec<Part>,
    /// A description of the artifact.
    pub description: Option<String>,
    /// The URIs of the extensions that contributed to the artifact.
    pub extensions: Option<Vec<String>>,
    /// Metadata of extensions.
    pub metadata: Option<JsonValue>,
    /// The name of the artifact.
    pub name: Option<String>,
}

/// A task.
#[derive(Debug, Clone, PartialEq)]
pub struct Task {
    /// The identifier of the task.
    pub id: String,
    /// The kind of the record: always `task`.
    pub kind: String,
    /// The status of the task.
    pub status: TaskStatus,
    /// The identifier that the server gave the context of the task.
    pub context_id: String,
    /// What the agent made for the task.
    pub artifacts: Option<Vec<Artifact>>,
    /// The messages of the task.
    pub history: Option<Vec<Message>>,
    /// Metadata of extensions.
    pub metadata: Option<JsonValue>,
    /// The result of the task, once it is completed.
    pub result: Option<JsonValue>,
    /// The error of the task, if it failed.
    pub error: Option<A2AErrorResponse>,
    /// When the task was created.
    pub created_at: Option<String>,
    /// When the task was last updated.
    pub updated_at: Option<String>,
    /// The statuses that the task went through.
    pub status_history: Option<Vec<TaskStatus>>,
}

/// Parameters that name a task and nothing else.
#[derive(Debug, Clone, PartialEq)]
pub struct TaskIdParams {
    /// The identifier of the task.
    pub id: String,
    /// Metadata of extensions.
    pub metadata: Option<JsonValue>,
}

} // verus!
