//! Data model and validation rules of the A2A (agent-to-agent) protocol:
//! messages, tasks, streamed events, agent cards and security schemes, the
//! lifecycle of a task, and the errors that an agent reports.
//!
//! The records are plain values. A `validate` reports the first rule that a
//! record breaks, in words; which rule that is, for every record, is stated
//! by the `verdict` beside it.

use vstd::prelude::*;

pub mod agent;
pub mod codec;
pub mod error;
pub mod event;
pub mod helpers;
pub mod json;
pub mod message;
pub mod method;
pub mod request;
pub mod security;
pub mod task;
pub mod text;
pub mod validation;

pub use agent::{
    AgentCapabilities, AgentCard, AgentExtension, AgentInterface, AgentProvider, AgentSkill,
};
pub use codec::fields::DecodeError;
pub use error::{
    A2AError, ContentTypeNotSupportedError, ErrorKind, InternalError,
    InvalidAgentResponseError, InvalidParamsError, InvalidRequestError, JSONParseError,
    MethodNotFoundError, PushNotificationNotSupportedError, TaskNotCancelableError,
    TaskNotFoundError, UnsupportedOperationError,
};
pub use event::{TaskArtifactUpdateEvent, TaskStatusUpdateEvent};
pub use json::{JsonMember, JsonNumber, JsonValue};
pub use message::{
    DataPart, FileContent, FilePart, FileWithBytes, FileWithUri, Message, MessageRole, Part,
    TextPart,
};
pub use method::RequestMethod;
pub use request::{
    CancelTaskParams, CancelTaskRequest, CancelTaskResponse,
    DeleteTaskPushNotificationConfigParams, DeleteTaskPushNotificationConfigRequest,
    DeleteTaskPushNotificationConfigResponse, GetTaskParams,
    GetTaskPushNotificationConfigParams, GetTaskPushNotificationConfigRequest,
    GetTaskPushNotificationConfigResponse, GetTaskRequest, GetTaskResponse,
    ListTaskPushNotificationConfigParams, ListTaskPushNotificationConfigRequest,
    ListTaskPushNotificationConfigResponse, MessageSendConfiguration,
    PushNotificationAuthenticationInfo, PushNotificationConfig, PushNotificationConfigInfo,
    PushNotificationConfigResult, SendMessageParams, SendMessageRequest, SendMessageResponse,
    SendMessageResult, SendStreamingMessageRequest, SetTaskPushNotificationConfigParams,
    SetTaskPushNotificationConfigRequest, SetTaskPushNotificationConfigResponse,
    TaskResubscriptionParams, TaskResubscriptionRequest, TaskResubscriptionResponse,
};
pub use security::{
    ApiKeyLocation, ApiKeySecurityScheme, AuthorizationCodeOAuthFlow,
    ClientCredentialsOAuthFlow, HttpSecurityScheme, ImplicitOAuthFlow, OAuth2Flows,
    OAuth2SecurityScheme, OpenIdConnectSecurityScheme, PasswordOAuthFlow, SecurityScheme,
    SecuritySchemeType,
};
pub use task::{A2AErrorResponse, Artifact, Task, TaskIdParams, TaskState, TaskStatus};
pub use validation::InvalidTransition;

verus! {

/// The version of the A2A protocol that this crate models.
pub const PROTOCOL_VERSION: &'static str = "0.2.5";

} // verus!
