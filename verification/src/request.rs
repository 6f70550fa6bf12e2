//! The requests and responses of the protocol: records shaped after
//! JSON-RPC 2.0 around the entities of the other modules.

use crate::json::JsonValue;
use crate::message::{Message, MessageRole, Part, TextPart};
use crate::method::RequestMethod;
use crate::task::Task;
use crate::text::owned;
use vstd::prelude::*;

verus! {

/// How a push notification authenticates itself.
#[derive(Debug, Clone, PartialEq)]
pub struct PushNotificationAuthenticationInfo {
    /// The authentication schemes that are supported, such as Basic or
    /// Bearer.
    pub schemes: Vec<String>,
    /// Credentials.
    pub credentials: Option<String>,
}

/// Where and how push notifications are sent.
#[derive(Debug, Clone, PartialEq)]
pub struct PushNotificationConfig {
    /// The URL to which the notifications are sent.
    pub url: String,
    /// How the notifications authenticate themselves.
    pub authentication: Option<PushNotificationAuthenticationInfo>,
    /// The identifier that the server gave the configuration.
    pub id: Option<String>,
    /// A token of the task or session.
    pub token: Option<String>,
}

/// How a message is to be handled.
#[derive(Debug, Clone, PartialEq)]
pub struct MessageSendConfiguration {
    /// The media types that the client accepts.
    pub accepted_output_modes: Vec<String>,
    /// Whether the server is to treat the request as blocking.
    pub blocking: Option<bool>,
    /// How many recent messages are to be returned.
    pub history_length: Option<i32>,
    /// Where notifications are sent while the client is disconnected.
    pub push_notification_config: Option<PushNotificationConfig>,
}

/// The parameters of a request that sends a message.
#[derive(Debug, Clone, PartialEq)]
pub struct SendMessageParams {
    /// The message.
    pub message: Message,
    /// How the message is to be handled.
    pub configuration: Option<MessageSendConfiguration>,
    /// Metadata of extensions.
    pub metadata: Option<JsonValue>,
}

/// A request that sends a message.
#[derive(Debug, Clone, PartialEq)]
pub struct SendMessageRequest {
    /// The method.
    pub method: RequestMethod,
    /// The parameters.
    pub params: SendMessageParams,
    /// The identifier of the request.
    pub id: String,
    /// The version of JSON-RPC: always `2.0`.
    pub jsonrpc: String,
}

impl SendMessageRequest {
    /// A request with the identifier `id` that sends one message, made of
    /// the one text part `text`.
    pub fn new(
        id: String,
        message_id: String,
        text: String,
        role: MessageRole,
        configuration: Option<MessageSendConfiguration>,
        metadata: Option<JsonValue>,
    ) -> (r: Self)
        ensures
            r.method == RequestMethod::MessageSend,
            r.id == id,
            r.jsonrpc@ == "2.0"@,
            r.params.configuration == configuration,
            r.params.metadata == metadata,
            r.params.message.kind@ == "message"@,
            r.params.message.message_id == message_id,
            r.params.message.role == role,
            r.params.message.parts@ == seq![Part::Text(TextPart { text, metadata: None })],
            r.params.message.context_id is None,
            r.params.message.extensions is None,
            r.params.message.metadata is None,
            r.params.message.reference_task_ids is None,
            r.params.message.task_id is None,
    {
        let mut parts: Vec<Part> = Vec::new();
        parts.push(Part::Text(TextPart { text, metadata: None }));
        Self {
            method: RequestMethod::MessageSend,
            params: SendMessageParams {
                message: Message {
                    kind: owned("message"),
                    message_id,
                    parts,
                    role,
                    context_id: None,
                    extensions: None,
                    metadata: None,
                    reference_task_ids: None,
                    task_id: None,
                },
                configuration,
                metadata,
            },
            id,
            jsonrpc: owned("2.0"),
        }
    }
}

/// What a request that sends a message returns.
#[derive(Debug, Clone, PartialEq)]
pub struct SendMessageResult {
    /// The identifier of the task.
    pub task_id: String,
    /// The identifier of the message.
    pub message_id: Option<String>,
    /// The identifier of the conversation.
    pub conversation_id: Option<String>,
}

/// The response to a request that sends a message.
#[derive(Debug, Clone, PartialEq)]
pub struct SendMessageResponse {
    /// The identifier of the request.
    pub id: String,
    /// The version of JSON-RPC: always `2.0`.
    pub jsonrpc: String,
    /// The result.
    pub result: SendMessageResult,
}

/// A request that sends a message and asks for a stream of events.
#[derive(Debug, Clone, PartialEq)]
pub struct SendStreamingMessageRequest {
    /// The method.
    pub method: RequestMethod,
    /// The parameters.
    pub params: SendMessageParams,
    /// The identifier of the request.
    pub id: String,
    /// The version of JSON-RPC: always `2.0`.
    pub jsonrpc: String,
}

/// A request for a task.
#[derive(Debug, Clone, PartialEq)]
pub struct GetTaskRequest {
    /// The method.
    pub method: RequestMethod,
    /// The parameters.
    pub params: GetTaskParams,
    /// The identifier of the request.
    pub id: String,
    /// The version of JSON-RPC: always `2.0`.
    pub jsonrpc: String,
}

impl GetTaskRequest {
    /// A request with the identifier `id` for the task `task_id`.
    pub fn new(id: String, task_id: String) -> (r: Self)
        ensures
            r.method == RequestMethod::TasksGet,
            r.params.task_id == task_id,
            r.id == id,
            r.jsonrpc@ == "2.0"@,
    {
        Self {
            method: RequestMethod::TasksGet,
            params: GetTaskParams { task_id },
            id,
            jsonrpc: owned("2.0"),
        }
    }
}

/// The parameters of a request for a task.
#[derive(Debug, Clone, PartialEq)]
pub struct GetTaskParams {
    /// The identifier of the task.
    pub task_id: String,
}

/// The response to a request for a task.
#[derive(Debug, Clone, PartialEq)]
pub struct GetTaskResponse {
    /// The identifier of the request.
    pub id: String,
    /// The version of JSON-RPC: always `2.0`.
    pub jsonrpc: String,
    /// The result.
    pub result: Task,
}

/// A request to cancel a task.
#[derive(Debug, Clone, PartialEq)]
pub struct CancelTaskRequest {
    /// The method.
    pub method: RequestMethod,
    /// The parameters.
    pub params: CancelTaskParams,
    /// The identifier of the request.
    pub id: String,
    /// The version of JSON-RPC: always `2.0`.
    pub jsonrpc: String,
}

impl CancelTaskRequest {
    /// A request with the identifier `id` to cancel the task `task_id`.
    pub fn new(id: String, task_id: String) -> (r: Self)
        ensures
            r.method == RequestMethod::TasksCancel,
            r.params.task_id == task_id,
            r.id == id,
            r.jsonrpc@ == "2.0"@,
    {
        Self {
            method: RequestMethod::TasksCancel,
            params: CancelTaskParams { task_id },
            id,
            jsonrpc: owned("2.0"),
        }
    }
}

/// The parameters of a request to cancel a task.
#[derive(Debug, Clone, PartialEq)]
pub struct CancelTaskParams {
    /// The identifier of the task.
    pub task_id: String,
}

/// The response to a request to cancel a task.
#[derive(Debug, Clone, PartialEq)]
pub struct CancelTaskResponse {
    /// The identifier of the request.
    pub id: String,
    /// The version of JSON-RPC: always `2.0`.
    pub jsonrpc: String,
    /// The result.
    pub result: Task,
}

/// A request to set a push notification configuration for a task.
#[derive(Debug, Clone, PartialEq)]
pub struct SetTaskPushNotificationConfigRequest {
    /// The method.
    pub method: RequestMethod,
    /// The parameters.
    pub params: SetTaskPushNotificationConfigParams,
    /// The identifier of the request.
    pub id: String,
    /// The version of JSON-RPC: always `2.0`.
    pub jsonrpc: String,
}

/// The parameters of a request to set a push notification configuration.
#[derive(Debug, Clone, PartialEq)]
pub struct SetTaskPushNotificationConfigParams {
    /// The identifier of the task.
    pub task_id: String,
    /// The configuration.
    pub config: PushNotificationConfig,
}

/// The response to a request to set a push notification configuration.
#[derive(Debug, Clone, PartialEq)]
pub struct SetTaskPushNotificationConfigResponse {
    /// The identifier of the request.
    pub id: String,
    /// The version of JSON-RPC: always `2.0`.
    pub jsonrpc: String,
    /// The result.
    pub result: PushNotificationConfigResult,
}

/// What setting a push notification configuration returns.
#[derive(Debug, Clone, PartialEq)]
pub struct PushNotificationConfigResult {
    /// The identifier of the task.
    pub task_id: String,
    /// The identifier of the push notification configuration.
    pub config_id: String,
}

/// A request for a push notification configuration of a task.
#[derive(Debug, Clone, PartialEq)]
pub struct GetTaskPushNotificationConfigRequest {
    /// The method.
    pub method: RequestMethod,
    /// The parameters.
    pub params: GetTaskPushNotificationConfigParams,
    /// The identifier of the request.
    pub id: String,
    /// The version of JSON-RPC: always `2.0`.
    pub jsonrpc: String,
}

/// The parameters of a request for a push notification configuration.
#[derive(Debug, Clone, PartialEq)]
pub struct GetTaskPushNotificationConfigParams {
    /// The identifier of the task.
    pub task_id: String,
    /// The identifier of the push notification configuration.
    pub config_id: String,
}

/// The response to a request for a push notification configuration.
#[derive(Debug, Clone, PartialEq)]
pub struct GetTaskPushNotificationConfigResponse {
    /// The identifier of the request.
    pub id: String,
    /// The version of JSON-RPC: always `2.0`.
    pub jsonrpc: String,
    /// The result.
    pub result: PushNotificationConfig,
}

/// A request to subscribe to a task again.
#[derive(Debug, Clone, PartialEq)]
pub struct TaskResubscriptionRequest {
    /// The method.
    pub method: RequestMethod,
    /// The parameters.
    pub params: TaskResubscriptionParams,
    /// The identifier of the request.
    pub id: String,
    /// The version of JSON-RPC: always `2.0`.
    pub jsonrpc: String,
}

/// The parameters of a request to subscribe to a task again.
#[derive(Debug, Clone, PartialEq)]
pub struct TaskResubscriptionParams {
    /// The identifier of the task.
    pub task_id: String,
}

/// The response to a request to subscribe to a task again.
#[derive(Debug, Clone, PartialEq)]
pub struct TaskResubscriptionResponse {
    /// The identifier of the request.
    pub id: String,
    /// The version of JSON-RPC: always `2.0`.
    pub jsonrpc: String,
    /// The result.
    pub result: Task,
}

/// A request for the push notification configurations of a task.
#[derive(Debug, Clone, PartialEq)]
pub struct ListTaskPushNotificationConfigRequest {
    /// The method.
    pub method: RequestMethod,
    /// The parameters.
    pub params: ListTaskPushNotificationConfigParams,
    /// The identifier of the request.
    pub id: String,
    /// The version of JSON-RPC: always `2.0`.
    pub jsonrpc: String,
}

/// The parameters of a request for the push notification configurations of a task.
#[derive(Debug, Clone, PartialEq)]
pub struct ListTaskPushNotificationConfigParams {
    /// The identifier of the task.
    pub task_id: String,
}

/// The response to a request for the push notification configurations of a task.
#[derive(Debug, Clone, PartialEq)]
pub struct ListTaskPushNotificationConfigResponse {
    /// The identifier of the request.
    pub id: String,
    /// The version of JSON-RPC: always `2.0`.
    pub jsonrpc: String,
    /// The result.
    pub result: Vec<PushNotificationConfigInfo>,
}

/// A push notification configuration in a list.
#[derive(Debug, Clone, PartialEq)]
pub struct PushNotificationConfigInfo {
    /// The identifier of the push notification configuration.
    pub config_id: String,
    /// The URL to which the notifications are sent.
    pub url: String,
}

/// A request to delete a push notification configuration of a task.
#[derive(Debug, Clone, PartialEq)]
pub struct DeleteTaskPushNotificationConfigRequest {
    /// The method.
    pub method: RequestMethod,
    /// The parameters.
    pub params: DeleteTaskPushNotificationConfigParams,
    /// The identifier of the request.
    pub id: String,
    /// The version of JSON-RPC: always `2.0`.
    pub jsonrpc: String,
}

/// The parameters of a request to delete a push notification configuration.
#[derive(Debug, Clone, PartialEq)]
pub struct DeleteTaskPushNotificationConfigParams {
    /// The identifier of the task.
    pub task_id: String,
    /// The identifier of the push notification configuration.
    pub config_id: String,
}

/// The response to a request to delete a push notification configuration.
#[derive(Debug, Clone, PartialEq)]
pub struct DeleteTaskPushNotificationConfigResponse {
    /// The identifier of the request.
    pub id: String,
    /// The version of JSON-RPC: always `2.0`.
    pub jsonrpc: String,
    /// The result.
    pub result: bool,
}

} // verus!
