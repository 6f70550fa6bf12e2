use a2a_rs::helpers::{parse_request, serialize_response};
use std::time::Instant;
use a2a_rs::{
    A2AError, AgentCapabilities, AgentCard, AgentExtension, AgentProvider, AgentSkill,
    ApiKeyLocation, ApiKeySecurityScheme, Artifact, AuthorizationCodeOAuthFlow,
    ClientCredentialsOAuthFlow, ContentTypeNotSupportedError, DataPart, FileContent, FilePart,
    FileWithBytes, FileWithUri, ImplicitOAuthFlow, InternalError, InvalidAgentResponseError,
    InvalidParamsError, InvalidRequestError, JSONParseError, JsonMember, JsonNumber, JsonValue,
    Message, MessageRole, MessageSendConfiguration, MethodNotFoundError, Part, PasswordOAuthFlow,
    PushNotificationAuthenticationInfo, PushNotificationConfig,
    PushNotificationNotSupportedError, RequestMethod, SecurityScheme, SendMessageParams, Task,
    TaskArtifactUpdateEvent, TaskIdParams, TaskNotCancelableError, TaskNotFoundError, TaskState,
    TaskStatus, TaskStatusUpdateEvent, TextPart, UnsupportedOperationError,
};

fn object(members: Vec<(&str, JsonValue)>) -> JsonValue {
    JsonValue::Object(
        members
            .into_iter()
            .map(|(name, value)| JsonMember { name: name.to_string(), value })
            .collect(),
    )
}

fn string(text: &str) -> JsonValue {
    JsonValue::String(text.to_string())
}

fn at<'a>(value: &'a JsonValue, name: &str) -> &'a JsonValue {
    match value.get(name) {
        Some(found) => found,
        None => panic!("no member {}", name),
    }
}

fn item(value: &JsonValue, index: usize) -> &JsonValue {
    match value {
        JsonValue::Array(items) => &items[index],
        _ => panic!("no array"),
    }
}

fn text<'a>(value: &'a JsonValue, name: &str) -> &'a str {
    at(value, name).as_str().unwrap()
}

fn flag(value: &JsonValue, name: &str) -> bool {
    match at(value, name) {
        JsonValue::Bool(b) => *b,
        _ => panic!("no boolean"),
    }
}

fn to_text(value: &JsonValue) -> String {
    serialize_response(value).unwrap()
}

fn from_text(json: &str) -> JsonValue {
    parse_request(json).unwrap()
}

#[test]
fn test_request_method_serialization() {
    // Test MessageSend serialization and deserialization
    let method = RequestMethod::MessageSend;
    let serialized = to_text(&method.encode());
    assert_eq!(serialized, "\"message/send\"");

    let deserialized = RequestMethod::decode(&from_text("\"message/send\"")).unwrap();
    assert_eq!(deserialized, RequestMethod::MessageSend);

    // Test backward compatibility for MessageSend
    let deserialized = RequestMethod::decode(&from_text("\"sendMessage\"")).unwrap();
    assert_eq!(deserialized, RequestMethod::MessageSend);

    // Test TasksGet serialization and deserialization
    let method = RequestMethod::TasksGet;
    let serialized = to_text(&method.encode());
    assert_eq!(serialized, "\"tasks/get\"");

    let deserialized = RequestMethod::decode(&from_text("\"tasks/get\"")).unwrap();
    assert_eq!(deserialized, RequestMethod::TasksGet);

    // Test backward compatibility for TasksGet
    let deserialized = RequestMethod::decode(&from_text("\"getTask\"")).unwrap();
    assert_eq!(deserialized, RequestMethod::TasksGet);

    // Test TasksCancel serialization and deserialization
    let method = RequestMethod::TasksCancel;
    let serialized = to_text(&method.encode());
    assert_eq!(serialized, "\"tasks/cancel\"");

    let deserialized = RequestMethod::decode(&from_text("\"tasks/cancel\"")).unwrap();
    assert_eq!(deserialized, RequestMethod::TasksCancel);

    // Test backward compatibility for TasksCancel
    let deserialized = RequestMethod::decode(&from_text("\"cancelTask\"")).unwrap();
    assert_eq!(deserialized, RequestMethod::TasksCancel);

    // Test MessageStream serialization and deserialization
    let method = RequestMethod::MessageStream;
    let serialized = to_text(&method.encode());
    assert_eq!(serialized, "\"message/stream\"");

    let deserialized = RequestMethod::decode(&from_text("\"message/stream\"")).unwrap();
    assert_eq!(deserialized, RequestMethod::MessageStream);

    // Test TasksPushNotificationConfigSet serialization and deserialization
    let method = RequestMethod::TasksPushNotificationConfigSet;
    let serialized = to_text(&method.encode());
    assert_eq!(serialized, "\"tasks/pushNotificationConfig/set\"");

    let deserialized =
        RequestMethod::decode(&from_text("\"tasks/pushNotificationConfig/set\"")).unwrap();
    assert_eq!(deserialized, RequestMethod::TasksPushNotificationConfigSet);
}

#[test]
fn test_message_spec_compliance() {
    let message = Message {
        kind: "message".to_string(),
        message_id: "msg-123".to_string(),
        parts: vec![Part::Text(TextPart { text: "Hello, world!".to_string(), metadata: None })],
        role: MessageRole::User,
        context_id: Some("ctx-456".to_string()),
        extensions: None,
        metadata: None,
        reference_task_ids: None,
        task_id: Some("task-789".to_string()),
    };

    let json = message.encode();

    // Validate required fields
    assert_eq!(text(&json, "kind"), "message");
    assert_eq!(text(&json, "messageId"), "msg-123");
    assert_eq!(text(&json, "role"), "user");
    assert_eq!(text(&json, "contextId"), "ctx-456");
    assert_eq!(text(&json, "taskId"), "task-789");

    // Validate parts structure
    assert!(at(&json, "parts").is_array());
    assert_eq!(text(item(at(&json, "parts"), 0), "kind"), "text");
    assert_eq!(text(item(at(&json, "parts"), 0), "text"), "Hello, world!");

    // Test round-trip serialization
    let serialized = to_text(&message.encode());
    let deserialized = Message::decode(&from_text(&serialized)).unwrap();
    assert_eq!(message.kind, deserialized.kind);
    assert_eq!(message.message_id, deserialized.message_id);
    assert_eq!(message.role, deserialized.role);
}

#[test]
fn test_task_status_spec_compliance() {
    let message = Message {
        kind: "message".to_string(),
        message_id: "status-msg".to_string(),
        parts: vec![Part::Text(TextPart { text: "Task is working".to_string(), metadata: None })],
        role: MessageRole::Agent,
        context_id: None,
        extensions: None,
        metadata: None,
        reference_task_ids: None,
        task_id: None,
    };

    let task_status = TaskStatus {
        state: TaskState::Working,
        message: Some(message),
        timestamp: Some("2023-10-27T10:00:00Z".to_string()),
    };

    let json = task_status.encode();

    // Validate TaskState serialization uses kebab-case
    assert_eq!(text(&json, "state"), "working");
    assert_eq!(text(&json, "timestamp"), "2023-10-27T10:00:00Z");
    assert!(at(&json, "message").is_object());

    // Test all TaskState variants
    let states = vec![
        (TaskState::Submitted, "submitted"),
        (TaskState::Working, "working"),
        (TaskState::InputRequired, "input-required"),
        (TaskState::Completed, "completed"),
        (TaskState::Canceled, "canceled"),
        (TaskState::Failed, "failed"),
        (TaskState::Rejected, "rejected"),
        (TaskState::AuthRequired, "auth-required"),
        (TaskState::Unknown, "unknown"),
    ];

    for (state, expected_json) in states {
        let json = to_text(&state.encode());
        assert_eq!(json, format!("\"{}\"", expected_json));

        let deserialized = TaskState::decode(&from_text(&json)).unwrap();
        assert_eq!(std::mem::discriminant(&state), std::mem::discriminant(&deserialized));
    }
}

#[test]
fn test_agent_card_spec_compliance() {
    let agent_card = AgentCard::new(
        "Test Agent".to_string(),
        "A test agent for A2A protocol".to_string(),
        "1.0.0".to_string(),
        "https://example.com/agent".to_string(),
        AgentCapabilities {
            extensions: None,
            push_notifications: Some(true),
            state_transition_history: Some(true),
            streaming: Some(false),
        },
        vec!["text/plain".to_string(), "application/json".to_string()],
        vec!["text/plain".to_string(), "application/json".to_string()],
        vec![AgentSkill {
            name: "text_processing".to_string(),
            description: "Process and analyze text content".to_string(),
            input_modes: Some(vec!["text/plain".to_string()]),
            output_modes: Some(vec!["text/plain".to_string()]),
            examples: Some(vec![
                "Analyze this text".to_string(),
                "Summarize this document".to_string(),
            ]),
        }],
    );

    let json = agent_card.encode();

    // Validate camelCase field names
    assert_eq!(text(&json, "protocolVersion"), "0.2.5");
    assert_eq!(item(at(&json, "defaultInputModes"), 0).as_str(), Some("text/plain"));
    assert_eq!(item(at(&json, "defaultOutputModes"), 0).as_str(), Some("text/plain"));
    assert_eq!(flag(at(&json, "capabilities"), "pushNotifications"), true);
    assert_eq!(flag(at(&json, "capabilities"), "stateTransitionHistory"), true);
    assert_eq!(flag(at(&json, "capabilities"), "streaming"), false);

    // Validate skill structure
    let skill = item(at(&json, "skills"), 0);
    assert_eq!(item(at(skill, "inputModes"), 0).as_str(), Some("text/plain"));
    assert_eq!(item(at(skill, "outputModes"), 0).as_str(), Some("text/plain"));
    assert_eq!(item(at(skill, "examples"), 0).as_str(), Some("Analyze this text"));

    // Test round-trip serialization
    let serialized = to_text(&agent_card.encode());
    let deserialized = AgentCard::decode(&from_text(&serialized)).unwrap();
    assert_eq!(agent_card.name, deserialized.name);
    assert_eq!(agent_card.protocol_version, deserialized.protocol_version);
}

#[test]
fn test_message_send_params_spec_compliance() {
    let message = Message {
        kind: "message".to_string(),
        message_id: "msg-456".to_string(),
        parts: vec![Part::Text(TextPart { text: "Test message".to_string(), metadata: None })],
        role: MessageRole::User,
        context_id: None,
        extensions: None,
        metadata: None,
        reference_task_ids: None,
        task_id: None,
    };

    let send_params = SendMessageParams {
        message: message.clone(),
        configuration: Some(MessageSendConfiguration {
            accepted_output_modes: vec!["text/plain".to_string()],
            blocking: Some(true),
            history_length: Some(10),
            push_notification_config: Some(PushNotificationConfig {
                url: "https://example.com/webhook".to_string(),
                authentication: Some(PushNotificationAuthenticationInfo {
                    schemes: vec!["Bearer".to_string()],
                    credentials: Some("token123".to_string()),
                }),
                id: Some("webhook-1".to_string()),
                token: Some("session-token".to_string()),
            }),
        }),
        metadata: None,
    };

    let json = send_params.encode();

    // Validate camelCase field names
    let configuration = at(&json, "configuration");
    assert_eq!(item(at(configuration, "acceptedOutputModes"), 0).as_str(), Some("text/plain"));
    assert_eq!(at(configuration, "historyLength").as_i64(), Some(10));
    assert_eq!(
        text(at(configuration, "pushNotificationConfig"), "url"),
        "https://example.com/webhook"
    );

    // Test round-trip serialization
    let serialized = to_text(&send_params.encode());
    let deserialized = SendMessageParams::decode(&from_text(&serialized)).unwrap();
    assert_eq!(send_params.message.message_id, deserialized.message.message_id);
}

#[test]
fn test_part_variants_spec_compliance() {
    // Test TextPart
    let text_part = Part::Text(TextPart {
        text: "Hello world".to_string(),
        metadata: Some(object(vec![("source", string("user"))])),
    });

    let json = text_part.encode();
    assert_eq!(text(&json, "kind"), "text");
    assert_eq!(text(&json, "text"), "Hello world");
    assert_eq!(text(at(&json, "metadata"), "source"), "user");

    // Test FilePart with bytes
    let file_part = Part::File(FilePart {
        file: FileContent::WithBytes(FileWithBytes {
            bytes: "SGVsbG8gd29ybGQ=".to_string(), // "Hello world" in base64
            name: Some("test.txt".to_string()),
            mime_type: Some("text/plain".to_string()),
        }),
        metadata: None,
    });

    let json = file_part.encode();
    assert_eq!(text(&json, "kind"), "file");
    assert_eq!(text(at(&json, "file"), "bytes"), "SGVsbG8gd29ybGQ=");
    assert_eq!(text(at(&json, "file"), "name"), "test.txt");
    assert_eq!(text(at(&json, "file"), "mimeType"), "text/plain");

    // Test FilePart with URI
    let file_part_uri = Part::File(FilePart {
        file: FileContent::WithUri(FileWithUri {
            uri: "https://example.com/file.txt".to_string(),
            name: Some("remote.txt".to_string()),
            mime_type: Some("text/plain".to_string()),
        }),
        metadata: None,
    });

    let json = file_part_uri.encode();
    assert_eq!(text(&json, "kind"), "file");
    assert_eq!(text(at(&json, "file"), "uri"), "https://example.com/file.txt");

    // Test DataPart
    let data_part = Part::Data(DataPart {
        data: object(vec![
            ("key", string("value")),
            ("number", JsonValue::Number(JsonNumber::PosInt(42))),
        ]),
        metadata: None,
    });

    let json = data_part.encode();
    assert_eq!(text(&json, "kind"), "data");
    assert_eq!(text(at(&json, "data"), "key"), "value");
    assert_eq!(at(at(&json, "data"), "number").as_i64(), Some(42));
}

#[test]
fn test_push_notification_config_spec_compliance() {
    let config = PushNotificationConfig {
        url: "https://example.com/webhook".to_string(),
        authentication: Some(PushNotificationAuthenticationInfo {
            schemes: vec!["Bearer".to_string(), "Basic".to_string()],
            credentials: Some("secret-token".to_string()),
        }),
        id: Some("notification-1".to_string()),
        token: Some("session-abc123".to_string()),
    };

    let json = config.encode();

    // Validate structure
    assert_eq!(text(&json, "url"), "https://example.com/webhook");
    let authentication = at(&json, "authentication");
    assert_eq!(item(at(authentication, "schemes"), 0).as_str(), Some("Bearer"));
    assert_eq!(item(at(authentication, "schemes"), 1).as_str(), Some("Basic"));
    assert_eq!(text(authentication, "credentials"), "secret-token");
    assert_eq!(text(&json, "id"), "notification-1");
    assert_eq!(text(&json, "token"), "session-abc123");

    // Test round-trip serialization
    let serialized = to_text(&config.encode());
    let deserialized = PushNotificationConfig::decode(&from_text(&serialized)).unwrap();
    assert_eq!(config.url, deserialized.url);
    assert_eq!(config.id, deserialized.id);
    assert_eq!(config.token, deserialized.token);
}

#[test]
fn test_agent_provider_spec_compliance() {
    let provider = AgentProvider {
        organization: "Test Organization".to_string(),
        url: "https://test-org.com".to_string(),
    };

    let json = provider.encode();

    // Validate field names exactly
    assert_eq!(text(&json, "organization"), "Test Organization");
    assert_eq!(text(&json, "url"), "https://test-org.com");

    // Test round-trip serialization
    let serialized = to_text(&provider.encode());
    let deserialized = AgentProvider::decode(&from_text(&serialized)).unwrap();
    assert_eq!(provider.organization, deserialized.organization);
    assert_eq!(provider.url, deserialized.url);
}

#[test]
fn test_a2a_error_types_spec_compliance() {
    // Test TaskNotFoundError
    let task_not_found =
        TaskNotFoundError { code: -32001, message: "Task not found".to_string(), data: None };
    let serialized = to_text(&task_not_found.encode());
    let deserialized = TaskNotFoundError::decode(&from_text(&serialized)).unwrap();
    assert_eq!(deserialized.code, -32001);
    assert_eq!(deserialized.message, "Task not found");

    // Test InternalError
    let internal_error =
        InternalError { code: -32603, message: "Internal error".to_string(), data: None };
    let serialized = to_text(&internal_error.encode());
    let deserialized = InternalError::decode(&from_text(&serialized)).unwrap();
    assert_eq!(deserialized.code, -32603);
    assert_eq!(deserialized.message, "Internal error");

    // Test JSONParseError
    let json_parse_error =
        JSONParseError { code: -32700, message: "Invalid JSON payload".to_string(), data: None };
    let serialized = to_text(&json_parse_error.encode());
    let deserialized = JSONParseError::decode(&from_text(&serialized)).unwrap();
    assert_eq!(deserialized.code, -32700);
    assert_eq!(deserialized.message, "Invalid JSON payload");

    // Test A2AError union type
    let error = A2AError::TaskNotFound(TaskNotFoundError {
        code: -32001,
        message: "Task not found".to_string(),
        data: None,
    });
    let serialized = to_text(&error.encode());
    let deserialized = A2AError::decode(&from_text(&serialized)).unwrap();
    match deserialized {
        A2AError::TaskNotFound(e) => {
            assert_eq!(e.code, -32001);
            assert_eq!(e.message, "Task not found");
        },
        _ => panic!("Expected TaskNotFound error"),
    }
}

#[test]
fn test_oauth2_flows_spec_compliance() {
    // Test AuthorizationCodeOAuthFlow
    let auth_code_flow = AuthorizationCodeOAuthFlow {
        authorization_url: "https://example.com/auth".to_string(),
        token_url: "https://example.com/token".to_string(),
        refresh_url: Some("https://example.com/refresh".to_string()),
        scopes: vec![
            ("read".to_string(), "Read access".to_string()),
            ("write".to_string(), "Write access".to_string()),
        ],
    };

    let json = auth_code_flow.encode();
    assert_eq!(text(&json, "authorizationUrl"), "https://example.com/auth");
    assert_eq!(text(&json, "tokenUrl"), "https://example.com/token");
    assert_eq!(text(&json, "refreshUrl"), "https://example.com/refresh");
    assert_eq!(text(at(&json, "scopes"), "read"), "Read access");
    assert_eq!(text(at(&json, "scopes"), "write"), "Write access");

    // Test round-trip serialization
    let serialized = to_text(&auth_code_flow.encode());
    let deserialized = AuthorizationCodeOAuthFlow::decode(&from_text(&serialized)).unwrap();
    assert_eq!(auth_code_flow.authorization_url, deserialized.authorization_url);
    assert_eq!(auth_code_flow.token_url, deserialized.token_url);
    assert_eq!(auth_code_flow.refresh_url, deserialized.refresh_url);
    assert_eq!(auth_code_flow.scopes, deserialized.scopes);

    // Test PasswordOAuthFlow
    let password_flow = PasswordOAuthFlow {
        token_url: "https://example.com/token".to_string(),
        refresh_url: Some("https://example.com/refresh".to_string()),
        scopes: vec![("api".to_string(), "API access".to_string())],
    };

    let json = password_flow.encode();
    assert_eq!(text(&json, "tokenUrl"), "https://example.com/token");
    assert_eq!(text(&json, "refreshUrl"), "https://example.com/refresh");
    assert_eq!(text(at(&json, "scopes"), "api"), "API access");

    // Test ImplicitOAuthFlow
    let implicit_flow = ImplicitOAuthFlow {
        authorization_url: "https://example.com/auth".to_string(),
        refresh_url: None,
        scopes: vec![],
    };

    let json = implicit_flow.encode();
    assert_eq!(text(&json, "authorizationUrl"), "https://example.com/auth");
    assert!(json.get("refreshUrl").is_none());
    assert_eq!(at(&json, "scopes"), &JsonValue::Object(vec![]));

    // Test ClientCredentialsOAuthFlow
    let client_creds_flow = ClientCredentialsOAuthFlow {
        token_url: "https://example.com/token".to_string(),
        refresh_url: None,
        scopes: vec![],
    };

    let json = client_creds_flow.encode();
    assert_eq!(text(&json, "tokenUrl"), "https://example.com/token");
    assert!(json.get("refreshUrl").is_none());
}

#[test]
fn test_comprehensive_error_types_spec_compliance() {
    // Test all error types with their specific codes
    let test_cases = vec![
        (
            A2AError::JSONParse(JSONParseError {
                code: -32700,
                message: "Parse error".to_string(),
                data: None,
            }),
            -32700,
        ),
        (
            A2AError::InvalidRequest(InvalidRequestError {
                code: -32600,
                message: "Invalid Request".to_string(),
                data: None,
            }),
            -32600,
        ),
        (
            A2AError::MethodNotFound(MethodNotFoundError {
                code: -32601,
                message: "Method not found".to_string(),
                data: None,
            }),
            -32601,
        ),
        (
            A2AError::InvalidParams(InvalidParamsError {
                code: -32602,
                message: "Invalid params".to_string(),
                data: None,
            }),
            -32602,
        ),
        (
            A2AError::Internal(InternalError {
                code: -32603,
                message: "Internal error".to_string(),
                data: None,
            }),
            -32603,
        ),
        (
            A2AError::TaskNotFound(TaskNotFoundError {
                code: -32001,
                message: "Task not found".to_string(),
                data: None,
            }),
            -32001,
        ),
        (
            A2AError::TaskNotCancelable(TaskNotCancelableError {
                code: -32002,
                message: "Task not cancelable".to_string(),
                data: None,
            }),
            -32002,
        ),
        (
            A2AError::PushNotificationNotSupported(PushNotificationNotSupportedError {
                code: -32003,
                message: "Push notifications not supported".to_string(),
                data: None,
            }),
            -32003,
        ),
        (
            A2AError::UnsupportedOperation(UnsupportedOperationError {
                code: -32004,
                message: "Unsupported operation".to_string(),
                data: None,
            }),
            -32004,
        ),
        (
            A2AError::ContentTypeNotSupported(ContentTypeNotSupportedError {
                code: -32005,
                message: "Content type not supported".to_string(),
                data: None,
            }),
            -32005,
        ),
        (
            A2AError::InvalidAgentResponse(InvalidAgentResponseError {
                code: -32006,
                message: "Invalid agent response".to_string(),
                data: None,
            }),
            -32006,
        ),
    ];

    for (error, expected_code) in test_cases {
        // Test serialization
        let serialized = to_text(&error.encode());
        let json = from_text(&serialized);
        assert_eq!(at(&json, "code").as_i64().unwrap(), expected_code);

        // Test deserialization
        let deserialized = A2AError::decode(&from_text(&serialized)).unwrap();

        // Verify the error type matches
        match (&error, &deserialized) {
            (A2AError::JSONParse(_), A2AError::JSONParse(_)) => {},
            (A2AError::InvalidRequest(_), A2AError::InvalidRequest(_)) => {},
            (A2AError::MethodNotFound(_), A2AError::MethodNotFound(_)) => {},
            (A2AError::InvalidParams(_), A2AError::InvalidParams(_)) => {},
            (A2AError::Internal(_), A2AError::Internal(_)) => {},
            (A2AError::TaskNotFound(_), A2AError::TaskNotFound(_)) => {},
            (A2AError::TaskNotCancelable(_), A2AError::TaskNotCancelable(_)) => {},
            (
                A2AError::PushNotificationNotSupported(_),
                A2AError::PushNotificationNotSupported(_),
            ) => {},
            (A2AError::UnsupportedOperation(_), A2AError::UnsupportedOperation(_)) => {},
            (A2AError::ContentTypeNotSupported(_), A2AError::ContentTypeNotSupported(_)) => {},
            (A2AError::InvalidAgentResponse(_), A2AError::InvalidAgentResponse(_)) => {},
            _ => panic!("Error type mismatch during deserialization"),
        }
    }
}

#[test]
fn test_json_schema_examples_validation() {
    // Test with realistic JSON examples that match the schema

    // Test Message with all fields
    let message_json = r#"{
            "kind": "message",
            "messageId": "msg-123",
            "parts": [
                {
                    "kind": "text",
                    "text": "Hello, world!"
                }
            ],
            "role": "user",
            "contextId": "ctx-456",
            "taskId": "task-789"
        }"#;

    let message = Message::decode(&from_text(message_json)).unwrap();
    assert_eq!(message.message_id, "msg-123");
    assert_eq!(message.role, MessageRole::User);
    assert_eq!(message.context_id, Some("ctx-456".to_string()));
    assert_eq!(message.task_id, Some("task-789".to_string()));

    // Test round-trip
    let serialized = to_text(&message.encode());
    let deserialized = Message::decode(&from_text(&serialized)).unwrap();
    assert_eq!(message.message_id, deserialized.message_id);

    // Test AgentCard with comprehensive fields
    let agent_card_json = r#"{
            "name": "Test Agent",
            "description": "A comprehensive test agent",
            "version": "1.0.0",
            "protocolVersion": "0.2.5",
            "url": "https://example.com/agent",
            "capabilities": {
                "pushNotifications": true,
                "stateTransitionHistory": true,
                "streaming": false
            },
            "defaultInputModes": ["text/plain", "application/json"],
            "defaultOutputModes": ["text/plain", "application/json"],
            "skills": [
                {
                    "name": "text_processing",
                    "description": "Process text content",
                    "inputModes": ["text/plain"],
                    "outputModes": ["text/plain"],
                    "examples": ["Analyze this text"]
                }
            ]
        }"#;

    let agent_card = AgentCard::decode(&from_text(agent_card_json)).unwrap();
    assert_eq!(agent_card.name, "Test Agent");
    assert_eq!(agent_card.protocol_version, "0.2.5");
    assert_eq!(agent_card.capabilities.push_notifications, Some(true));
    assert_eq!(agent_card.skills.len(), 1);
    assert_eq!(agent_card.skills[0].name, "text_processing");
}

#[test]
fn test_performance_serialization_deserialization() {
    // Create a complex AgentCard for performance testing
    let agent_card = AgentCard::new(
        "Performance Test Agent".to_string(),
        "A complex agent for performance testing".to_string(),
        "1.0.0".to_string(),
        "https://example.com/agent".to_string(),
        AgentCapabilities {
            extensions: Some(vec![
                AgentExtension {
                    uri: "https://example.com/ext1".to_string(),
                    required: Some(true),
                    description: Some("Extension 1".to_string()),
                    params: Some(object(vec![("param1", string("value1"))])),
                },
                AgentExtension {
                    uri: "https://example.com/ext2".to_string(),
                    required: Some(false),
                    description: Some("Extension 2".to_string()),
                    params: Some(object(vec![("param2", string("value2"))])),
                },
            ]),
            push_notifications: Some(true),
            state_transition_history: Some(true),
            streaming: Some(true),
        },
        vec!["text/plain".to_string(), "application/json".to_string(), "image/png".to_string()],
        vec!["text/plain".to_string(), "application/json".to_string(), "image/png".to_string()],
        vec![
            AgentSkill {
                name: "text_processing".to_string(),
                description: "Advanced text processing capabilities".to_string(),
                input_modes: Some(vec!["text/plain".to_string(), "text/markdown".to_string()]),
                output_modes: Some(vec!["text/plain".to_string(), "text/html".to_string()]),
                examples: Some(vec![
                    "Analyze sentiment".to_string(),
                    "Extract entities".to_string(),
                    "Summarize content".to_string(),
                ]),
            },
            AgentSkill {
                name: "image_processing".to_string(),
                description: "Image analysis and processing".to_string(),
                input_modes: Some(vec!["image/png".to_string(), "image/jpeg".to_string()]),
                output_modes: Some(vec!["application/json".to_string()]),
                examples: Some(vec!["Detect objects".to_string(), "Extract text".to_string()]),
            },
        ],
    );

    // Performance test: Serialize 1000 times
    let start = Instant::now();
    for _ in 0..1000 {
        let _serialized = to_text(&agent_card.encode());
    }
    let serialize_duration = start.elapsed();

    // Performance test: Deserialize 1000 times
    let serialized = to_text(&agent_card.encode());
    let start = Instant::now();
    for _ in 0..1000 {
        let _deserialized = AgentCard::decode(&from_text(&serialized)).unwrap();
    }
    let deserialize_duration = start.elapsed();

    // Basic performance assertions (should complete within reasonable time)
    assert!(
        serialize_duration.as_millis() < 1000,
        "Serialization took too long: {:?}",
        serialize_duration
    );
    assert!(
        deserialize_duration.as_millis() < 1000,
        "Deserialization took too long: {:?}",
        deserialize_duration
    );

    println!("Performance test results:");
    println!("  Serialization (1000x): {:?}", serialize_duration);
    println!("  Deserialization (1000x): {:?}", deserialize_duration);
}

#[test]
fn test_security_scheme_spec_compliance() {
    // Test API Key security scheme
    let api_key_scheme = SecurityScheme::ApiKey(ApiKeySecurityScheme {
        type_: "apiKey".to_string(),
        in_: ApiKeyLocation::Header,
        name: "X-API-Key".to_string(),
        description: Some("API key authentication".to_string()),
    });

    let json = api_key_scheme.encode();
    assert_eq!(text(&json, "type"), "apiKey");
    assert_eq!(text(&json, "in"), "header");
    assert_eq!(text(&json, "name"), "X-API-Key");

    // Test round-trip serialization
    let serialized = to_text(&api_key_scheme.encode());
    let deserialized = SecurityScheme::decode(&from_text(&serialized)).unwrap();
    if let SecurityScheme::ApiKey(scheme) = deserialized {
        assert_eq!(scheme.name, "X-API-Key");
    } else {
        panic!("Expected ApiKey security scheme");
    }
}

#[test]
fn test_artifact_spec_compliance() {
    let artifact = Artifact {
        artifact_id: "artifact-123".to_string(),
        parts: vec![Part::Text(TextPart {
            text: "Generated content".to_string(),
            metadata: None,
        })],
        description: Some("Test artifact".to_string()),
        extensions: Some(vec!["https://example.com/extension".to_string()]),
        metadata: Some(object(vec![("source", string("agent"))])),
        name: Some("test-artifact.txt".to_string()),
    };

    let json = artifact.encode();

    // Validate required fields
    assert_eq!(text(&json, "artifactId"), "artifact-123");
    assert!(at(&json, "parts").is_array());
    assert_eq!(text(item(at(&json, "parts"), 0), "kind"), "text");
    assert_eq!(text(item(at(&json, "parts"), 0), "text"), "Generated content");

    // Validate optional fields
    assert_eq!(text(&json, "description"), "Test artifact");
    assert_eq!(item(at(&json, "extensions"), 0).as_str(), Some("https://example.com/extension"));
    assert_eq!(text(at(&json, "metadata"), "source"), "agent");
    assert_eq!(text(&json, "name"), "test-artifact.txt");

    // Test round-trip serialization
    let serialized = to_text(&artifact.encode());
    let deserialized = Artifact::decode(&from_text(&serialized)).unwrap();
    assert_eq!(artifact.artifact_id, deserialized.artifact_id);
    assert_eq!(artifact.parts.len(), deserialized.parts.len());
    assert_eq!(artifact.description, deserialized.description);
    assert_eq!(artifact.name, deserialized.name);
}

#[test]
fn test_task_artifact_update_event_spec_compliance() {
    let artifact = Artifact {
        artifact_id: "artifact-456".to_string(),
        parts: vec![Part::Text(TextPart { text: "Updated content".to_string(), metadata: None })],
        description: None,
        extensions: None,
        metadata: None,
        name: None,
    };

    let event = TaskArtifactUpdateEvent {
        kind: "artifact-update".to_string(),
        task_id: "task-789".to_string(),
        context_id: "ctx-123".to_string(),
        artifact,
        append: Some(true),
        last_chunk: Some(false),
        metadata: Some(object(vec![("timestamp", string("2023-10-27T10:00:00Z"))])),
    };

    let json = event.encode();

    // Validate required fields
    assert_eq!(text(&json, "kind"), "artifact-update");
    assert_eq!(text(&json, "taskId"), "task-789");
    assert_eq!(text(&json, "contextId"), "ctx-123");
    assert!(at(&json, "artifact").is_object());
    assert_eq!(text(at(&json, "artifact"), "artifactId"), "artifact-456");

    // Validate optional fields
    assert_eq!(flag(&json, "append"), true);
    assert_eq!(flag(&json, "lastChunk"), false);
    assert_eq!(text(at(&json, "metadata"), "timestamp"), "2023-10-27T10:00:00Z");

    // Test round-trip serialization
    let serialized = to_text(&event.encode());
    let deserialized = TaskArtifactUpdateEvent::decode(&from_text(&serialized)).unwrap();
    assert_eq!(event.kind, deserialized.kind);
    assert_eq!(event.task_id, deserialized.task_id);
    assert_eq!(event.context_id, deserialized.context_id);
    assert_eq!(event.append, deserialized.append);
    assert_eq!(event.last_chunk, deserialized.last_chunk);
}

#[test]
fn test_task_status_update_event_spec_compliance() {
    let status = TaskStatus {
        state: TaskState::Working,
        message: None,
        timestamp: Some("2023-10-27T10:00:00Z".to_string()),
    };

    let event = TaskStatusUpdateEvent {
        kind: "status-update".to_string(),
        task_id: "task-abc".to_string(),
        context_id: "ctx-def".to_string(),
        status,
        final_event: false,
        metadata: Some(object(vec![("source", string("agent"))])),
    };

    let json = event.encode();

    // Validate required fields
    assert_eq!(text(&json, "kind"), "status-update");
    assert_eq!(text(&json, "taskId"), "task-abc");
    assert_eq!(text(&json, "contextId"), "ctx-def");
    assert_eq!(flag(&json, "final"), false);
    assert!(at(&json, "status").is_object());
    assert_eq!(text(at(&json, "status"), "state"), "working");

    // Validate optional fields
    assert_eq!(text(at(&json, "metadata"), "source"), "agent");

    // Test round-trip serialization
    let serialized = to_text(&event.encode());
    let deserialized = TaskStatusUpdateEvent::decode(&from_text(&serialized)).unwrap();
    assert_eq!(event.kind, deserialized.kind);
    assert_eq!(event.task_id, deserialized.task_id);
    assert_eq!(event.context_id, deserialized.context_id);
    assert_eq!(event.final_event, deserialized.final_event);
}

#[test]
fn test_task_id_params_spec_compliance() {
    let params = TaskIdParams {
        id: "task-xyz".to_string(),
        metadata: Some(object(vec![("priority", string("high"))])),
    };

    let json = params.encode();

    // Validate required fields
    assert_eq!(text(&json, "id"), "task-xyz");

    // Validate optional fields
    assert_eq!(text(at(&json, "metadata"), "priority"), "high");

    // Test round-trip serialization
    let serialized = to_text(&params.encode());
    let deserialized = TaskIdParams::decode(&from_text(&serialized)).unwrap();
    assert_eq!(params.id, deserialized.id);
    assert_eq!(params.metadata, deserialized.metadata);
}

#[test]
fn test_updated_task_spec_compliance() {
    let message = Message {
        kind: "message".to_string(),
        message_id: "msg-456".to_string(),
        parts: vec![Part::Text(TextPart {
            text: "Task progress update".to_string(),
            metadata: None,
        })],
        role: MessageRole::Agent,
        context_id: None,
        extensions: None,
        metadata: None,
        reference_task_ids: None,
        task_id: None,
    };

    let artifact = Artifact {
        artifact_id: "artifact-789".to_string(),
        parts: vec![Part::Text(TextPart { text: "Task output".to_string(), metadata: None })],
        description: None,
        extensions: None,
        metadata: None,
        name: None,
    };

    let task = Task {
        id: "task-123".to_string(),
        kind: "task".to_string(),
        status: TaskStatus {
            state: TaskState::Completed,
            message: Some(message.clone()),
            timestamp: Some("2023-10-27T10:00:00Z".to_string()),
        },
        context_id: "ctx-456".to_string(),
        artifacts: Some(vec![artifact]),
        history: Some(vec![message]),
        metadata: Some(object(vec![("priority", string("normal"))])),
        result: Some(object(vec![("success", JsonValue::Bool(true))])),
        error: None,
        created_at: Some("2023-10-27T09:00:00Z".to_string()),
        updated_at: Some("2023-10-27T10:00:00Z".to_string()),
        status_history: None,
    };

    let json = task.encode();

    // Validate required fields
    assert_eq!(text(&json, "id"), "task-123");
    assert_eq!(text(&json, "kind"), "task");
    assert_eq!(text(&json, "contextId"), "ctx-456");
    assert!(at(&json, "status").is_object());
    assert_eq!(text(at(&json, "status"), "state"), "completed");

    // Validate optional fields
    assert!(at(&json, "artifacts").is_array());
    assert_eq!(text(item(at(&json, "artifacts"), 0), "artifactId"), "artifact-789");
    assert!(at(&json, "history").is_array());
    assert_eq!(text(item(at(&json, "history"), 0), "messageId"), "msg-456");
    assert_eq!(text(at(&json, "metadata"), "priority"), "normal");
    assert_eq!(flag(at(&json, "result"), "success"), true);
    assert_eq!(text(&json, "createdAt"), "2023-10-27T09:00:00Z");
    assert_eq!(text(&json, "updatedAt"), "2023-10-27T10:00:00Z");

    // Test round-trip serialization
    let serialized = to_text(&task.encode());
    let deserialized = Task::decode(&from_text(&serialized)).unwrap();
    assert_eq!(task.id, deserialized.id);
    assert_eq!(task.kind, deserialized.kind);
    assert_eq!(task.context_id, deserialized.context_id);
    assert_eq!(task.artifacts.is_some(), deserialized.artifacts.is_some());
    assert_eq!(task.history.is_some(), deserialized.history.is_some());
    assert_eq!(task.metadata, deserialized.metadata);
}
