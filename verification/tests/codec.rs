use a2a_rs::codec::fields::{read_flag, read_i32, read_json, read_text, read_texts, write_texts};
use a2a_rs::{
    A2AErrorResponse, AgentCapabilities, AgentCard, AgentExtension, AgentInterface, AgentProvider,
    AgentSkill, ApiKeyLocation, ApiKeySecurityScheme, Artifact, AuthorizationCodeOAuthFlow,
    CancelTaskRequest, CancelTaskResponse, ClientCredentialsOAuthFlow, DataPart, DecodeError,
    DeleteTaskPushNotificationConfigParams, DeleteTaskPushNotificationConfigRequest,
    DeleteTaskPushNotificationConfigResponse, FileContent, FilePart, FileWithBytes, FileWithUri,
    GetTaskPushNotificationConfigParams, GetTaskPushNotificationConfigRequest,
    GetTaskPushNotificationConfigResponse, GetTaskRequest, GetTaskResponse, HttpSecurityScheme,
    ImplicitOAuthFlow, JsonMember, JsonNumber, JsonValue, ListTaskPushNotificationConfigParams,
    ListTaskPushNotificationConfigRequest, ListTaskPushNotificationConfigResponse, Message,
    MessageRole, MessageSendConfiguration, OAuth2Flows, OAuth2SecurityScheme,
    OpenIdConnectSecurityScheme, Part, PasswordOAuthFlow, PushNotificationAuthenticationInfo,
    PushNotificationConfig, PushNotificationConfigInfo, PushNotificationConfigResult,
    RequestMethod, SecurityScheme, SecuritySchemeType, SendMessageRequest, SendMessageResponse,
    SendMessageResult, SendStreamingMessageRequest, SetTaskPushNotificationConfigParams,
    SetTaskPushNotificationConfigRequest, SetTaskPushNotificationConfigResponse, Task,
    TaskArtifactUpdateEvent, TaskResubscriptionParams, TaskResubscriptionRequest,
    TaskResubscriptionResponse, TaskState, TaskStatus, TaskStatusUpdateEvent, TextPart,
};

fn object(members: Vec<(&str, JsonValue)>) -> JsonValue {
    JsonValue::Object(
        members
            .into_iter()
            .map(|(name, value)| JsonMember { name: name.to_string(), value })
            .collect(),
    )
}

fn string(text: &str) -> JsonValue {
    JsonValue::String(text.to_string())
}

fn integer(n: i64) -> JsonValue {
    if n < 0 {
        JsonValue::Number(JsonNumber::NegInt(n))
    } else {
        JsonValue::Number(JsonNumber::PosInt(n as u64))
    }
}

fn s(text: &str) -> String {
    text.to_string()
}

fn some(text: &str) -> Option<String> {
    Some(text.to_string())
}

fn meta() -> Option<JsonValue> {
    Some(object(vec![("k", JsonValue::Array(vec![integer(1), JsonValue::Null]))]))
}

fn message() -> Message {
    Message {
        kind: s("message"),
        message_id: s("msg-1"),
        parts: vec![
            Part::Text(TextPart { text: s("hello"), metadata: meta() }),
            Part::File(FilePart {
                file: FileContent::WithBytes(FileWithBytes {
                    bytes: s("SGk="),
                    name: some("hi.txt"),
                    mime_type: None,
                }),
                metadata: None,
            }),
            Part::File(FilePart {
                file: FileContent::WithUri(FileWithUri {
                    uri: s("https://example.com/f"),
                    name: None,
                    mime_type: some("text/plain"),
                }),
                metadata: meta(),
            }),
            Part::Data(DataPart { data: JsonValue::Null, metadata: None }),
            Part::Data(DataPart { data: integer(-4), metadata: meta() }),
        ],
        role: MessageRole::Agent,
        context_id: some("ctx"),
        extensions: Some(vec![s("https://example.com/ext"), s("")]),
        metadata: meta(),
        reference_task_ids: Some(vec![]),
        task_id: some("task-1"),
    }
}

fn status(state: TaskState) -> TaskStatus {
    TaskStatus { state, message: Some(message()), timestamp: some("2023-10-27T10:00:00Z") }
}

fn artifact() -> Artifact {
    Artifact {
        artifact_id: s("a-1"),
        parts: vec![Part::Text(TextPart { text: s("out"), metadata: None })],
        description: some("d"),
        extensions: None,
        metadata: meta(),
        name: some("n"),
    }
}

fn task() -> Task {
    Task {
        id: s("task-1"),
        kind: s("task"),
        status: status(TaskState::InputRequired),
        context_id: s("ctx"),
        artifacts: Some(vec![artifact(), artifact()]),
        history: Some(vec![message()]),
        metadata: meta(),
        result: Some(JsonValue::Bool(true)),
        error: Some(A2AErrorResponse { code: -32603, message: s("boom"), data: meta() }),
        created_at: some("2023-10-27T09:00:00Z"),
        updated_at: None,
        status_history: Some(vec![status(TaskState::Submitted), status(TaskState::AuthRequired)]),
    }
}

fn scopes() -> Vec<(String, String)> {
    vec![(s("read"), s("Read access")), (s("write"), s("Write access"))]
}

fn schemes() -> Vec<SecurityScheme> {
    vec![
        SecurityScheme::ApiKey(ApiKeySecurityScheme {
            type_: s("apiKey"),
            in_: ApiKeyLocation::Query,
            name: s("key"),
            description: None,
        }),
        SecurityScheme::Http(HttpSecurityScheme {
            type_: s("http"),
            scheme: s("bearer"),
            bearer_format: some("JWT"),
            description: some("d"),
        }),
        SecurityScheme::OAuth2(OAuth2SecurityScheme {
            type_: s("oauth2"),
            flows: OAuth2Flows {
                implicit: Some(ImplicitOAuthFlow {
                    authorization_url: s("https://example.com/auth"),
                    refresh_url: None,
                    scopes: scopes(),
                }),
                password: Some(PasswordOAuthFlow {
                    token_url: s("https://example.com/token"),
                    refresh_url: some("https://example.com/refresh"),
                    scopes: vec![],
                }),
                client_credentials: Some(ClientCredentialsOAuthFlow {
                    token_url: s("https://example.com/token"),
                    refresh_url: None,
                    scopes: scopes(),
                }),
                authorization_code: Some(AuthorizationCodeOAuthFlow {
                    authorization_url: s("https://example.com/auth"),
                    token_url: s("https://example.com/token"),
                    refresh_url: None,
                    scopes: scopes(),
                }),
            },
            description: None,
        }),
        SecurityScheme::OAuth2(OAuth2SecurityScheme {
            type_: s("oauth2"),
            flows: OAuth2Flows {
                implicit: None,
                password: None,
                client_credentials: None,
                authorization_code: None,
            },
            description: some("none"),
        }),
        SecurityScheme::OpenIdConnect(OpenIdConnectSecurityScheme {
            type_: s("openIdConnect"),
            open_id_connect_url: s("https://id.example.com/.well-known/openid-configuration"),
            description: None,
        }),
    ]
}

fn card() -> AgentCard {
    AgentCard {
        name: s("Agent"),
        description: s("An agent"),
        version: s("1.0.0"),
        protocol_version: s("0.2.5"),
        url: s("https://example.com/agent"),
        preferred_transport: some("JSONRPC"),
        capabilities: AgentCapabilities {
            extensions: Some(vec![AgentExtension {
                uri: s("https://example.com/ext"),
                required: Some(true),
                description: some("e"),
                params: meta(),
            }]),
            push_notifications: Some(true),
            state_transition_history: None,
            streaming: Some(false),
        },
        default_input_modes: vec![s("text/plain")],
        default_output_modes: vec![],
        skills: vec![AgentSkill {
            name: s("skill"),
            description: s("a skill"),
            input_modes: Some(vec![s("text/plain")]),
            output_modes: None,
            examples: Some(vec![s("do it")]),
        }],
        provider: Some(AgentProvider { organization: s("Org"), url: s("https://org.example") }),
        documentation_url: some("https://example.com/docs"),
        icon_url: None,
        supports_authenticated_extended_card: Some(false),
        additional_interfaces: Some(vec![AgentInterface {
            url: s("https://example.com/grpc"),
            transport: s("GRPC"),
        }]),
        security: Some(vec![
            vec![(s("oauth"), vec![s("read"), s("write")]), (s("key"), vec![])],
            vec![],
        ]),
        security_schemes: Some(
            schemes().into_iter().enumerate().map(|(i, scheme)| (format!("s{}", i), scheme)).collect(),
        ),
    }
}

fn push_config() -> PushNotificationConfig {
    PushNotificationConfig {
        url: s("https://example.com/hook"),
        authentication: Some(PushNotificationAuthenticationInfo {
            schemes: vec![s("Bearer")],
            credentials: None,
        }),
        id: some("c-1"),
        token: None,
    }
}

#[test]
fn messages_and_parts_come_back() {
    let original = message();
    assert_eq!(Message::decode(&original.encode()), Ok(original.clone()));
    for part in &original.parts {
        assert_eq!(Part::decode(&part.encode()).as_ref(), Ok(part));
    }
    assert_eq!(original.parts[0].kind(), "text");
    assert_eq!(original.parts[1].kind(), "file");
    assert_eq!(original.parts[3].kind(), "data");
    for role in [MessageRole::Agent, MessageRole::User] {
        assert_eq!(MessageRole::decode(&role.encode()), Ok(role));
    }
    assert_eq!(MessageRole::Agent.as_str(), "agent");
    assert_eq!(MessageRole::from_str("user"), Some(MessageRole::User));
    assert_eq!(MessageRole::from_str("User"), None);
}

#[test]
fn tasks_and_events_come_back() {
    let original = task();
    assert_eq!(Task::decode(&original.encode()), Ok(original.clone()));
    assert_eq!(Artifact::decode(&artifact().encode()), Ok(artifact()));
    let event = TaskArtifactUpdateEvent {
        kind: s("artifact-update"),
        task_id: s("task-1"),
        context_id: s("ctx"),
        artifact: artifact(),
        append: Some(false),
        last_chunk: None,
        metadata: meta(),
    };
    assert_eq!(TaskArtifactUpdateEvent::decode(&event.encode()), Ok(event));
    let event = TaskStatusUpdateEvent {
        kind: s("status-update"),
        task_id: s("task-1"),
        context_id: s("ctx"),
        status: status(TaskState::Failed),
        final_event: true,
        metadata: None,
    };
    assert_eq!(TaskStatusUpdateEvent::decode(&event.encode()), Ok(event));
    let states = [
        (TaskState::Submitted, "submitted"),
        (TaskState::Working, "working"),
        (TaskState::InputRequired, "input-required"),
        (TaskState::Completed, "completed"),
        (TaskState::Canceled, "canceled"),
        (TaskState::Failed, "failed"),
        (TaskState::Rejected, "rejected"),
        (TaskState::AuthRequired, "auth-required"),
        (TaskState::Unknown, "unknown"),
    ];
    for (state, name) in states {
        assert_eq!(state.as_str(), name);
        assert_eq!(TaskState::from_str(name), Some(state));
        assert_eq!(state.encode(), string(name));
        assert_eq!(TaskState::decode(&string(name)), Ok(state));
    }
    assert_eq!(TaskState::decode(&string("inputRequired")), Err(DecodeError::UnknownVariant));
    assert_eq!(TaskState::decode(&string("")), Err(DecodeError::UnknownVariant));
    assert_eq!(TaskState::decode(&JsonValue::Null), Err(DecodeError::WrongKind));
}

#[test]
fn security_schemes_come_back() {
    for scheme in schemes() {
        assert_eq!(SecurityScheme::decode(&scheme.encode()), Ok(scheme));
    }
    for (kind, name) in [
        (SecuritySchemeType::ApiKey, "apiKey"),
        (SecuritySchemeType::Http, "http"),
        (SecuritySchemeType::OAuth2, "oAuth2"),
        (SecuritySchemeType::OpenIdConnect, "openIdConnect"),
    ] {
        assert_eq!(kind.as_str(), name);
        assert_eq!(SecuritySchemeType::decode(&kind.encode()), Ok(kind));
    }
    for (place, name) in [
        (ApiKeyLocation::Cookie, "cookie"),
        (ApiKeyLocation::Header, "header"),
        (ApiKeyLocation::Query, "query"),
    ] {
        assert_eq!(place.as_str(), name);
        assert_eq!(ApiKeyLocation::decode(&string(name)), Ok(place));
    }
    assert_eq!(ApiKeyLocation::decode(&string("body")), Err(DecodeError::UnknownVariant));
}

#[test]
fn a_scheme_is_the_first_variant_that_fits() {
    // What fits an API key scheme is one, whatever its type says.
    let value = object(vec![
        ("type", string("http")),
        ("scheme", string("basic")),
        ("in", string("header")),
        ("name", string("X-Key")),
    ]);
    assert_eq!(
        SecurityScheme::decode(&value),
        Ok(SecurityScheme::ApiKey(ApiKeySecurityScheme {
            type_: s("http"),
            in_: ApiKeyLocation::Header,
            name: s("X-Key"),
            description: None,
        }))
    );
    let value = object(vec![
        ("type", string("http")),
        ("scheme", string("basic")),
        ("in", string("body")),
        ("name", string("X-Key")),
        ("flows", object(vec![])),
    ]);
    assert_eq!(
        SecurityScheme::decode(&value),
        Ok(SecurityScheme::Http(HttpSecurityScheme {
            type_: s("http"),
            scheme: s("basic"),
            bearer_format: None,
            description: None,
        }))
    );
    assert_eq!(
        SecurityScheme::decode(&object(vec![("type", string("oauth2"))])),
        Err(DecodeError::UnknownVariant)
    );
    assert_eq!(SecurityScheme::decode(&string("apiKey")), Err(DecodeError::UnknownVariant));
}

#[test]
fn agent_cards_come_back() {
    let original = card();
    assert_eq!(AgentCard::decode(&original.encode()), Ok(original));
}

#[test]
fn requests_and_responses_come_back() {
    let configuration = MessageSendConfiguration {
        accepted_output_modes: vec![s("text/plain")],
        blocking: None,
        history_length: Some(-3),
        push_notification_config: Some(push_config()),
    };
    let mut request = SendMessageRequest::new(
        s("1"),
        s("msg-1"),
        s("hi"),
        MessageRole::User,
        Some(configuration),
        meta(),
    );
    assert_eq!(SendMessageRequest::decode(&request.encode()), Ok(request.clone()));
    assert_eq!(request.encode().get("method"), Some(&string("message/send")));
    request.method = RequestMethod::MessageStream;
    let streaming = SendStreamingMessageRequest {
        method: request.method,
        params: request.params.clone(),
        id: s("2"),
        jsonrpc: s("2.0"),
    };
    assert_eq!(SendStreamingMessageRequest::decode(&streaming.encode()), Ok(streaming));
    let response = SendMessageResponse {
        id: s("1"),
        jsonrpc: s("2.0"),
        result: SendMessageResult { task_id: s("t"), message_id: some("m"), conversation_id: None },
    };
    assert_eq!(SendMessageResponse::decode(&response.encode()), Ok(response));

    let get = GetTaskRequest::new(s("1"), s("task1"));
    assert_eq!(GetTaskRequest::decode(&get.encode()), Ok(get.clone()));
    assert_eq!(
        get.encode(),
        object(vec![
            ("method", string("tasks/get")),
            ("params", object(vec![("taskId", string("task1"))])),
            ("id", string("1")),
            ("jsonrpc", string("2.0")),
        ])
    );
    let response = GetTaskResponse { id: s("1"), jsonrpc: s("2.0"), result: task() };
    assert_eq!(GetTaskResponse::decode(&response.encode()), Ok(response));
    let cancel = CancelTaskRequest::new(s("1"), s("task1"));
    assert_eq!(CancelTaskRequest::decode(&cancel.encode()), Ok(cancel));
    let response = CancelTaskResponse { id: s("1"), jsonrpc: s("2.0"), result: task() };
    assert_eq!(CancelTaskResponse::decode(&response.encode()), Ok(response));
    let again = TaskResubscriptionRequest {
        method: RequestMethod::TasksResubscribe,
        params: TaskResubscriptionParams { task_id: s("t") },
        id: s("1"),
        jsonrpc: s("2.0"),
    };
    assert_eq!(TaskResubscriptionRequest::decode(&again.encode()), Ok(again));
    let response = TaskResubscriptionResponse { id: s("1"), jsonrpc: s("2.0"), result: task() };
    assert_eq!(TaskResubscriptionResponse::decode(&response.encode()), Ok(response));
}

#[test]
fn push_notification_requests_come_back() {
    let set = SetTaskPushNotificationConfigRequest {
        method: RequestMethod::TasksPushNotificationConfigSet,
        params: SetTaskPushNotificationConfigParams { task_id: s("t"), config: push_config() },
        id: s("1"),
        jsonrpc: s("2.0"),
    };
    assert_eq!(SetTaskPushNotificationConfigRequest::decode(&set.encode()), Ok(set));
    let response = SetTaskPushNotificationConfigResponse {
        id: s("1"),
        jsonrpc: s("2.0"),
        result: PushNotificationConfigResult { task_id: s("t"), config_id: s("c") },
    };
    assert_eq!(SetTaskPushNotificationConfigResponse::decode(&response.encode()), Ok(response));
    let get = GetTaskPushNotificationConfigRequest {
        method: RequestMethod::TasksPushNotificationConfigGet,
        params: GetTaskPushNotificationConfigParams { task_id: s("t"), config_id: s("c") },
        id: s("1"),
        jsonrpc: s("2.0"),
    };
    assert_eq!(GetTaskPushNotificationConfigRequest::decode(&get.encode()), Ok(get));
    let response = GetTaskPushNotificationConfigResponse {
        id: s("1"),
        jsonrpc: s("2.0"),
        result: push_config(),
    };
    assert_eq!(GetTaskPushNotificationConfigResponse::decode(&response.encode()), Ok(response));
    let list = ListTaskPushNotificationConfigRequest {
        method: RequestMethod::TasksPushNotificationConfigList,
        params: ListTaskPushNotificationConfigParams { task_id: s("t") },
        id: s("1"),
        jsonrpc: s("2.0"),
    };
    assert_eq!(ListTaskPushNotificationConfigRequest::decode(&list.encode()), Ok(list));
    let response = ListTaskPushNotificationConfigResponse {
        id: s("1"),
        jsonrpc: s("2.0"),
        result: vec![
            PushNotificationConfigInfo { config_id: s("c1"), url: s("https://a.example") },
            PushNotificationConfigInfo { config_id: s("c2"), url: s("https://b.example") },
        ],
    };
    assert_eq!(ListTaskPushNotificationConfigResponse::decode(&response.encode()), Ok(response));
    let delete = DeleteTaskPushNotificationConfigRequest {
        method: RequestMethod::TasksPushNotificationConfigDelete,
        params: DeleteTaskPushNotificationConfigParams { task_id: s("t"), config_id: s("c") },
        id: s("1"),
        jsonrpc: s("2.0"),
    };
    assert_eq!(DeleteTaskPushNotificationConfigRequest::decode(&delete.encode()), Ok(delete));
    for result in [true, false] {
        let response =
            DeleteTaskPushNotificationConfigResponse { id: s("1"), jsonrpc: s("2.0"), result };
        assert_eq!(
            DeleteTaskPushNotificationConfigResponse::decode(&response.encode()),
            Ok(response)
        );
    }
}

#[test]
fn a_part_is_told_by_its_kind() {
    let decode = |value: JsonValue| Part::decode(&value);
    assert_eq!(
        decode(object(vec![("kind", string("text")), ("text", string("t"))])),
        Ok(Part::Text(TextPart { text: s("t"), metadata: None }))
    );
    assert_eq!(
        decode(object(vec![("text", string("t")), ("metadata", JsonValue::Null), ("kind", string("text"))])),
        Ok(Part::Text(TextPart { text: s("t"), metadata: None }))
    );
    assert_eq!(
        decode(object(vec![("kind", string("data")), ("data", JsonValue::Null), ("text", integer(1))])),
        Ok(Part::Data(DataPart { data: JsonValue::Null, metadata: None }))
    );
    assert_eq!(
        decode(object(vec![("kind", string("image")), ("text", string("t"))])),
        Err(DecodeError::UnknownVariant)
    );
    assert_eq!(
        decode(object(vec![("kind", string("Text")), ("text", string("t"))])),
        Err(DecodeError::UnknownVariant)
    );
    assert_eq!(decode(object(vec![("text", string("t"))])), Err(DecodeError::MissingField));
    assert_eq!(
        decode(object(vec![("kind", integer(1)), ("text", string("t"))])),
        Err(DecodeError::WrongKind)
    );
    assert_eq!(decode(object(vec![("kind", string("text"))])), Err(DecodeError::MissingField));
    assert_eq!(decode(object(vec![("kind", string("data"))])), Err(DecodeError::MissingField));
    assert_eq!(
        decode(object(vec![("kind", string("text")), ("text", integer(1))])),
        Err(DecodeError::WrongKind)
    );
    assert_eq!(decode(JsonValue::Array(vec![])), Err(DecodeError::WrongKind));
    assert_eq!(decode(string("text")), Err(DecodeError::WrongKind));
}

#[test]
fn the_content_of_a_file_is_told_by_its_members() {
    let decode = |value: JsonValue| FileContent::decode(&value);
    assert_eq!(
        decode(object(vec![("uri", string("u")), ("bytes", string("b"))])),
        Ok(FileContent::WithBytes(FileWithBytes { bytes: s("b"), name: None, mime_type: None }))
    );
    assert_eq!(
        decode(object(vec![("uri", string("u")), ("bytes", integer(1)), ("name", string("n"))])),
        Ok(FileContent::WithUri(FileWithUri { uri: s("u"), name: some("n"), mime_type: None }))
    );
    assert_eq!(
        decode(object(vec![("uri", string("u")), ("mimeType", JsonValue::Null)])),
        Ok(FileContent::WithUri(FileWithUri { uri: s("u"), name: None, mime_type: None }))
    );
    assert_eq!(decode(object(vec![("name", string("n"))])), Err(DecodeError::UnknownVariant));
    assert_eq!(
        decode(object(vec![("bytes", string("b")), ("name", integer(1))])),
        Err(DecodeError::UnknownVariant)
    );
    assert_eq!(decode(JsonValue::Null), Err(DecodeError::UnknownVariant));
    assert_eq!(
        Part::decode(&object(vec![("kind", string("file")), ("file", object(vec![]))])),
        Err(DecodeError::UnknownVariant)
    );
}

#[test]
fn members_are_read_in_their_order() {
    let decode = |value: JsonValue| A2AErrorResponse::decode(&value);
    assert_eq!(
        decode(object(vec![("code", integer(1)), ("message", string("m"))])),
        Ok(A2AErrorResponse { code: 1, message: s("m"), data: None })
    );
    assert_eq!(decode(object(vec![("message", integer(1))])), Err(DecodeError::MissingField));
    assert_eq!(
        decode(object(vec![("code", string("1"))])),
        Err(DecodeError::WrongKind)
    );
    assert_eq!(
        decode(object(vec![("code", integer(2147483647)), ("message", string("m"))])),
        Ok(A2AErrorResponse { code: i32::MAX, message: s("m"), data: None })
    );
    assert_eq!(
        decode(object(vec![("code", integer(2147483648)), ("message", string("m"))])),
        Err(DecodeError::WrongKind)
    );
    assert_eq!(
        decode(object(vec![("code", integer(-2147483648)), ("message", string("m"))])),
        Ok(A2AErrorResponse { code: i32::MIN, message: s("m"), data: None })
    );
    assert_eq!(
        decode(object(vec![("code", integer(-2147483649)), ("message", string("m"))])),
        Err(DecodeError::WrongKind)
    );
    assert_eq!(decode(JsonValue::Bool(true)), Err(DecodeError::WrongKind));
    let status = TaskStatus::decode(&object(vec![
        ("state", string("working")),
        ("message", object(vec![("kind", string("message"))])),
    ]));
    assert_eq!(status, Err(DecodeError::MissingField));
    let status = TaskStatus::decode(&object(vec![
        ("state", string("paused")),
        ("message", integer(1)),
    ]));
    assert_eq!(status, Err(DecodeError::UnknownVariant));
}

#[test]
fn lists_and_maps() {
    assert_eq!(write_texts(&vec![s("a"), s("")]), JsonValue::Array(vec![string("a"), string("")]));
    assert_eq!(read_texts(&JsonValue::Array(vec![string("a")])), Ok(vec![s("a")]));
    assert_eq!(read_texts(&JsonValue::Array(vec![])), Ok(vec![]));
    assert_eq!(
        read_texts(&JsonValue::Array(vec![string("a"), integer(1), JsonValue::Null])),
        Err(DecodeError::WrongKind)
    );
    assert_eq!(read_texts(&string("a")), Err(DecodeError::WrongKind));
    assert_eq!(read_text(&string("x")), Ok(s("x")));
    assert_eq!(read_text(&JsonValue::Null), Err(DecodeError::WrongKind));
    assert_eq!(read_flag(&JsonValue::Bool(true)), Ok(true));
    assert_eq!(read_flag(&integer(1)), Err(DecodeError::WrongKind));
    assert_eq!(read_i32(&integer(-7)), Ok(-7));
    assert_eq!(read_i32(&string("7")), Err(DecodeError::WrongKind));
    assert_eq!(read_json(&JsonValue::Null), Ok(JsonValue::Null));

    let flow = |scopes: JsonValue| {
        PasswordOAuthFlow::decode(&object(vec![("tokenUrl", string("u")), ("scopes", scopes)]))
    };
    assert_eq!(
        flow(object(vec![("b", string("B")), ("a", string("A"))])),
        Ok(PasswordOAuthFlow {
            token_url: s("u"),
            refresh_url: None,
            scopes: vec![(s("b"), s("B")), (s("a"), s("A"))],
        })
    );
    assert_eq!(flow(object(vec![("a", integer(1))])), Err(DecodeError::WrongKind));
    assert_eq!(flow(JsonValue::Array(vec![])), Err(DecodeError::WrongKind));
    assert_eq!(
        PasswordOAuthFlow::decode(&object(vec![("tokenUrl", string("u"))])),
        Err(DecodeError::MissingField)
    );
    let parts = Artifact::decode(&object(vec![
        ("artifactId", string("a")),
        ("parts", JsonValue::Array(vec![object(vec![("kind", string("none"))])])),
    ]));
    assert_eq!(parts, Err(DecodeError::UnknownVariant));
}

#[test]
fn a_null_that_is_optional_reads_as_missing() {
    let part = TextPart { text: s("t"), metadata: Some(JsonValue::Null) };
    assert_eq!(
        TextPart::decode(&part.encode()),
        Ok(TextPart { text: s("t"), metadata: None })
    );
    let data = DataPart { data: JsonValue::Null, metadata: None };
    assert_eq!(DataPart::decode(&data.encode()), Ok(data));
}
