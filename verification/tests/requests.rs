use a2a_rs::{
    AgentCapabilities, AgentCard, AgentSkill, CancelTaskRequest, GetTaskRequest, MessageRole, Part,
    RequestMethod, SendMessageRequest, PROTOCOL_VERSION,
};

#[test]
fn test_create_agent_card() {
    let card = AgentCard::new(
        "Test Agent".to_string(),
        "A test agent".to_string(),
        "1.0.0".to_string(),
        "https://example.com/agent".to_string(),
        AgentCapabilities {
            extensions: None,
            push_notifications: Some(false),
            state_transition_history: Some(true),
            streaming: Some(false),
        },
        vec!["text/plain".to_string()],
        vec!["text/plain".to_string()],
        vec![AgentSkill {
            name: "test".to_string(),
            description: "A test skill".to_string(),
            input_modes: None,
            output_modes: None,
            examples: None,
        }],
    );

    assert_eq!(card.name, "Test Agent");
    assert_eq!(card.description, "A test agent");
    assert_eq!(card.version, "1.0.0");
    assert_eq!(card.protocol_version, PROTOCOL_VERSION);
    assert_eq!(card.url, "https://example.com/agent");
    assert_eq!(card.capabilities.push_notifications, Some(false));
    assert_eq!(card.capabilities.state_transition_history, Some(true));
    assert_eq!(card.capabilities.streaming, Some(false));
    assert_eq!(card.default_input_modes, vec!["text/plain"]);
    assert_eq!(card.default_output_modes, vec!["text/plain"]);
    assert_eq!(card.skills.len(), 1);
    assert_eq!(card.skills[0].name, "test");
    assert_eq!(card.skills[0].description, "A test skill");
}

#[test]
fn test_create_send_message_request() {
    let request = SendMessageRequest::new(
        "1".to_string(),
        "msg-123".to_string(),
        "Hello, world!".to_string(),
        MessageRole::User,
        None,
        None,
    );

    assert_eq!(request.method, RequestMethod::MessageSend);
    assert_eq!(request.id, "1");
    assert_eq!(request.jsonrpc, "2.0");
    assert_eq!(request.params.message.kind, "message");
    assert_eq!(request.params.message.message_id, "msg-123");
    assert_eq!(request.params.message.role, MessageRole::User);
    assert_eq!(request.params.message.parts.len(), 1);
    if let Part::Text(text_part) = &request.params.message.parts[0] {
        assert_eq!(text_part.text, "Hello, world!");
    } else {
        panic!("Expected TextPart");
    }
    assert_eq!(request.params.configuration, None);
    assert_eq!(request.params.metadata, None);
}

#[test]
fn test_create_get_task_request() {
    let request = GetTaskRequest::new("1".to_string(), "task1".to_string());

    assert_eq!(request.method, RequestMethod::TasksGet);
    assert_eq!(request.id, "1");
    assert_eq!(request.jsonrpc, "2.0");
    assert_eq!(request.params.task_id, "task1");
}

#[test]
fn test_create_cancel_task_request() {
    let request = CancelTaskRequest::new("1".to_string(), "task1".to_string());

    assert_eq!(request.method, RequestMethod::TasksCancel);
    assert_eq!(request.id, "1");
    assert_eq!(request.jsonrpc, "2.0");
    assert_eq!(request.params.task_id, "task1");
}

#[test]
fn request_method_names_are_canonical_when_written() {
    let all = [
        (RequestMethod::MessageSend, "message/send"),
        (RequestMethod::MessageStream, "message/stream"),
        (RequestMethod::TasksGet, "tasks/get"),
        (RequestMethod::TasksCancel, "tasks/cancel"),
        (RequestMethod::TasksPushNotificationConfigSet, "tasks/pushNotificationConfig/set"),
        (RequestMethod::TasksPushNotificationConfigGet, "tasks/pushNotificationConfig/get"),
        (RequestMethod::TasksPushNotificationConfigList, "tasks/pushNotificationConfig/list"),
        (RequestMethod::TasksPushNotificationConfigDelete, "tasks/pushNotificationConfig/delete"),
        (RequestMethod::TasksResubscribe, "tasks/resubscribe"),
    ];
    for (method, name) in all {
        assert_eq!(method.as_str(), name);
        assert_eq!(method.to_string(), name);
        assert_eq!(RequestMethod::from_str(name), Some(method));
    }
    assert_eq!(RequestMethod::from_str("sendMessage"), Some(RequestMethod::MessageSend));
    assert_eq!(RequestMethod::from_str("getTask"), Some(RequestMethod::TasksGet));
    assert_eq!(RequestMethod::from_str("cancelTask"), Some(RequestMethod::TasksCancel));
    assert_eq!(RequestMethod::from_str("sendMessage").unwrap().as_str(), "message/send");
    assert_eq!(RequestMethod::from_str("tasks/unknown"), None);
    assert_eq!(RequestMethod::from_str(""), None);
}

#[test]
fn request_method_parse_reports_method_not_found() {
    assert_eq!("tasks/get".parse::<RequestMethod>().unwrap(), RequestMethod::TasksGet);
    let error = "nope".parse::<RequestMethod>().unwrap_err();
    assert_eq!(error.code(), -32601);
    assert_eq!(error.message(), "Method not found: nope");
    assert_eq!(error.to_string(), "Method not found: Method not found: nope");
    assert!(error.data().is_none());
    let error = RequestMethod::parse("x y").unwrap_err();
    assert_eq!(error.message(), "Method not found: x y");
}
