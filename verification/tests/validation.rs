use a2a_rs::validation::{
    check_agent_name, check_message_id, check_skill_id, check_task_id, is_identifier_char,
    is_skill_char, is_transition_allowed, validate_agent_name, validate_media_type,
    validate_message_id, validate_skill_id, validate_task_id, validate_task_state_transition,
    validate_url, validate_version,
};
use a2a_rs::TaskState::{
    AuthRequired, Canceled, Completed, Failed, InputRequired, Rejected, Submitted, Unknown,
    Working,
};
use a2a_rs::{InvalidTransition, TaskState};

fn err(text: &str) -> Result<(), String> {
    Err(text.to_string())
}

#[test]
fn url_examples() {
    assert_eq!(validate_url("https://example.com/api"), Ok(()));
    assert_eq!(validate_url("http://a.io"), Ok(()));
    assert_eq!(validate_url("ftp://x"), err("URL must start with http:// or https://"));
    assert_eq!(validate_url(""), err("URL cannot be empty"));
    assert_eq!(validate_url("http://"), err("URL appears to be too short"));
    assert_eq!(validate_url("https://"), err("URL appears to be too short"));
    assert_eq!(validate_url("http://ab"), err("URL appears to be too short"));
    assert_eq!(validate_url("https://exa mple.com"), err("URL cannot contain spaces"));
    assert_eq!(validate_url("https://example.com/a b"), err("URL cannot contain spaces"));
    assert_eq!(validate_url(" https://example.com"), err("URL must start with http:// or https://"));
    assert_eq!(validate_url("HTTPS://example.com"), err("URL must start with http:// or https://"));
}

#[test]
fn url_length_counts_bytes() {
    // Nine characters, ten bytes.
    assert_eq!(validate_url("http://\u{e9}a"), Ok(()));
    assert_eq!(validate_url("http://ab"), err("URL appears to be too short"));
}

#[test]
fn media_type_examples() {
    assert_eq!(validate_media_type("application/json"), Ok(()));
    assert_eq!(validate_media_type("text/plain"), Ok(()));
    assert_eq!(validate_media_type("x-custom/thing"), Ok(()));
    assert_eq!(validate_media_type("multipart/form-data"), Ok(()));
    assert_eq!(validate_media_type(""), err("Media type cannot be empty"));
    assert_eq!(validate_media_type("text"), err("Media type must be in format 'type/subtype'"));
    assert_eq!(validate_media_type("a/b/c"), err("Media type must be in format 'type/subtype'"));
    assert_eq!(validate_media_type("/plain"), err("Media type parts cannot be empty"));
    assert_eq!(validate_media_type("text/"), err("Media type parts cannot be empty"));
    assert_eq!(validate_media_type("/"), err("Media type parts cannot be empty"));
    assert_eq!(validate_media_type("font/woff"), err("Unknown media type: font"));
    assert_eq!(validate_media_type("Text/plain"), err("Unknown media type: Text"));
    assert_eq!(validate_media_type("x/plain"), err("Unknown media type: x"));
}

#[test]
fn transition_table_is_followed() {
    let all = [
        Submitted, Working, InputRequired, Completed, Canceled, Failed, Rejected, AuthRequired,
        Unknown,
    ];
    let allowed = |from: TaskState| -> Vec<TaskState> {
        match from {
            Submitted => vec![Working, Rejected, Canceled, AuthRequired],
            Working => vec![Completed, Failed, Canceled, InputRequired],
            InputRequired => vec![Working, Canceled, Failed],
            AuthRequired => vec![Working, Rejected, Canceled],
            Completed | Failed | Canceled | Rejected => vec![],
            Unknown => vec![
                Submitted, Working, Completed, Failed, Canceled, Rejected, AuthRequired,
                InputRequired,
            ],
        }
    };
    for from in all {
        for to in all {
            let expected = allowed(from).contains(&to);
            assert_eq!(is_transition_allowed(&from, &to), expected);
            let result = validate_task_state_transition(&from, &to);
            if expected {
                assert_eq!(result, Ok(()));
            } else {
                assert_eq!(result, Err(InvalidTransition { from, to }));
            }
        }
    }
}

#[test]
fn transition_examples() {
    assert!(validate_task_state_transition(&TaskState::Submitted, &TaskState::Working).is_ok());
    let refused =
        validate_task_state_transition(&TaskState::Completed, &TaskState::Working).unwrap_err();
    assert_eq!(refused.from, TaskState::Completed);
    assert_eq!(refused.to, TaskState::Working);
    assert_eq!(refused.message(), "Invalid task state transition from Completed to Working");
    let refused =
        validate_task_state_transition(&TaskState::Unknown, &TaskState::Unknown).unwrap_err();
    assert_eq!(refused.message(), "Invalid task state transition from Unknown to Unknown");
    let refused =
        validate_task_state_transition(&TaskState::InputRequired, &TaskState::AuthRequired)
            .unwrap_err();
    assert_eq!(
        refused.message(),
        "Invalid task state transition from InputRequired to AuthRequired"
    );
}

#[test]
fn terminal_states() {
    assert!(TaskState::Completed.is_terminal());
    assert!(TaskState::Failed.is_terminal());
    assert!(TaskState::Canceled.is_terminal());
    assert!(TaskState::Rejected.is_terminal());
    assert!(!TaskState::Submitted.is_terminal());
    assert!(!TaskState::Working.is_terminal());
    assert!(!TaskState::InputRequired.is_terminal());
    assert!(!TaskState::AuthRequired.is_terminal());
    assert!(!TaskState::Unknown.is_terminal());
}

#[test]
fn identifier_examples() {
    assert_eq!(validate_task_id("task-123"), Ok(()));
    assert_eq!(validate_task_id("task_1"), Ok(()));
    assert_eq!(validate_task_id("t\u{e4}sk"), Ok(()));
    assert_eq!(validate_task_id(""), err("Task ID cannot be empty"));
    assert_eq!(
        validate_task_id(&"a".repeat(256)),
        err("Task ID is too long (max 255 characters)")
    );
    assert_eq!(validate_task_id(&"a".repeat(255)), Ok(()));
    assert_eq!(
        validate_task_id("task 1"),
        err("Task ID can only contain alphanumeric characters, hyphens, and underscores")
    );
    assert_eq!(
        validate_task_id("task.1"),
        err("Task ID can only contain alphanumeric characters, hyphens, and underscores")
    );
    assert_eq!(validate_message_id("msg-123"), Ok(()));
    assert_eq!(validate_message_id(""), err("Message ID cannot be empty"));
    assert_eq!(
        validate_message_id(&"m".repeat(256)),
        err("Message ID is too long (max 255 characters)")
    );
    assert_eq!(
        validate_message_id("msg/1"),
        err("Message ID can only contain alphanumeric characters, hyphens, and underscores")
    );
    // 128 letters of two bytes each are too long by their bytes.
    assert_eq!(
        validate_message_id(&"\u{e9}".repeat(128)),
        err("Message ID is too long (max 255 characters)")
    );
}

#[test]
fn identifier_checks_with_given_knowledge() {
    assert_eq!(check_task_id("anything at all", true), Ok(()));
    assert_eq!(
        check_task_id("fine", false),
        err("Task ID can only contain alphanumeric characters, hyphens, and underscores")
    );
    assert_eq!(check_task_id("", true), err("Task ID cannot be empty"));
    assert_eq!(check_message_id("", false), err("Message ID cannot be empty"));
    assert_eq!(check_message_id("m", true), Ok(()));
    assert_eq!(check_skill_id("s", true), Ok(()));
    assert_eq!(
        check_skill_id("s", false),
        err("Skill ID can only contain alphanumeric characters, hyphens, underscores, and dots")
    );
    assert!(is_identifier_char('-', false));
    assert!(is_identifier_char('_', false));
    assert!(is_identifier_char('x', true));
    assert!(!is_identifier_char('.', false));
    assert!(is_skill_char('.', false));
    assert!(!is_skill_char(' ', false));
}

#[test]
fn skill_id_examples() {
    assert_eq!(validate_skill_id("text_processing"), Ok(()));
    assert_eq!(validate_skill_id("nlp.summarize-v2"), Ok(()));
    assert_eq!(validate_skill_id(""), err("Skill ID cannot be empty"));
    assert_eq!(validate_skill_id(&"s".repeat(255)), Ok(()));
    assert_eq!(
        validate_skill_id(&"s".repeat(256)),
        err("Skill ID is too long (max 255 characters)")
    );
    assert_eq!(
        validate_skill_id("a b"),
        err("Skill ID can only contain alphanumeric characters, hyphens, underscores, and dots")
    );
}

#[test]
fn agent_name_examples() {
    assert_eq!(validate_agent_name("Test Agent"), Ok(()));
    assert_eq!(validate_agent_name(""), err("Agent name cannot be empty"));
    assert_eq!(
        validate_agent_name(&"n".repeat(101)),
        err("Agent name is too long (max 100 characters)")
    );
    assert_eq!(validate_agent_name(&"n".repeat(100)), Ok(()));
    assert_eq!(
        validate_agent_name(" Agent"),
        err("Agent name cannot start or end with whitespace")
    );
    assert_eq!(
        validate_agent_name("Agent\t"),
        err("Agent name cannot start or end with whitespace")
    );
    assert_eq!(
        validate_agent_name("\u{a0}Agent"),
        err("Agent name cannot start or end with whitespace")
    );
    assert_eq!(validate_agent_name(" "), err("Agent name cannot start or end with whitespace"));
    assert_eq!(check_agent_name("Agent", true), err("Agent name cannot start or end with whitespace"));
    assert_eq!(check_agent_name(" Agent", false), Ok(()));
}

#[test]
fn version_examples() {
    assert_eq!(validate_version("1.0.0"), Ok(()));
    assert_eq!(validate_version("1"), Ok(()));
    assert_eq!(validate_version("1.2.3.4"), Ok(()));
    assert_eq!(validate_version("v1.beta"), Ok(()));
    assert_eq!(validate_version(""), err("Version cannot be empty"));
    assert_eq!(
        validate_version(&"1".repeat(51)),
        err("Version is too long (max 50 characters)")
    );
    assert_eq!(
        validate_version("1.2.3.4.5"),
        err("Version should have 1-4 dot-separated parts")
    );
    assert_eq!(validate_version("1..0"), err("Version parts cannot be empty"));
    assert_eq!(validate_version(".1"), err("Version parts cannot be empty"));
    assert_eq!(validate_version("1."), err("Version parts cannot be empty"));
    assert_eq!(validate_version("."), err("Version parts cannot be empty"));
    assert_eq!(validate_version("...."), err("Version should have 1-4 dot-separated parts"));
}
