use a2a_rs::agent::is_http_url;
use a2a_rs::{AgentExtension, JsonMember, JsonNumber, JsonValue};

fn err(text: &str) -> Result<(), String> {
    Err(text.to_string())
}

fn object(members: Vec<(&str, JsonValue)>) -> JsonValue {
    JsonValue::Object(
        members
            .into_iter()
            .map(|(name, value)| JsonMember { name: name.to_string(), value })
            .collect(),
    )
}

fn string(text: &str) -> JsonValue {
    JsonValue::String(text.to_string())
}

fn with_params(uri: &str, params: JsonValue) -> AgentExtension {
    AgentExtension::with_config(uri.to_string(), None, None, Some(params))
}

#[test]
fn extension_uri() {
    let extension = AgentExtension::new("https://example.com/oauth-extension".to_string());
    assert_eq!(extension.required, None);
    assert_eq!(extension.description, None);
    assert_eq!(extension.params, None);
    assert_eq!(extension.validate_uri(), Ok(()));
    assert_eq!(extension.validate(), Ok(()));
    let uri = |text: &str| AgentExtension::new(text.to_string()).validate();
    assert_eq!(uri(""), err("Extension URI cannot be empty"));
    assert_eq!(uri("invalid-url"), err("Extension URI must be a valid HTTP or HTTPS URL"));
    assert_eq!(uri("http://a"), err("Extension URI appears to be too short"));
    assert_eq!(uri("https://exa mple.com/ext"), err("URL cannot contain spaces"));
    assert!(is_http_url("http://x"));
    assert!(is_http_url("https://"));
    assert!(!is_http_url("ftp://x"));
    assert!(!is_http_url(""));
}

#[test]
fn extension_params_must_be_an_object() {
    let uri = "https://example.com/plain";
    assert_eq!(with_params(uri, object(vec![])).validate_params(), Ok(()));
    assert_eq!(with_params(uri, object(vec![("clientId", JsonValue::Null)])).validate(), Ok(()));
    for params in [
        JsonValue::Null,
        JsonValue::Bool(true),
        JsonValue::Number(JsonNumber::PosInt(1)),
        string("x"),
        JsonValue::Array(vec![]),
    ] {
        assert_eq!(
            with_params(uri, params).validate_params(),
            err("Extension params must be a JSON object")
        );
    }
    assert_eq!(AgentExtension::new(uri.to_string()).validate_params(), Ok(()));
}

#[test]
fn auth_extension_params() {
    let uri = "https://example.com/oauth-extension";
    let check = |params: JsonValue| with_params(uri, params).validate();
    assert_eq!(
        check(object(vec![
            ("clientId", string("abc")),
            ("scopes", JsonValue::Array(vec![string("read")])),
            ("redirectUri", string("https://client.example.com/callback")),
            ("url", JsonValue::Bool(false)),
        ])),
        Ok(())
    );
    assert_eq!(
        check(object(vec![("clientId", string(""))])),
        err("Auth extension clientId must be a non-empty string")
    );
    assert_eq!(
        check(object(vec![("clientId", JsonValue::Number(JsonNumber::PosInt(7)))])),
        err("Auth extension clientId must be a non-empty string")
    );
    assert_eq!(
        check(object(vec![("scopes", string("read"))])),
        err("Auth extension scopes must be an array")
    );
    assert_eq!(
        check(object(vec![("redirectUri", JsonValue::Null)])),
        err("Auth extension redirectUri must be a string")
    );
    assert_eq!(
        check(object(vec![("redirectUri", string("client.example.com"))])),
        err("Auth extension redirectUri must be a valid URL")
    );
    assert_eq!(
        check(object(vec![("redirectUri", string("x")), ("clientId", string(""))])),
        err("Auth extension clientId must be a non-empty string")
    );
    // Of two members with one name the last counts.
    assert_eq!(
        check(object(vec![("clientId", string("")), ("clientId", string("abc"))])),
        Ok(())
    );
    // A URI that holds `auth` is read as one for authentication, whatever else it holds.
    assert_eq!(
        with_params(
            "https://example.com/auth-webhook",
            object(vec![("url", JsonValue::Bool(false))])
        )
        .validate(),
        Ok(())
    );
    assert_eq!(
        AgentExtension::validate_auth_extension_params(&string("not an object")),
        Ok(())
    );
}

#[test]
fn webhook_extension_params() {
    let uri = "https://example.com/webhook";
    let check = |params: JsonValue| with_params(uri, params).validate();
    assert_eq!(
        check(object(vec![
            ("url", string("https://hooks.example.com/a")),
            ("secret", string("s3cret")),
            ("events", JsonValue::Array(vec![])),
            ("clientId", string("")),
        ])),
        Ok(())
    );
    assert_eq!(
        check(object(vec![("url", string(""))])),
        err("Webhook extension url must be a non-empty string")
    );
    assert_eq!(
        check(object(vec![("url", JsonValue::Array(vec![]))])),
        err("Webhook extension url must be a non-empty string")
    );
    assert_eq!(
        check(object(vec![("url", string("hooks.example.com"))])),
        err("Webhook extension url must be a valid HTTP or HTTPS URL")
    );
    assert_eq!(
        check(object(vec![("secret", JsonValue::Bool(true))])),
        err("Webhook extension secret must be a string")
    );
    assert_eq!(
        check(object(vec![("events", object(vec![]))])),
        err("Webhook extension events must be an array")
    );
    assert_eq!(
        with_params(
            "https://example.com/notification-service",
            object(vec![("events", string("all"))])
        )
        .validate(),
        err("Webhook extension events must be an array")
    );
    assert_eq!(
        AgentExtension::validate_webhook_extension_params(&JsonValue::Null),
        Ok(())
    );
}

#[test]
fn extension_description() {
    let long = |n: usize| {
        AgentExtension::with_config(
            "https://example.com/ext".to_string(),
            Some("d".repeat(n)),
            Some(true),
            None,
        )
    };
    assert_eq!(long(1000).validate(), Ok(()));
    assert_eq!(
        long(1001).validate(),
        err("Extension description is too long (max 1000 characters)")
    );
    let extension = long(3);
    assert_eq!(extension.required, Some(true));
    assert_eq!(extension.description, Some("ddd".to_string()));
    let both = AgentExtension::with_config(
        "https://example.com/ext".to_string(),
        Some("d".repeat(2000)),
        None,
        Some(JsonValue::Null),
    );
    assert_eq!(both.validate(), err("Extension params must be a JSON object"));
}
