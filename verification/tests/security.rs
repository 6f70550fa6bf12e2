use a2a_rs::security::{
    has_distinct_names, validate_description, validate_flow_common, validate_scope,
    validate_scopes,
};
use a2a_rs::{
    ApiKeyLocation, ApiKeySecurityScheme, AuthorizationCodeOAuthFlow, ClientCredentialsOAuthFlow,
    HttpSecurityScheme, ImplicitOAuthFlow, OAuth2Flows, OAuth2SecurityScheme,
    OpenIdConnectSecurityScheme, PasswordOAuthFlow, SecurityScheme,
};

fn err(text: &str) -> Result<(), String> {
    Err(text.to_string())
}

fn scopes(pairs: &[(&str, &str)]) -> Vec<(String, String)> {
    pairs.iter().map(|(name, text)| (name.to_string(), text.to_string())).collect()
}

fn no_flows() -> OAuth2Flows {
    OAuth2Flows { implicit: None, password: None, client_credentials: None, authorization_code: None }
}

fn code_flow() -> AuthorizationCodeOAuthFlow {
    AuthorizationCodeOAuthFlow::new(
        "https://auth.example.com/authorize".to_string(),
        "https://auth.example.com/token".to_string(),
        scopes(&[("read", "Read access"), ("write", "Write access")]),
    )
}

#[test]
fn api_key_in_header() {
    let ok = ApiKeySecurityScheme::new(ApiKeyLocation::Header, "X-API-Key".to_string());
    assert_eq!(ok.type_, "apiKey");
    assert_eq!(ok.name, "X-API-Key");
    assert_eq!(ok.description, None);
    assert_eq!(ok.validate(), Ok(()));
    for name in ["Authorization", "authorization", "AUTHORIZATION", "AuthoriZation"] {
        let scheme = ApiKeySecurityScheme::new(ApiKeyLocation::Header, name.to_string());
        assert_eq!(scheme.validate(), err("Use HTTP security scheme for Authorization header"));
    }
    let scheme = ApiKeySecurityScheme::new(ApiKeyLocation::Header, "X Key".to_string());
    assert_eq!(scheme.validate(), err("Header names cannot contain spaces"));
    let scheme = ApiKeySecurityScheme::new(ApiKeyLocation::Header, "".to_string());
    assert_eq!(scheme.validate(), err("API Key parameter name cannot be empty"));
    let scheme = ApiKeySecurityScheme::new(ApiKeyLocation::Header, "a=b;c&d".to_string());
    assert_eq!(scheme.validate(), Ok(()));
}

#[test]
fn api_key_check_takes_the_folded_name() {
    let scheme = ApiKeySecurityScheme::new(ApiKeyLocation::Header, "Authorization".to_string());
    assert_eq!(scheme.check("authorization"), err("Use HTTP security scheme for Authorization header"));
    assert_eq!(scheme.check("Authorization"), Ok(()));
    let scheme = ApiKeySecurityScheme::new(ApiKeyLocation::Query, "authorization".to_string());
    assert_eq!(scheme.check("authorization"), Ok(()));
}

#[test]
fn api_key_elsewhere() {
    let query = |name: &str| ApiKeySecurityScheme::new(ApiKeyLocation::Query, name.to_string());
    let cookie = |name: &str| ApiKeySecurityScheme::new(ApiKeyLocation::Cookie, name.to_string());
    assert_eq!(query("api_key").validate(), Ok(()));
    assert_eq!(query("authorization").validate(), Ok(()));
    assert_eq!(query("a;b").validate(), Ok(()));
    for name in ["a b", "a&b", "a=b"] {
        assert_eq!(
            query(name).validate(),
            err("Query parameter names cannot contain spaces, &, or =")
        );
    }
    assert_eq!(cookie("session").validate(), Ok(()));
    assert_eq!(cookie("a&b").validate(), Ok(()));
    for name in ["a b", "a;b", "a=b"] {
        assert_eq!(cookie(name).validate(), err("Cookie names cannot contain spaces, ;, or ="));
    }
}

#[test]
fn api_key_type_and_description() {
    let mut scheme = ApiKeySecurityScheme::new(ApiKeyLocation::Header, "X-API-Key".to_string());
    scheme.description = Some("d".repeat(500));
    assert_eq!(scheme.validate(), Ok(()));
    scheme.description = Some("d".repeat(501));
    assert_eq!(
        scheme.validate(),
        err("Security scheme description is too long (max 500 characters)")
    );
    scheme.type_ = "http".to_string();
    assert_eq!(scheme.validate(), err("API Key security scheme type must be 'apiKey'"));
    assert_eq!(validate_description(&None), Ok(()));
    assert_eq!(validate_description(&Some("\u{e9}".repeat(250))), Ok(()));
    assert_eq!(
        validate_description(&Some("\u{e9}".repeat(251))),
        err("Security scheme description is too long (max 500 characters)")
    );
}

#[test]
fn http_schemes() {
    for name in ["basic", "Bearer", "DIGEST", "negotiate", "NTLM", "x-custom", "X-Custom"] {
        assert_eq!(HttpSecurityScheme::new(name.to_string()).validate(), Ok(()));
    }
    assert_eq!(
        HttpSecurityScheme::new("".to_string()).validate(),
        err("HTTP scheme name cannot be empty")
    );
    assert_eq!(
        HttpSecurityScheme::new("Token".to_string()).validate(),
        err("Unknown HTTP authentication scheme: Token")
    );
    let bearer = HttpSecurityScheme::bearer(Some("JWT".to_string()));
    assert_eq!(bearer.type_, "http");
    assert_eq!(bearer.scheme, "bearer");
    assert_eq!(bearer.bearer_format, Some("JWT".to_string()));
    assert_eq!(bearer.validate(), Ok(()));
    assert_eq!(HttpSecurityScheme::bearer(None).validate(), Ok(()));
    assert_eq!(
        HttpSecurityScheme::bearer(Some("".to_string())).validate(),
        err("Bearer format cannot be empty if specified")
    );
    let mut basic = HttpSecurityScheme::new("basic".to_string());
    basic.bearer_format = Some("JWT".to_string());
    assert_eq!(basic.validate(), err("Bearer format can only be specified for bearer scheme"));
    let mut scheme = HttpSecurityScheme::new("basic".to_string());
    scheme.type_ = "apiKey".to_string();
    assert_eq!(scheme.validate(), err("HTTP security scheme type must be 'http'"));
    let mut long = HttpSecurityScheme::new("basic".to_string());
    long.description = Some("d".repeat(501));
    assert_eq!(
        long.validate(),
        err("Security scheme description is too long (max 500 characters)")
    );
    assert_eq!(HttpSecurityScheme::new("Basic".to_string()).check("basic"), Ok(()));
    assert_eq!(
        HttpSecurityScheme::new("basic".to_string()).check("Basic"),
        err("Unknown HTTP authentication scheme: basic")
    );
}

#[test]
fn scope_rules() {
    assert_eq!(validate_scope("read", "Read access"), Ok(()));
    assert_eq!(validate_scope("", "Read access"), err("OAuth2 scope name cannot be empty"));
    assert_eq!(validate_scope("", ""), err("OAuth2 scope name cannot be empty"));
    assert_eq!(validate_scope("read", ""), err("OAuth2 scope description cannot be empty"));
    assert_eq!(validate_scope("read all", ""), err("OAuth2 scope description cannot be empty"));
    assert_eq!(validate_scope("read all", "x"), err("OAuth2 scope names cannot contain spaces"));
    assert_eq!(validate_scopes(&scopes(&[])), Ok(()));
    assert_eq!(validate_scopes(&scopes(&[("a", "A"), ("b", "B")])), Ok(()));
    assert_eq!(
        validate_scopes(&scopes(&[("a", "A"), ("b c", "B"), ("", "C")])),
        err("OAuth2 scope names cannot contain spaces")
    );
    assert_eq!(
        validate_flow_common(&None, &scopes(&[])),
        err("OAuth2 flow must define at least one scope")
    );
    assert_eq!(
        validate_flow_common(&Some("nope".to_string()), &scopes(&[])),
        err("Invalid refresh URL: URL must start with http:// or https://")
    );
}

#[test]
fn flows() {
    assert_eq!(code_flow().validate(), Ok(()));
    let mut flow = code_flow();
    flow.authorization_url = "auth".to_string();
    flow.token_url = "token".to_string();
    assert_eq!(
        flow.validate(),
        err("Invalid authorization URL: URL must start with http:// or https://")
    );
    let mut flow = code_flow();
    flow.token_url = "".to_string();
    assert_eq!(flow.validate(), err("Invalid token URL: URL cannot be empty"));
    let mut flow = code_flow();
    flow.refresh_url = Some("https://a b.example.com".to_string());
    assert_eq!(flow.validate(), err("Invalid refresh URL: URL cannot contain spaces"));
    let mut flow = code_flow();
    flow.refresh_url = Some("https://auth.example.com/refresh".to_string());
    assert_eq!(flow.validate(), Ok(()));
    let mut flow = code_flow();
    flow.scopes = scopes(&[]);
    assert_eq!(flow.validate(), err("OAuth2 flow must define at least one scope"));
    let mut flow = code_flow();
    flow.scopes = scopes(&[("read", "")]);
    assert_eq!(flow.validate(), err("OAuth2 scope description cannot be empty"));

    let good = scopes(&[("api", "API access")]);
    let token = "https://example.com/token".to_string();
    let auth = "https://example.com/auth".to_string();
    assert_eq!(ClientCredentialsOAuthFlow::new(token.clone(), good.clone()).validate(), Ok(()));
    assert_eq!(PasswordOAuthFlow::new(token.clone(), good.clone()).validate(), Ok(()));
    assert_eq!(ImplicitOAuthFlow::new(auth.clone(), good.clone()).validate(), Ok(()));
    assert_eq!(
        ClientCredentialsOAuthFlow::new("x".to_string(), good.clone()).validate(),
        err("Invalid token URL: URL must start with http:// or https://")
    );
    assert_eq!(
        PasswordOAuthFlow::new(token.clone(), scopes(&[])).validate(),
        err("OAuth2 flow must define at least one scope")
    );
    assert_eq!(
        ImplicitOAuthFlow::new("http://".to_string(), good.clone()).validate(),
        err("Invalid authorization URL: URL appears to be too short")
    );
    let flow = ImplicitOAuthFlow::new(auth, good);
    assert_eq!(flow.refresh_url, None);
    assert_eq!(flow.authorization_url, "https://example.com/auth");
    assert_eq!(flow.scopes, scopes(&[("api", "API access")]));
}

#[test]
fn oauth2_scheme() {
    let empty = OAuth2SecurityScheme::new(no_flows());
    assert_eq!(empty.type_, "oauth2");
    assert_eq!(empty.validate(), err("OAuth2 security scheme must define at least one flow"));
    assert!(!empty.supports_client_only_flows());
    assert!(!empty.requires_user_interaction());

    let mut flows = no_flows();
    flows.authorization_code = Some(code_flow());
    let scheme = OAuth2SecurityScheme::new(flows);
    assert_eq!(scheme.validate(), Ok(()));
    assert!(scheme.requires_user_interaction());
    assert!(!scheme.supports_client_only_flows());

    let mut flows = no_flows();
    flows.client_credentials = Some(ClientCredentialsOAuthFlow::new(
        "https://example.com/token".to_string(),
        scopes(&[("api", "API access")]),
    ));
    let scheme = OAuth2SecurityScheme::new(flows);
    assert_eq!(scheme.validate(), Ok(()));
    assert!(scheme.supports_client_only_flows());
    assert!(!scheme.requires_user_interaction());

    let mut flows = no_flows();
    flows.implicit = Some(ImplicitOAuthFlow::new("bad".to_string(), scopes(&[])));
    flows.password = Some(PasswordOAuthFlow::new("bad".to_string(), scopes(&[])));
    assert_eq!(
        OAuth2SecurityScheme::new(flows).validate(),
        err("Invalid implicit flow: Invalid authorization URL: URL must start with http:// or https://")
    );
    let mut flows = no_flows();
    flows.password = Some(PasswordOAuthFlow::new(
        "https://example.com/token".to_string(),
        scopes(&[]),
    ));
    assert_eq!(
        OAuth2SecurityScheme::new(flows).validate(),
        err("Invalid password flow: OAuth2 flow must define at least one scope")
    );
    let mut flows = no_flows();
    flows.client_credentials = Some(ClientCredentialsOAuthFlow::new(
        "https://example.com/token".to_string(),
        scopes(&[("a b", "x")]),
    ));
    assert_eq!(
        OAuth2SecurityScheme::new(flows).validate(),
        err("Invalid client credentials flow: OAuth2 scope names cannot contain spaces")
    );
    let mut flows = no_flows();
    let mut bad = code_flow();
    bad.token_url = "https://".to_string();
    flows.authorization_code = Some(bad);
    assert_eq!(
        OAuth2SecurityScheme::new(flows).validate(),
        err("Invalid authorization code flow: Invalid token URL: URL appears to be too short")
    );

    let mut flows = no_flows();
    flows.authorization_code = Some(code_flow());
    let mut scheme = OAuth2SecurityScheme::new(flows);
    scheme.description = Some("d".repeat(501));
    assert_eq!(
        scheme.validate(),
        err("Security scheme description is too long (max 500 characters)")
    );
    scheme.type_ = "oauth".to_string();
    assert_eq!(scheme.validate(), err("OAuth2 security scheme type must be 'oauth2'"));
}

#[test]
fn open_id_connect_scheme() {
    let url = "https://accounts.example.com/.well-known/openid-configuration";
    let scheme = OpenIdConnectSecurityScheme::new(url.to_string());
    assert_eq!(scheme.type_, "openIdConnect");
    assert_eq!(scheme.validate(), Ok(()));
    assert_eq!(scheme.get_provider_base_url(), "https://accounts.example.com");
    let scheme = OpenIdConnectSecurityScheme::new(
        "https://id.example.com/realm/.well-known/openid_configuration".to_string(),
    );
    assert_eq!(scheme.validate(), Ok(()));
    assert_eq!(scheme.get_provider_base_url(), "https://id.example.com/realm");
    let scheme = OpenIdConnectSecurityScheme::new(
        "http://id.example.com/.well-known/openid-configuration".to_string(),
    );
    assert_eq!(scheme.validate(), err("OpenID Connect URL must use HTTPS"));
    let scheme = OpenIdConnectSecurityScheme::new("https://id.example.com/config".to_string());
    assert_eq!(
        scheme.validate(),
        err("OpenID Connect URL should point to a well-known configuration endpoint")
    );
    assert_eq!(scheme.get_provider_base_url(), "https://id.example.com/config");
    let scheme = OpenIdConnectSecurityScheme::new("id.example.com".to_string());
    assert_eq!(
        scheme.validate(),
        err("Invalid OpenID Connect URL: URL must start with http:// or https://")
    );
    let mut scheme = OpenIdConnectSecurityScheme::new(url.to_string());
    scheme.description = Some("d".repeat(501));
    assert_eq!(
        scheme.validate(),
        err("Security scheme description is too long (max 500 characters)")
    );
    scheme.type_ = "oidc".to_string();
    assert_eq!(
        scheme.validate(),
        err("OpenID Connect security scheme type must be 'openIdConnect'")
    );
    let twice = OpenIdConnectSecurityScheme::new(
        "https://a.example.com/.well-known/x/.well-known/y".to_string(),
    );
    assert_eq!(twice.get_provider_base_url(), "https://a.example.com");
    let accented = OpenIdConnectSecurityScheme::new(
        "https://caf\u{e9}.example.com/.well-known/openid-configuration".to_string(),
    );
    assert_eq!(accented.get_provider_base_url(), "https://caf\u{e9}.example.com");
}

#[test]
fn any_scheme() {
    let api_key = SecurityScheme::ApiKey(ApiKeySecurityScheme::new(
        ApiKeyLocation::Header,
        "X-API-Key".to_string(),
    ));
    assert_eq!(api_key.validate(), Ok(()));
    assert_eq!(api_key.scheme_type(), "apiKey");
    assert!(!api_key.requires_user_interaction());

    let http = SecurityScheme::Http(HttpSecurityScheme::new("teapot".to_string()));
    assert_eq!(http.validate(), err("Unknown HTTP authentication scheme: teapot"));
    assert_eq!(http.scheme_type(), "http");
    assert!(!http.requires_user_interaction());

    let mut flows = no_flows();
    flows.implicit = Some(ImplicitOAuthFlow::new(
        "https://example.com/auth".to_string(),
        scopes(&[("read", "Read access")]),
    ));
    let oauth2 = SecurityScheme::OAuth2(OAuth2SecurityScheme::new(flows));
    assert_eq!(oauth2.validate(), Ok(()));
    assert_eq!(oauth2.scheme_type(), "oauth2");
    assert!(oauth2.requires_user_interaction());
    let oauth2 = SecurityScheme::OAuth2(OAuth2SecurityScheme::new(no_flows()));
    assert_eq!(
        oauth2.validate(),
        err("OAuth2 security scheme must define at least one flow")
    );
    assert!(!oauth2.requires_user_interaction());

    let oidc = SecurityScheme::OpenIdConnect(OpenIdConnectSecurityScheme::new(
        "https://id.example.com/.well-known/openid-configuration".to_string(),
    ));
    assert_eq!(oidc.validate(), Ok(()));
    assert_eq!(oidc.scheme_type(), "openIdConnect");
    assert!(oidc.requires_user_interaction());
}

#[test]
fn names_of_a_map_are_distinct() {
    assert!(has_distinct_names(&scopes(&[])));
    assert!(has_distinct_names(&scopes(&[("a", "x")])));
    assert!(has_distinct_names(&scopes(&[("a", "x"), ("b", "x"), ("A", "x")])));
    assert!(!has_distinct_names(&scopes(&[("a", "x"), ("b", "y"), ("a", "z")])));
    assert!(!has_distinct_names(&scopes(&[("b", "y"), ("a", "x"), ("a", "x")])));
}
