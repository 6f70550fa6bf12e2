//! Security schemes: how a client must authenticate to an agent.
//!
//! Each scheme has a `validate` that reports the first rule that the scheme
//! breaks; what it reports is given by the scheme's `verdict`.

use crate::text::{
    byte_len, byte_length, chars_of, contains, contains_char, find, first_occurrence, has_infix,
    has_prefix, join, lowercase_of, outcome, owned, prefixed, same_text, starts_with,
    to_lowercase, with_prefix,
};
use crate::validation::{url_verdict, validate_url};
use vstd::prelude::*;
use vstd::string::StrSliceExecFns;

verus! {

/// The kinds of security scheme.
#[derive(Debug, Clone, Copy, PartialEq, Eq, Structural)]
pub enum SecuritySchemeType {
    /// API key security scheme.
    ApiKey,
    /// HTTP security scheme.
    Http,
    /// OAuth2 security scheme.
    OAuth2,
    /// OpenID Connect security scheme.
    OpenIdConnect,
}

/// Where an API key is sent.
#[derive(Debug, Clone, Copy, PartialEq, Eq, Structural)]
pub enum ApiKeyLocation {
    /// In a cookie.
    Cookie,
    /// In a header.
    Header,
    /// In a query parameter.
    Query,
}

/// `first`, and if that passes, `second`.
pub open spec fn both(first: Result<(), Seq<char>>, second: Result<(), Seq<char>>) -> Result<
    (),
    Seq<char>,
> {
    if first is Err {
        first
    } else {
        second
    }
}

/// The verdict on the description of a scheme: if there is one, it takes at
/// most 500 bytes.
pub open spec fn description_verdict(description: Option<String>) -> Result<(), Seq<char>> {
    match description {
        Some(text) => if byte_len(text@) > 500 {
            Err("Security scheme description is too long (max 500 characters)"@)
        } else {
            Ok(())
        },
        None => Ok(()),
    }
}

/// Validates the description of a scheme.
pub fn validate_description(description: &Option<String>) -> (r: Result<(), String>)
    ensures
        outcome(r) == description_verdict(*description),
{
    match description {
        Some(text) => {
            if byte_length(text.as_str()) > 500 {
                return Err(owned("Security scheme description is too long (max 500 characters)"));
            }
            Ok(())
        },
        None => Ok(()),
    }
}

/// A key sent in a header, a query parameter or a cookie.
#[derive(Debug, Clone, PartialEq)]
pub struct ApiKeySecurityScheme {
    /// The type of the scheme: always `apiKey`.
    pub type_: String,
    /// Where the key is sent.
    pub in_: ApiKeyLocation,
    /// The name of the header, query parameter or cookie.
    pub name: String,
    /// A description of the scheme.
    pub description: Option<String>,
}

impl ApiKeySecurityScheme {
    /// The verdict on the scheme, given its name in lowercase: the type is
    /// `apiKey`; the name is not empty; a header name holds no space and is
    /// not `authorization` in any case; a query name holds no space, `&` or
    /// `=`; a cookie name holds no space, `;` or `=`; the description is not
    /// too long.
    pub open spec fn verdict_given(&self, folded_name: Seq<char>) -> Result<(), Seq<char>> {
        let name = self.name@;
        if self.type_@ != "apiKey"@ {
            Err("API Key security scheme type must be 'apiKey'"@)
        } else if name.len() == 0 {
            Err("API Key parameter name cannot be empty"@)
        } else if self.in_ is Header && name.contains(' ') {
            Err("Header names cannot contain spaces"@)
        } else if self.in_ is Header && folded_name == "authorization"@ {
            Err("Use HTTP security scheme for Authorization header"@)
        } else if self.in_ is Query && (name.contains(' ') || name.contains('&') || name.contains(
            '=',
        )) {
            Err("Query parameter names cannot contain spaces, &, or ="@)
        } else if self.in_ is Cookie && (name.contains(' ') || name.contains(';') || name.contains(
            '=',
        )) {
            Err("Cookie names cannot contain spaces, ;, or ="@)
        } else {
            description_verdict(self.description)
        }
    }

    /// The verdict on the scheme.
    pub open spec fn verdict(&self) -> Result<(), Seq<char>> {
        self.verdict_given(lowercase_of(self.name@))
    }

    /// A scheme for a key named `name` that is sent in `in_`.
    pub fn new(in_: ApiKeyLocation, name: String) -> (r: Self)
        ensures
            r.type_@ == "apiKey"@,
            r.in_ == in_,
            r.name == name,
            r.description is None,
    {
        Self { type_: owned("apiKey"), in_, name, description: None }
    }

    /// Validates the scheme, given its name in lowercase.
    pub fn check(&self, folded_name: &str) -> (r: Result<(), String>)
        ensures
            outcome(r) == self.verdict_given(folded_name@),
    {
        if !same_text(self.type_.as_str(), "apiKey") {
            return Err(owned("API Key security scheme type must be 'apiKey'"));
        }
        if self.name.as_str().is_empty() {
            return Err(owned("API Key parameter name cannot be empty"));
        }
        let name = chars_of(self.name.as_str());
        match self.in_ {
            ApiKeyLocation::Header => {
                if contains_char(name.as_slice(), ' ') {
                    return Err(owned("Header names cannot contain spaces"));
                }
                if same_text(folded_name, "authorization") {
                    return Err(owned("Use HTTP security scheme for Authorization header"));
                }
            },
            ApiKeyLocation::Query => {
                if contains_char(name.as_slice(), ' ') || contains_char(name.as_slice(), '&')
                    || contains_char(name.as_slice(), '=') {
                    return Err(owned("Query parameter names cannot contain spaces, &, or ="));
                }
            },
            ApiKeyLocation::Cookie => {
                if contains_char(name.as_slice(), ' ') || contains_char(name.as_slice(), ';')
                    || contains_char(name.as_slice(), '=') {
                    return Err(owned("Cookie names cannot contain spaces, ;, or ="));
                }
            },
        }
        validate_description(&self.description)
    }

    /// Validates the scheme.
    pub fn validate(&self) -> (r: Result<(), String>)
        ensures
            outcome(r) == self.verdict(),
    {
        let folded = to_lowercase(self.name.as_str());
        self.check(folded.as_str())
    }
}

/// A key in a header whose name is `authorization` in lowercase fails
/// validation, whatever else the scheme holds.
pub proof fn lemma_authorization_header_is_refused(scheme: ApiKeySecurityScheme)
    requires
        scheme.in_ is Header,
        lowercase_of(scheme.name@) == "authorization"@,
    ensures
        scheme.verdict() is Err,
{
}

/// The HTTP authentication schemes that are known by name.
pub open spec fn known_http_scheme(s: Seq<char>) -> bool {
    s == "basic"@ || s == "bearer"@ || s == "digest"@ || s == "negotiate"@ || s == "ntlm"@
}

/// Whether `s` is one of the HTTP authentication schemes known by name.
pub fn is_known_http_scheme(s: &str) -> (r: bool)
    ensures
        r == known_http_scheme(s@),
{
    same_text(s, "basic") || same_text(s, "bearer") || same_text(s, "digest") || same_text(
        s,
        "negotiate",
    ) || same_text(s, "ntlm")
}

/// Authentication by the HTTP `Authorization` header.
#[derive(Debug, Clone, PartialEq)]
pub struct HttpSecurityScheme {
    /// The type of the scheme: always `http`.
    pub type_: String,
    /// The name of the HTTP authentication scheme.
    pub scheme: String,
    /// A hint on how the bearer token is formatted.
    pub bearer_format: Option<String>,
    /// A description of the scheme.
    pub description: Option<String>,
}

impl HttpSecurityScheme {
    /// The verdict on the scheme, given the name of its HTTP scheme in
    /// lowercase: the type is `http`; the scheme name is not empty and, in
    /// lowercase, is a known one or begins with `x-`; a bearer format stands
    /// only with the scheme `bearer` and is not empty; the description is
    /// not too long.
    pub open spec fn verdict_given(&self, folded_scheme: Seq<char>) -> Result<(), Seq<char>> {
        if self.type_@ != "http"@ {
            Err("HTTP security scheme type must be 'http'"@)
        } else if self.scheme@.len() == 0 {
            Err("HTTP scheme name cannot be empty"@)
        } else if !known_http_scheme(folded_scheme) && !has_prefix(folded_scheme, "x-"@) {
            Err("Unknown HTTP authentication scheme: "@ + self.scheme@)
        } else if self.bearer_format is Some && folded_scheme != "bearer"@ {
            Err("Bearer format can only be specified for bearer scheme"@)
        } else if self.bearer_format is Some && self.bearer_format->0@.len() == 0 {
            Err("Bearer format cannot be empty if specified"@)
        } else {
            description_verdict(self.description)
        }
    }

    /// The verdict on the scheme.
    pub open spec fn verdict(&self) -> Result<(), Seq<char>> {
        self.verdict_given(lowercase_of(self.scheme@))
    }

    /// A scheme for the HTTP authentication scheme named `scheme`.
    pub fn new(scheme: String) -> (r: Self)
        ensures
            r.type_@ == "http"@,
            r.scheme == scheme,
            r.bearer_format is None,
            r.description is None,
    {
        Self { type_: owned("http"), scheme, bearer_format: None, description: None }
    }

    /// A scheme for bearer tokens, with a hint on their format.
    pub fn bearer(bearer_format: Option<String>) -> (r: Self)
        ensures
            r.type_@ == "http"@,
            r.scheme@ == "bearer"@,
            r.bearer_format == bearer_format,
            r.description is None,
    {
        Self { type_: owned("http"), scheme: owned("bearer"), bearer_format, description: None }
    }

    /// Validates the scheme, given the name of its HTTP scheme in lowercase.
    pub fn check(&self, folded_scheme: &str) -> (r: Result<(), String>)
        ensures
            outcome(r) == self.verdict_given(folded_scheme@),
    {
        if !same_text(self.type_.as_str(), "http") {
            return Err(owned("HTTP security scheme type must be 'http'"));
        }
        if self.scheme.as_str().is_empty() {
            return Err(owned("HTTP scheme name cannot be empty"));
        }
        let folded = chars_of(folded_scheme);
        if !is_known_http_scheme(folded_scheme) && !starts_with(folded.as_slice(), "x-") {
            return Err(join("Unknown HTTP authentication scheme: ", self.scheme.as_str()));
        }
        match &self.bearer_format {
            Some(format) => {
                if !same_text(folded_scheme, "bearer") {
                    return Err(owned("Bearer format can only be specified for bearer scheme"));
                }
                if format.as_str().is_empty() {
                    return Err(owned("Bearer format cannot be empty if specified"));
                }
            },
            None => {},
        }
        validate_description(&self.description)
    }

    /// Validates the scheme.
    pub fn validate(&self) -> (r: Result<(), String>)
        ensures
            outcome(r) == self.verdict(),
    {
        let folded = to_lowercase(self.scheme.as_str());
        self.check(folded.as_str())
    }
}

/// No name stands twice among the entries. A list of entries stands for a
/// map where this holds.
pub open spec fn distinct_names<V>(entries: Seq<(String, V)>) -> bool {
    forall|i: int, j: int|
        0 <= i < j < entries.len() ==> (#[trigger] entries[i]).0@ != (#[trigger] entries[j]).0@
}

/// Whether no name stands twice among the entries.
pub fn has_distinct_names<V>(entries: &Vec<(String, V)>) -> (r: bool)
    ensures
        r == distinct_names(entries@),
{
    let mut j: usize = 0;
    while j < entries.len()
        invariant
            j <= entries@.len(),
            forall|a: int, b: int|
                0 <= a < b < j ==> (#[trigger] entries@[a]).0@ != (#[trigger] entries@[b]).0@,
        decreases entries@.len() - j,
    {
        let mut i: usize = 0;
        while i < j
            invariant
                i <= j < entries@.len(),
                forall|a: int| 0 <= a < i ==> (#[trigger] entries@[a]).0@ != entries@[j as int].0@,
            decreases j - i,
        {
            if same_text(entries[i].0.as_str(), entries[j].0.as_str()) {
                return false;
            }
            i += 1;
        }
        j += 1;
    }
    true
}

/// The verdict on one scope: its name is not empty, its description is not
/// empty, and its name holds no space.
pub open spec fn scope_verdict(name: Seq<char>, description: Seq<char>) -> Result<(), Seq<char>> {
    if name.len() == 0 {
        Err("OAuth2 scope name cannot be empty"@)
    } else if description.len() == 0 {
        Err("OAuth2 scope description cannot be empty"@)
    } else if name.contains(' ') {
        Err("OAuth2 scope names cannot contain spaces"@)
    } else {
        Ok(())
    }
}

/// The verdict on a list of scopes: that of the first scope that fails.
pub open spec fn scopes_verdict(scopes: Seq<(String, String)>) -> Result<(), Seq<char>>
    decreases scopes.len(),
{
    if scopes.len() == 0 {
        Ok(())
    } else {
        both(scope_verdict(scopes[0].0@, scopes[0].1@), scopes_verdict(scopes.drop_first()))
    }
}

/// The verdict on a URL that a flow names, with `label` before the message
/// of a failure.
pub open spec fn flow_url_verdict(label: Seq<char>, url: Seq<char>) -> Result<(), Seq<char>> {
    prefixed(label, url_verdict(url))
}

/// The verdict on what all flows share: the refresh URL, if there is one, is
/// a valid URL; there is at least one scope; every scope passes.
pub open spec fn flow_common_verdict(
    refresh_url: Option<String>,
    scopes: Seq<(String, String)>,
) -> Result<(), Seq<char>> {
    both(
        match refresh_url {
            Some(url) => flow_url_verdict("Invalid refresh URL: "@, url@),
            None => Ok(()),
        },
        if scopes.len() == 0 {
            Err("OAuth2 flow must define at least one scope"@)
        } else {
            scopes_verdict(scopes)
        },
    )
}

/// A list of scopes passes exactly if each of its scopes does.
pub proof fn lemma_scopes_verdict(scopes: Seq<(String, String)>)
    ensures
        scopes_verdict(scopes) is Ok <==> forall|i: int|
            0 <= i < scopes.len() ==> scope_verdict(
                (#[trigger] scopes[i]).0@,
                scopes[i].1@,
            ) is Ok,
    decreases scopes.len(),
{
    if scopes.len() > 0 {
        let rest = scopes.drop_first();
        lemma_scopes_verdict(rest);
        if scopes_verdict(scopes) is Ok {
            assert forall|i: int| 0 <= i < scopes.len() implies scope_verdict(
                (#[trigger] scopes[i]).0@,
                scopes[i].1@,
            ) is Ok by {
                if i > 0 {
                    assert(scopes[i] == rest[i - 1]);
                }
            }
        } else if scope_verdict(scopes[0].0@, scopes[0].1@) is Ok {
            let j = choose|j: int|
                0 <= j < rest.len() && !(scope_verdict((#[trigger] rest[j]).0@, rest[j].1@) is Ok);
            assert(scopes[j + 1] == rest[j]);
        }
    }
}

/// Validates one scope.
pub fn validate_scope(name: &str, description: &str) -> (r: Result<(), String>)
    ensures
        outcome(r) == scope_verdict(name@, description@),
{
    if name.is_empty() {
        return Err(owned("OAuth2 scope name cannot be empty"));
    }
    if description.is_empty() {
        return Err(owned("OAuth2 scope description cannot be empty"));
    }
    let cs = chars_of(name);
    if contains_char(cs.as_slice(), ' ') {
        return Err(owned("OAuth2 scope names cannot contain spaces"));
    }
    Ok(())
}

/// Validates a list of scopes, in order.
pub fn validate_scopes(scopes: &Vec<(String, String)>) -> (r: Result<(), String>)
    ensures
        outcome(r) == scopes_verdict(scopes@),
{
    let mut i: usize = 0;
    assert(scopes@.subrange(0, scopes@.len() as int) =~= scopes@);
    while i < scopes.len()
        invariant
            i <= scopes@.len(),
            scopes_verdict(scopes@)
                == scopes_verdict(scopes@.subrange(i as int, scopes@.len() as int)),
        decreases scopes@.len() - i,
    {
        let ghost rest = scopes@.subrange(i as int, scopes@.len() as int);
        assert(rest.drop_first() =~= scopes@.subrange(i + 1, scopes@.len() as int));
        assert(rest[0] == scopes@[i as int]);
        let r = validate_scope(scopes[i].0.as_str(), scopes[i].1.as_str());
        if r.is_err() {
            return r;
        }
        i += 1;
    }
    Ok(())
}

/// Validates a URL that a flow names; `label` goes before the message of a
/// failure.
pub fn validate_flow_url(label: &str, url: &str) -> (r: Result<(), String>)
    ensures
        outcome(r) == flow_url_verdict(label@, url@),
{
    with_prefix(label, validate_url(url))
}

/// Validates what all flows share.
pub fn validate_flow_common(refresh_url: &Option<String>, scopes: &Vec<(String, String)>) -> (r:
    Result<(), String>)
    ensures
        outcome(r) == flow_common_verdict(*refresh_url, scopes@),
{
    match refresh_url {
        Some(url) => {
            let r = validate_flow_url("Invalid refresh URL: ", url.as_str());
            if r.is_err() {
                return r;
            }
        },
        None => {},
    }
    if scopes.len() == 0 {
        return Err(owned("OAuth2 flow must define at least one scope"));
    }
    validate_scopes(scopes)
}

/// The authorization code flow of OAuth2.
#[derive(Debug, Clone, PartialEq)]
pub struct AuthorizationCodeOAuthFlow {
    /// The authorization URL of the flow.
    pub authorization_url: String,
    /// The token URL of the flow.
    pub token_url: String,
    /// The URL for obtaining refresh tokens.
    pub refresh_url: Option<String>,
    /// The scopes of the flow: each name with its description, as a map
    /// holds them (see [`distinct_names`]). They are validated in the order
    /// of the list.
    pub scopes: Vec<(String, String)>,
}

impl AuthorizationCodeOAuthFlow {
    /// The verdict on the flow: the authorization URL is valid, the token
    /// URL is valid, and what all flows share holds.
    pub open spec fn verdict(&self) -> Result<(), Seq<char>> {
        both(
            flow_url_verdict("Invalid authorization URL: "@, self.authorization_url@),
            both(
                flow_url_verdict("Invalid token URL: "@, self.token_url@),
                flow_common_verdict(self.refresh_url, self.scopes@),
            ),
        )
    }

    /// A flow with the given URLs and scopes, and no refresh URL.
    pub fn new(authorization_url: String, token_url: String, scopes: Vec<(String, String)>) -> (r:
        Self)
        ensures
            r.authorization_url == authorization_url,
            r.token_url == token_url,
            r.refresh_url is None,
            r.scopes == scopes,
    {
        Self { authorization_url, token_url, refresh_url: None, scopes }
    }

    /// Validates the flow.
    pub fn validate(&self) -> (r: Result<(), String>)
        ensures
            outcome(r) == self.verdict(),
    {
        let r = validate_flow_url("Invalid authorization URL: ", self.authorization_url.as_str());
        if r.is_err() {
            return r;
        }
        let r = validate_flow_url("Invalid token URL: ", self.token_url.as_str());
        if r.is_err() {
            return r;
        }
        validate_flow_common(&self.refresh_url, &self.scopes)
    }
}

/// The client credentials flow of OAuth2.
#[derive(Debug, Clone, PartialEq)]
pub struct ClientCredentialsOAuthFlow {
    /// The token URL of the flow.
    pub token_url: String,
    /// The URL for obtaining refresh tokens.
    pub refresh_url: Option<String>,
    /// The scopes of the flow: each name with its description, as a map
    /// holds them (see [`distinct_names`]). They are validated in the order
    /// of the list.
    pub scopes: Vec<(String, String)>,
}

impl ClientCredentialsOAuthFlow {
    /// The verdict on the flow: the token URL is valid, and what all flows
    /// share holds.
    pub open spec fn verdict(&self) -> Result<(), Seq<char>> {
        both(
            flow_url_verdict("Invalid token URL: "@, self.token_url@),
            flow_common_verdict(self.refresh_url, self.scopes@),
        )
    }

    /// A flow with the given token URL and scopes, and no refresh URL.
    pub fn new(token_url: String, scopes: Vec<(String, String)>) -> (r: Self)
        ensures
            r.token_url == token_url,
            r.refresh_url is None,
            r.scopes == scopes,
    {
        Self { token_url, refresh_url: None, scopes }
    }

    /// Validates the flow.
    pub fn validate(&self) -> (r: Result<(), String>)
        ensures
            outcome(r) == self.verdict(),
    {
        let r = validate_flow_url("Invalid token URL: ", self.token_url.as_str());
        if r.is_err() {
            return r;
        }
        validate_flow_common(&self.refresh_url, &self.scopes)
    }
}

/// The implicit flow of OAuth2.
#[derive(Debug, Clone, PartialEq)]
pub struct ImplicitOAuthFlow {
    /// The authorization URL of the flow.
    pub authorization_url: String,
    /// The URL for obtaining refresh tokens.
    pub refresh_url: Option<String>,
    /// The scopes of the flow: each name with its description, as a map
    /// holds them (see [`distinct_names`]). They are validated in the order
    /// of the list.
    pub scopes: Vec<(String, String)>,
}

impl ImplicitOAuthFlow {
    /// The verdict on the flow: the authorization URL is valid, and what all
    /// flows share holds.
    pub open spec fn verdict(&self) -> Result<(), Seq<char>> {
        both(
            flow_url_verdict("Invalid authorization URL: "@, self.authorization_url@),
            flow_common_verdict(self.refresh_url, self.scopes@),
        )
    }

    /// A flow with the given authorization URL and scopes, and no refresh
    /// URL.
    pub fn new(authorization_url: String, scopes: Vec<(String, String)>) -> (r: Self)
        ensures
            r.authorization_url == authorization_url,
            r.refresh_url is None,
            r.scopes == scopes,
    {
        Self { authorization_url, refresh_url: None, scopes }
    }

    /// Validates the flow.
    pub fn validate(&self) -> (r: Result<(), String>)
        ensures
            outcome(r) == self.verdict(),
    {
        let r = validate_flow_url("Invalid authorization URL: ", self.authorization_url.as_str());
        if r.is_err() {
            return r;
        }
        validate_flow_common(&self.refresh_url, &self.scopes)
    }
}

/// The password flow of OAuth2.
#[derive(Debug, Clone, PartialEq)]
pub struct PasswordOAuthFlow {
    /// The token URL of the flow.
    pub token_url: String,
    /// The URL for obtaining refresh tokens.
    pub refresh_url: Option<String>,
    /// The scopes of the flow: each name with its description, as a map
    /// holds them (see [`distinct_names`]). They are validated in the order
    /// of the list.
    pub scopes: Vec<(String, String)>,
}

impl PasswordOAuthFlow {
    /// The verdict on the flow: the token URL is valid, and what all flows
    /// share holds.
    pub open spec fn verdict(&self) -> Result<(), Seq<char>> {
        both(
            flow_url_verdict("Invalid token URL: "@, self.token_url@),
            flow_common_verdict(self.refresh_url, self.scopes@),
        )
    }

    /// A flow with the given token URL and scopes, and no refresh URL.
    pub fn new(token_url: String, scopes: Vec<(String, String)>) -> (r: Self)
        ensures
            r.token_url == token_url,
            r.refresh_url is None,
            r.scopes == scopes,
    {
        Self { token_url, refresh_url: None, scopes }
    }

    /// Validates the flow.
    pub fn validate(&self) -> (r: Result<(), String>)
        ensures
            outcome(r) == self.verdict(),
    {
        let r = validate_flow_url("Invalid token URL: ", self.token_url.as_str());
        if r.is_err() {
            return r;
        }
        validate_flow_common(&self.refresh_url, &self.scopes)
    }
}

/// The flows that an OAuth2 scheme offers.
#[derive(Debug, Clone, PartialEq)]
pub struct OAuth2Flows {
    /// The implicit flow.
    pub implicit: Option<ImplicitOAuthFlow>,
    /// The password flow.
    pub password: Option<PasswordOAuthFlow>,
    /// The client credentials flow.
    pub client_credentials: Option<ClientCredentialsOAuthFlow>,
    /// The authorization code flow.
    pub authorization_code: Option<AuthorizationCodeOAuthFlow>,
}

impl OAuth2Flows {
    /// None of the four flows is there.
    pub open spec fn none_defined(&self) -> bool {
        self.implicit is None && self.password is None && self.client_credentials is None
            && self.authorization_code is None
    }

    /// The verdict on the flows that are there, in the order implicit,
    /// password, client credentials, authorization code; the message of a
    /// failure begins with the name of the flow.
    pub open spec fn verdict(&self) -> Result<(), Seq<char>> {
        both(
            match self.implicit {
                Some(flow) => prefixed("Invalid implicit flow: "@, flow.verdict()),
                None => Ok(()),
            },
            both(
                match self.password {
                    Some(flow) => prefixed("Invalid password flow: "@, flow.verdict()),
                    None => Ok(()),
                },
                both(
                    match self.client_credentials {
                        Some(flow) => prefixed(
                            "Invalid client credentials flow: "@,
                            flow.verdict(),
                        ),
                        None => Ok(()),
                    },
                    match self.authorization_code {
                        Some(flow) => prefixed(
                            "Invalid authorization code flow: "@,
                            flow.verdict(),
                        ),
                        None => Ok(()),
                    },
                ),
            ),
        )
    }

    /// Validates the flows that are there.
    pub fn validate(&self) -> (r: Result<(), String>)
        ensures
            outcome(r) == self.verdict(),
    {
        match &self.implicit {
            Some(flow) => {
                let r = with_prefix("Invalid implicit flow: ", flow.validate());
                if r.is_err() {
                    return r;
                }
            },
            None => {},
        }
        match &self.password {
            Some(flow) => {
                let r = with_prefix("Invalid password flow: ", flow.validate());
                if r.is_err() {
                    return r;
                }
            },
            None => {},
        }
        match &self.client_credentials {
            Some(flow) => {
                let r = with_prefix("Invalid client credentials flow: ", flow.validate());
                if r.is_err() {
                    return r;
                }
            },
            None => {},
        }
        match &self.authorization_code {
            Some(flow) => with_prefix("Invalid authorization code flow: ", flow.validate()),
            None => Ok(()),
        }
    }
}

/// Authentication by OAuth2.
#[derive(Debug, Clone, PartialEq)]
pub struct OAuth2SecurityScheme {
    /// The type of the scheme: always `oauth2`.
    pub type_: String,
    /// The flows that the scheme offers.
    pub flows: OAuth2Flows,
    /// A description of the scheme.
    pub description: Option<String>,
}

impl OAuth2SecurityScheme {
    /// The verdict on the scheme: the type is `oauth2`; at least one flow is
    /// there; every flow that is there passes; the description is not too
    /// long.
    pub open spec fn verdict(&self) -> Result<(), Seq<char>> {
        if self.type_@ != "oauth2"@ {
            Err("OAuth2 security scheme type must be 'oauth2'"@)
        } else if self.flows.none_defined() {
            Err("OAuth2 security scheme must define at least one flow"@)
        } else {
            both(self.flows.verdict(), description_verdict(self.description))
        }
    }

    /// A scheme that offers `flows`.
    pub fn new(flows: OAuth2Flows) -> (r: Self)
        ensures
            r.type_@ == "oauth2"@,
            r.flows == flows,
            r.description is None,
    {
        Self { type_: owned("oauth2"), flows, description: None }
    }

    /// Validates the scheme.
    pub fn validate(&self) -> (r: Result<(), String>)
        ensures
            outcome(r) == self.verdict(),
    {
        if !same_text(self.type_.as_str(), "oauth2") {
            return Err(owned("OAuth2 security scheme type must be 'oauth2'"));
        }
        if self.flows.implicit.is_none() && self.flows.password.is_none()
            && self.flows.client_credentials.is_none() && self.flows.authorization_code.is_none() {
            return Err(owned("OAuth2 security scheme must define at least one flow"));
        }
        let r = self.flows.validate();
        if r.is_err() {
            return r;
        }
        validate_description(&self.description)
    }

    /// Whether the scheme offers a flow that needs no user: the client
    /// credentials flow.
    pub fn supports_client_only_flows(&self) -> (r: bool)
        ensures
            r == self.flows.client_credentials is Some,
    {
        self.flows.client_credentials.is_some()
    }

    /// Whether the scheme offers a flow in which the user takes part: the
    /// implicit flow or the authorization code flow.
    pub fn requires_user_interaction(&self) -> (r: bool)
        ensures
            r == (self.flows.implicit is Some || self.flows.authorization_code is Some),
    {
        self.flows.implicit.is_some() || self.flows.authorization_code.is_some()
    }
}

/// A scheme without any flow fails validation, whatever else it holds.
pub proof fn lemma_oauth2_needs_a_flow(scheme: OAuth2SecurityScheme)
    requires
        scheme.flows.none_defined(),
    ensures
        scheme.verdict() is Err,
{
}

/// Authentication by OpenID Connect.
#[derive(Debug, Clone, PartialEq)]
pub struct OpenIdConnectSecurityScheme {
    /// The type of the scheme: always `openIdConnect`.
    pub type_: String,
    /// The URL at which the OAuth2 configuration is discovered.
    pub open_id_connect_url: String,
    /// A description of the scheme.
    pub description: Option<String>,
}

/// `url` holds the path of a discovery document.
pub open spec fn names_discovery_document(url: Seq<char>) -> bool {
    has_infix(url, "/.well-known/openid_configuration"@) || has_infix(
        url,
        "/.well-known/openid-configuration"@,
    )
}

/// What stands in `url` before the first `/.well-known/`, or all of `url` if
/// it holds none.
pub open spec fn provider_base(url: Seq<char>) -> Seq<char> {
    if has_infix(url, "/.well-known/"@) {
        url.subrange(0, choose|i: int| first_occurrence(url, "/.well-known/"@, i))
    } else {
        url
    }
}

impl OpenIdConnectSecurityScheme {
    /// The verdict on the scheme: the type is `openIdConnect`; the URL is a
    /// valid URL, uses HTTPS and holds the path of a discovery document; the
    /// description is not too long.
    pub open spec fn verdict(&self) -> Result<(), Seq<char>> {
        let url = self.open_id_connect_url@;
        if self.type_@ != "openIdConnect"@ {
            Err("OpenID Connect security scheme type must be 'openIdConnect'"@)
        } else if url_verdict(url) is Err {
            prefixed("Invalid OpenID Connect URL: "@, url_verdict(url))
        } else if !has_prefix(url, "https://"@) {
            Err("OpenID Connect URL must use HTTPS"@)
        } else if !names_discovery_document(url) {
            Err("OpenID Connect URL should point to a well-known configuration endpoint"@)
        } else {
            description_verdict(self.description)
        }
    }

    /// A scheme whose configuration is discovered at `open_id_connect_url`.
    pub fn new(open_id_connect_url: String) -> (r: Self)
        ensures
            r.type_@ == "openIdConnect"@,
            r.open_id_connect_url == open_id_connect_url,
            r.description is None,
    {
        Self { type_: owned("openIdConnect"), open_id_connect_url, description: None }
    }

    /// Validates the scheme.
    pub fn validate(&self) -> (r: Result<(), String>)
        ensures
            outcome(r) == self.verdict(),
    {
        if !same_text(self.type_.as_str(), "openIdConnect") {
            return Err(owned("OpenID Connect security scheme type must be 'openIdConnect'"));
        }
        let url = self.open_id_connect_url.as_str();
        let r = with_prefix("Invalid OpenID Connect URL: ", validate_url(url));
        if r.is_err() {
            return r;
        }
        let cs = chars_of(url);
        if !starts_with(cs.as_slice(), "https://") {
            return Err(owned("OpenID Connect URL must use HTTPS"));
        }
        if !contains(cs.as_slice(), "/.well-known/openid_configuration") && !contains(
            cs.as_slice(),
            "/.well-known/openid-configuration",
        ) {
            return Err(
                owned("OpenID Connect URL should point to a well-known configuration endpoint"),
            );
        }
        validate_description(&self.description)
    }

    /// The URL of the provider: what stands in the discovery URL before the
    /// first `/.well-known/`, or all of it if it holds none.
    pub fn get_provider_base_url(&self) -> (r: String)
        ensures
            r@ == provider_base(self.open_id_connect_url@),
    {
        let url = self.open_id_connect_url.as_str();
        let cs = chars_of(url);
        let marker = chars_of("/.well-known/");
        match find(cs.as_slice(), marker.as_slice()) {
            Some(pos) => {
                proof {
                    let i = choose|i: int| first_occurrence(url@, "/.well-known/"@, i);
                    assert(first_occurrence(url@, "/.well-known/"@, pos as int));
                    assert(i == pos) by {
                        if i < pos {
                        } else if pos < i {
                        }
                    }
                }
                owned(url.substring_char(0, pos))
            },
            None => owned(url),
        }
    }
}

/// A security scheme of one of the four kinds.
#[derive(Debug, Clone, PartialEq)]
pub enum SecurityScheme {
    /// API key security scheme.
    ApiKey(ApiKeySecurityScheme),
    /// HTTP security scheme.
    Http(HttpSecurityScheme),
    /// OAuth2 security scheme.
    OAuth2(OAuth2SecurityScheme),
    /// OpenID Connect security scheme.
    OpenIdConnect(OpenIdConnectSecurityScheme),
}

impl SecurityScheme {
    /// The verdict on the scheme: that of the scheme it holds.
    pub open spec fn verdict(&self) -> Result<(), Seq<char>> {
        match self {
            SecurityScheme::ApiKey(scheme) => scheme.verdict(),
            SecurityScheme::Http(scheme) => scheme.verdict(),
            SecurityScheme::OAuth2(scheme) => scheme.verdict(),
            SecurityScheme::OpenIdConnect(scheme) => scheme.verdict(),
        }
    }

    /// The kind of the scheme.
    pub open spec fn kind(&self) -> SecuritySchemeType {
        match self {
            SecurityScheme::ApiKey(_) => SecuritySchemeType::ApiKey,
            SecurityScheme::Http(_) => SecuritySchemeType::Http,
            SecurityScheme::OAuth2(_) => SecuritySchemeType::OAuth2,
            SecurityScheme::OpenIdConnect(_) => SecuritySchemeType::OpenIdConnect,
        }
    }

    /// Whether the user takes part in the authentication: never with an API
    /// key or HTTP; with OAuth2 if the implicit or the authorization code
    /// flow is offered; always with OpenID Connect.
    pub open spec fn user_takes_part(&self) -> bool {
        match self {
            SecurityScheme::ApiKey(_) => false,
            SecurityScheme::Http(_) => false,
            SecurityScheme::OAuth2(scheme) => scheme.flows.implicit is Some
                || scheme.flows.authorization_code is Some,
            SecurityScheme::OpenIdConnect(_) => true,
        }
    }

    /// Validates the scheme.
    pub fn validate(&self) -> (r: Result<(), String>)
        ensures
            outcome(r) == self.verdict(),
    {
        match self {
            SecurityScheme::ApiKey(scheme) => scheme.validate(),
            SecurityScheme::Http(scheme) => scheme.validate(),
            SecurityScheme::OAuth2(scheme) => scheme.validate(),
            SecurityScheme::OpenIdConnect(scheme) => scheme.validate(),
        }
    }

    /// The type of the scheme as it is written on the wire.
    pub fn scheme_type(&self) -> (r: &'static str)
        ensures
            r@ == type_label(self.kind()),
    {
        match self {
            SecurityScheme::ApiKey(_) => "apiKey",
            SecurityScheme::Http(_) => "http",
            SecurityScheme::OAuth2(_) => "oauth2",
            SecurityScheme::OpenIdConnect(_) => "openIdConnect",
        }
    }

    /// Whether the user takes part in the authentication.
    pub fn requires_user_interaction(&self) -> (r: bool)
        ensures
            r == self.user_takes_part(),
    {
        match self {
            SecurityScheme::ApiKey(_) => false,
            SecurityScheme::Http(_) => false,
            SecurityScheme::OAuth2(scheme) => scheme.requires_user_interaction(),
            SecurityScheme::OpenIdConnect(_) => true,
        }
    }
}

/// The type of a scheme of kind `kind` as it is written on the wire.
pub open spec fn type_label(kind: SecuritySchemeType) -> Seq<char> {
    match kind {
        SecuritySchemeType::ApiKey => "apiKey"@,
        SecuritySchemeType::Http => "http"@,
        SecuritySchemeType::OAuth2 => "oauth2"@,
        SecuritySchemeType::OpenIdConnect => "openIdConnect"@,
    }
}

} // verus!
