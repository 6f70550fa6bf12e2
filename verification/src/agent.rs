//! What an agent says of itself: its card, capabilities, skills and
//! extensions.

use crate::json::{optional_view, JsonModel, JsonValue};
use crate::security::SecurityScheme;
use crate::text::{
    byte_len, byte_length, chars_of, contains, has_infix, has_prefix, outcome, owned, starts_with,
};
use crate::validation::{url_verdict, validate_url};
use crate::PROTOCOL_VERSION;
use vstd::prelude::*;

verus! {

/// An extension of the protocol that an agent supports.
#[derive(Debug, Clone, PartialEq)]
pub struct AgentExtension {
    /// The URI of the extension.
    pub uri: String,
    /// Whether the client must follow the requirements of the extension.
    pub required: Option<bool>,
    /// How the agent uses the extension.
    pub description: Option<String>,
    /// The configuration of the extension.
    pub params: Option<JsonValue>,
}

/// `text` begins with `http://` or `https://`.
pub open spec fn has_http_scheme(text: Seq<char>) -> bool {
    has_prefix(text, "http://"@) || has_prefix(text, "https://"@)
}

/// Whether `text` begins with `http://` or `https://`.
pub fn is_http_url(text: &str) -> (r: bool)
    ensures
        r == has_http_scheme(text@),
{
    let cs = chars_of(text);
    starts_with(cs.as_slice(), "http://") || starts_with(cs.as_slice(), "https://")
}

/// The verdict on the URI of an extension: it is not empty, begins with
/// `http://` or `https://`, takes at least ten bytes, and passes as a URL.
pub open spec fn extension_uri_verdict(uri: Seq<char>) -> Result<(), Seq<char>> {
    if uri.len() == 0 {
        Err("Extension URI cannot be empty"@)
    } else if !has_http_scheme(uri) {
        Err("Extension URI must be a valid HTTP or HTTPS URL"@)
    } else if byte_len(uri) < 10 {
        Err("Extension URI appears to be too short"@)
    } else {
        url_verdict(uri)
    }
}

/// The URI of an extension passes exactly if it passes as a URL.
pub proof fn lemma_extension_uri_is_url(uri: Seq<char>)
    ensures
        extension_uri_verdict(uri) is Ok <==> url_verdict(uri) is Ok,
{
}

/// The verdict on the parameters of an extension for authentication: a
/// member `clientId` is a string that is not empty; a member `scopes` is an
/// array; a member `redirectUri` is a string that begins with `http://` or
/// `https://`. A member that is missing breaks no rule.
pub open spec fn auth_params_verdict(params: JsonModel) -> Result<(), Seq<char>> {
    let client_id = params.member("clientId"@);
    let scopes = params.member("scopes"@);
    let redirect = params.member("redirectUri"@);
    if client_id is Some && !(client_id->0 matches JsonModel::String(text) && text.len() > 0) {
        Err("Auth extension clientId must be a non-empty string"@)
    } else if scopes is Some && !(scopes->0 is Array) {
        Err("Auth extension scopes must be an array"@)
    } else if redirect is Some && !(redirect->0 is String) {
        Err("Auth extension redirectUri must be a string"@)
    } else if redirect is Some && !has_http_scheme(redirect->0->String_0) {
        Err("Auth extension redirectUri must be a valid URL"@)
    } else {
        Ok(())
    }
}

/// The verdict on the parameters of an extension for webhooks: a member
/// `url` is a string that is not empty and begins with `http://` or
/// `https://`; a member `secret` is a string; a member `events` is an array.
/// A member that is missing breaks no rule.
pub open spec fn webhook_params_verdict(params: JsonModel) -> Result<(), Seq<char>> {
    let url = params.member("url"@);
    let secret = params.member("secret"@);
    let events = params.member("events"@);
    if url is Some && !(url->0 matches JsonModel::String(text) && text.len() > 0) {
        Err("Webhook extension url must be a non-empty string"@)
    } else if url is Some && !has_http_scheme(url->0->String_0) {
        Err("Webhook extension url must be a valid HTTP or HTTPS URL"@)
    } else if secret is Some && !(secret->0 is String) {
        Err("Webhook extension secret must be a string"@)
    } else if events is Some && !(events->0 is Array) {
        Err("Webhook extension events must be an array"@)
    } else {
        Ok(())
    }
}

/// The verdict on the parameters of an extension with the URI `uri`: where
/// there are any, they are an object; where the URI holds `oauth` or `auth`,
/// they pass as parameters for authentication; else, where it holds
/// `webhook` or `notification`, as parameters for webhooks. With any other
/// URI what the object holds is not looked at.
pub open spec fn extension_params_verdict(uri: Seq<char>, params: Option<JsonModel>) -> Result<
    (),
    Seq<char>,
> {
    match params {
        None => Ok(()),
        Some(value) => if !(value is Object) {
            Err("Extension params must be a JSON object"@)
        } else if has_infix(uri, "oauth"@) || has_infix(uri, "auth"@) {
            auth_params_verdict(value)
        } else if has_infix(uri, "webhook"@) || has_infix(uri, "notification"@) {
            webhook_params_verdict(value)
        } else {
            Ok(())
        },
    }
}

/// The verdict on the description of an extension: if there is one, it takes
/// at most 1000 bytes.
pub open spec fn extension_description_verdict(description: Option<String>) -> Result<
    (),
    Seq<char>,
> {
    match description {
        Some(text) => if byte_len(text@) > 1000 {
            Err("Extension description is too long (max 1000 characters)"@)
        } else {
            Ok(())
        },
        None => Ok(()),
    }
}

impl AgentExtension {
    /// The verdict on the extension: that on its URI, then that on its
    /// parameters, then that on its description.
    pub open spec fn verdict(&self) -> Result<(), Seq<char>> {
        if extension_uri_verdict(self.uri@) is Err {
            extension_uri_verdict(self.uri@)
        } else if extension_params_verdict(self.uri@, optional_view(self.params)) is Err {
            extension_params_verdict(self.uri@, optional_view(self.params))
        } else {
            extension_description_verdict(self.description)
        }
    }

    /// An extension with the URI `uri` and nothing else.
    pub fn new(uri: String) -> (r: Self)
        ensures
            r.uri == uri,
            r.required is None,
            r.description is None,
            r.params is None,
    {
        Self { uri, required: None, description: None, params: None }
    }

    /// An extension with all that is given.
    pub fn with_config(
        uri: String,
        description: Option<String>,
        required: Option<bool>,
        params: Option<JsonValue>,
    ) -> (r: Self)
        ensures
            r.uri == uri,
            r.required == required,
            r.description == description,
            r.params == params,
    {
        Self { uri, required, description, params }
    }

    /// Validates the URI of the extension.
    pub fn validate_uri(&self) -> (r: Result<(), String>)
        ensures
            outcome(r) == extension_uri_verdict(self.uri@),
    {
        let uri = self.uri.as_str();
        if uri.is_empty() {
            return Err(owned("Extension URI cannot be empty"));
        }
        if !is_http_url(uri) {
            return Err(owned("Extension URI must be a valid HTTP or HTTPS URL"));
        }
        if byte_length(uri) < 10 {
            return Err(owned("Extension URI appears to be too short"));
        }
        validate_url(uri)
    }

    /// Validates parameters of an extension for authentication.
    pub fn validate_auth_extension_params(params: &JsonValue) -> (r: Result<(), String>)
        ensures
            outcome(r) == auth_params_verdict(params@),
    {
        match params.get("clientId") {
            Some(JsonValue::String(text)) => {
                if text.as_str().is_empty() {
                    return Err(owned("Auth extension clientId must be a non-empty string"));
                }
            },
            Some(_) => {
                return Err(owned("Auth extension clientId must be a non-empty string"));
            },
            None => {},
        }
        match params.get("scopes") {
            Some(JsonValue::Array(_)) => {},
            Some(_) => {
                return Err(owned("Auth extension scopes must be an array"));
            },
            None => {},
        }
        match params.get("redirectUri") {
            Some(JsonValue::String(text)) => {
                if !is_http_url(text.as_str()) {
                    return Err(owned("Auth extension redirectUri must be a valid URL"));
                }
            },
            Some(_) => {
                return Err(owned("Auth extension redirectUri must be a string"));
            },
            None => {},
        }
        Ok(())
    }

    /// Validates parameters of an extension for webhooks.
    pub fn validate_webhook_extension_params(params: &JsonValue) -> (r: Result<(), String>)
        ensures
            outcome(r) == webhook_params_verdict(params@),
    {
        match params.get("url") {
            Some(JsonValue::String(text)) => {
                if text.as_str().is_empty() {
                    return Err(owned("Webhook extension url must be a non-empty string"));
                }
                if !is_http_url(text.as_str()) {
                    return Err(owned("Webhook extension url must be a valid HTTP or HTTPS URL"));
                }
            },
            Some(_) => {
                return Err(owned("Webhook extension url must be a non-empty string"));
            },
            None => {},
        }
        match params.get("secret") {
            Some(JsonValue::String(_)) => {},
            Some(_) => {
                return Err(owned("Webhook extension secret must be a string"));
            },
            None => {},
        }
        match params.get("events") {
            Some(JsonValue::Array(_)) => {},
            Some(_) => {
                return Err(owned("Webhook extension events must be an array"));
            },
            None => {},
        }
        Ok(())
    }

    /// Validates the parameters of the extension.
    pub fn validate_params(&self) -> (r: Result<(), String>)
        ensures
            outcome(r) == extension_params_verdict(self.uri@, optional_view(self.params)),
    {
        match &self.params {
            Some(params) => {
                if !params.is_object() {
                    return Err(owned("Extension params must be a JSON object"));
                }
                let uri = chars_of(self.uri.as_str());
                if contains(uri.as_slice(), "oauth") || contains(uri.as_slice(), "auth") {
                    Self::validate_auth_extension_params(params)
                } else if contains(uri.as_slice(), "webhook") || contains(
                    uri.as_slice(),
                    "notification",
                ) {
                    Self::validate_webhook_extension_params(params)
                } else {
                    Ok(())
                }
            },
            None => Ok(()),
        }
    }

    /// Validates the extension.
    pub fn validate(&self) -> (r: Result<(), String>)
        ensures
            outcome(r) == self.verdict(),
    {
        let r = self.validate_uri();
        if r.is_err() {
            return r;
        }
        let r = self.validate_params();
        if r.is_err() {
            return r;
        }
        match &self.description {
            Some(text) => {
                if byte_length(text.as_str()) > 1000 {
                    return Err(owned("Extension description is too long (max 1000 characters)"));
                }
                Ok(())
            },
            None => Ok(()),
        }
    }
}

/// What an agent can do beyond the core of the protocol.
#[derive(Debug, Clone, PartialEq)]
pub struct AgentCapabilities {
    /// The extensions that the agent supports.
    pub extensions: Option<Vec<AgentExtension>>,
    /// Whether the agent can notify the client of updates.
    pub push_notifications: Option<bool>,
    /// Whether the agent exposes the history of status changes of tasks.
    pub state_transition_history: Option<bool>,
    /// Whether the agent supports streaming.
    pub streaming: Option<bool>,
}

/// A URL at which an agent is reached, with its transport.
#[derive(Debug, Clone, PartialEq)]
pub struct AgentInterface {
    /// The URL of the interface.
    pub url: String,
    /// The transport that the URL supports.
    pub transport: String,
}

/// Who provides an agent.
#[derive(Debug, Clone, PartialEq)]
pub struct AgentProvider {
    /// The name of the organization.
    pub organization: String,
    /// The URL of the organization.
    pub url: String,
}

/// A unit of what an agent can do.
#[derive(Debug, Clone, PartialEq)]
pub struct AgentSkill {
    /// The name of the skill.
    pub name: String,
    /// A description of the skill.
    pub description: String,
    /// The input modes that the skill supports.
    pub input_modes: Option<Vec<String>>,
    /// The output modes that the skill supports.
    pub output_modes: Option<Vec<String>>,
    /// Examples of what the skill can do.
    pub examples: Option<Vec<String>>,
}

/// The card by which an agent makes itself known.
#[derive(Debug, Clone, PartialEq)]
pub struct AgentCard {
    /// The name of the agent.
    pub name: String,
    /// A description of the agent.
    pub description: String,
    /// The version of the agent.
    pub version: String,
    /// The version of the protocol that the agent supports.
    pub protocol_version: String,
    /// The URL at which the agent is hosted.
    pub url: String,
    /// The transport of the preferred endpoint.
    pub preferred_transport: Option<String>,
    /// The capabilities of the agent.
    pub capabilities: AgentCapabilities,
    /// The media types that the agent accepts across all skills.
    pub default_input_modes: Vec<String>,
    /// The media types that the agent produces across all skills.
    pub default_output_modes: Vec<String>,
    /// The skills of the agent.
    pub skills: Vec<AgentSkill>,
    /// Who provides the agent.
    pub provider: Option<AgentProvider>,
    /// A URL to the documentation of the agent.
    pub documentation_url: Option<String>,
    /// A URL to an icon of the agent.
    pub icon_url: Option<String>,
    /// Whether the agent gives an extended card to an authenticated user.
    pub supports_authenticated_extended_card: Option<bool>,
    /// Further URLs at which the agent is reached.
    pub additional_interfaces: Option<Vec<AgentInterface>>,
    /// What is required to contact the agent: alternatives, each a list of
    /// scheme names with the scopes asked of that scheme. A name stands once
    /// in an alternative.
    pub security: Option<Vec<Vec<(String, Vec<String>)>>>,
    /// The security schemes of the agent, each under its name. A name stands
    /// once.
    pub security_schemes: Option<Vec<(String, SecurityScheme)>>,
}

impl AgentCard {
    /// A card with what is given, for the version of the protocol that this
    /// crate models, and nothing that is optional.
    pub fn new(
        name: String,
        description: String,
        version: String,
        url: String,
        capabilities: AgentCapabilities,
        default_input_modes: Vec<String>,
        default_output_modes: Vec<String>,
        skills: Vec<AgentSkill>,
    ) -> (r: Self)
        ensures
            r.name == name,
            r.description == description,
            r.version == version,
            r.protocol_version@ == PROTOCOL_VERSION@,
            r.url == url,
            r.preferred_transport is None,
            r.capabilities == capabilities,
            r.default_input_modes == default_input_modes,
            r.default_output_modes == default_output_modes,
            r.skills == skills,
            r.provider is None,
            r.documentation_url is None,
            r.icon_url is None,
            r.supports_authenticated_extended_card is None,
            r.additional_interfaces is None,
            r.security is None,
            r.security_schemes is None,
    {
        Self {
            name,
            description,
            version,
            protocol_version: owned(PROTOCOL_VERSION),
            url,
            preferred_transport: None,
            capabilities,
            default_input_modes,
            default_output_modes,
            skills,
            provider: None,
            documentation_url: None,
            icon_url: None,
            supports_authenticated_extended_card: None,
            additional_interfaces: None,
            security: None,
            security_schemes: None,
        }
    }
}

} // verus!
