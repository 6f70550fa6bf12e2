//! Security schemes and their flows on the wire.

use crate::codec::fields::{
    decode_members, get_present, lemma_decode_members_encoded, lemma_decode_members_fails,
    lemma_decode_members_step, lemma_member_after_put, lemma_member_after_put_optional, map_of,
    members_of, models, object_of, optional, push_member, put, put_optional, read_text,
    required, string_of, text_decoder, text_encoder, text_of, DecodeError,
};
use crate::json::{JsonMember, JsonModel, JsonValue, MemberModel};
use crate::security::{
    ApiKeyLocation, ApiKeySecurityScheme, AuthorizationCodeOAuthFlow,
    ClientCredentialsOAuthFlow, HttpSecurityScheme, ImplicitOAuthFlow, OAuth2Flows,
    OAuth2SecurityScheme, OpenIdConnectSecurityScheme, PasswordOAuthFlow, SecurityScheme,
    SecuritySchemeType,
};
use crate::text::same_text;
use vstd::prelude::*;

verus! {

/// The object that is written for a map of scopes: one member for each entry,
/// in order.
pub open spec fn encode_scopes(entries: Seq<(Seq<char>, Seq<char>)>) -> JsonModel {
    JsonModel::Object(members_of(entries, text_encoder()))
}

/// What an object stands for when it is read as a map of scopes: one entry
/// for each member, in order.
pub open spec fn decode_scopes(
    value: JsonModel,
) -> Result<Seq<(Seq<char>, Seq<char>)>, DecodeError> {
    map_of(value, text_decoder())
}

/// Reading what was written for a map of scopes gives the entries back.
pub proof fn lemma_scopes_round_trip(entries: Seq<(Seq<char>, Seq<char>)>)
    ensures
        decode_scopes(encode_scopes(entries))
            == Ok::<Seq<(Seq<char>, Seq<char>)>, DecodeError>(entries),
{
    assert forall|i: int| 0 <= i < entries.len() implies text_decoder()(
        text_encoder()((#[trigger] entries[i]).1),
    ) == Ok::<Seq<char>, DecodeError>(entries[i].1) by {
    }
    lemma_decode_members_encoded(entries, text_encoder(), text_decoder());
}

/// Writes a map of scopes as a JSON object.
pub fn write_scopes(entries: &Vec<(String, String)>) -> (r: JsonValue)
    ensures
        r@ == encode_scopes(entries.deep_view()),
{
    let mut out: Vec<JsonMember> = Vec::new();
    let mut i: usize = 0;
    while i < entries.len()
        invariant
            i <= entries@.len(),
            out@.len() == i,
            forall|j: int|
                0 <= j < i ==> (#[trigger] out@[j])@ == (MemberModel {
                    name: entries@[j].0@,
                    value: JsonModel::String(entries@[j].1.deep_view()),
                }),
        decreases entries@.len() - i,
    {
        out.push(
            JsonMember {
                name: entries[i].0.clone(),
                value: string_of(entries[i].1.as_str()),
            },
        );
        i += 1;
    }
    let r = JsonValue::Object(out);
    assert(r@->Object_0 =~= members_of(entries.deep_view(), text_encoder()));
    r
}

/// Reads a map of scopes from a JSON object.
pub fn read_scopes(value: &JsonValue) -> (r: Result<Vec<(String, String)>, DecodeError>)
    ensures
        match r {
            Ok(entries) => decode_scopes(value@) == Ok::<Seq<(Seq<char>, Seq<char>)>, DecodeError>(
                entries.deep_view(),
            ),
            Err(e) => decode_scopes(value@) == Err::<Seq<(Seq<char>, Seq<char>)>, DecodeError>(e),
        },
{
    match value {
        JsonValue::Object(members) => {
            let ghost all = value@->Object_0;
            let mut out: Vec<(String, String)> = Vec::new();
            let mut i: usize = 0;
            assert(all.subrange(0, 0) =~= Seq::<MemberModel>::empty());
            assert(out.deep_view() =~= Seq::<(Seq<char>, Seq<char>)>::empty());
            while i < members.len()
                invariant
                    i <= members@.len(),
                    value@ == JsonModel::Object(all),
                    all.len() == members@.len(),
                    forall|j: int| 0 <= j < all.len() ==> all[j] == (#[trigger] members@[j])@,
                    decode_members(all.subrange(0, i as int), text_decoder()) == Ok::<
                        Seq<(Seq<char>, Seq<char>)>,
                        DecodeError,
                    >(out.deep_view()),
                decreases members@.len() - i,
            {
                let ghost before = out.deep_view();
                match read_text(&members[i].value) {
                    Ok(item) => {
                        proof {
                            lemma_decode_members_step(all, text_decoder(), i as int);
                        }
                        let name = members[i].name.clone();
                        out.push((name, item));
                        assert(out.deep_view() =~= before.push(
                            (members@[i as int].name@, item.deep_view()),
                        ));
                    },
                    Err(e) => {
                        proof {
                            lemma_decode_members_fails(all, text_decoder(), i as int);
                        }
                        return Err(e);
                    },
                }
                i += 1;
            }
            assert(all.subrange(0, i as int) =~= all);
            Ok(out)
        },
        _ => Err(DecodeError::WrongKind),
    }
}

impl DeepView for SecuritySchemeType {
    type V = SecuritySchemeType;

    open spec fn deep_view(&self) -> SecuritySchemeType {
        *self
    }
}

impl SecuritySchemeType {
    /// The name of the value on the wire.
    pub open spec fn wire_name(self) -> Seq<char> {
        match self {
            SecuritySchemeType::ApiKey => "apiKey"@,
            SecuritySchemeType::Http => "http"@,
            SecuritySchemeType::OAuth2 => "oAuth2"@,
            SecuritySchemeType::OpenIdConnect => "openIdConnect"@,
        }
    }

    /// The value that a name on the wire stands for.
    pub open spec fn of_name(name: Seq<char>) -> Option<SecuritySchemeType> {
        if name == "apiKey"@ {
            Some(SecuritySchemeType::ApiKey)
        } else if name == "http"@ {
            Some(SecuritySchemeType::Http)
        } else if name == "oAuth2"@ {
            Some(SecuritySchemeType::OAuth2)
        } else if name == "openIdConnect"@ {
            Some(SecuritySchemeType::OpenIdConnect)
        } else {
            None
        }
    }

    /// The name of the value on the wire.
    pub fn as_str(&self) -> (r: &'static str)
        ensures
            r@ == self.wire_name(),
    {
        match self {
            SecuritySchemeType::ApiKey => "apiKey",
            SecuritySchemeType::Http => "http",
            SecuritySchemeType::OAuth2 => "oAuth2",
            SecuritySchemeType::OpenIdConnect => "openIdConnect",
        }
    }

    /// The value that `s` names on the wire, if it names one.
    pub fn from_str(s: &str) -> (r: Option<Self>)
        ensures
            r == Self::of_name(s@),
    {
        if same_text(s, "apiKey") {
            Some(SecuritySchemeType::ApiKey)
        } else if same_text(s, "http") {
            Some(SecuritySchemeType::Http)
        } else if same_text(s, "oAuth2") {
            Some(SecuritySchemeType::OAuth2)
        } else if same_text(s, "openIdConnect") {
            Some(SecuritySchemeType::OpenIdConnect)
        } else {
            None
        }
    }
}

/// Reading the name that was written for the kind of a security scheme gives
/// the value back.
pub proof fn lemma_security_scheme_type_name_round_trip(value: SecuritySchemeType)
    ensures
        SecuritySchemeType::of_name(value.wire_name()) == Some(value),
{
    reveal_strlit("apiKey");
    reveal_strlit("http");
    reveal_strlit("oAuth2");
    reveal_strlit("openIdConnect");
    assert(
        "apiKey"@.len() == 6
            && "http"@.len() == 4
            && "oAuth2"@.len() == 6
            && "openIdConnect"@.len() == 13
    );
    assert("apiKey"@[0] != "oAuth2"@[0]);
}

/// The string that is written for the kind of a security scheme.
pub open spec fn encode_security_scheme_type(value: SecuritySchemeType) -> JsonModel {
    JsonModel::String(value.wire_name())
}

/// What a JSON value stands for when it is read as the kind of a security
/// scheme: the value that the string names, if it is a string and names one.
pub open spec fn decode_security_scheme_type(
    value: JsonModel,
) -> Result<SecuritySchemeType, DecodeError> {
    match value {
        JsonModel::String(name) => match SecuritySchemeType::of_name(name) {
            Some(found) => Ok(found),
            None => Err(DecodeError::UnknownVariant),
        },
        _ => Err(DecodeError::WrongKind),
    }
}

/// Reading what was written for the kind of a security scheme gives the value
/// back.
pub proof fn lemma_security_scheme_type_round_trip(value: SecuritySchemeType)
    ensures
        decode_security_scheme_type(encode_security_scheme_type(value))
            == Ok::<SecuritySchemeType, DecodeError>(value),
{
    lemma_security_scheme_type_name_round_trip(value);
}

impl SecuritySchemeType {
    /// Writes the value as a JSON string.
    pub fn encode(&self) -> (r: JsonValue)
        ensures
            r@ == encode_security_scheme_type(*self),
    {
        string_of(self.as_str())
    }

    /// Reads the value from a JSON string.
    pub fn decode(value: &JsonValue) -> (r: Result<Self, DecodeError>)
        ensures
            r == decode_security_scheme_type(value@),
    {
        match value {
            JsonValue::String(name) => match Self::from_str(name.as_str()) {
                Some(found) => Ok(found),
                None => Err(DecodeError::UnknownVariant),
            },
            _ => Err(DecodeError::WrongKind),
        }
    }
}

impl DeepView for ApiKeyLocation {
    type V = ApiKeyLocation;

    open spec fn deep_view(&self) -> ApiKeyLocation {
        *self
    }
}

impl ApiKeyLocation {
    /// The name of the value on the wire.
    pub open spec fn wire_name(self) -> Seq<char> {
        match self {
            ApiKeyLocation::Cookie => "cookie"@,
            ApiKeyLocation::Header => "header"@,
            ApiKeyLocation::Query => "query"@,
        }
    }

    /// The value that a name on the wire stands for.
    pub open spec fn of_name(name: Seq<char>) -> Option<ApiKeyLocation> {
        if name == "cookie"@ {
            Some(ApiKeyLocation::Cookie)
        } else if name == "header"@ {
            Some(ApiKeyLocation::Header)
        } else if name == "query"@ {
            Some(ApiKeyLocation::Query)
        } else {
            None
        }
    }

    /// The name of the value on the wire.
    pub fn as_str(&self) -> (r: &'static str)
        ensures
            r@ == self.wire_name(),
    {
        match self {
            ApiKeyLocation::Cookie => "cookie",
            ApiKeyLocation::Header => "header",
            ApiKeyLocation::Query => "query",
        }
    }

    /// The value that `s` names on the wire, if it names one.
    pub fn from_str(s: &str) -> (r: Option<Self>)
        ensures
            r == Self::of_name(s@),
    {
        if same_text(s, "cookie") {
            Some(ApiKeyLocation::Cookie)
        } else if same_text(s, "header") {
            Some(ApiKeyLocation::Header)
        } else if same_text(s, "query") {
            Some(ApiKeyLocation::Query)
        } else {
            None
        }
    }
}

/// Reading the name that was written for the place of an API key gives the
/// value back.
pub proof fn lemma_api_key_location_name_round_trip(value: ApiKeyLocation)
    ensures
        ApiKeyLocation::of_name(value.wire_name()) == Some(value),
{
    reveal_strlit("cookie");
    reveal_strlit("header");
    reveal_strlit("query");
    assert("cookie"@.len() == 6 && "header"@.len() == 6 && "query"@.len() == 5);
    assert("cookie"@[0] != "header"@[0]);
}

/// The string that is written for the place of an API key.
pub open spec fn encode_api_key_location(value: ApiKeyLocation) -> JsonModel {
    JsonModel::String(value.wire_name())
}

/// What a JSON value stands for when it is read as the place of an API key:
/// the value that the string names, if it is a string and names one.
pub open spec fn decode_api_key_location(value: JsonModel) -> Result<ApiKeyLocation, DecodeError> {
    match value {
        JsonModel::String(name) => match ApiKeyLocation::of_name(name) {
            Some(found) => Ok(found),
            None => Err(DecodeError::UnknownVariant),
        },
        _ => Err(DecodeError::WrongKind),
    }
}

/// Reading what was written for the place of an API key gives the value back.
pub proof fn lemma_api_key_location_round_trip(value: ApiKeyLocation)
    ensures
        decode_api_key_location(encode_api_key_location(value))
            == Ok::<ApiKeyLocation, DecodeError>(value),
{
    lemma_api_key_location_name_round_trip(value);
}

impl ApiKeyLocation {
    /// Writes the value as a JSON string.
    pub fn encode(&self) -> (r: JsonValue)
        ensures
            r@ == encode_api_key_location(*self),
    {
        string_of(self.as_str())
    }

    /// Reads the value from a JSON string.
    pub fn decode(value: &JsonValue) -> (r: Result<Self, DecodeError>)
        ensures
            r == decode_api_key_location(value@),
    {
        match value {
            JsonValue::String(name) => match Self::from_str(name.as_str()) {
                Some(found) => Ok(found),
                None => Err(DecodeError::UnknownVariant),
            },
            _ => Err(DecodeError::WrongKind),
        }
    }
}

/// The model of an API key scheme.
pub struct ApiKeySecuritySchemeModel {
    pub type_: Seq<char>,
    pub in_: ApiKeyLocation,
    pub name: Seq<char>,
    pub description: Option<Seq<char>>,
}

impl DeepView for ApiKeySecurityScheme {
    type V = ApiKeySecuritySchemeModel;

    open spec fn deep_view(&self) -> ApiKeySecuritySchemeModel {
        ApiKeySecuritySchemeModel {
            type_: self.type_.deep_view(),
            in_: self.in_.deep_view(),
            name: self.name.deep_view(),
            description: self.description.deep_view(),
        }
    }
}

/// The object that is written for an API key scheme.
pub open spec fn encode_api_key_security_scheme(record: ApiKeySecuritySchemeModel) -> JsonModel {
    let members = Seq::empty();
    let members = put(members, "type"@, JsonModel::String(record.type_));
    let members = put(members, "in"@, encode_api_key_location(record.in_));
    let members = put(members, "name"@, JsonModel::String(record.name));
    let members = put_optional(
        members,
        "description"@,
        match record.description {
            Some(item) => Some(JsonModel::String(item)),
            None => None,
        },
    );
    JsonModel::Object(members)
}

/// What an object stands for when it is read as an API key scheme: the
/// record, or the first failure among its members in their order.
pub open spec fn decode_api_key_security_scheme(
    value: JsonModel,
) -> Result<ApiKeySecuritySchemeModel, DecodeError> {
    let type_ = required(value, "type"@, |v: JsonModel| text_of(v));
    let in_ = required(value, "in"@, |v: JsonModel| decode_api_key_location(v));
    let name = required(value, "name"@, |v: JsonModel| text_of(v));
    let description = optional(value, "description"@, |v: JsonModel| text_of(v));
    if !(value is Object) {
        Err(DecodeError::WrongKind)
    } else if type_ is Err {
        Err(type_->Err_0)
    } else if in_ is Err {
        Err(in_->Err_0)
    } else if name is Err {
        Err(name->Err_0)
    } else if description is Err {
        Err(description->Err_0)
    } else {
        Ok(
            ApiKeySecuritySchemeModel {
                type_: type_->Ok_0,
                in_: in_->Ok_0,
                name: name->Ok_0,
                description: description->Ok_0,
            },
        )
    }
}

/// Reading what was written for an API key scheme gives the record back.
pub proof fn lemma_api_key_security_scheme_round_trip(record: ApiKeySecuritySchemeModel)
    ensures
        decode_api_key_security_scheme(encode_api_key_security_scheme(record))
            == Ok::<ApiKeySecuritySchemeModel, DecodeError>(record),
{
    broadcast use lemma_member_after_put, lemma_member_after_put_optional;
    reveal_strlit("type");
    reveal_strlit("in");
    reveal_strlit("name");
    reveal_strlit("description");
    assert(
        "type"@.len() == 4
            && "in"@.len() == 2
            && "name"@.len() == 4
            && "description"@.len() == 11
    );
    assert("type"@[0] != "name"@[0]);
    lemma_api_key_location_round_trip(record.in_);
    let value = encode_api_key_security_scheme(record);
    assert(value.member("type"@) == Some(JsonModel::String(record.type_)));
    assert(value.member("in"@) == Some(encode_api_key_location(record.in_)));
    assert(value.member("name"@) == Some(JsonModel::String(record.name)));
    assert(value.member("description"@) == match record.description {
        Some(item) => Some(JsonModel::String(item)),
        None => None,
    });
}

impl ApiKeySecurityScheme {
    /// Writes the record as a JSON value.
    pub fn encode(&self) -> (r: JsonValue)
        ensures
            r@ == encode_api_key_security_scheme(self.deep_view()),
    {
        let mut members: Vec<JsonMember> = Vec::new();
        assert(models(members@) =~= Seq::<MemberModel>::empty());
        push_member(&mut members, "type", string_of(self.type_.as_str()));
        push_member(&mut members, "in", self.in_.encode());
        push_member(&mut members, "name", string_of(self.name.as_str()));
        match &self.description {
            Some(item) => {
                push_member(&mut members, "description", string_of(item.as_str()));
            },
            None => {},
        }
        object_of(members)
    }

    /// Reads the record from a JSON value.
    pub fn decode(value: &JsonValue) -> (r: Result<Self, DecodeError>)
        ensures
            match r {
                Ok(record) => decode_api_key_security_scheme(value@)
                    == Ok::<ApiKeySecuritySchemeModel, DecodeError>(
                    record.deep_view(),
                ),
                Err(e) => decode_api_key_security_scheme(value@)
                    == Err::<ApiKeySecuritySchemeModel, DecodeError>(e),
            },
    {
        if !value.is_object() {
            return Err(DecodeError::WrongKind);
        }
        let type_ = match value.get("type") {
            Some(v) => read_text(v)?,
            None => {
                return Err(DecodeError::MissingField);
            },
        };
        let in_ = match value.get("in") {
            Some(v) => ApiKeyLocation::decode(v)?,
            None => {
                return Err(DecodeError::MissingField);
            },
        };
        let name = match value.get("name") {
            Some(v) => read_text(v)?,
            None => {
                return Err(DecodeError::MissingField);
            },
        };
        let description = match get_present(value, "description") {
            Some(v) => Some(read_text(v)?),
            None => None,
        };
        Ok(ApiKeySecurityScheme { type_, in_, name, description })
    }
}

/// The model of an HTTP scheme.
pub struct HttpSecuritySchemeModel {
    pub type_: Seq<char>,
    pub scheme: Seq<char>,
    pub bearer_format: Option<Seq<char>>,
    pub description: Option<Seq<char>>,
}

impl DeepView for HttpSecurityScheme {
    type V = HttpSecuritySchemeModel;

    open spec fn deep_view(&self) -> HttpSecuritySchemeModel {
        HttpSecuritySchemeModel {
            type_: self.type_.deep_view(),
            scheme: self.scheme.deep_view(),
            bearer_format: self.bearer_format.deep_view(),
            description: self.description.deep_view(),
        }
    }
}

/// The object that is written for an HTTP scheme.
pub open spec fn encode_http_security_scheme(record: HttpSecuritySchemeModel) -> JsonModel {
    let members = Seq::empty();
    let members = put(members, "type"@, JsonModel::String(record.type_));
    let members = put(members, "scheme"@, JsonModel::String(record.scheme));
    let members = put_optional(
        members,
        "bearerFormat"@,
        match record.bearer_format {
            Some(item) => Some(JsonModel::String(item)),
            None => None,
        },
    );
    let members = put_optional(
        members,
        "description"@,
        match record.description {
            Some(item) => Some(JsonModel::String(item)),
            None => None,
        },
    );
    JsonModel::Object(members)
}

/// What an object stands for when it is read as an HTTP scheme: the record,
/// or the first failure among its members in their order.
pub open spec fn decode_http_security_scheme(
    value: JsonModel,
) -> Result<HttpSecuritySchemeModel, DecodeError> {
    let type_ = required(value, "type"@, |v: JsonModel| text_of(v));
    let scheme = required(value, "scheme"@, |v: JsonModel| text_of(v));
    let bearer_format = optional(value, "bearerFormat"@, |v: JsonModel| text_of(v));
    let description = optional(value, "description"@, |v: JsonModel| text_of(v));
    if !(value is Object) {
        Err(DecodeError::WrongKind)
    } else if type_ is Err {
        Err(type_->Err_0)
    } else if scheme is Err {
        Err(scheme->Err_0)
    } else if bearer_format is Err {
        Err(bearer_format->Err_0)
    } else if description is Err {
        Err(description->Err_0)
    } else {
        Ok(
            HttpSecuritySchemeModel {
                type_: type_->Ok_0,
                scheme: scheme->Ok_0,
                bearer_format: bearer_format->Ok_0,
                description: description->Ok_0,
            },
        )
    }
}

/// Reading what was written for an HTTP scheme gives the record back.
pub proof fn lemma_http_security_scheme_round_trip(record: HttpSecuritySchemeModel)
    ensures
        decode_http_security_scheme(encode_http_security_scheme(record))
            == Ok::<HttpSecuritySchemeModel, DecodeError>(record),
{
    broadcast use lemma_member_after_put, lemma_member_after_put_optional;
    reveal_strlit("type");
    reveal_strlit("scheme");
    reveal_strlit("bearerFormat");
    reveal_strlit("description");
    assert(
        "type"@.len() == 4
            && "scheme"@.len() == 6
            && "bearerFormat"@.len() == 12
            && "description"@.len() == 11
    );
    let value = encode_http_security_scheme(record);
    assert(value.member("type"@) == Some(JsonModel::String(record.type_)));
    assert(value.member("scheme"@) == Some(JsonModel::String(record.scheme)));
    assert(value.member("bearerFormat"@) == match record.bearer_format {
        Some(item) => Some(JsonModel::String(item)),
        None => None,
    });
    assert(value.member("description"@) == match record.description {
        Some(item) => Some(JsonModel::String(item)),
        None => None,
    });
}

impl HttpSecurityScheme {
    /// Writes the record as a JSON value.
    pub fn encode(&self) -> (r: JsonValue)
        ensures
            r@ == encode_http_security_scheme(self.deep_view()),
    {
        let mut members: Vec<JsonMember> = Vec::new();
        assert(models(members@) =~= Seq::<MemberModel>::empty());
        push_member(&mut members, "type", string_of(self.type_.as_str()));
        push_member(&mut members, "scheme", string_of(self.scheme.as_str()));
        match &self.bearer_format {
            Some(item) => {
                push_member(&mut members, "bearerFormat", string_of(item.as_str()));
            },
            None => {},
        }
        match &self.description {
            Some(item) => {
                push_member(&mut members, "description", string_of(item.as_str()));
            },
            None => {},
        }
        object_of(members)
    }

    /// Reads the record from a JSON value.
    pub fn decode(value: &JsonValue) -> (r: Result<Self, DecodeError>)
        ensures
            match r {
                Ok(record) => decode_http_security_scheme(value@)
                    == Ok::<HttpSecuritySchemeModel, DecodeError>(
                    record.deep_view(),
                ),
                Err(e) => decode_http_security_scheme(value@)
                    == Err::<HttpSecuritySchemeModel, DecodeError>(e),
            },
    {
        if !value.is_object() {
            return Err(DecodeError::WrongKind);
        }
        let type_ = match value.get("type") {
            Some(v) => read_text(v)?,
            None => {
                return Err(DecodeError::MissingField);
            },
        };
        let scheme = match value.get("scheme") {
            Some(v) => read_text(v)?,
            None => {
                return Err(DecodeError::MissingField);
            },
        };
        let bearer_format = match get_present(value, "bearerFormat") {
            Some(v) => Some(read_text(v)?),
            None => None,
        };
        let description = match get_present(value, "description") {
            Some(v) => Some(read_text(v)?),
            None => None,
        };
        Ok(HttpSecurityScheme { type_, scheme, bearer_format, description })
    }
}

/// The model of an authorization code flow.
pub struct AuthorizationCodeOAuthFlowModel {
    pub authorization_url: Seq<char>,
    pub token_url: Seq<char>,
    pub refresh_url: Option<Seq<char>>,
    pub scopes: Seq<(Seq<char>, Seq<char>)>,
}

impl DeepView for AuthorizationCodeOAuthFlow {
    type V = AuthorizationCodeOAuthFlowModel;

    open spec fn deep_view(&self) -> AuthorizationCodeOAuthFlowModel {
        AuthorizationCodeOAuthFlowModel {
            authorization_url: self.authorization_url.deep_view(),
            token_url: self.token_url.deep_view(),
            refresh_url: self.refresh_url.deep_view(),
            scopes: self.scopes.deep_view(),
        }
    }
}

/// The object that is written for an authorization code flow.
pub open spec fn encode_authorization_code_flow(
    record: AuthorizationCodeOAuthFlowModel,
) -> JsonModel {
    let members = Seq::empty();
    let members = put(members, "authorizationUrl"@, JsonModel::String(record.authorization_url));
    let members = put(members, "tokenUrl"@, JsonModel::String(record.token_url));
    let members = put_optional(
        members,
        "refreshUrl"@,
        match record.refresh_url {
            Some(item) => Some(JsonModel::String(item)),
            None => None,
        },
    );
    let members = put(members, "scopes"@, encode_scopes(record.scopes));
    JsonModel::Object(members)
}

/// What an object stands for when it is read as an authorization code flow:
/// the record, or the first failure among its members in their order.
pub open spec fn decode_authorization_code_flow(
    value: JsonModel,
) -> Result<AuthorizationCodeOAuthFlowModel, DecodeError> {
    let authorization_url = required(value, "authorizationUrl"@, |v: JsonModel| text_of(v));
    let token_url = required(value, "tokenUrl"@, |v: JsonModel| text_of(v));
    let refresh_url = optional(value, "refreshUrl"@, |v: JsonModel| text_of(v));
    let scopes = required(value, "scopes"@, |v: JsonModel| decode_scopes(v));
    if !(value is Object) {
        Err(DecodeError::WrongKind)
    } else if authorization_url is Err {
        Err(authorization_url->Err_0)
    } else if token_url is Err {
        Err(token_url->Err_0)
    } else if refresh_url is Err {
        Err(refresh_url->Err_0)
    } else if scopes is Err {
        Err(scopes->Err_0)
    } else {
        Ok(
            AuthorizationCodeOAuthFlowModel {
                authorization_url: authorization_url->Ok_0,
                token_url: token_url->Ok_0,
                refresh_url: refresh_url->Ok_0,
                scopes: scopes->Ok_0,
            },
        )
    }
}

/// Reading what was written for an authorization code flow gives the record
/// back.
pub proof fn lemma_authorization_code_flow_round_trip(record: AuthorizationCodeOAuthFlowModel)
    ensures
        decode_authorization_code_flow(encode_authorization_code_flow(record))
            == Ok::<AuthorizationCodeOAuthFlowModel, DecodeError>(record),
{
    broadcast use lemma_member_after_put, lemma_member_after_put_optional;
    reveal_strlit("authorizationUrl");
    reveal_strlit("tokenUrl");
    reveal_strlit("refreshUrl");
    reveal_strlit("scopes");
    assert(
        "authorizationUrl"@.len() == 16
            && "tokenUrl"@.len() == 8
            && "refreshUrl"@.len() == 10
            && "scopes"@.len() == 6
    );
    lemma_scopes_round_trip(record.scopes);
    let value = encode_authorization_code_flow(record);
    assert(value.member("authorizationUrl"@) == Some(JsonModel::String(record.authorization_url)));
    assert(value.member("tokenUrl"@) == Some(JsonModel::String(record.token_url)));
    assert(value.member("refreshUrl"@) == match record.refresh_url {
        Some(item) => Some(JsonModel::String(item)),
        None => None,
    });
    assert(value.member("scopes"@) == Some(encode_scopes(record.scopes)));
}

impl AuthorizationCodeOAuthFlow {
    /// Writes the record as a JSON value.
    pub fn encode(&self) -> (r: JsonValue)
        ensures
            r@ == encode_authorization_code_flow(self.deep_view()),
    {
        let mut members: Vec<JsonMember> = Vec::new();
        assert(models(members@) =~= Seq::<MemberModel>::empty());
        push_member(&mut members, "authorizationUrl", string_of(self.authorization_url.as_str()));
        push_member(&mut members, "tokenUrl", string_of(self.token_url.as_str()));
        match &self.refresh_url {
            Some(item) => {
                push_member(&mut members, "refreshUrl", string_of(item.as_str()));
            },
            None => {},
        }
        push_member(&mut members, "scopes", write_scopes(&self.scopes));
        object_of(members)
    }

    /// Reads the record from a JSON value.
    pub fn decode(value: &JsonValue) -> (r: Result<Self, DecodeError>)
        ensures
            match r {
                Ok(record) => decode_authorization_code_flow(value@)
                    == Ok::<AuthorizationCodeOAuthFlowModel, DecodeError>(
                    record.deep_view(),
                ),
                Err(e) => decode_authorization_code_flow(value@)
                    == Err::<AuthorizationCodeOAuthFlowModel, DecodeError>(e),
            },
    {
        if !value.is_object() {
            return Err(DecodeError::WrongKind);
        }
        let authorization_url = match value.get("authorizationUrl") {
            Some(v) => read_text(v)?,
            None => {
                return Err(DecodeError::MissingField);
            },
        };
        let token_url = match value.get("tokenUrl") {
            Some(v) => read_text(v)?,
            None => {
                return Err(DecodeError::MissingField);
            },
        };
        let refresh_url = match get_present(value, "refreshUrl") {
            Some(v) => Some(read_text(v)?),
            None => None,
        };
        let scopes = match value.get("scopes") {
            Some(v) => read_scopes(v)?,
            None => {
                return Err(DecodeError::MissingField);
            },
        };
        Ok(AuthorizationCodeOAuthFlow { authorization_url, token_url, refresh_url, scopes })
    }
}

/// The model of a client credentials flow.
pub struct ClientCredentialsOAuthFlowModel {
    pub token_url: Seq<char>,
    pub refresh_url: Option<Seq<char>>,
    pub scopes: Seq<(Seq<char>, Seq<char>)>,
}

impl DeepView for ClientCredentialsOAuthFlow {
    type V = ClientCredentialsOAuthFlowModel;

    open spec fn deep_view(&self) -> ClientCredentialsOAuthFlowModel {
        ClientCredentialsOAuthFlowModel {
            token_url: self.token_url.deep_view(),
            refresh_url: self.refresh_url.deep_view(),
            scopes: self.scopes.deep_view(),
        }
    }
}

/// The object that is written for a client credentials flow.
pub open spec fn encode_client_credentials_flow(
    record: ClientCredentialsOAuthFlowModel,
) -> JsonModel {
    let members = Seq::empty();
    let members = put(members, "tokenUrl"@, JsonModel::String(record.token_url));
    let members = put_optional(
        members,
        "refreshUrl"@,
        match record.refresh_url {
            Some(item) => Some(JsonModel::String(item)),
            None => None,
        },
    );
    let members = put(members, "scopes"@, encode_scopes(record.scopes));
    JsonModel::Object(members)
}

/// What an object stands for when it is read as a client credentials flow:
/// the record, or the first failure among its members in their order.
pub open spec fn decode_client_credentials_flow(
    value: JsonModel,
) -> Result<ClientCredentialsOAuthFlowModel, DecodeError> {
    let token_url = required(value, "tokenUrl"@, |v: JsonModel| text_of(v));
    let refresh_url = optional(value, "refreshUrl"@, |v: JsonModel| text_of(v));
    let scopes = required(value, "scopes"@, |v: JsonModel| decode_scopes(v));
    if !(value is Object) {
        Err(DecodeError::WrongKind)
    } else if token_url is Err {
        Err(token_url->Err_0)
    } else if refresh_url is Err {
        Err(refresh_url->Err_0)
    } else if scopes is Err {
        Err(scopes->Err_0)
    } else {
        Ok(
            ClientCredentialsOAuthFlowModel {
                token_url: token_url->Ok_0,
                refresh_url: refresh_url->Ok_0,
                scopes: scopes->Ok_0,
            },
        )
    }
}

/// Reading what was written for a client credentials flow gives the record
/// back.
pub proof fn lemma_client_credentials_flow_round_trip(record: ClientCredentialsOAuthFlowModel)
    ensures
        decode_client_credentials_flow(encode_client_credentials_flow(record))
            == Ok::<ClientCredentialsOAuthFlowModel, DecodeError>(record),
{
    broadcast use lemma_member_after_put, lemma_member_after_put_optional;
    reveal_strlit("tokenUrl");
    reveal_strlit("refreshUrl");
    reveal_strlit("scopes");
    assert("tokenUrl"@.len() == 8 && "refreshUrl"@.len() == 10 && "scopes"@.len() == 6);
    lemma_scopes_round_trip(record.scopes);
    let value = encode_client_credentials_flow(record);
    assert(value.member("tokenUrl"@) == Some(JsonModel::String(record.token_url)));
    assert(value.member("refreshUrl"@) == match record.refresh_url {
        Some(item) => Some(JsonModel::String(item)),
        None => None,
    });
    assert(value.member("scopes"@) == Some(encode_scopes(record.scopes)));
}

impl ClientCredentialsOAuthFlow {
    /// Writes the record as a JSON value.
    pub fn encode(&self) -> (r: JsonValue)
        ensures
            r@ == encode_client_credentials_flow(self.deep_view()),
    {
        let mut members: Vec<JsonMember> = Vec::new();
        assert(models(members@) =~= Seq::<MemberModel>::empty());
        push_member(&mut members, "tokenUrl", string_of(self.token_url.as_str()));
        match &self.refresh_url {
            Some(item) => {
                push_member(&mut members, "refreshUrl", string_of(item.as_str()));
            },
            None => {},
        }
        push_member(&mut members, "scopes", write_scopes(&self.scopes));
        object_of(members)
    }

    /// Reads the record from a JSON value.
    pub fn decode(value: &JsonValue) -> (r: Result<Self, DecodeError>)
        ensures
            match r {
                Ok(record) => decode_client_credentials_flow(value@)
                    == Ok::<ClientCredentialsOAuthFlowModel, DecodeError>(
                    record.deep_view(),
                ),
                Err(e) => decode_client_credentials_flow(value@)
                    == Err::<ClientCredentialsOAuthFlowModel, DecodeError>(e),
            },
    {
        if !value.is_object() {
            return Err(DecodeError::WrongKind);
        }
        let token_url = match value.get("tokenUrl") {
            Some(v) => read_text(v)?,
            None => {
                return Err(DecodeError::MissingField);
            },
        };
        let refresh_url = match get_present(value, "refreshUrl") {
            Some(v) => Some(read_text(v)?),
            None => None,
        };
        let scopes = match value.get("scopes") {
            Some(v) => read_scopes(v)?,
            None => {
                return Err(DecodeError::MissingField);
            },
        };
        Ok(ClientCredentialsOAuthFlow { token_url, refresh_url, scopes })
    }
}

/// The model of an implicit flow.
pub struct ImplicitOAuthFlowModel {
    pub authorization_url: Seq<char>,
    pub refresh_url: Option<Seq<char>>,
    pub scopes: Seq<(Seq<char>, Seq<char>)>,
}

impl DeepView for ImplicitOAuthFlow {
    type V = ImplicitOAuthFlowModel;

    open spec fn deep_view(&self) -> ImplicitOAuthFlowModel {
        ImplicitOAuthFlowModel {
            authorization_url: self.authorization_url.deep_view(),
            refresh_url: self.refresh_url.deep_view(),
            scopes: self.scopes.deep_view(),
        }
    }
}

/// The object that is written for an implicit flow.
pub open spec fn encode_implicit_flow(record: ImplicitOAuthFlowModel) -> JsonModel {
    let members = Seq::empty();
    let members = put(members, "authorizationUrl"@, JsonModel::String(record.authorization_url));
    let members = put_optional(
        members,
        "refreshUrl"@,
        match record.refresh_url {
            Some(item) => Some(JsonModel::String(item)),
            None => None,
        },
    );
    let members = put(members, "scopes"@, encode_scopes(record.scopes));
    JsonModel::Object(members)
}

/// What an object stands for when it is read as an implicit flow: the record,
/// or the first failure among its members in their order.
pub open spec fn decode_implicit_flow(
    value: JsonModel,
) -> Result<ImplicitOAuthFlowModel, DecodeError> {
    let authorization_url = required(value, "authorizationUrl"@, |v: JsonModel| text_of(v));
    let refresh_url = optional(value, "refreshUrl"@, |v: JsonModel| text_of(v));
    let scopes = required(value, "scopes"@, |v: JsonModel| decode_scopes(v));
    if !(value is Object) {
        Err(DecodeError::WrongKind)
    } else if authorization_url is Err {
        Err(authorization_url->Err_0)
    } else if refresh_url is Err {
        Err(refresh_url->Err_0)
    } else if scopes is Err {
        Err(scopes->Err_0)
    } else {
        Ok(
            ImplicitOAuthFlowModel {
                authorization_url: authorization_url->Ok_0,
                refresh_url: refresh_url->Ok_0,
                scopes: scopes->Ok_0,
            },
        )
    }
}

/// Reading what was written for an implicit flow gives the record back.
pub proof fn lemma_implicit_flow_round_trip(record: ImplicitOAuthFlowModel)
    ensures
        decode_implicit_flow(encode_implicit_flow(record))
            == Ok::<ImplicitOAuthFlowModel, DecodeError>(record),
{
    broadcast use lemma_member_after_put, lemma_member_after_put_optional;
    reveal_strlit("authorizationUrl");
    reveal_strlit("refreshUrl");
    reveal_strlit("scopes");
    assert("authorizationUrl"@.len() == 16 && "refreshUrl"@.len() == 10 && "scopes"@.len() == 6);
    lemma_scopes_round_trip(record.scopes);
    let value = encode_implicit_flow(record);
    assert(value.member("authorizationUrl"@) == Some(JsonModel::String(record.authorization_url)));
    assert(value.member("refreshUrl"@) == match record.refresh_url {
        Some(item) => Some(JsonModel::String(item)),
        None => None,
    });
    assert(value.member("scopes"@) == Some(encode_scopes(record.scopes)));
}

impl ImplicitOAuthFlow {
    /// Writes the record as a JSON value.
    pub fn encode(&self) -> (r: JsonValue)
        ensures
            r@ == encode_implicit_flow(self.deep_view()),
    {
        let mut members: Vec<JsonMember> = Vec::new();
        assert(models(members@) =~= Seq::<MemberModel>::empty());
        push_member(&mut members, "authorizationUrl", string_of(self.authorization_url.as_str()));
        match &self.refresh_url {
            Some(item) => {
                push_member(&mut members, "refreshUrl", string_of(item.as_str()));
            },
            None => {},
        }
        push_member(&mut members, "scopes", write_scopes(&self.scopes));
        object_of(members)
    }

    /// Reads the record from a JSON value.
    pub fn decode(value: &JsonValue) -> (r: Result<Self, DecodeError>)
        ensures
            match r {
                Ok(record) => decode_implicit_flow(value@)
                    == Ok::<ImplicitOAuthFlowModel, DecodeError>(
                    record.deep_view(),
                ),
                Err(e) => decode_implicit_flow(value@)
                    == Err::<ImplicitOAuthFlowModel, DecodeError>(e),
            },
    {
        if !value.is_object() {
            return Err(DecodeError::WrongKind);
        }
        let authorization_url = match value.get("authorizationUrl") {
            Some(v) => read_text(v)?,
            None => {
                return Err(DecodeError::MissingField);
            },
        };
        let refresh_url = match get_present(value, "refreshUrl") {
            Some(v) => Some(read_text(v)?),
            None => None,
        };
        let scopes = match value.get("scopes") {
            Some(v) => read_scopes(v)?,
            None => {
                return Err(DecodeError::MissingField);
            },
        };
        Ok(ImplicitOAuthFlow { authorization_url, refresh_url, scopes })
    }
}

/// The model of a password flow.
pub struct PasswordOAuthFlowModel {
    pub token_url: Seq<char>,
    pub refresh_url: Option<Seq<char>>,
    pub scopes: Seq<(Seq<char>, Seq<char>)>,
}

impl DeepView for PasswordOAuthFlow {
    type V = PasswordOAuthFlowModel;

    open spec fn deep_view(&self) -> PasswordOAuthFlowModel {
        PasswordOAuthFlowModel {
            token_url: self.token_url.deep_view(),
            refresh_url: self.refresh_url.deep_view(),
            scopes: self.scopes.deep_view(),
        }
    }
}

/// The object that is written for a password flow.
pub open spec fn encode_password_flow(record: PasswordOAuthFlowModel) -> JsonModel {
    let members = Seq::empty();
    let members = put(members, "tokenUrl"@, JsonModel::String(record.token_url));
    let members = put_optional(
        members,
        "refreshUrl"@,
        match record.refresh_url {
            Some(item) => Some(JsonModel::String(item)),
            None => None,
        },
    );
    let members = put(members, "scopes"@, encode_scopes(record.scopes));
    JsonModel::Object(members)
}

/// What an object stands for when it is read as a password flow: the record,
/// or the first failure among its members in their order.
pub open spec fn decode_password_flow(
    value: JsonModel,
) -> Result<PasswordOAuthFlowModel, DecodeError> {
    let token_url = required(value, "tokenUrl"@, |v: JsonModel| text_of(v));
    let refresh_url = optional(value, "refreshUrl"@, |v: JsonModel| text_of(v));
    let scopes = required(value, "scopes"@, |v: JsonModel| decode_scopes(v));
    if !(value is Object) {
        Err(DecodeError::WrongKind)
    } else if token_url is Err {
        Err(token_url->Err_0)
    } else if refresh_url is Err {
        Err(refresh_url->Err_0)
    } else if scopes is Err {
        Err(scopes->Err_0)
    } else {
        Ok(
            PasswordOAuthFlowModel {
                token_url: token_url->Ok_0,
                refresh_url: refresh_url->Ok_0,
                scopes: scopes->Ok_0,
            },
        )
    }
}

/// Reading what was written for a password flow gives the record back.
pub proof fn lemma_password_flow_round_trip(record: PasswordOAuthFlowModel)
    ensures
        decode_password_flow(encode_password_flow(record))
            == Ok::<PasswordOAuthFlowModel, DecodeError>(record),
{
    broadcast use lemma_member_after_put, lemma_member_after_put_optional;
    reveal_strlit("tokenUrl");
    reveal_strlit("refreshUrl");
    reveal_strlit("scopes");
    assert("tokenUrl"@.len() == 8 && "refreshUrl"@.len() == 10 && "scopes"@.len() == 6);
    lemma_scopes_round_trip(record.scopes);
    let value = encode_password_flow(record);
    assert(value.member("tokenUrl"@) == Some(JsonModel::String(record.token_url)));
    assert(value.member("refreshUrl"@) == match record.refresh_url {
        Some(item) => Some(JsonModel::String(item)),
        None => None,
    });
    assert(value.member("scopes"@) == Some(encode_scopes(record.scopes)));
}

impl PasswordOAuthFlow {
    /// Writes the record as a JSON value.
    pub fn encode(&self) -> (r: JsonValue)
        ensures
            r@ == encode_password_flow(self.deep_view()),
    {
        let mut members: Vec<JsonMember> = Vec::new();
        assert(models(members@) =~= Seq::<MemberModel>::empty());
        push_member(&mut members, "tokenUrl", string_of(self.token_url.as_str()));
        match &self.refresh_url {
            Some(item) => {
                push_member(&mut members, "refreshUrl", string_of(item.as_str()));
            },
            None => {},
        }
        push_member(&mut members, "scopes", write_scopes(&self.scopes));
        object_of(members)
    }

    /// Reads the record from a JSON value.
    pub fn decode(value: &JsonValue) -> (r: Result<Self, DecodeError>)
        ensures
            match r {
                Ok(record) => decode_password_flow(value@)
                    == Ok::<PasswordOAuthFlowModel, DecodeError>(
                    record.deep_view(),
                ),
                Err(e) => decode_password_flow(value@)
                    == Err::<PasswordOAuthFlowModel, DecodeError>(e),
            },
    {
        if !value.is_object() {
            return Err(DecodeError::WrongKind);
        }
        let token_url = match value.get("tokenUrl") {
            Some(v) => read_text(v)?,
            None => {
                return Err(DecodeError::MissingField);
            },
        };
        let refresh_url = match get_present(value, "refreshUrl") {
            Some(v) => Some(read_text(v)?),
            None => None,
        };
        let scopes = match value.get("scopes") {
            Some(v) => read_scopes(v)?,
            None => {
                return Err(DecodeError::MissingField);
            },
        };
        Ok(PasswordOAuthFlow { token_url, refresh_url, scopes })
    }
}

/// The model of the flows of an OAuth2 scheme.
pub struct OAuth2FlowsModel {
    pub implicit: Option<ImplicitOAuthFlowModel>,
    pub password: Option<PasswordOAuthFlowModel>,
    pub client_credentials: Option<ClientCredentialsOAuthFlowModel>,
    pub authorization_code: Option<AuthorizationCodeOAuthFlowModel>,
}

impl DeepView for OAuth2Flows {
    type V = OAuth2FlowsModel;

    open spec fn deep_view(&self) -> OAuth2FlowsModel {
        OAuth2FlowsModel {
            implicit: self.implicit.deep_view(),
            password: self.password.deep_view(),
            client_credentials: self.client_credentials.deep_view(),
            authorization_code: self.authorization_code.deep_view(),
        }
    }
}

/// The object that is written for the flows of an OAuth2 scheme.
pub open spec fn encode_oauth2_flows(record: OAuth2FlowsModel) -> JsonModel {
    let members = Seq::empty();
    let members = put_optional(
        members,
        "implicit"@,
        match record.implicit {
            Some(item) => Some(encode_implicit_flow(item)),
            None => None,
        },
    );
    let members = put_optional(
        members,
        "password"@,
        match record.password {
            Some(item) => Some(encode_password_flow(item)),
            None => None,
        },
    );
    let members = put_optional(
        members,
        "clientCredentials"@,
        match record.client_credentials {
            Some(item) => Some(encode_client_credentials_flow(item)),
            None => None,
        },
    );
    let members = put_optional(
        members,
        "authorizationCode"@,
        match record.authorization_code {
            Some(item) => Some(encode_authorization_code_flow(item)),
            None => None,
        },
    );
    JsonModel::Object(members)
}

/// What an object stands for when it is read as the flows of an OAuth2
/// scheme: the record, or the first failure among its members in their order.
pub open spec fn decode_oauth2_flows(value: JsonModel) -> Result<OAuth2FlowsModel, DecodeError> {
    let implicit = optional(value, "implicit"@, |v: JsonModel| decode_implicit_flow(v));
    let password = optional(value, "password"@, |v: JsonModel| decode_password_flow(v));
    let client_credentials = optional(
        value,
        "clientCredentials"@,
        |v: JsonModel| decode_client_credentials_flow(v),
    );
    let authorization_code = optional(
        value,
        "authorizationCode"@,
        |v: JsonModel| decode_authorization_code_flow(v),
    );
    if !(value is Object) {
        Err(DecodeError::WrongKind)
    } else if implicit is Err {
        Err(implicit->Err_0)
    } else if password is Err {
        Err(password->Err_0)
    } else if client_credentials is Err {
        Err(client_credentials->Err_0)
    } else if authorization_code is Err {
        Err(authorization_code->Err_0)
    } else {
        Ok(
            OAuth2FlowsModel {
                implicit: implicit->Ok_0,
                password: password->Ok_0,
                client_credentials: client_credentials->Ok_0,
                authorization_code: authorization_code->Ok_0,
            },
        )
    }
}

/// Reading what was written for the flows of an OAuth2 scheme gives the
/// record back.
pub proof fn lemma_oauth2_flows_round_trip(record: OAuth2FlowsModel)
    ensures
        decode_oauth2_flows(encode_oauth2_flows(record))
            == Ok::<OAuth2FlowsModel, DecodeError>(record),
{
    broadcast use lemma_member_after_put, lemma_member_after_put_optional;
    reveal_strlit("implicit");
    reveal_strlit("password");
    reveal_strlit("clientCredentials");
    reveal_strlit("authorizationCode");
    assert(
        "implicit"@.len() == 8
            && "password"@.len() == 8
            && "clientCredentials"@.len() == 17
            && "authorizationCode"@.len() == 17
    );
    assert("implicit"@[0] != "password"@[0]);
    assert("clientCredentials"@[0] != "authorizationCode"@[0]);
    if record.implicit is Some {
        lemma_implicit_flow_round_trip(record.implicit->0);
    }
    if record.password is Some {
        lemma_password_flow_round_trip(record.password->0);
    }
    if record.client_credentials is Some {
        lemma_client_credentials_flow_round_trip(record.client_credentials->0);
    }
    if record.authorization_code is Some {
        lemma_authorization_code_flow_round_trip(record.authorization_code->0);
    }
    let value = encode_oauth2_flows(record);
    assert(value.member("implicit"@) == match record.implicit {
        Some(item) => Some(encode_implicit_flow(item)),
        None => None,
    });
    assert(value.member("password"@) == match record.password {
        Some(item) => Some(encode_password_flow(item)),
        None => None,
    });
    assert(value.member("clientCredentials"@) == match record.client_credentials {
        Some(item) => Some(encode_client_credentials_flow(item)),
        None => None,
    });
    assert(value.member("authorizationCode"@) == match record.authorization_code {
        Some(item) => Some(encode_authorization_code_flow(item)),
        None => None,
    });
}

impl OAuth2Flows {
    /// Writes the record as a JSON value.
    pub fn encode(&self) -> (r: JsonValue)
        ensures
            r@ == encode_oauth2_flows(self.deep_view()),
    {
        let mut members: Vec<JsonMember> = Vec::new();
        assert(models(members@) =~= Seq::<MemberModel>::empty());
        match &self.implicit {
            Some(item) => {
                push_member(&mut members, "implicit", item.encode());
            },
            None => {},
        }
        match &self.password {
            Some(item) => {
                push_member(&mut members, "password", item.encode());
            },
            None => {},
        }
        match &self.client_credentials {
            Some(item) => {
                push_member(&mut members, "clientCredentials", item.encode());
            },
            None => {},
        }
        match &self.authorization_code {
            Some(item) => {
                push_member(&mut members, "authorizationCode", item.encode());
            },
            None => {},
        }
        object_of(members)
    }

    /// Reads the record from a JSON value.
    pub fn decode(value: &JsonValue) -> (r: Result<Self, DecodeError>)
        ensures
            match r {
                Ok(record) => decode_oauth2_flows(value@) == Ok::<OAuth2FlowsModel, DecodeError>(
                    record.deep_view(),
                ),
                Err(e) => decode_oauth2_flows(value@) == Err::<OAuth2FlowsModel, DecodeError>(e),
            },
    {
        if !value.is_object() {
            return Err(DecodeError::WrongKind);
        }
        let implicit = match get_present(value, "implicit") {
            Some(v) => Some(ImplicitOAuthFlow::decode(v)?),
            None => None,
        };
        let password = match get_present(value, "password") {
            Some(v) => Some(PasswordOAuthFlow::decode(v)?),
            None => None,
        };
        let client_credentials = match get_present(value, "clientCredentials") {
            Some(v) => Some(ClientCredentialsOAuthFlow::decode(v)?),
            None => None,
        };
        let authorization_code = match get_present(value, "authorizationCode") {
            Some(v) => Some(AuthorizationCodeOAuthFlow::decode(v)?),
            None => None,
        };
        Ok(OAuth2Flows { implicit, password, client_credentials, authorization_code })
    }
}

/// The model of an OAuth2 scheme.
pub struct OAuth2SecuritySchemeModel {
    pub type_: Seq<char>,
    pub flows: OAuth2FlowsModel,
    pub description: Option<Seq<char>>,
}

impl DeepView for OAuth2SecurityScheme {
    type V = OAuth2SecuritySchemeModel;

    open spec fn deep_view(&self) -> OAuth2SecuritySchemeModel {
        OAuth2SecuritySchemeModel {
            type_: self.type_.deep_view(),
            flows: self.flows.deep_view(),
            description: self.description.deep_view(),
        }
    }
}

/// The object that is written for an OAuth2 scheme.
pub open spec fn encode_oauth2_security_scheme(record: OAuth2SecuritySchemeModel) -> JsonModel {
    let members = Seq::empty();
    let members = put(members, "type"@, JsonModel::String(record.type_));
    let members = put(members, "flows"@, encode_oauth2_flows(record.flows));
    let members = put_optional(
        members,
        "description"@,
        match record.description {
            Some(item) => Some(JsonModel::String(item)),
            None => None,
        },
    );
    JsonModel::Object(members)
}

/// What an object stands for when it is read as an OAuth2 scheme: the record,
/// or the first failure among its members in their order.
pub open spec fn decode_oauth2_security_scheme(
    value: JsonModel,
) -> Result<OAuth2SecuritySchemeModel, DecodeError> {
    let type_ = required(value, "type"@, |v: JsonModel| text_of(v));
    let flows = required(value, "flows"@, |v: JsonModel| decode_oauth2_flows(v));
    let description = optional(value, "description"@, |v: JsonModel| text_of(v));
    if !(value is Object) {
        Err(DecodeError::WrongKind)
    } else if type_ is Err {
        Err(type_->Err_0)
    } else if flows is Err {
        Err(flows->Err_0)
    } else if description is Err {
        Err(description->Err_0)
    } else {
        Ok(
            OAuth2SecuritySchemeModel {
                type_: type_->Ok_0,
                flows: flows->Ok_0,
                description: description->Ok_0,
            },
        )
    }
}

/// Reading what was written for an OAuth2 scheme gives the record back.
pub proof fn lemma_oauth2_security_scheme_round_trip(record: OAuth2SecuritySchemeModel)
    ensures
        decode_oauth2_security_scheme(encode_oauth2_security_scheme(record))
            == Ok::<OAuth2SecuritySchemeModel, DecodeError>(record),
{
    broadcast use lemma_member_after_put, lemma_member_after_put_optional;
    reveal_strlit("type");
    reveal_strlit("flows");
    reveal_strlit("description");
    assert("type"@.len() == 4 && "flows"@.len() == 5 && "description"@.len() == 11);
    lemma_oauth2_flows_round_trip(record.flows);
    let value = encode_oauth2_security_scheme(record);
    assert(value.member("type"@) == Some(JsonModel::String(record.type_)));
    assert(value.member("flows"@) == Some(encode_oauth2_flows(record.flows)));
    assert(value.member("description"@) == match record.description {
        Some(item) => Some(JsonModel::String(item)),
        None => None,
    });
}

impl OAuth2SecurityScheme {
    /// Writes the record as a JSON value.
    pub fn encode(&self) -> (r: JsonValue)
        ensures
            r@ == encode_oauth2_security_scheme(self.deep_view()),
    {
        let mut members: Vec<JsonMember> = Vec::new();
        assert(models(members@) =~= Seq::<MemberModel>::empty());
        push_member(&mut members, "type", string_of(self.type_.as_str()));
        push_member(&mut members, "flows", self.flows.encode());
        match &self.description {
            Some(item) => {
                push_member(&mut members, "description", string_of(item.as_str()));
            },
            None => {},
        }
        object_of(members)
    }

    /// Reads the record from a JSON value.
    pub fn decode(value: &JsonValue) -> (r: Result<Self, DecodeError>)
        ensures
            match r {
                Ok(record) => decode_oauth2_security_scheme(value@)
                    == Ok::<OAuth2SecuritySchemeModel, DecodeError>(
                    record.deep_view(),
                ),
                Err(e) => decode_oauth2_security_scheme(value@)
                    == Err::<OAuth2SecuritySchemeModel, DecodeError>(e),
            },
    {
        if !value.is_object() {
            return Err(DecodeError::WrongKind);
        }
        let type_ = match value.get("type") {
            Some(v) => read_text(v)?,
            None => {
                return Err(DecodeError::MissingField);
            },
        };
        let flows = match value.get("flows") {
            Some(v) => OAuth2Flows::decode(v)?,
            None => {
                return Err(DecodeError::MissingField);
            },
        };
        let description = match get_present(value, "description") {
            Some(v) => Some(read_text(v)?),
            None => None,
        };
        Ok(OAuth2SecurityScheme { type_, flows, description })
    }
}

/// The model of an OpenID Connect scheme.
pub struct OpenIdConnectSecuritySchemeModel {
    pub type_: Seq<char>,
    pub open_id_connect_url: Seq<char>,
    pub description: Option<Seq<char>>,
}

impl DeepView for OpenIdConnectSecurityScheme {
    type V = OpenIdConnectSecuritySchemeModel;

    open spec fn deep_view(&self) -> OpenIdConnectSecuritySchemeModel {
        OpenIdConnectSecuritySchemeModel {
            type_: self.type_.deep_view(),
            open_id_connect_url: self.open_id_connect_url.deep_view(),
            description: self.description.deep_view(),
        }
    }
}

/// The object that is written for an OpenID Connect scheme.
pub open spec fn encode_open_id_connect_security_scheme(
    record: OpenIdConnectSecuritySchemeModel,
) -> JsonModel {
    let members = Seq::empty();
    let members = put(members, "type"@, JsonModel::String(record.type_));
    let members = put(members, "openIdConnectUrl"@, JsonModel::String(record.open_id_connect_url));
    let members = put_optional(
        members,
        "description"@,
        match record.description {
            Some(item) => Some(JsonModel::String(item)),
            None => None,
        },
    );
    JsonModel::Object(members)
}

/// What an object stands for when it is read as an OpenID Connect scheme: the
/// record, or the first failure among its members in their order.
pub open spec fn decode_open_id_connect_security_scheme(
    value: JsonModel,
) -> Result<OpenIdConnectSecuritySchemeModel, DecodeError> {
    let type_ = required(value, "type"@, |v: JsonModel| text_of(v));
    let open_id_connect_url = required(value, "openIdConnectUrl"@, |v: JsonModel| text_of(v));
    let description = optional(value, "description"@, |v: JsonModel| text_of(v));
    if !(value is Object) {
        Err(DecodeError::WrongKind)
    } else if type_ is Err {
        Err(type_->Err_0)
    } else if open_id_connect_url is Err {
        Err(open_id_connect_url->Err_0)
    } else if description is Err {
        Err(description->Err_0)
    } else {
        Ok(
            OpenIdConnectSecuritySchemeModel {
                type_: type_->Ok_0,
                open_id_connect_url: open_id_connect_url->Ok_0,
                description: description->Ok_0,
            },
        )
    }
}

/// Reading what was written for an OpenID Connect scheme gives the record
/// back.
pub proof fn lemma_open_id_connect_security_scheme_round_trip(
    record: OpenIdConnectSecuritySchemeModel,
)
    ensures
        decode_open_id_connect_security_scheme(encode_open_id_connect_security_scheme(record))
            == Ok::<OpenIdConnectSecuritySchemeModel, DecodeError>(record),
{
    broadcast use lemma_member_after_put, lemma_member_after_put_optional;
    reveal_strlit("type");
    reveal_strlit("openIdConnectUrl");
    reveal_strlit("description");
    assert("type"@.len() == 4 && "openIdConnectUrl"@.len() == 16 && "description"@.len() == 11);
    let value = encode_open_id_connect_security_scheme(record);
    assert(value.member("type"@) == Some(JsonModel::String(record.type_)));
    assert(
        value.member("openIdConnectUrl"@) == Some(JsonModel::String(record.open_id_connect_url))
    );
    assert(value.member("description"@) == match record.description {
        Some(item) => Some(JsonModel::String(item)),
        None => None,
    });
}

impl OpenIdConnectSecurityScheme {
    /// Writes the record as a JSON value.
    pub fn encode(&self) -> (r: JsonValue)
        ensures
            r@ == encode_open_id_connect_security_scheme(self.deep_view()),
    {
        let mut members: Vec<JsonMember> = Vec::new();
        assert(models(members@) =~= Seq::<MemberModel>::empty());
        push_member(&mut members, "type", string_of(self.type_.as_str()));
        push_member(&mut members, "openIdConnectUrl", string_of(self.open_id_connect_url.as_str()));
        match &self.description {
            Some(item) => {
                push_member(&mut members, "description", string_of(item.as_str()));
            },
            None => {},
        }
        object_of(members)
    }

    /// Reads the record from a JSON value.
    pub fn decode(value: &JsonValue) -> (r: Result<Self, DecodeError>)
        ensures
            match r {
                Ok(record) => decode_open_id_connect_security_scheme(value@)
                    == Ok::<OpenIdConnectSecuritySchemeModel, DecodeError>(
                    record.deep_view(),
                ),
                Err(e) => decode_open_id_connect_security_scheme(value@)
                    == Err::<OpenIdConnectSecuritySchemeModel, DecodeError>(e),
            },
    {
        if !value.is_object() {
            return Err(DecodeError::WrongKind);
        }
        let type_ = match value.get("type") {
            Some(v) => read_text(v)?,
            None => {
                return Err(DecodeError::MissingField);
            },
        };
        let open_id_connect_url = match value.get("openIdConnectUrl") {
            Some(v) => read_text(v)?,
            None => {
                return Err(DecodeError::MissingField);
            },
        };
        let description = match get_present(value, "description") {
            Some(v) => Some(read_text(v)?),
            None => None,
        };
        Ok(OpenIdConnectSecurityScheme { type_, open_id_connect_url, description })
    }
}

/// The model of a security scheme.
pub enum SecuritySchemeModel {
    ApiKey(ApiKeySecuritySchemeModel),
    Http(HttpSecuritySchemeModel),
    OAuth2(OAuth2SecuritySchemeModel),
    OpenIdConnect(OpenIdConnectSecuritySchemeModel),
}

impl DeepView for SecurityScheme {
    type V = SecuritySchemeModel;

    open spec fn deep_view(&self) -> SecuritySchemeModel {
        match self {
            SecurityScheme::ApiKey(inner) => SecuritySchemeModel::ApiKey(inner.deep_view()),
            SecurityScheme::Http(inner) => SecuritySchemeModel::Http(inner.deep_view()),
            SecurityScheme::OAuth2(inner) => SecuritySchemeModel::OAuth2(inner.deep_view()),
            SecurityScheme::OpenIdConnect(inner) => SecuritySchemeModel::OpenIdConnect(
                inner.deep_view(),
            ),
        }
    }
}

/// The object that is written for a security scheme: that of the variant,
/// with nothing that says which variant it is.
pub open spec fn encode_security_scheme(value: SecuritySchemeModel) -> JsonModel {
    match value {
        SecuritySchemeModel::ApiKey(inner) => encode_api_key_security_scheme(inner),
        SecuritySchemeModel::Http(inner) => encode_http_security_scheme(inner),
        SecuritySchemeModel::OAuth2(inner) => encode_oauth2_security_scheme(inner),
        SecuritySchemeModel::OpenIdConnect(inner) => encode_open_id_connect_security_scheme(inner),
    }
}

/// What an object stands for when it is read as a security scheme: the first
/// of the variants `ApiKey`, `Http`, `OAuth2`, `OpenIdConnect` as which it
/// can be read; if there is none, it is refused.
pub open spec fn decode_security_scheme(
    value: JsonModel,
) -> Result<SecuritySchemeModel, DecodeError> {
    if decode_api_key_security_scheme(value) is Ok {
        Ok(SecuritySchemeModel::ApiKey(decode_api_key_security_scheme(value)->Ok_0))
    } else if decode_http_security_scheme(value) is Ok {
        Ok(SecuritySchemeModel::Http(decode_http_security_scheme(value)->Ok_0))
    } else if decode_oauth2_security_scheme(value) is Ok {
        Ok(SecuritySchemeModel::OAuth2(decode_oauth2_security_scheme(value)->Ok_0))
    } else if decode_open_id_connect_security_scheme(value) is Ok {
        Ok(SecuritySchemeModel::OpenIdConnect(decode_open_id_connect_security_scheme(value)->Ok_0))
    } else {
        Err(DecodeError::UnknownVariant)
    }
}

/// Reading what was written for a security scheme gives the value back.
pub proof fn lemma_security_scheme_round_trip(value: SecuritySchemeModel)
    ensures
        decode_security_scheme(encode_security_scheme(value))
            == Ok::<SecuritySchemeModel, DecodeError>(value),
{
    broadcast use lemma_member_after_put, lemma_member_after_put_optional;
    reveal_strlit("type");
    reveal_strlit("in");
    reveal_strlit("name");
    reveal_strlit("description");
    reveal_strlit("scheme");
    reveal_strlit("bearerFormat");
    reveal_strlit("flows");
    reveal_strlit("openIdConnectUrl");
    assert(
        "type"@.len() == 4
            && "in"@.len() == 2
            && "name"@.len() == 4
            && "description"@.len() == 11
    );
    assert(
        "scheme"@.len() == 6
            && "bearerFormat"@.len() == 12
            && "flows"@.len() == 5
            && "openIdConnectUrl"@.len() == 16
    );
    assert("type"@[0] != "name"@[0]);
    match value {
        SecuritySchemeModel::ApiKey(inner) => {
            lemma_api_key_security_scheme_round_trip(inner);
        },
        SecuritySchemeModel::Http(inner) => {
            lemma_http_security_scheme_round_trip(inner);
            assert(encode_http_security_scheme(inner).member("in"@) is None);
            assert(decode_api_key_security_scheme(encode_http_security_scheme(inner)) is Err);
        },
        SecuritySchemeModel::OAuth2(inner) => {
            lemma_oauth2_security_scheme_round_trip(inner);
            assert(encode_oauth2_security_scheme(inner).member("in"@) is None);
            assert(decode_api_key_security_scheme(encode_oauth2_security_scheme(inner)) is Err);
            assert(encode_oauth2_security_scheme(inner).member("scheme"@) is None);
            assert(decode_http_security_scheme(encode_oauth2_security_scheme(inner)) is Err);
        },
        SecuritySchemeModel::OpenIdConnect(inner) => {
            lemma_open_id_connect_security_scheme_round_trip(inner);
            assert(encode_open_id_connect_security_scheme(inner).member("in"@) is None);
            assert(
                decode_api_key_security_scheme(encode_open_id_connect_security_scheme(inner)) is Err
            );
            assert(encode_open_id_connect_security_scheme(inner).member("scheme"@) is None);
            assert(
                decode_http_security_scheme(encode_open_id_connect_security_scheme(inner)) is Err
            );
            assert(encode_open_id_connect_security_scheme(inner).member("flows"@) is None);
            assert(
                decode_oauth2_security_scheme(encode_open_id_connect_security_scheme(inner)) is Err
            );
        },
    }
}

impl SecurityScheme {
    /// Writes the value as a JSON value.
    pub fn encode(&self) -> (r: JsonValue)
        ensures
            r@ == encode_security_scheme(self.deep_view()),
    {
        match self {
            SecurityScheme::ApiKey(inner) => inner.encode(),
            SecurityScheme::Http(inner) => inner.encode(),
            SecurityScheme::OAuth2(inner) => inner.encode(),
            SecurityScheme::OpenIdConnect(inner) => inner.encode(),
        }
    }

    /// Reads the value from a JSON value.
    pub fn decode(value: &JsonValue) -> (r: Result<Self, DecodeError>)
        ensures
            match r {
                Ok(found) => decode_security_scheme(value@)
                    == Ok::<SecuritySchemeModel, DecodeError>(found.deep_view()),
                Err(e) => decode_security_scheme(value@)
                    == Err::<SecuritySchemeModel, DecodeError>(e),
            },
    {
        match ApiKeySecurityScheme::decode(value) {
            Ok(inner) => {
                return Ok(SecurityScheme::ApiKey(inner));
            },
            Err(_) => {},
        }
        match HttpSecurityScheme::decode(value) {
            Ok(inner) => {
                return Ok(SecurityScheme::Http(inner));
            },
            Err(_) => {},
        }
        match OAuth2SecurityScheme::decode(value) {
            Ok(inner) => {
                return Ok(SecurityScheme::OAuth2(inner));
            },
            Err(_) => {},
        }
        match OpenIdConnectSecurityScheme::decode(value) {
            Ok(inner) => {
                return Ok(SecurityScheme::OpenIdConnect(inner));
            },
            Err(_) => {},
        }
        Err(DecodeError::UnknownVariant)
    }
}

/// What writes a security scheme.
pub open spec fn security_scheme_encoder() -> spec_fn(SecuritySchemeModel) -> JsonModel {
    |item: SecuritySchemeModel| encode_security_scheme(item)
}

/// What reads a security scheme.
pub open spec fn security_scheme_decoder(
) -> spec_fn(JsonModel) -> Result<SecuritySchemeModel, DecodeError> {
    |value: JsonModel| decode_security_scheme(value)
}

/// The object that is written for a map of security schemes: one member for
/// each entry, in order.
pub open spec fn encode_schemes(entries: Seq<(Seq<char>, SecuritySchemeModel)>) -> JsonModel {
    JsonModel::Object(members_of(entries, security_scheme_encoder()))
}

/// What an object stands for when it is read as a map of security schemes:
/// one entry for each member, in order.
pub open spec fn decode_schemes(
    value: JsonModel,
) -> Result<Seq<(Seq<char>, SecuritySchemeModel)>, DecodeError> {
    map_of(value, security_scheme_decoder())
}

/// Reading what was written for a map of security schemes gives the entries
/// back.
pub proof fn lemma_schemes_round_trip(entries: Seq<(Seq<char>, SecuritySchemeModel)>)
    ensures
        decode_schemes(encode_schemes(entries))
            == Ok::<Seq<(Seq<char>, SecuritySchemeModel)>, DecodeError>(entries),
{
    assert forall|i: int| 0 <= i < entries.len() implies security_scheme_decoder()(
        security_scheme_encoder()((#[trigger] entries[i]).1),
    ) == Ok::<SecuritySchemeModel, DecodeError>(entries[i].1) by {
        lemma_security_scheme_round_trip(entries[i].1);
    }
    lemma_decode_members_encoded(entries, security_scheme_encoder(), security_scheme_decoder());
}

/// Writes a map of security schemes as a JSON object.
pub fn write_schemes(entries: &Vec<(String, SecurityScheme)>) -> (r: JsonValue)
    ensures
        r@ == encode_schemes(entries.deep_view()),
{
    let mut out: Vec<JsonMember> = Vec::new();
    let mut i: usize = 0;
    while i < entries.len()
        invariant
            i <= entries@.len(),
            out@.len() == i,
            forall|j: int|
                0 <= j < i ==> (#[trigger] out@[j])@ == (MemberModel {
                    name: entries@[j].0@,
                    value: encode_security_scheme(entries@[j].1.deep_view()),
                }),
        decreases entries@.len() - i,
    {
        out.push(
            JsonMember {
                name: entries[i].0.clone(),
                value: entries[i].1.encode(),
            },
        );
        i += 1;
    }
    let r = JsonValue::Object(out);
    assert(r@->Object_0 =~= members_of(entries.deep_view(), security_scheme_encoder()));
    r
}

/// Reads a map of security schemes from a JSON object.
pub fn read_schemes(value: &JsonValue) -> (r: Result<Vec<(String, SecurityScheme)>, DecodeError>)
    ensures
        match r {
            Ok(entries) => decode_schemes(value@)
                == Ok::<Seq<(Seq<char>, SecuritySchemeModel)>, DecodeError>(
                entries.deep_view(),
            ),
            Err(e) => decode_schemes(value@)
                == Err::<Seq<(Seq<char>, SecuritySchemeModel)>, DecodeError>(e),
        },
{
    match value {
        JsonValue::Object(members) => {
            let ghost all = value@->Object_0;
            let mut out: Vec<(String, SecurityScheme)> = Vec::new();
            let mut i: usize = 0;
            assert(all.subrange(0, 0) =~= Seq::<MemberModel>::empty());
            assert(out.deep_view() =~= Seq::<(Seq<char>, SecuritySchemeModel)>::empty());
            while i < members.len()
                invariant
                    i <= members@.len(),
                    value@ == JsonModel::Object(all),
                    all.len() == members@.len(),
                    forall|j: int| 0 <= j < all.len() ==> all[j] == (#[trigger] members@[j])@,
                    decode_members(all.subrange(0, i as int), security_scheme_decoder()) == Ok::<
                        Seq<(Seq<char>, SecuritySchemeModel)>,
                        DecodeError,
                    >(out.deep_view()),
                decreases members@.len() - i,
            {
                let ghost before = out.deep_view();
                match SecurityScheme::decode(&members[i].value) {
                    Ok(item) => {
                        proof {
                            lemma_decode_members_step(all, security_scheme_decoder(), i as int);
                        }
                        let name = members[i].name.clone();
                        out.push((name, item));
                        assert(out.deep_view() =~= before.push(
                            (members@[i as int].name@, item.deep_view()),
                        ));
                    },
                    Err(e) => {
                        proof {
                            lemma_decode_members_fails(all, security_scheme_decoder(), i as int);
                        }
                        return Err(e);
                    },
                }
                i += 1;
            }
            assert(all.subrange(0, i as int) =~= all);
            Ok(out)
        },
        _ => Err(DecodeError::WrongKind),
    }
}

} // verus!
