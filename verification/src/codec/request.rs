//! Requests and responses on the wire.

use crate::codec::fields::{
    array_of, decode_all, decode_texts, encode_texts, flag_of, get_present, i32_of, integer_of,
    json_of, lemma_decode_all_encoded, lemma_decode_all_fails, lemma_decode_all_step,
    lemma_member_after_put, lemma_member_after_put_optional, lemma_texts_round_trip, models,
    object_of, optional, push_member, put, put_optional, read_flag, read_i32, read_json,
    read_text, read_texts, required, string_of, text_of, write_texts, DecodeError,
};
use crate::codec::message::{decode_message, encode_message, lemma_message_round_trip, MessageModel};
use crate::codec::task::{decode_task, encode_task, lemma_task_round_trip, TaskModel};
use crate::json::{JsonMember, JsonModel, JsonValue, MemberModel};
use crate::message::Message;
use crate::method::RequestMethod;
use crate::request::{
    CancelTaskParams, CancelTaskRequest, CancelTaskResponse,
    DeleteTaskPushNotificationConfigParams, DeleteTaskPushNotificationConfigRequest,
    DeleteTaskPushNotificationConfigResponse, GetTaskParams,
    GetTaskPushNotificationConfigParams, GetTaskPushNotificationConfigRequest,
    GetTaskPushNotificationConfigResponse, GetTaskRequest, GetTaskResponse,
    ListTaskPushNotificationConfigParams, ListTaskPushNotificationConfigRequest,
    ListTaskPushNotificationConfigResponse, MessageSendConfiguration,
    PushNotificationAuthenticationInfo, PushNotificationConfig, PushNotificationConfigInfo,
    PushNotificationConfigResult, SendMessageParams, SendMessageRequest, SendMessageResponse,
    SendMessageResult, SendStreamingMessageRequest, SetTaskPushNotificationConfigParams,
    SetTaskPushNotificationConfigRequest, SetTaskPushNotificationConfigResponse,
    TaskResubscriptionParams, TaskResubscriptionRequest, TaskResubscriptionResponse,
};
use crate::task::Task;
use vstd::prelude::*;

verus! {

impl DeepView for RequestMethod {
    type V = RequestMethod;

    open spec fn deep_view(&self) -> RequestMethod {
        *self
    }
}

/// The string that is written for a method.
pub open spec fn encode_request_method(value: RequestMethod) -> JsonModel {
    JsonModel::String(value.wire_name())
}

/// What a JSON value stands for when it is read as a method: the value that
/// the string names, if it is a string and names one.
pub open spec fn decode_request_method(value: JsonModel) -> Result<RequestMethod, DecodeError> {
    match value {
        JsonModel::String(name) => match RequestMethod::of_name(name) {
            Some(found) => Ok(found),
            None => Err(DecodeError::UnknownVariant),
        },
        _ => Err(DecodeError::WrongKind),
    }
}

/// Reading what was written for a method gives the value back.
pub proof fn lemma_request_method_round_trip(value: RequestMethod)
    ensures
        decode_request_method(encode_request_method(value))
            == Ok::<RequestMethod, DecodeError>(value),
{
    crate::method::lemma_read_written(value);
}

impl RequestMethod {
    /// Writes the value as a JSON string.
    pub fn encode(&self) -> (r: JsonValue)
        ensures
            r@ == encode_request_method(*self),
    {
        string_of(self.as_str())
    }

    /// Reads the value from a JSON string.
    pub fn decode(value: &JsonValue) -> (r: Result<Self, DecodeError>)
        ensures
            r == decode_request_method(value@),
    {
        match value {
            JsonValue::String(name) => match Self::from_str(name.as_str()) {
                Some(found) => Ok(found),
                None => Err(DecodeError::UnknownVariant),
            },
            _ => Err(DecodeError::WrongKind),
        }
    }
}

/// The model of the authentication of push notifications.
pub struct PushNotificationAuthenticationInfoModel {
    pub schemes: Seq<Seq<char>>,
    pub credentials: Option<Seq<char>>,
}

impl DeepView for PushNotificationAuthenticationInfo {
    type V = PushNotificationAuthenticationInfoModel;

    open spec fn deep_view(&self) -> PushNotificationAuthenticationInfoModel {
        PushNotificationAuthenticationInfoModel {
            schemes: self.schemes.deep_view(),
            credentials: self.credentials.deep_view(),
        }
    }
}

/// The object that is written for the authentication of push notifications.
pub open spec fn encode_push_notification_authentication_info(
    record: PushNotificationAuthenticationInfoModel,
) -> JsonModel {
    let members = Seq::empty();
    let members = put(members, "schemes"@, encode_texts(record.schemes));
    let members = put_optional(
        members,
        "credentials"@,
        match record.credentials {
            Some(item) => Some(JsonModel::String(item)),
            None => None,
        },
    );
    JsonModel::Object(members)
}

/// What an object stands for when it is read as the authentication of push
/// notifications: the record, or the first failure among its members in their
/// order.
pub open spec fn decode_push_notification_authentication_info(
    value: JsonModel,
) -> Result<PushNotificationAuthenticationInfoModel, DecodeError> {
    let schemes = required(value, "schemes"@, |v: JsonModel| decode_texts(v));
    let credentials = optional(value, "credentials"@, |v: JsonModel| text_of(v));
    if !(value is Object) {
        Err(DecodeError::WrongKind)
    } else if schemes is Err {
        Err(schemes->Err_0)
    } else if credentials is Err {
        Err(credentials->Err_0)
    } else {
        Ok(
            PushNotificationAuthenticationInfoModel {
                schemes: schemes->Ok_0,
                credentials: credentials->Ok_0,
            },
        )
    }
}

/// Reading what was written for the authentication of push notifications
/// gives the record back.
pub proof fn lemma_push_notification_authentication_info_round_trip(
    record: PushNotificationAuthenticationInfoModel,
)
    ensures
        decode_push_notification_authentication_info(
            encode_push_notification_authentication_info(record),
        )
            == Ok::<PushNotificationAuthenticationInfoModel, DecodeError>(record),
{
    broadcast use lemma_member_after_put, lemma_member_after_put_optional;
    reveal_strlit("schemes");
    reveal_strlit("credentials");
    assert("schemes"@.len() == 7 && "credentials"@.len() == 11);
    lemma_texts_round_trip(record.schemes);
    let value = encode_push_notification_authentication_info(record);
    assert(value.member("schemes"@) == Some(encode_texts(record.schemes)));
    assert(value.member("credentials"@) == match record.credentials {
        Some(item) => Some(JsonModel::String(item)),
        None => None,
    });
}

impl PushNotificationAuthenticationInfo {
    /// Writes the record as a JSON value.
    pub fn encode(&self) -> (r: JsonValue)
        ensures
            r@ == encode_push_notification_authentication_info(self.deep_view()),
    {
        let mut members: Vec<JsonMember> = Vec::new();
        assert(models(members@) =~= Seq::<MemberModel>::empty());
        push_member(&mut members, "schemes", write_texts(&self.schemes));
        match &self.credentials {
            Some(item) => {
                push_member(&mut members, "credentials", string_of(item.as_str()));
            },
            None => {},
        }
        object_of(members)
    }

    /// Reads the record from a JSON value.
    pub fn decode(value: &JsonValue) -> (r: Result<Self, DecodeError>)
        ensures
            match r {
                Ok(record) => decode_push_notification_authentication_info(value@)
                    == Ok::<PushNotificationAuthenticationInfoModel, DecodeError>(
                    record.deep_view(),
                ),
                Err(e) => decode_push_notification_authentication_info(value@)
                    == Err::<PushNotificationAuthenticationInfoModel, DecodeError>(e),
            },
    {
        if !value.is_object() {
            return Err(DecodeError::WrongKind);
        }
        let schemes = match value.get("schemes") {
            Some(v) => read_texts(v)?,
            None => {
                return Err(DecodeError::MissingField);
            },
        };
        let credentials = match get_present(value, "credentials") {
            Some(v) => Some(read_text(v)?),
            None => None,
        };
        Ok(PushNotificationAuthenticationInfo { schemes, credentials })
    }
}

/// The model of a push notification configuration.
pub struct PushNotificationConfigModel {
    pub url: Seq<char>,
    pub authentication: Option<PushNotificationAuthenticationInfoModel>,
    pub id: Option<Seq<char>>,
    pub token: Option<Seq<char>>,
}

impl DeepView for PushNotificationConfig {
    type V = PushNotificationConfigModel;

    open spec fn deep_view(&self) -> PushNotificationConfigModel {
        PushNotificationConfigModel {
            url: self.url.deep_view(),
            authentication: self.authentication.deep_view(),
            id: self.id.deep_view(),
            token: self.token.deep_view(),
        }
    }
}

/// The object that is written for a push notification configuration.
pub open spec fn encode_push_notification_config(record: PushNotificationConfigModel) -> JsonModel {
    let members = Seq::empty();
    let members = put(members, "url"@, JsonModel::String(record.url));
    let members = put_optional(
        members,
        "authentication"@,
        match record.authentication {
            Some(item) => Some(encode_push_notification_authentication_info(item)),
            None => None,
        },
    );
    let members = put_optional(
        members,
        "id"@,
        match record.id {
            Some(item) => Some(JsonModel::String(item)),
            None => None,
        },
    );
    let members = put_optional(
        members,
        "token"@,
        match record.token {
            Some(item) => Some(JsonModel::String(item)),
            None => None,
        },
    );
    JsonModel::Object(members)
}

/// What an object stands for when it is read as a push notification
/// configuration: the record, or the first failure among its members in their
/// order.
pub open spec fn decode_push_notification_config(
    value: JsonModel,
) -> Result<PushNotificationConfigModel, DecodeError> {
    let url = required(value, "url"@, |v: JsonModel| text_of(v));
    let authentication = optional(
        value,
        "authentication"@,
        |v: JsonModel| decode_push_notification_authentication_info(v),
    );
    let id = optional(value, "id"@, |v: JsonModel| text_of(v));
    let token = optional(value, "token"@, |v: JsonModel| text_of(v));
    if !(value is Object) {
        Err(DecodeError::WrongKind)
    } else if url is Err {
        Err(url->Err_0)
    } else if authentication is Err {
        Err(authentication->Err_0)
    } else if id is Err {
        Err(id->Err_0)
    } else if token is Err {
        Err(token->Err_0)
    } else {
        Ok(
            PushNotificationConfigModel {
                url: url->Ok_0,
                authentication: authentication->Ok_0,
                id: id->Ok_0,
                token: token->Ok_0,
            },
        )
    }
}

/// Reading what was written for a push notification configuration gives the
/// record back.
pub proof fn lemma_push_notification_config_round_trip(record: PushNotificationConfigModel)
    ensures
        decode_push_notification_config(encode_push_notification_config(record))
            == Ok::<PushNotificationConfigModel, DecodeError>(record),
{
    broadcast use lemma_member_after_put, lemma_member_after_put_optional;
    reveal_strlit("url");
    reveal_strlit("authentication");
    reveal_strlit("id");
    reveal_strlit("token");
    assert(
        "url"@.len() == 3
            && "authentication"@.len() == 14
            && "id"@.len() == 2
            && "token"@.len() == 5
    );
    if record.authentication is Some {
        lemma_push_notification_authentication_info_round_trip(record.authentication->0);
    }
    let value = encode_push_notification_config(record);
    assert(value.member("url"@) == Some(JsonModel::String(record.url)));
    assert(value.member("authentication"@) == match record.authentication {
        Some(item) => Some(encode_push_notification_authentication_info(item)),
        None => None,
    });
    assert(value.member("id"@) == match record.id {
        Some(item) => Some(JsonModel::String(item)),
        None => None,
    });
    assert(value.member("token"@) == match record.token {
        Some(item) => Some(JsonModel::String(item)),
        None => None,
    });
}

impl PushNotificationConfig {
    /// Writes the record as a JSON value.
    pub fn encode(&self) -> (r: JsonValue)
        ensures
            r@ == encode_push_notification_config(self.deep_view()),
    {
        let mut members: Vec<JsonMember> = Vec::new();
        assert(models(members@) =~= Seq::<MemberModel>::empty());
        push_member(&mut members, "url", string_of(self.url.as_str()));
        match &self.authentication {
            Some(item) => {
                push_member(&mut members, "authentication", item.encode());
            },
            None => {},
        }
        match &self.id {
            Some(item) => {
                push_member(&mut members, "id", string_of(item.as_str()));
            },
            None => {},
        }
        match &self.token {
            Some(item) => {
                push_member(&mut members, "token", string_of(item.as_str()));
            },
            None => {},
        }
        object_of(members)
    }

    /// Reads the record from a JSON value.
    pub fn decode(value: &JsonValue) -> (r: Result<Self, DecodeError>)
        ensures
            match r {
                Ok(record) => decode_push_notification_config(value@)
                    == Ok::<PushNotificationConfigModel, DecodeError>(
                    record.deep_view(),
                ),
                Err(e) => decode_push_notification_config(value@)
                    == Err::<PushNotificationConfigModel, DecodeError>(e),
            },
    {
        if !value.is_object() {
            return Err(DecodeError::WrongKind);
        }
        let url = match value.get("url") {
            Some(v) => read_text(v)?,
            None => {
                return Err(DecodeError::MissingField);
            },
        };
        let authentication = match get_present(value, "authentication") {
            Some(v) => Some(PushNotificationAuthenticationInfo::decode(v)?),
            None => None,
        };
        let id = match get_present(value, "id") {
            Some(v) => Some(read_text(v)?),
            None => None,
        };
        let token = match get_present(value, "token") {
            Some(v) => Some(read_text(v)?),
            None => None,
        };
        Ok(PushNotificationConfig { url, authentication, id, token })
    }
}

/// The model of the configuration of a sent message.
pub struct MessageSendConfigurationModel {
    pub accepted_output_modes: Seq<Seq<char>>,
    pub blocking: Option<bool>,
    pub history_length: Option<i32>,
    pub push_notification_config: Option<PushNotificationConfigModel>,
}

impl DeepView for MessageSendConfiguration {
    type V = MessageSendConfigurationModel;

    open spec fn deep_view(&self) -> MessageSendConfigurationModel {
        MessageSendConfigurationModel {
            accepted_output_modes: self.accepted_output_modes.deep_view(),
            blocking: self.blocking.deep_view(),
            history_length: self.history_length.deep_view(),
            push_notification_config: self.push_notification_config.deep_view(),
        }
    }
}

/// The object that is written for the configuration of a sent message.
pub open spec fn encode_message_send_configuration(
    record: MessageSendConfigurationModel,
) -> JsonModel {
    let members = Seq::empty();
    let members = put(members, "acceptedOutputModes"@, encode_texts(record.accepted_output_modes));
    let members = put_optional(
        members,
        "blocking"@,
        match record.blocking {
            Some(item) => Some(JsonModel::Bool(item)),
            None => None,
        },
    );
    let members = put_optional(
        members,
        "historyLength"@,
        match record.history_length {
            Some(item) => Some(JsonModel::Integer(item as int)),
            None => None,
        },
    );
    let members = put_optional(
        members,
        "pushNotificationConfig"@,
        match record.push_notification_config {
            Some(item) => Some(encode_push_notification_config(item)),
            None => None,
        },
    );
    JsonModel::Object(members)
}

/// What an object stands for when it is read as the configuration of a sent
/// message: the record, or the first failure among its members in their
/// order.
pub open spec fn decode_message_send_configuration(
    value: JsonModel,
) -> Result<MessageSendConfigurationModel, DecodeError> {
    let accepted_output_modes = required(
        value,
        "acceptedOutputModes"@,
        |v: JsonModel| decode_texts(v),
    );
    let blocking = optional(value, "blocking"@, |v: JsonModel| flag_of(v));
    let history_length = optional(value, "historyLength"@, |v: JsonModel| i32_of(v));
    let push_notification_config = optional(
        value,
        "pushNotificationConfig"@,
        |v: JsonModel| decode_push_notification_config(v),
    );
    if !(value is Object) {
        Err(DecodeError::WrongKind)
    } else if accepted_output_modes is Err {
        Err(accepted_output_modes->Err_0)
    } else if blocking is Err {
        Err(blocking->Err_0)
    } else if history_length is Err {
        Err(history_length->Err_0)
    } else if push_notification_config is Err {
        Err(push_notification_config->Err_0)
    } else {
        Ok(
            MessageSendConfigurationModel {
                accepted_output_modes: accepted_output_modes->Ok_0,
                blocking: blocking->Ok_0,
                history_length: history_length->Ok_0,
                push_notification_config: push_notification_config->Ok_0,
            },
        )
    }
}

/// Reading what was written for the configuration of a sent message gives the
/// record back.
pub proof fn lemma_message_send_configuration_round_trip(record: MessageSendConfigurationModel)
    ensures
        decode_message_send_configuration(encode_message_send_configuration(record))
            == Ok::<MessageSendConfigurationModel, DecodeError>(record),
{
    broadcast use lemma_member_after_put, lemma_member_after_put_optional;
    reveal_strlit("acceptedOutputModes");
    reveal_strlit("blocking");
    reveal_strlit("historyLength");
    reveal_strlit("pushNotificationConfig");
    assert(
        "acceptedOutputModes"@.len() == 19
            && "blocking"@.len() == 8
            && "historyLength"@.len() == 13
            && "pushNotificationConfig"@.len() == 22
    );
    lemma_texts_round_trip(record.accepted_output_modes);
    if record.push_notification_config is Some {
        lemma_push_notification_config_round_trip(record.push_notification_config->0);
    }
    let value = encode_message_send_configuration(record);
    assert(
        value.member("acceptedOutputModes"@) == Some(encode_texts(record.accepted_output_modes))
    );
    assert(value.member("blocking"@) == match record.blocking {
        Some(item) => Some(JsonModel::Bool(item)),
        None => None,
    });
    assert(value.member("historyLength"@) == match record.history_length {
        Some(item) => Some(JsonModel::Integer(item as int)),
        None => None,
    });
    assert(value.member("pushNotificationConfig"@) == match record.push_notification_config {
        Some(item) => Some(encode_push_notification_config(item)),
        None => None,
    });
}

impl MessageSendConfiguration {
    /// Writes the record as a JSON value.
    pub fn encode(&self) -> (r: JsonValue)
        ensures
            r@ == encode_message_send_configuration(self.deep_view()),
    {
        let mut members: Vec<JsonMember> = Vec::new();
        assert(models(members@) =~= Seq::<MemberModel>::empty());
        push_member(&mut members, "acceptedOutputModes", write_texts(&self.accepted_output_modes));
        match &self.blocking {
            Some(item) => {
                push_member(&mut members, "blocking", JsonValue::Bool(*item));
            },
            None => {},
        }
        match &self.history_length {
            Some(item) => {
                push_member(&mut members, "historyLength", integer_of(*item));
            },
            None => {},
        }
        match &self.push_notification_config {
            Some(item) => {
                push_member(&mut members, "pushNotificationConfig", item.encode());
            },
            None => {},
        }
        object_of(members)
    }

    /// Reads the record from a JSON value.
    pub fn decode(value: &JsonValue) -> (r: Result<Self, DecodeError>)
        ensures
            match r {
                Ok(record) => decode_message_send_configuration(value@)
                    == Ok::<MessageSendConfigurationModel, DecodeError>(
                    record.deep_view(),
                ),
                Err(e) => decode_message_send_configuration(value@)
                    == Err::<MessageSendConfigurationModel, DecodeError>(e),
            },
    {
        if !value.is_object() {
            return Err(DecodeError::WrongKind);
        }
        let accepted_output_modes = match value.get("acceptedOutputModes") {
            Some(v) => read_texts(v)?,
            None => {
                return Err(DecodeError::MissingField);
            },
        };
        let blocking = match get_present(value, "blocking") {
            Some(v) => Some(read_flag(v)?),
            None => None,
        };
        let history_length = match get_present(value, "historyLength") {
            Some(v) => Some(read_i32(v)?),
            None => None,
        };
        let push_notification_config = match get_present(value, "pushNotificationConfig") {
            Some(v) => Some(PushNotificationConfig::decode(v)?),
            None => None,
        };
        Ok(
            MessageSendConfiguration {
                accepted_output_modes,
                blocking,
                history_length,
                push_notification_config,
            },
        )
    }
}

/// The model of the parameters of a sent message.
pub struct SendMessageParamsModel {
    pub message: MessageModel,
    pub configuration: Option<MessageSendConfigurationModel>,
    pub metadata: Option<JsonModel>,
}

impl DeepView for SendMessageParams {
    type V = SendMessageParamsModel;

    open spec fn deep_view(&self) -> SendMessageParamsModel {
        SendMessageParamsModel {
            message: self.message.deep_view(),
            configuration: self.configuration.deep_view(),
            metadata: self.metadata.deep_view(),
        }
    }
}

impl SendMessageParamsModel {
    /// Whether the record comes back unchanged when it is written and read:
    /// no optional JSON value in it is `null`, which reads as a missing
    /// value.
    pub open spec fn representable(self) -> bool {
        &&& self.message.representable()
        &&& self.metadata != Some(JsonModel::Null)
    }
}

/// The object that is written for the parameters of a sent message.
pub open spec fn encode_send_message_params(record: SendMessageParamsModel) -> JsonModel {
    let members = Seq::empty();
    let members = put(members, "message"@, encode_message(record.message));
    let members = put_optional(
        members,
        "configuration"@,
        match record.configuration {
            Some(item) => Some(encode_message_send_configuration(item)),
            None => None,
        },
    );
    let members = put_optional(
        members,
        "metadata"@,
        record.metadata,
    );
    JsonModel::Object(members)
}

/// What an object stands for when it is read as the parameters of a sent
/// message: the record, or the first failure among its members in their
/// order.
pub open spec fn decode_send_message_params(
    value: JsonModel,
) -> Result<SendMessageParamsModel, DecodeError> {
    let message = required(value, "message"@, |v: JsonModel| decode_message(v));
    let configuration = optional(
        value,
        "configuration"@,
        |v: JsonModel| decode_message_send_configuration(v),
    );
    let metadata = optional(value, "metadata"@, |v: JsonModel| json_of(v));
    if !(value is Object) {
        Err(DecodeError::WrongKind)
    } else if message is Err {
        Err(message->Err_0)
    } else if configuration is Err {
        Err(configuration->Err_0)
    } else if metadata is Err {
        Err(metadata->Err_0)
    } else {
        Ok(
            SendMessageParamsModel {
                message: message->Ok_0,
                configuration: configuration->Ok_0,
                metadata: metadata->Ok_0,
            },
        )
    }
}

/// Reading what was written for the parameters of a sent message gives the
/// record back.
pub proof fn lemma_send_message_params_round_trip(record: SendMessageParamsModel)
    requires
        record.representable(),
    ensures
        decode_send_message_params(encode_send_message_params(record))
            == Ok::<SendMessageParamsModel, DecodeError>(record),
{
    broadcast use lemma_member_after_put, lemma_member_after_put_optional;
    reveal_strlit("message");
    reveal_strlit("configuration");
    reveal_strlit("metadata");
    assert("message"@.len() == 7 && "configuration"@.len() == 13 && "metadata"@.len() == 8);
    lemma_message_round_trip(record.message);
    if record.configuration is Some {
        lemma_message_send_configuration_round_trip(record.configuration->0);
    }
    let value = encode_send_message_params(record);
    assert(value.member("message"@) == Some(encode_message(record.message)));
    assert(value.member("configuration"@) == match record.configuration {
        Some(item) => Some(encode_message_send_configuration(item)),
        None => None,
    });
    assert(value.member("metadata"@) == record.metadata);
}

impl SendMessageParams {
    /// Writes the record as a JSON value.
    pub fn encode(&self) -> (r: JsonValue)
        ensures
            r@ == encode_send_message_params(self.deep_view()),
    {
        let mut members: Vec<JsonMember> = Vec::new();
        assert(models(members@) =~= Seq::<MemberModel>::empty());
        push_member(&mut members, "message", self.message.encode());
        match &self.configuration {
            Some(item) => {
                push_member(&mut members, "configuration", item.encode());
            },
            None => {},
        }
        match &self.metadata {
            Some(item) => {
                push_member(&mut members, "metadata", item.clone());
            },
            None => {},
        }
        object_of(members)
    }

    /// Reads the record from a JSON value.
    pub fn decode(value: &JsonValue) -> (r: Result<Self, DecodeError>)
        ensures
            match r {
                Ok(record) => decode_send_message_params(value@)
                    == Ok::<SendMessageParamsModel, DecodeError>(
                    record.deep_view(),
                ),
                Err(e) => decode_send_message_params(value@)
                    == Err::<SendMessageParamsModel, DecodeError>(e),
            },
    {
        if !value.is_object() {
            return Err(DecodeError::WrongKind);
        }
        let message = match value.get("message") {
            Some(v) => Message::decode(v)?,
            None => {
                return Err(DecodeError::MissingField);
            },
        };
        let configuration = match get_present(value, "configuration") {
            Some(v) => Some(MessageSendConfiguration::decode(v)?),
            None => None,
        };
        let metadata = match get_present(value, "metadata") {
            Some(v) => Some(read_json(v)?),
            None => None,
        };
        Ok(SendMessageParams { message, configuration, metadata })
    }
}

/// The model of a request that sends a message.
pub struct SendMessageRequestModel {
    pub method: RequestMethod,
    pub params: SendMessageParamsModel,
    pub id: Seq<char>,
    pub jsonrpc: Seq<char>,
}

impl DeepView for SendMessageRequest {
    type V = SendMessageRequestModel;

    open spec fn deep_view(&self) -> SendMessageRequestModel {
        SendMessageRequestModel {
            method: self.method.deep_view(),
            params: self.params.deep_view(),
            id: self.id.deep_view(),
            jsonrpc: self.jsonrpc.deep_view(),
        }
    }
}

impl SendMessageRequestModel {
    /// Whether the record comes back unchanged when it is written and read:
    /// no optional JSON value in it is `null`, which reads as a missing
    /// value.
    pub open spec fn representable(self) -> bool {
        &&& self.params.representable()
    }
}

/// The object that is written for a request that sends a message.
pub open spec fn encode_send_message_request(record: SendMessageRequestModel) -> JsonModel {
    let members = Seq::empty();
    let members = put(members, "method"@, encode_request_method(record.method));
    let members = put(members, "params"@, encode_send_message_params(record.params));
    let members = put(members, "id"@, JsonModel::String(record.id));
    let members = put(members, "jsonrpc"@, JsonModel::String(record.jsonrpc));
    JsonModel::Object(members)
}

/// What an object stands for when it is read as a request that sends a
/// message: the record, or the first failure among its members in their
/// order.
pub open spec fn decode_send_message_request(
    value: JsonModel,
) -> Result<SendMessageRequestModel, DecodeError> {
    let method = required(value, "method"@, |v: JsonModel| decode_request_method(v));
    let params = required(value, "params"@, |v: JsonModel| decode_send_message_params(v));
    let id = required(value, "id"@, |v: JsonModel| text_of(v));
    let jsonrpc = required(value, "jsonrpc"@, |v: JsonModel| text_of(v));
    if !(value is Object) {
        Err(DecodeError::WrongKind)
    } else if method is Err {
        Err(method->Err_0)
    } else if params is Err {
        Err(params->Err_0)
    } else if id is Err {
        Err(id->Err_0)
    } else if jsonrpc is Err {
        Err(jsonrpc->Err_0)
    } else {
        Ok(
            SendMessageRequestModel {
                method: method->Ok_0,
                params: params->Ok_0,
                id: id->Ok_0,
                jsonrpc: jsonrpc->Ok_0,
            },
        )
    }
}

/// Reading what was written for a request that sends a message gives the
/// record back.
pub proof fn lemma_send_message_request_round_trip(record: SendMessageRequestModel)
    requires
        record.representable(),
    ensures
        decode_send_message_request(encode_send_message_request(record))
            == Ok::<SendMessageRequestModel, DecodeError>(record),
{
    broadcast use lemma_member_after_put, lemma_member_after_put_optional;
    reveal_strlit("method");
    reveal_strlit("params");
    reveal_strlit("id");
    reveal_strlit("jsonrpc");
    assert(
        "method"@.len() == 6
            && "params"@.len() == 6
            && "id"@.len() == 2
            && "jsonrpc"@.len() == 7
    );
    assert("method"@[0] != "params"@[0]);
    lemma_request_method_round_trip(record.method);
    lemma_send_message_params_round_trip(record.params);
    let value = encode_send_message_request(record);
    assert(value.member("method"@) == Some(encode_request_method(record.method)));
    assert(value.member("params"@) == Some(encode_send_message_params(record.params)));
    assert(value.member("id"@) == Some(JsonModel::String(record.id)));
    assert(value.member("jsonrpc"@) == Some(JsonModel::String(record.jsonrpc)));
}

impl SendMessageRequest {
    /// Writes the record as a JSON value.
    pub fn encode(&self) -> (r: JsonValue)
        ensures
            r@ == encode_send_message_request(self.deep_view()),
    {
        let mut members: Vec<JsonMember> = Vec::new();
        assert(models(members@) =~= Seq::<MemberModel>::empty());
        push_member(&mut members, "method", self.method.encode());
        push_member(&mut members, "params", self.params.encode());
        push_member(&mut members, "id", string_of(self.id.as_str()));
        push_member(&mut members, "jsonrpc", string_of(self.jsonrpc.as_str()));
        object_of(members)
    }

    /// Reads the record from a JSON value.
    pub fn decode(value: &JsonValue) -> (r: Result<Self, DecodeError>)
        ensures
            match r {
                Ok(record) => decode_send_message_request(value@)
                    == Ok::<SendMessageRequestModel, DecodeError>(
                    record.deep_view(),
                ),
                Err(e) => decode_send_message_request(value@)
                    == Err::<SendMessageRequestModel, DecodeError>(e),
            },
    {
        if !value.is_object() {
            return Err(DecodeError::WrongKind);
        }
        let method = match value.get("method") {
            Some(v) => RequestMethod::decode(v)?,
            None => {
                return Err(DecodeError::MissingField);
            },
        };
        let params = match value.get("params") {
            Some(v) => SendMessageParams::decode(v)?,
            None => {
                return Err(DecodeError::MissingField);
            },
        };
        let id = match value.get("id") {
            Some(v) => read_text(v)?,
            None => {
                return Err(DecodeError::MissingField);
            },
        };
        let jsonrpc = match value.get("jsonrpc") {
            Some(v) => read_text(v)?,
            None => {
                return Err(DecodeError::MissingField);
            },
        };
        Ok(SendMessageRequest { method, params, id, jsonrpc })
    }
}

/// The model of the result of sending a message.
pub struct SendMessageResultModel {
    pub task_id: Seq<char>,
    pub message_id: Option<Seq<char>>,
    pub conversation_id: Option<Seq<char>>,
}

impl DeepView for SendMessageResult {
    type V = SendMessageResultModel;

    open spec fn deep_view(&self) -> SendMessageResultModel {
        SendMessageResultModel {
            task_id: self.task_id.deep_view(),
            message_id: self.message_id.deep_view(),
            conversation_id: self.conversation_id.deep_view(),
        }
    }
}

/// The object that is written for the result of sending a message.
pub open spec fn encode_send_message_result(record: SendMessageResultModel) -> JsonModel {
    let members = Seq::empty();
    let members = put(members, "taskId"@, JsonModel::String(record.task_id));
    let members = put_optional(
        members,
        "messageId"@,
        match record.message_id {
            Some(item) => Some(JsonModel::String(item)),
            None => None,
        },
    );
    let members = put_optional(
        members,
        "conversationId"@,
        match record.conversation_id {
            Some(item) => Some(JsonModel::String(item)),
            None => None,
        },
    );
    JsonModel::Object(members)
}

/// What an object stands for when it is read as the result of sending a
/// message: the record, or the first failure among its members in their
/// order.
pub open spec fn decode_send_message_result(
    value: JsonModel,
) -> Result<SendMessageResultModel, DecodeError> {
    let task_id = required(value, "taskId"@, |v: JsonModel| text_of(v));
    let message_id = optional(value, "messageId"@, |v: JsonModel| text_of(v));
    let conversation_id = optional(value, "conversationId"@, |v: JsonModel| text_of(v));
    if !(value is Object) {
        Err(DecodeError::WrongKind)
    } else if task_id is Err {
        Err(task_id->Err_0)
    } else if message_id is Err {
        Err(message_id->Err_0)
    } else if conversation_id is Err {
        Err(conversation_id->Err_0)
    } else {
        Ok(
            SendMessageResultModel {
                task_id: task_id->Ok_0,
                message_id: message_id->Ok_0,
                conversation_id: conversation_id->Ok_0,
            },
        )
    }
}

/// Reading what was written for the result of sending a message gives the
/// record back.
pub proof fn lemma_send_message_result_round_trip(record: SendMessageResultModel)
    ensures
        decode_send_message_result(encode_send_message_result(record))
            == Ok::<SendMessageResultModel, DecodeError>(record),
{
    broadcast use lemma_member_after_put, lemma_member_after_put_optional;
    reveal_strlit("taskId");
    reveal_strlit("messageId");
    reveal_strlit("conversationId");
    assert("taskId"@.len() == 6 && "messageId"@.len() == 9 && "conversationId"@.len() == 14);
    let value = encode_send_message_result(record);
    assert(value.member("taskId"@) == Some(JsonModel::String(record.task_id)));
    assert(value.member("messageId"@) == match record.message_id {
        Some(item) => Some(JsonModel::String(item)),
        None => None,
    });
    assert(value.member("conversationId"@) == match record.conversation_id {
        Some(item) => Some(JsonModel::String(item)),
        None => None,
    });
}

impl SendMessageResult {
    /// Writes the record as a JSON value.
    pub fn encode(&self) -> (r: JsonValue)
        ensures
            r@ == encode_send_message_result(self.deep_view()),
    {
        let mut members: Vec<JsonMember> = Vec::new();
        assert(models(members@) =~= Seq::<MemberModel>::empty());
        push_member(&mut members, "taskId", string_of(self.task_id.as_str()));
        match &self.message_id {
            Some(item) => {
                push_member(&mut members, "messageId", string_of(item.as_str()));
            },
            None => {},
        }
        match &self.conversation_id {
            Some(item) => {
                push_member(&mut members, "conversationId", string_of(item.as_str()));
            },
            None => {},
        }
        object_of(members)
    }

    /// Reads the record from a JSON value.
    pub fn decode(value: &JsonValue) -> (r: Result<Self, DecodeError>)
        ensures
            match r {
                Ok(record) => decode_send_message_result(value@)
                    == Ok::<SendMessageResultModel, DecodeError>(
                    record.deep_view(),
                ),
                Err(e) => decode_send_message_result(value@)
                    == Err::<SendMessageResultModel, DecodeError>(e),
            },
    {
        if !value.is_object() {
            return Err(DecodeError::WrongKind);
        }
        let task_id = match value.get("taskId") {
            Some(v) => read_text(v)?,
            None => {
                return Err(DecodeError::MissingField);
            },
        };
        let message_id = match get_present(value, "messageId") {
            Some(v) => Some(read_text(v)?),
            None => None,
        };
        let conversation_id = match get_present(value, "conversationId") {
            Some(v) => Some(read_text(v)?),
            None => None,
        };
        Ok(SendMessageResult { task_id, message_id, conversation_id })
    }
}

/// The model of a response to a sent message.
pub struct SendMessageResponseModel {
    pub id: Seq<char>,
    pub jsonrpc: Seq<char>,
    pub result: SendMessageResultModel,
}

impl DeepView for SendMessageResponse {
    type V = SendMessageResponseModel;

    open spec fn deep_view(&self) -> SendMessageResponseModel {
        SendMessageResponseModel {
            id: self.id.deep_view(),
            jsonrpc: self.jsonrpc.deep_view(),
            result: self.result.deep_view(),
        }
    }
}

/// The object that is written for a response to a sent message.
pub open spec fn encode_send_message_response(record: SendMessageResponseModel) -> JsonModel {
    let members = Seq::empty();
    let members = put(members, "id"@, JsonModel::String(record.id));
    let members = put(members, "jsonrpc"@, JsonModel::String(record.jsonrpc));
    let members = put(members, "result"@, encode_send_message_result(record.result));
    JsonModel::Object(members)
}

/// What an object stands for when it is read as a response to a sent message:
/// the record, or the first failure among its members in their order.
pub open spec fn decode_send_message_response(
    value: JsonModel,
) -> Result<SendMessageResponseModel, DecodeError> {
    let id = required(value, "id"@, |v: JsonModel| text_of(v));
    let jsonrpc = required(value, "jsonrpc"@, |v: JsonModel| text_of(v));
    let result = required(value, "result"@, |v: JsonModel| decode_send_message_result(v));
    if !(value is Object) {
        Err(DecodeError::WrongKind)
    } else if id is Err {
        Err(id->Err_0)
    } else if jsonrpc is Err {
        Err(jsonrpc->Err_0)
    } else if result is Err {
        Err(result->Err_0)
    } else {
        Ok(SendMessageResponseModel { id: id->Ok_0, jsonrpc: jsonrpc->Ok_0, result: result->Ok_0 })
    }
}

/// Reading what was written for a response to a sent message gives the record
/// back.
pub proof fn lemma_send_message_response_round_trip(record: SendMessageResponseModel)
    ensures
        decode_send_message_response(encode_send_message_response(record))
            == Ok::<SendMessageResponseModel, DecodeError>(record),
{
    broadcast use lemma_member_after_put, lemma_member_after_put_optional;
    reveal_strlit("id");
    reveal_strlit("jsonrpc");
    reveal_strlit("result");
    assert("id"@.len() == 2 && "jsonrpc"@.len() == 7 && "result"@.len() == 6);
    lemma_send_message_result_round_trip(record.result);
    let value = encode_send_message_response(record);
    assert(value.member("id"@) == Some(JsonModel::String(record.id)));
    assert(value.member("jsonrpc"@) == Some(JsonModel::String(record.jsonrpc)));
    assert(value.member("result"@) == Some(encode_send_message_result(record.result)));
}

impl SendMessageResponse {
    /// Writes the record as a JSON value.
    pub fn encode(&self) -> (r: JsonValue)
        ensures
            r@ == encode_send_message_response(self.deep_view()),
    {
        let mut members: Vec<JsonMember> = Vec::new();
        assert(models(members@) =~= Seq::<MemberModel>::empty());
        push_member(&mut members, "id", string_of(self.id.as_str()));
        push_member(&mut members, "jsonrpc", string_of(self.jsonrpc.as_str()));
        push_member(&mut members, "result", self.result.encode());
        object_of(members)
    }

    /// Reads the record from a JSON value.
    pub fn decode(value: &JsonValue) -> (r: Result<Self, DecodeError>)
        ensures
            match r {
                Ok(record) => decode_send_message_response(value@)
                    == Ok::<SendMessageResponseModel, DecodeError>(
                    record.deep_view(),
                ),
                Err(e) => decode_send_message_response(value@)
                    == Err::<SendMessageResponseModel, DecodeError>(e),
            },
    {
        if !value.is_object() {
            return Err(DecodeError::WrongKind);
        }
        let id = match value.get("id") {
            Some(v) => read_text(v)?,
            None => {
                return Err(DecodeError::MissingField);
            },
        };
        let jsonrpc = match value.get("jsonrpc") {
            Some(v) => read_text(v)?,
            None => {
                return Err(DecodeError::MissingField);
            },
        };
        let result = match value.get("result") {
            Some(v) => SendMessageResult::decode(v)?,
            None => {
                return Err(DecodeError::MissingField);
            },
        };
        Ok(SendMessageResponse { id, jsonrpc, result })
    }
}

/// The model of a request that sends a message for a stream.
pub struct SendStreamingMessageRequestModel {
    pub method: RequestMethod,
    pub params: SendMessageParamsModel,
    pub id: Seq<char>,
    pub jsonrpc: Seq<char>,
}

impl DeepView for SendStreamingMessageRequest {
    type V = SendStreamingMessageRequestModel;

    open spec fn deep_view(&self) -> SendStreamingMessageRequestModel {
        SendStreamingMessageRequestModel {
            method: self.method.deep_view(),
            params: self.params.deep_view(),
            id: self.id.deep_view(),
            jsonrpc: self.jsonrpc.deep_view(),
        }
    }
}

impl SendStreamingMessageRequestModel {
    /// Whether the record comes back unchanged when it is written and read:
    /// no optional JSON value in it is `null`, which reads as a missing
    /// value.
    pub open spec fn representable(self) -> bool {
        &&& self.params.representable()
    }
}

/// The object that is written for a request that sends a message for a stream.
pub open spec fn encode_send_streaming_message_request(
    record: SendStreamingMessageRequestModel,
) -> JsonModel {
    let members = Seq::empty();
    let members = put(members, "method"@, encode_request_method(record.method));
    let members = put(members, "params"@, encode_send_message_params(record.params));
    let members = put(members, "id"@, JsonModel::String(record.id));
    let members = put(members, "jsonrpc"@, JsonModel::String(record.jsonrpc));
    JsonModel::Object(members)
}

/// What an object stands for when it is read as a request that sends a
/// message for a stream: the record, or the first failure among its members
/// in their order.
pub open spec fn decode_send_streaming_message_request(
    value: JsonModel,
) -> Result<SendStreamingMessageRequestModel, DecodeError> {
    let method = required(value, "method"@, |v: JsonModel| decode_request_method(v));
    let params = required(value, "params"@, |v: JsonModel| decode_send_message_params(v));
    let id = required(value, "id"@, |v: JsonModel| text_of(v));
    let jsonrpc = required(value, "jsonrpc"@, |v: JsonModel| text_of(v));
    if !(value is Object) {
        Err(DecodeError::WrongKind)
    } else if method is Err {
        Err(method->Err_0)
    } else if params is Err {
        Err(params->Err_0)
    } else if id is Err {
        Err(id->Err_0)
    } else if jsonrpc is Err {
        Err(jsonrpc->Err_0)
    } else {
        Ok(
            SendStreamingMessageRequestModel {
                method: method->Ok_0,
                params: params->Ok_0,
                id: id->Ok_0,
                jsonrpc: jsonrpc->Ok_0,
            },
        )
    }
}

/// Reading what was written for a request that sends a message for a stream
/// gives the record back.
pub proof fn lemma_send_streaming_message_request_round_trip(
    record: SendStreamingMessageRequestModel,
)
    requires
        record.representable(),
    ensures
        decode_send_streaming_message_request(encode_send_streaming_message_request(record))
            == Ok::<SendStreamingMessageRequestModel, DecodeError>(record),
{
    broadcast use lemma_member_after_put, lemma_member_after_put_optional;
    reveal_strlit("method");
    reveal_strlit("params");
    reveal_strlit("id");
    reveal_strlit("jsonrpc");
    assert(
        "method"@.len() == 6
            && "params"@.len() == 6
            && "id"@.len() == 2
            && "jsonrpc"@.len() == 7
    );
    assert("method"@[0] != "params"@[0]);
    lemma_request_method_round_trip(record.method);
    lemma_send_message_params_round_trip(record.params);
    let value = encode_send_streaming_message_request(record);
    assert(value.member("method"@) == Some(encode_request_method(record.method)));
    assert(value.member("params"@) == Some(encode_send_message_params(record.params)));
    assert(value.member("id"@) == Some(JsonModel::String(record.id)));
    assert(value.member("jsonrpc"@) == Some(JsonModel::String(record.jsonrpc)));
}

impl SendStreamingMessageRequest {
    /// Writes the record as a JSON value.
    pub fn encode(&self) -> (r: JsonValue)
        ensures
            r@ == encode_send_streaming_message_request(self.deep_view()),
    {
        let mut members: Vec<JsonMember> = Vec::new();
        assert(models(members@) =~= Seq::<MemberModel>::empty());
        push_member(&mut members, "method", self.method.encode());
        push_member(&mut members, "params", self.params.encode());
        push_member(&mut members, "id", string_of(self.id.as_str()));
        push_member(&mut members, "jsonrpc", string_of(self.jsonrpc.as_str()));
        object_of(members)
    }

    /// Reads the record from a JSON value.
    pub fn decode(value: &JsonValue) -> (r: Result<Self, DecodeError>)
        ensures
            match r {
                Ok(record) => decode_send_streaming_message_request(value@)
                    == Ok::<SendStreamingMessageRequestModel, DecodeError>(
                    record.deep_view(),
                ),
                Err(e) => decode_send_streaming_message_request(value@)
                    == Err::<SendStreamingMessageRequestModel, DecodeError>(e),
            },
    {
        if !value.is_object() {
            return Err(DecodeError::WrongKind);
        }
        let method = match value.get("method") {
            Some(v) => RequestMethod::decode(v)?,
            None => {
                return Err(DecodeError::MissingField);
            },
        };
        let params = match value.get("params") {
            Some(v) => SendMessageParams::decode(v)?,
            None => {
                return Err(DecodeError::MissingField);
            },
        };
        let id = match value.get("id") {
            Some(v) => read_text(v)?,
            None => {
                return Err(DecodeError::MissingField);
            },
        };
        let jsonrpc = match value.get("jsonrpc") {
            Some(v) => read_text(v)?,
            None => {
                return Err(DecodeError::MissingField);
            },
        };
        Ok(SendStreamingMessageRequest { method, params, id, jsonrpc })
    }
}

/// The model of the parameters of a request for a task.
pub struct GetTaskParamsModel {
    pub task_id: Seq<char>,
}

impl DeepView for GetTaskParams {
    type V = GetTaskParamsModel;

    open spec fn deep_view(&self) -> GetTaskParamsModel {
        GetTaskParamsModel {
            task_id: self.task_id.deep_view(),
        }
    }
}

/// The object that is written for the parameters of a request for a task.
pub open spec fn encode_get_task_params(record: GetTaskParamsModel) -> JsonModel {
    let members = Seq::empty();
    let members = put(members, "taskId"@, JsonModel::String(record.task_id));
    JsonModel::Object(members)
}

/// What an object stands for when it is read as the parameters of a request
/// for a task: the record, or the first failure among its members in their
/// order.
pub open spec fn decode_get_task_params(
    value: JsonModel,
) -> Result<GetTaskParamsModel, DecodeError> {
    let task_id = required(value, "taskId"@, |v: JsonModel| text_of(v));
    if !(value is Object) {
        Err(DecodeError::WrongKind)
    } else if task_id is Err {
        Err(task_id->Err_0)
    } else {
        Ok(GetTaskParamsModel { task_id: task_id->Ok_0 })
    }
}

/// Reading what was written for the parameters of a request for a task gives
/// the record back.
pub proof fn lemma_get_task_params_round_trip(record: GetTaskParamsModel)
    ensures
        decode_get_task_params(encode_get_task_params(record))
            == Ok::<GetTaskParamsModel, DecodeError>(record),
{
    broadcast use lemma_member_after_put, lemma_member_after_put_optional;
    reveal_strlit("taskId");
    assert("taskId"@.len() == 6);
    let value = encode_get_task_params(record);
    assert(value.member("taskId"@) == Some(JsonModel::String(record.task_id)));
}

impl GetTaskParams {
    /// Writes the record as a JSON value.
    pub fn encode(&self) -> (r: JsonValue)
        ensures
            r@ == encode_get_task_params(self.deep_view()),
    {
        let mut members: Vec<JsonMember> = Vec::new();
        assert(models(members@) =~= Seq::<MemberModel>::empty());
        push_member(&mut members, "taskId", string_of(self.task_id.as_str()));
        object_of(members)
    }

    /// Reads the record from a JSON value.
    pub fn decode(value: &JsonValue) -> (r: Result<Self, DecodeError>)
        ensures
            match r {
                Ok(record) => decode_get_task_params(value@)
                    == Ok::<GetTaskParamsModel, DecodeError>(
                    record.deep_view(),
                ),
                Err(e) => decode_get_task_params(value@)
                    == Err::<GetTaskParamsModel, DecodeError>(e),
            },
    {
        if !value.is_object() {
            return Err(DecodeError::WrongKind);
        }
        let task_id = match value.get("taskId") {
            Some(v) => read_text(v)?,
            None => {
                return Err(DecodeError::MissingField);
            },
        };
        Ok(GetTaskParams { task_id })
    }
}

/// The model of a request for a task.
pub struct GetTaskRequestModel {
    pub method: RequestMethod,
    pub params: GetTaskParamsModel,
    pub id: Seq<char>,
    pub jsonrpc: Seq<char>,
}

impl DeepView for GetTaskRequest {
    type V = GetTaskRequestModel;

    open spec fn deep_view(&self) -> GetTaskRequestModel {
        GetTaskRequestModel {
            method: self.method.deep_view(),
            params: self.params.deep_view(),
            id: self.id.deep_view(),
            jsonrpc: self.jsonrpc.deep_view(),
        }
    }
}

/// The object that is written for a request for a task.
pub open spec fn encode_get_task_request(record: GetTaskRequestModel) -> JsonModel {
    let members = Seq::empty();
    let members = put(members, "method"@, encode_request_method(record.method));
    let members = put(members, "params"@, encode_get_task_params(record.params));
    let members = put(members, "id"@, JsonModel::String(record.id));
    let members = put(members, "jsonrpc"@, JsonModel::String(record.jsonrpc));
    JsonModel::Object(members)
}

/// What an object stands for when it is read as a request for a task: the
/// record, or the first failure among its members in their order.
pub open spec fn decode_get_task_request(
    value: JsonModel,
) -> Result<GetTaskRequestModel, DecodeError> {
    let method = required(value, "method"@, |v: JsonModel| decode_request_method(v));
    let params = required(value, "params"@, |v: JsonModel| decode_get_task_params(v));
    let id = required(value, "id"@, |v: JsonModel| text_of(v));
    let jsonrpc = required(value, "jsonrpc"@, |v: JsonModel| text_of(v));
    if !(value is Object) {
        Err(DecodeError::WrongKind)
    } else if method is Err {
        Err(method->Err_0)
    } else if params is Err {
        Err(params->Err_0)
    } else if id is Err {
        Err(id->Err_0)
    } else if jsonrpc is Err {
        Err(jsonrpc->Err_0)
    } else {
        Ok(
            GetTaskRequestModel {
                method: method->Ok_0,
                params: params->Ok_0,
                id: id->Ok_0,
                jsonrpc: jsonrpc->Ok_0,
            },
        )
    }
}

/// Reading what was written for a request for a task gives the record back.
pub proof fn lemma_get_task_request_round_trip(record: GetTaskRequestModel)
    ensures
        decode_get_task_request(encode_get_task_request(record))
            == Ok::<GetTaskRequestModel, DecodeError>(record),
{
    broadcast use lemma_member_after_put, lemma_member_after_put_optional;
    reveal_strlit("method");
    reveal_strlit("params");
    reveal_strlit("id");
    reveal_strlit("jsonrpc");
    assert(
        "method"@.len() == 6
            && "params"@.len() == 6
            && "id"@.len() == 2
            && "jsonrpc"@.len() == 7
    );
    assert("method"@[0] != "params"@[0]);
    lemma_request_method_round_trip(record.method);
    lemma_get_task_params_round_trip(record.params);
    let value = encode_get_task_request(record);
    assert(value.member("method"@) == Some(encode_request_method(record.method)));
    assert(value.member("params"@) == Some(encode_get_task_params(record.params)));
    assert(value.member("id"@) == Some(JsonModel::String(record.id)));
    assert(value.member("jsonrpc"@) == Some(JsonModel::String(record.jsonrpc)));
}

impl GetTaskRequest {
    /// Writes the record as a JSON value.
    pub fn encode(&self) -> (r: JsonValue)
        ensures
            r@ == encode_get_task_request(self.deep_view()),
    {
        let mut members: Vec<JsonMember> = Vec::new();
        assert(models(members@) =~= Seq::<MemberModel>::empty());
        push_member(&mut members, "method", self.method.encode());
        push_member(&mut members, "params", self.params.encode());
        push_member(&mut members, "id", string_of(self.id.as_str()));
        push_member(&mut members, "jsonrpc", string_of(self.jsonrpc.as_str()));
        object_of(members)
    }

    /// Reads the record from a JSON value.
    pub fn decode(value: &JsonValue) -> (r: Result<Self, DecodeError>)
        ensures
            match r {
                Ok(record) => decode_get_task_request(value@)
                    == Ok::<GetTaskRequestModel, DecodeError>(
                    record.deep_view(),
                ),
                Err(e) => decode_get_task_request(value@)
                    == Err::<GetTaskRequestModel, DecodeError>(e),
            },
    {
        if !value.is_object() {
            return Err(DecodeError::WrongKind);
        }
        let method = match value.get("method") {
            Some(v) => RequestMethod::decode(v)?,
            None => {
                return Err(DecodeError::MissingField);
            },
        };
        let params = match value.get("params") {
            Some(v) => GetTaskParams::decode(v)?,
            None => {
                return Err(DecodeError::MissingField);
            },
        };
        let id = match value.get("id") {
            Some(v) => read_text(v)?,
            None => {
                return Err(DecodeError::MissingField);
            },
        };
        let jsonrpc = match value.get("jsonrpc") {
            Some(v) => read_text(v)?,
            None => {
                return Err(DecodeError::MissingField);
            },
        };
        Ok(GetTaskRequest { method, params, id, jsonrpc })
    }
}

/// The model of a response to a request for a task.
pub struct GetTaskResponseModel {
    pub id: Seq<char>,
    pub jsonrpc: Seq<char>,
    pub result: TaskModel,
}

impl DeepView for GetTaskResponse {
    type V = GetTaskResponseModel;

    open spec fn deep_view(&self) -> GetTaskResponseModel {
        GetTaskResponseModel {
            id: self.id.deep_view(),
            jsonrpc: self.jsonrpc.deep_view(),
            result: self.result.deep_view(),
        }
    }
}

impl GetTaskResponseModel {
    /// Whether the record comes back unchanged when it is written and read:
    /// no optional JSON value in it is `null`, which reads as a missing
    /// value.
    pub open spec fn representable(self) -> bool {
        &&& self.result.representable()
    }
}

/// The object that is written for a response to a request for a task.
pub open spec fn encode_get_task_response(record: GetTaskResponseModel) -> JsonModel {
    let members = Seq::empty();
    let members = put(members, "id"@, JsonModel::String(record.id));
    let members = put(members, "jsonrpc"@, JsonModel::String(record.jsonrpc));
    let members = put(members, "result"@, encode_task(record.result));
    JsonModel::Object(members)
}

/// What an object stands for when it is read as a response to a request for a
/// task: the record, or the first failure among its members in their order.
pub open spec fn decode_get_task_response(
    value: JsonModel,
) -> Result<GetTaskResponseModel, DecodeError> {
    let id = required(value, "id"@, |v: JsonModel| text_of(v));
    let jsonrpc = required(value, "jsonrpc"@, |v: JsonModel| text_of(v));
    let result = required(value, "result"@, |v: JsonModel| decode_task(v));
    if !(value is Object) {
        Err(DecodeError::WrongKind)
    } else if id is Err {
        Err(id->Err_0)
    } else if jsonrpc is Err {
        Err(jsonrpc->Err_0)
    } else if result is Err {
        Err(result->Err_0)
    } else {
        Ok(GetTaskResponseModel { id: id->Ok_0, jsonrpc: jsonrpc->Ok_0, result: result->Ok_0 })
    }
}

/// Reading what was written for a response to a request for a task gives the
/// record back.
pub proof fn lemma_get_task_response_round_trip(record: GetTaskResponseModel)
    requires
        record.representable(),
    ensures
        decode_get_task_response(encode_get_task_response(record))
            == Ok::<GetTaskResponseModel, DecodeError>(record),
{
    broadcast use lemma_member_after_put, lemma_member_after_put_optional;
    reveal_strlit("id");
    reveal_strlit("jsonrpc");
    reveal_strlit("result");
    assert("id"@.len() == 2 && "jsonrpc"@.len() == 7 && "result"@.len() == 6);
    lemma_task_round_trip(record.result);
    let value = encode_get_task_response(record);
    assert(value.member("id"@) == Some(JsonModel::String(record.id)));
    assert(value.member("jsonrpc"@) == Some(JsonModel::String(record.jsonrpc)));
    assert(value.member("result"@) == Some(encode_task(record.result)));
}

impl GetTaskResponse {
    /// Writes the record as a JSON value.
    pub fn encode(&self) -> (r: JsonValue)
        ensures
            r@ == encode_get_task_response(self.deep_view()),
    {
        let mut members: Vec<JsonMember> = Vec::new();
        assert(models(members@) =~= Seq::<MemberModel>::empty());
        push_member(&mut members, "id", string_of(self.id.as_str()));
        push_member(&mut members, "jsonrpc", string_of(self.jsonrpc.as_str()));
        push_member(&mut members, "result", self.result.encode());
        object_of(members)
    }

    /// Reads the record from a JSON value.
    pub fn decode(value: &JsonValue) -> (r: Result<Self, DecodeError>)
        ensures
            match r {
                Ok(record) => decode_get_task_response(value@)
                    == Ok::<GetTaskResponseModel, DecodeError>(
                    record.deep_view(),
                ),
                Err(e) => decode_get_task_response(value@)
                    == Err::<GetTaskResponseModel, DecodeError>(e),
            },
    {
        if !value.is_object() {
            return Err(DecodeError::WrongKind);
        }
        let id = match value.get("id") {
            Some(v) => read_text(v)?,
            None => {
                return Err(DecodeError::MissingField);
            },
        };
        let jsonrpc = match value.get("jsonrpc") {
            Some(v) => read_text(v)?,
            None => {
                return Err(DecodeError::MissingField);
            },
        };
        let result = match value.get("result") {
            Some(v) => Task::decode(v)?,
            None => {
                return Err(DecodeError::MissingField);
            },
        };
        Ok(GetTaskResponse { id, jsonrpc, result })
    }
}

/// The model of the parameters of a request to cancel a task.
pub struct CancelTaskParamsModel {
    pub task_id: Seq<char>,
}

impl DeepView for CancelTaskParams {
    type V = CancelTaskParamsModel;

    open spec fn deep_view(&self) -> CancelTaskParamsModel {
        CancelTaskParamsModel {
            task_id: self.task_id.deep_view(),
        }
    }
}

/// The object that is written for the parameters of a request to cancel a
/// task.
pub open spec fn encode_cancel_task_params(record: CancelTaskParamsModel) -> JsonModel {
    let members = Seq::empty();
    let members = put(members, "taskId"@, JsonModel::String(record.task_id));
    JsonModel::Object(members)
}

/// What an object stands for when it is read as the parameters of a request
/// to cancel a task: the record, or the first failure among its members in
/// their order.
pub open spec fn decode_cancel_task_params(
    value: JsonModel,
) -> Result<CancelTaskParamsModel, DecodeError> {
    let task_id = required(value, "taskId"@, |v: JsonModel| text_of(v));
    if !(value is Object) {
        Err(DecodeError::WrongKind)
    } else if task_id is Err {
        Err(task_id->Err_0)
    } else {
        Ok(CancelTaskParamsModel { task_id: task_id->Ok_0 })
    }
}

/// Reading what was written for the parameters of a request to cancel a task
/// gives the record back.
pub proof fn lemma_cancel_task_params_round_trip(record: CancelTaskParamsModel)
    ensures
        decode_cancel_task_params(encode_cancel_task_params(record))
            == Ok::<CancelTaskParamsModel, DecodeError>(record),
{
    broadcast use lemma_member_after_put, lemma_member_after_put_optional;
    reveal_strlit("taskId");
    assert("taskId"@.len() == 6);
    let value = encode_cancel_task_params(record);
    assert(value.member("taskId"@) == Some(JsonModel::String(record.task_id)));
}

impl CancelTaskParams {
    /// Writes the record as a JSON value.
    pub fn encode(&self) -> (r: JsonValue)
        ensures
            r@ == encode_cancel_task_params(self.deep_view()),
    {
        let mut members: Vec<JsonMember> = Vec::new();
        assert(models(members@) =~= Seq::<MemberModel>::empty());
        push_member(&mut members, "taskId", string_of(self.task_id.as_str()));
        object_of(members)
    }

    /// Reads the record from a JSON value.
    pub fn decode(value: &JsonValue) -> (r: Result<Self, DecodeError>)
        ensures
            match r {
                Ok(record) => decode_cancel_task_params(value@)
                    == Ok::<CancelTaskParamsModel, DecodeError>(
                    record.deep_view(),
                ),
                Err(e) => decode_cancel_task_params(value@)
                    == Err::<CancelTaskParamsModel, DecodeError>(e),
            },
    {
        if !value.is_object() {
            return Err(DecodeError::WrongKind);
        }
        let task_id = match value.get("taskId") {
            Some(v) => read_text(v)?,
            None => {
                return Err(DecodeError::MissingField);
            },
        };
        Ok(CancelTaskParams { task_id })
    }
}

/// The model of a request to cancel a task.
pub struct CancelTaskRequestModel {
    pub method: RequestMethod,
    pub params: CancelTaskParamsModel,
    pub id: Seq<char>,
    pub jsonrpc: Seq<char>,
}

impl DeepView for CancelTaskRequest {
    type V = CancelTaskRequestModel;

    open spec fn deep_view(&self) -> CancelTaskRequestModel {
        CancelTaskRequestModel {
            method: self.method.deep_view(),
            params: self.params.deep_view(),
            id: self.id.deep_view(),
            jsonrpc: self.jsonrpc.deep_view(),
        }
    }
}

/// The object that is written for a request to cancel a task.
pub open spec fn encode_cancel_task_request(record: CancelTaskRequestModel) -> JsonModel {
    let members = Seq::empty();
    let members = put(members, "method"@, encode_request_method(record.method));
    let members = put(members, "params"@, encode_cancel_task_params(record.params));
    let members = put(members, "id"@, JsonModel::String(record.id));
    let members = put(members, "jsonrpc"@, JsonModel::String(record.jsonrpc));
    JsonModel::Object(members)
}

/// What an object stands for when it is read as a request to cancel a task:
/// the record, or the first failure among its members in their order.
pub open spec fn decode_cancel_task_request(
    value: JsonModel,
) -> Result<CancelTaskRequestModel, DecodeError> {
    let method = required(value, "method"@, |v: JsonModel| decode_request_method(v));
    let params = required(value, "params"@, |v: JsonModel| decode_cancel_task_params(v));
    let id = required(value, "id"@, |v: JsonModel| text_of(v));
    let jsonrpc = required(value, "jsonrpc"@, |v: JsonModel| text_of(v));
    if !(value is Object) {
        Err(DecodeError::WrongKind)
    } else if method is Err {
        Err(method->Err_0)
    } else if params is Err {
        Err(params->Err_0)
    } else if id is Err {
        Err(id->Err_0)
    } else if jsonrpc is Err {
        Err(jsonrpc->Err_0)
    } else {
        Ok(
            CancelTaskRequestModel {
                method: method->Ok_0,
                params: params->Ok_0,
                id: id->Ok_0,
                jsonrpc: jsonrpc->Ok_0,
            },
        )
    }
}

/// Reading what was written for a request to cancel a task gives the record
/// back.
pub proof fn lemma_cancel_task_request_round_trip(record: CancelTaskRequestModel)
    ensures
        decode_cancel_task_request(encode_cancel_task_request(record))
            == Ok::<CancelTaskRequestModel, DecodeError>(record),
{
    broadcast use lemma_member_after_put, lemma_member_after_put_optional;
    reveal_strlit("method");
    reveal_strlit("params");
    reveal_strlit("id");
    reveal_strlit("jsonrpc");
    assert(
        "method"@.len() == 6
            && "params"@.len() == 6
            && "id"@.len() == 2
            && "jsonrpc"@.len() == 7
    );
    assert("method"@[0] != "params"@[0]);
    lemma_request_method_round_trip(record.method);
    lemma_cancel_task_params_round_trip(record.params);
    let value = encode_cancel_task_request(record);
    assert(value.member("method"@) == Some(encode_request_method(record.method)));
    assert(value.member("params"@) == Some(encode_cancel_task_params(record.params)));
    assert(value.member("id"@) == Some(JsonModel::String(record.id)));
    assert(value.member("jsonrpc"@) == Some(JsonModel::String(record.jsonrpc)));
}

impl CancelTaskRequest {
    /// Writes the record as a JSON value.
    pub fn encode(&self) -> (r: JsonValue)
        ensures
            r@ == encode_cancel_task_request(self.deep_view()),
    {
        let mut members: Vec<JsonMember> = Vec::new();
        assert(models(members@) =~= Seq::<MemberModel>::empty());
        push_member(&mut members, "method", self.method.encode());
        push_member(&mut members, "params", self.params.encode());
        push_member(&mut members, "id", string_of(self.id.as_str()));
        push_member(&mut members, "jsonrpc", string_of(self.jsonrpc.as_str()));
        object_of(members)
    }

    /// Reads the record from a JSON value.
    pub fn decode(value: &JsonValue) -> (r: Result<Self, DecodeError>)
        ensures
            match r {
                Ok(record) => decode_cancel_task_request(value@)
                    == Ok::<CancelTaskRequestModel, DecodeError>(
                    record.deep_view(),
                ),
                Err(e) => decode_cancel_task_request(value@)
                    == Err::<CancelTaskRequestModel, DecodeError>(e),
            },
    {
        if !value.is_object() {
            return Err(DecodeError::WrongKind);
        }
        let method = match value.get("method") {
            Some(v) => RequestMethod::decode(v)?,
            None => {
                return Err(DecodeError::MissingField);
            },
        };
        let params = match value.get("params") {
            Some(v) => CancelTaskParams::decode(v)?,
            None => {
                return Err(DecodeError::MissingField);
            },
        };
        let id = match value.get("id") {
            Some(v) => read_text(v)?,
            None => {
                return Err(DecodeError::MissingField);
            },
        };
        let jsonrpc = match value.get("jsonrpc") {
            Some(v) => read_text(v)?,
            None => {
                return Err(DecodeError::MissingField);
            },
        };
        Ok(CancelTaskRequest { method, params, id, jsonrpc })
    }
}

/// The model of a response to a request to cancel a task.
pub struct CancelTaskResponseModel {
    pub id: Seq<char>,
    pub jsonrpc: Seq<char>,
    pub result: TaskModel,
}

impl DeepView for CancelTaskResponse {
    type V = CancelTaskResponseModel;

    open spec fn deep_view(&self) -> CancelTaskResponseModel {
        CancelTaskResponseModel {
            id: self.id.deep_view(),
            jsonrpc: self.jsonrpc.deep_view(),
            result: self.result.deep_view(),
        }
    }
}

impl CancelTaskResponseModel {
    /// Whether the record comes back unchanged when it is written and read:
    /// no optional JSON value in it is `null`, which reads as a missing
    /// value.
    pub open spec fn representable(self) -> bool {
        &&& self.result.representable()
    }
}

/// The object that is written for a response to a request to cancel a task.
pub open spec fn encode_cancel_task_response(record: CancelTaskResponseModel) -> JsonModel {
    let members = Seq::empty();
    let members = put(members, "id"@, JsonModel::String(record.id));
    let members = put(members, "jsonrpc"@, JsonModel::String(record.jsonrpc));
    let members = put(members, "result"@, encode_task(record.result));
    JsonModel::Object(members)
}

/// What an object stands for when it is read as a response to a request to
/// cancel a task: the record, or the first failure among its members in their
/// order.
pub open spec fn decode_cancel_task_response(
    value: JsonModel,
) -> Result<CancelTaskResponseModel, DecodeError> {
    let id = required(value, "id"@, |v: JsonModel| text_of(v));
    let jsonrpc = required(value, "jsonrpc"@, |v: JsonModel| text_of(v));
    let result = required(value, "result"@, |v: JsonModel| decode_task(v));
    if !(value is Object) {
        Err(DecodeError::WrongKind)
    } else if id is Err {
        Err(id->Err_0)
    } else if jsonrpc is Err {
        Err(jsonrpc->Err_0)
    } else if result is Err {
        Err(result->Err_0)
    } else {
        Ok(CancelTaskResponseModel { id: id->Ok_0, jsonrpc: jsonrpc->Ok_0, result: result->Ok_0 })
    }
}

/// Reading what was written for a response to a request to cancel a task
/// gives the record back.
pub proof fn lemma_cancel_task_response_round_trip(record: CancelTaskResponseModel)
    requires
        record.representable(),
    ensures
        decode_cancel_task_response(encode_cancel_task_response(record))
            == Ok::<CancelTaskResponseModel, DecodeError>(record),
{
    broadcast use lemma_member_after_put, lemma_member_after_put_optional;
    reveal_strlit("id");
    reveal_strlit("jsonrpc");
    reveal_strlit("result");
    assert("id"@.len() == 2 && "jsonrpc"@.len() == 7 && "result"@.len() == 6);
    lemma_task_round_trip(record.result);
    let value = encode_cancel_task_response(record);
    assert(value.member("id"@) == Some(JsonModel::String(record.id)));
    assert(value.member("jsonrpc"@) == Some(JsonModel::String(record.jsonrpc)));
    assert(value.member("result"@) == Some(encode_task(record.result)));
}

impl CancelTaskResponse {
    /// Writes the record as a JSON value.
    pub fn encode(&self) -> (r: JsonValue)
        ensures
            r@ == encode_cancel_task_response(self.deep_view()),
    {
        let mut members: Vec<JsonMember> = Vec::new();
        assert(models(members@) =~= Seq::<MemberModel>::empty());
        push_member(&mut members, "id", string_of(self.id.as_str()));
        push_member(&mut members, "jsonrpc", string_of(self.jsonrpc.as_str()));
        push_member(&mut members, "result", self.result.encode());
        object_of(members)
    }

    /// Reads the record from a JSON value.
    pub fn decode(value: &JsonValue) -> (r: Result<Self, DecodeError>)
        ensures
            match r {
                Ok(record) => decode_cancel_task_response(value@)
                    == Ok::<CancelTaskResponseModel, DecodeError>(
                    record.deep_view(),
                ),
                Err(e) => decode_cancel_task_response(value@)
                    == Err::<CancelTaskResponseModel, DecodeError>(e),
            },
    {
        if !value.is_object() {
            return Err(DecodeError::WrongKind);
        }
        let id = match value.get("id") {
            Some(v) => read_text(v)?,
            None => {
                return Err(DecodeError::MissingField);
            },
        };
        let jsonrpc = match value.get("jsonrpc") {
            Some(v) => read_text(v)?,
            None => {
                return Err(DecodeError::MissingField);
            },
        };
        let result = match value.get("result") {
            Some(v) => Task::decode(v)?,
            None => {
                return Err(DecodeError::MissingField);
            },
        };
        Ok(CancelTaskResponse { id, jsonrpc, result })
    }
}

/// The model of the parameters of a request to set a push notification
/// configuration.
pub struct SetTaskPushNotificationConfigParamsModel {
    pub task_id: Seq<char>,
    pub config: PushNotificationConfigModel,
}

impl DeepView for SetTaskPushNotificationConfigParams {
    type V = SetTaskPushNotificationConfigParamsModel;

    open spec fn deep_view(&self) -> SetTaskPushNotificationConfigParamsModel {
        SetTaskPushNotificationConfigParamsModel {
            task_id: self.task_id.deep_view(),
            config: self.config.deep_view(),
        }
    }
}

/// The object that is written for the parameters of a request to set a push
/// notification configuration.
pub open spec fn encode_set_task_push_notification_config_params(
    record: SetTaskPushNotificationConfigParamsModel,
) -> JsonModel {
    let members = Seq::empty();
    let members = put(members, "taskId"@, JsonModel::String(record.task_id));
    let members = put(members, "config"@, encode_push_notification_config(record.config));
    JsonModel::Object(members)
}

/// What an object stands for when it is read as the parameters of a request
/// to set a push notification configuration: the record, or the first failure
/// among its members in their order.
pub open spec fn decode_set_task_push_notification_config_params(
    value: JsonModel,
) -> Result<SetTaskPushNotificationConfigParamsModel, DecodeError> {
    let task_id = required(value, "taskId"@, |v: JsonModel| text_of(v));
    let config = required(value, "config"@, |v: JsonModel| decode_push_notification_config(v));
    if !(value is Object) {
        Err(DecodeError::WrongKind)
    } else if task_id is Err {
        Err(task_id->Err_0)
    } else if config is Err {
        Err(config->Err_0)
    } else {
        Ok(
            SetTaskPushNotificationConfigParamsModel {
                task_id: task_id->Ok_0,
                config: config->Ok_0,
            },
        )
    }
}

/// Reading what was written for the parameters of a request to set a push
/// notification configuration gives the record back.
pub proof fn lemma_set_task_push_notification_config_params_round_trip(
    record: SetTaskPushNotificationConfigParamsModel,
)
    ensures
        decode_set_task_push_notification_config_params(
            encode_set_task_push_notification_config_params(record),
        )
            == Ok::<SetTaskPushNotificationConfigParamsModel, DecodeError>(record),
{
    broadcast use lemma_member_after_put, lemma_member_after_put_optional;
    reveal_strlit("taskId");
    reveal_strlit("config");
    assert("taskId"@.len() == 6 && "config"@.len() == 6);
    assert("taskId"@[0] != "config"@[0]);
    lemma_push_notification_config_round_trip(record.config);
    let value = encode_set_task_push_notification_config_params(record);
    assert(value.member("taskId"@) == Some(JsonModel::String(record.task_id)));
    assert(value.member("config"@) == Some(encode_push_notification_config(record.config)));
}

impl SetTaskPushNotificationConfigParams {
    /// Writes the record as a JSON value.
    pub fn encode(&self) -> (r: JsonValue)
        ensures
            r@ == encode_set_task_push_notification_config_params(self.deep_view()),
    {
        let mut members: Vec<JsonMember> = Vec::new();
        assert(models(members@) =~= Seq::<MemberModel>::empty());
        push_member(&mut members, "taskId", string_of(self.task_id.as_str()));
        push_member(&mut members, "config", self.config.encode());
        object_of(members)
    }

    /// Reads the record from a JSON value.
    pub fn decode(value: &JsonValue) -> (r: Result<Self, DecodeError>)
        ensures
            match r {
                Ok(record) => decode_set_task_push_notification_config_params(value@)
                    == Ok::<SetTaskPushNotificationConfigParamsModel, DecodeError>(
                    record.deep_view(),
                ),
                Err(e) => decode_set_task_push_notification_config_params(value@)
                    == Err::<SetTaskPushNotificationConfigParamsModel, DecodeError>(e),
            },
    {
        if !value.is_object() {
            return Err(DecodeError::WrongKind);
        }
        let task_id = match value.get("taskId") {
            Some(v) => read_text(v)?,
            None => {
                return Err(DecodeError::MissingField);
            },
        };
        let config = match value.get("config") {
            Some(v) => PushNotificationConfig::decode(v)?,
            None => {
                return Err(DecodeError::MissingField);
            },
        };
        Ok(SetTaskPushNotificationConfigParams { task_id, config })
    }
}

/// The model of a request to set a push notification configuration.
pub struct SetTaskPushNotificationConfigRequestModel {
    pub method: RequestMethod,
    pub params: SetTaskPushNotificationConfigParamsModel,
    pub id: Seq<char>,
    pub jsonrpc: Seq<char>,
}

impl DeepView for SetTaskPushNotificationConfigRequest {
    type V = SetTaskPushNotificationConfigRequestModel;

    open spec fn deep_view(&self) -> SetTaskPushNotificationConfigRequestModel {
        SetTaskPushNotificationConfigRequestModel {
            method: self.method.deep_view(),
            params: self.params.deep_view(),
            id: self.id.deep_view(),
            jsonrpc: self.jsonrpc.deep_view(),
        }
    }
}

/// The object that is written for a request to set a push notification
/// configuration.
pub open spec fn encode_set_task_push_notification_config_request(
    record: SetTaskPushNotificationConfigRequestModel,
) -> JsonModel {
    let members = Seq::empty();
    let members = put(members, "method"@, encode_request_method(record.method));
    let members = put(
        members,
        "params"@,
        encode_set_task_push_notification_config_params(record.params),
    );
    let members = put(members, "id"@, JsonModel::String(record.id));
    let members = put(members, "jsonrpc"@, JsonModel::String(record.jsonrpc));
    JsonModel::Object(members)
}

/// What an object stands for when it is read as a request to set a push
/// notification configuration: the record, or the first failure among its
/// members in their order.
pub open spec fn decode_set_task_push_notification_config_request(
    value: JsonModel,
) -> Result<SetTaskPushNotificationConfigRequestModel, DecodeError> {
    let method = required(value, "method"@, |v: JsonModel| decode_request_method(v));
    let params = required(
        value,
        "params"@,
        |v: JsonModel| decode_set_task_push_notification_config_params(v),
    );
    let id = required(value, "id"@, |v: JsonModel| text_of(v));
    let jsonrpc = required(value, "jsonrpc"@, |v: JsonModel| text_of(v));
    if !(value is Object) {
        Err(DecodeError::WrongKind)
    } else if method is Err {
        Err(method->Err_0)
    } else if params is Err {
        Err(params->Err_0)
    } else if id is Err {
        Err(id->Err_0)
    } else if jsonrpc is Err {
        Err(jsonrpc->Err_0)
    } else {
        Ok(
            SetTaskPushNotificationConfigRequestModel {
                method: method->Ok_0,
                params: params->Ok_0,
                id: id->Ok_0,
                jsonrpc: jsonrpc->Ok_0,
            },
        )
    }
}

/// Reading what was written for a request to set a push notification
/// configuration gives the record back.
pub proof fn lemma_set_task_push_notification_config_request_round_trip(
    record: SetTaskPushNotificationConfigRequestModel,
)
    ensures
        decode_set_task_push_notification_config_request(
            encode_set_task_push_notification_config_request(record),
        )
            == Ok::<SetTaskPushNotificationConfigRequestModel, DecodeError>(record),
{
    broadcast use lemma_member_after_put, lemma_member_after_put_optional;
    reveal_strlit("method");
    reveal_strlit("params");
    reveal_strlit("id");
    reveal_strlit("jsonrpc");
    assert(
        "method"@.len() == 6
            && "params"@.len() == 6
            && "id"@.len() == 2
            && "jsonrpc"@.len() == 7
    );
    assert("method"@[0] != "params"@[0]);
    lemma_request_method_round_trip(record.method);
    lemma_set_task_push_notification_config_params_round_trip(record.params);
    let value = encode_set_task_push_notification_config_request(record);
    assert(value.member("method"@) == Some(encode_request_method(record.method)));
    assert(
        value.member("params"@)
            == Some(encode_set_task_push_notification_config_params(record.params))
    );
    assert(value.member("id"@) == Some(JsonModel::String(record.id)));
    assert(value.member("jsonrpc"@) == Some(JsonModel::String(record.jsonrpc)));
}

impl SetTaskPushNotificationConfigRequest {
    /// Writes the record as a JSON value.
    pub fn encode(&self) -> (r: JsonValue)
        ensures
            r@ == encode_set_task_push_notification_config_request(self.deep_view()),
    {
        let mut members: Vec<JsonMember> = Vec::new();
        assert(models(members@) =~= Seq::<MemberModel>::empty());
        push_member(&mut members, "method", self.method.encode());
        push_member(&mut members, "params", self.params.encode());
        push_member(&mut members, "id", string_of(self.id.as_str()));
        push_member(&mut members, "jsonrpc", string_of(self.jsonrpc.as_str()));
        object_of(members)
    }

    /// Reads the record from a JSON value.
    pub fn decode(value: &JsonValue) -> (r: Result<Self, DecodeError>)
        ensures
            match r {
                Ok(record) => decode_set_task_push_notification_config_request(value@)
                    == Ok::<SetTaskPushNotificationConfigRequestModel, DecodeError>(
                    record.deep_view(),
                ),
                Err(e) => decode_set_task_push_notification_config_request(value@)
                    == Err::<SetTaskPushNotificationConfigRequestModel, DecodeError>(e),
            },
    {
        if !value.is_object() {
            return Err(DecodeError::WrongKind);
        }
        let method = match value.get("method") {
            Some(v) => RequestMethod::decode(v)?,
            None => {
                return Err(DecodeError::MissingField);
            },
        };
        let params = match value.get("params") {
            Some(v) => SetTaskPushNotificationConfigParams::decode(v)?,
            None => {
                return Err(DecodeError::MissingField);
            },
        };
        let id = match value.get("id") {
            Some(v) => read_text(v)?,
            None => {
                return Err(DecodeError::MissingField);
            },
        };
        let jsonrpc = match value.get("jsonrpc") {
            Some(v) => read_text(v)?,
            None => {
                return Err(DecodeError::MissingField);
            },
        };
        Ok(SetTaskPushNotificationConfigRequest { method, params, id, jsonrpc })
    }
}

/// The model of the result of setting a push notification configuration.
pub struct PushNotificationConfigResultModel {
    pub task_id: Seq<char>,
    pub config_id: Seq<char>,
}

impl DeepView for PushNotificationConfigResult {
    type V = PushNotificationConfigResultModel;

    open spec fn deep_view(&self) -> PushNotificationConfigResultModel {
        PushNotificationConfigResultModel {
            task_id: self.task_id.deep_view(),
            config_id: self.config_id.deep_view(),
        }
    }
}

/// The object that is written for the result of setting a push notification
/// configuration.
pub open spec fn encode_push_notification_config_result(
    record: PushNotificationConfigResultModel,
) -> JsonModel {
    let members = Seq::empty();
    let members = put(members, "taskId"@, JsonModel::String(record.task_id));
    let members = put(members, "configId"@, JsonModel::String(record.config_id));
    JsonModel::Object(members)
}

/// What an object stands for when it is read as the result of setting a push
/// notification configuration: the record, or the first failure among its
/// members in their order.
pub open spec fn decode_push_notification_config_result(
    value: JsonModel,
) -> Result<PushNotificationConfigResultModel, DecodeError> {
    let task_id = required(value, "taskId"@, |v: JsonModel| text_of(v));
    let config_id = required(value, "configId"@, |v: JsonModel| text_of(v));
    if !(value is Object) {
        Err(DecodeError::WrongKind)
    } else if task_id is Err {
        Err(task_id->Err_0)
    } else if config_id is Err {
        Err(config_id->Err_0)
    } else {
        Ok(PushNotificationConfigResultModel { task_id: task_id->Ok_0, config_id: config_id->Ok_0 })
    }
}

/// Reading what was written for the result of setting a push notification
/// configuration gives the record back.
pub proof fn lemma_push_notification_config_result_round_trip(
    record: PushNotificationConfigResultModel,
)
    ensures
        decode_push_notification_config_result(encode_push_notification_config_result(record))
            == Ok::<PushNotificationConfigResultModel, DecodeError>(record),
{
    broadcast use lemma_member_after_put, lemma_member_after_put_optional;
    reveal_strlit("taskId");
    reveal_strlit("configId");
    assert("taskId"@.len() == 6 && "configId"@.len() == 8);
    let value = encode_push_notification_config_result(record);
    assert(value.member("taskId"@) == Some(JsonModel::String(record.task_id)));
    assert(value.member("configId"@) == Some(JsonModel::String(record.config_id)));
}

impl PushNotificationConfigResult {
    /// Writes the record as a JSON value.
    pub fn encode(&self) -> (r: JsonValue)
        ensures
            r@ == encode_push_notification_config_result(self.deep_view()),
    {
        let mut members: Vec<JsonMember> = Vec::new();
        assert(models(members@) =~= Seq::<MemberModel>::empty());
        push_member(&mut members, "taskId", string_of(self.task_id.as_str()));
        push_member(&mut members, "configId", string_of(self.config_id.as_str()));
        object_of(members)
    }

    /// Reads the record from a JSON value.
    pub fn decode(value: &JsonValue) -> (r: Result<Self, DecodeError>)
        ensures
            match r {
                Ok(record) => decode_push_notification_config_result(value@)
                    == Ok::<PushNotificationConfigResultModel, DecodeError>(
                    record.deep_view(),
                ),
                Err(e) => decode_push_notification_config_result(value@)
                    == Err::<PushNotificationConfigResultModel, DecodeError>(e),
            },
    {
        if !value.is_object() {
            return Err(DecodeError::WrongKind);
        }
        let task_id = match value.get("taskId") {
            Some(v) => read_text(v)?,
            None => {
                return Err(DecodeError::MissingField);
            },
        };
        let config_id = match value.get("configId") {
            Some(v) => read_text(v)?,
            None => {
                return Err(DecodeError::MissingField);
            },
        };
        Ok(PushNotificationConfigResult { task_id, config_id })
    }
}

/// The model of a response to a request to set a push notification
/// configuration.
pub struct SetTaskPushNotificationConfigResponseModel {
    pub id: Seq<char>,
    pub jsonrpc: Seq<char>,
    pub result: PushNotificationConfigResultModel,
}

impl DeepView for SetTaskPushNotificationConfigResponse {
    type V = SetTaskPushNotificationConfigResponseModel;

    open spec fn deep_view(&self) -> SetTaskPushNotificationConfigResponseModel {
        SetTaskPushNotificationConfigResponseModel {
            id: self.id.deep_view(),
            jsonrpc: self.jsonrpc.deep_view(),
            result: self.result.deep_view(),
        }
    }
}

/// The object that is written for a response to a request to set a push
/// notification configuration.
pub open spec fn encode_set_task_push_notification_config_response(
    record: SetTaskPushNotificationConfigResponseModel,
) -> JsonModel {
    let members = Seq::empty();
    let members = put(members, "id"@, JsonModel::String(record.id));
    let members = put(members, "jsonrpc"@, JsonModel::String(record.jsonrpc));
    let members = put(members, "result"@, encode_push_notification_config_result(record.result));
    JsonModel::Object(members)
}

/// What an object stands for when it is read as a response to a request to
/// set a push notification configuration: the record, or the first failure
/// among its members in their order.
pub open spec fn decode_set_task_push_notification_config_response(
    value: JsonModel,
) -> Result<SetTaskPushNotificationConfigResponseModel, DecodeError> {
    let id = required(value, "id"@, |v: JsonModel| text_of(v));
    let jsonrpc = required(value, "jsonrpc"@, |v: JsonModel| text_of(v));
    let result = required(
        value,
        "result"@,
        |v: JsonModel| decode_push_notification_config_result(v),
    );
    if !(value is Object) {
        Err(DecodeError::WrongKind)
    } else if id is Err {
        Err(id->Err_0)
    } else if jsonrpc is Err {
        Err(jsonrpc->Err_0)
    } else if result is Err {
        Err(result->Err_0)
    } else {
        Ok(
            SetTaskPushNotificationConfigResponseModel {
                id: id->Ok_0,
                jsonrpc: jsonrpc->Ok_0,
                result: result->Ok_0,
            },
        )
    }
}

/// Reading what was written for a response to a request to set a push
/// notification configuration gives the record back.
pub proof fn lemma_set_task_push_notification_config_response_round_trip(
    record: SetTaskPushNotificationConfigResponseModel,
)
    ensures
        decode_set_task_push_notification_config_response(
            encode_set_task_push_notification_config_response(record),
        )
            == Ok::<SetTaskPushNotificationConfigResponseModel, DecodeError>(record),
{
    broadcast use lemma_member_after_put, lemma_member_after_put_optional;
    reveal_strlit("id");
    reveal_strlit("jsonrpc");
    reveal_strlit("result");
    assert("id"@.len() == 2 && "jsonrpc"@.len() == 7 && "result"@.len() == 6);
    lemma_push_notification_config_result_round_trip(record.result);
    let value = encode_set_task_push_notification_config_response(record);
    assert(value.member("id"@) == Some(JsonModel::String(record.id)));
    assert(value.member("jsonrpc"@) == Some(JsonModel::String(record.jsonrpc)));
    assert(value.member("result"@) == Some(encode_push_notification_config_result(record.result)));
}

impl SetTaskPushNotificationConfigResponse {
    /// Writes the record as a JSON value.
    pub fn encode(&self) -> (r: JsonValue)
        ensures
            r@ == encode_set_task_push_notification_config_response(self.deep_view()),
    {
        let mut members: Vec<JsonMember> = Vec::new();
        assert(models(members@) =~= Seq::<MemberModel>::empty());
        push_member(&mut members, "id", string_of(self.id.as_str()));
        push_member(&mut members, "jsonrpc", string_of(self.jsonrpc.as_str()));
        push_member(&mut members, "result", self.result.encode());
        object_of(members)
    }

    /// Reads the record from a JSON value.
    pub fn decode(value: &JsonValue) -> (r: Result<Self, DecodeError>)
        ensures
            match r {
                Ok(record) => decode_set_task_push_notification_config_response(value@)
                    == Ok::<SetTaskPushNotificationConfigResponseModel, DecodeError>(
                    record.deep_view(),
                ),
                Err(e) => decode_set_task_push_notification_config_response(value@)
                    == Err::<SetTaskPushNotificationConfigResponseModel, DecodeError>(e),
            },
    {
        if !value.is_object() {
            return Err(DecodeError::WrongKind);
        }
        let id = match value.get("id") {
            Some(v) => read_text(v)?,
            None => {
                return Err(DecodeError::MissingField);
            },
        };
        let jsonrpc = match value.get("jsonrpc") {
            Some(v) => read_text(v)?,
            None => {
                return Err(DecodeError::MissingField);
            },
        };
        let result = match value.get("result") {
            Some(v) => PushNotificationConfigResult::decode(v)?,
            None => {
                return Err(DecodeError::MissingField);
            },
        };
        Ok(SetTaskPushNotificationConfigResponse { id, jsonrpc, result })
    }
}

/// The model of the parameters of a request for a push notification
/// configuration.
pub struct GetTaskPushNotificationConfigParamsModel {
    pub task_id: Seq<char>,
    pub config_id: Seq<char>,
}

impl DeepView for GetTaskPushNotificationConfigParams {
    type V = GetTaskPushNotificationConfigParamsModel;

    open spec fn deep_view(&self) -> GetTaskPushNotificationConfigParamsModel {
        GetTaskPushNotificationConfigParamsModel {
            task_id: self.task_id.deep_view(),
            config_id: self.config_id.deep_view(),
        }
    }
}

/// The object that is written for the parameters of a request for a push
/// notification configuration.
pub open spec fn encode_get_task_push_notification_config_params(
    record: GetTaskPushNotificationConfigParamsModel,
) -> JsonModel {
    let members = Seq::empty();
    let members = put(members, "taskId"@, JsonModel::String(record.task_id));
    let members = put(members, "configId"@, JsonModel::String(record.config_id));
    JsonModel::Object(members)
}

/// What an object stands for when it is read as the parameters of a request
/// for a push notification configuration: the record, or the first failure
/// among its members in their order.
pub open spec fn decode_get_task_push_notification_config_params(
    value: JsonModel,
) -> Result<GetTaskPushNotificationConfigParamsModel, DecodeError> {
    let task_id = required(value, "taskId"@, |v: JsonModel| text_of(v));
    let config_id = required(value, "configId"@, |v: JsonModel| text_of(v));
    if !(value is Object) {
        Err(DecodeError::WrongKind)
    } else if task_id is Err {
        Err(task_id->Err_0)
    } else if config_id is Err {
        Err(config_id->Err_0)
    } else {
        Ok(
            GetTaskPushNotificationConfigParamsModel {
                task_id: task_id->Ok_0,
                config_id: config_id->Ok_0,
            },
        )
    }
}

/// Reading what was written for the parameters of a request for a push
/// notification configuration gives the record back.
pub proof fn lemma_get_task_push_notification_config_params_round_trip(
    record: GetTaskPushNotificationConfigParamsModel,
)
    ensures
        decode_get_task_push_notification_config_params(
            encode_get_task_push_notification_config_params(record),
        )
            == Ok::<GetTaskPushNotificationConfigParamsModel, DecodeError>(record),
{
    broadcast use lemma_member_after_put, lemma_member_after_put_optional;
    reveal_strlit("taskId");
    reveal_strlit("configId");
    assert("taskId"@.len() == 6 && "configId"@.len() == 8);
    let value = encode_get_task_push_notification_config_params(record);
    assert(value.member("taskId"@) == Some(JsonModel::String(record.task_id)));
    assert(value.member("configId"@) == Some(JsonModel::String(record.config_id)));
}

impl GetTaskPushNotificationConfigParams {
    /// Writes the record as a JSON value.
    pub fn encode(&self) -> (r: JsonValue)
        ensures
            r@ == encode_get_task_push_notification_config_params(self.deep_view()),
    {
        let mut members: Vec<JsonMember> = Vec::new();
        assert(models(members@) =~= Seq::<MemberModel>::empty());
        push_member(&mut members, "taskId", string_of(self.task_id.as_str()));
        push_member(&mut members, "configId", string_of(self.config_id.as_str()));
        object_of(members)
    }

    /// Reads the record from a JSON value.
    pub fn decode(value: &JsonValue) -> (r: Result<Self, DecodeError>)
        ensures
            match r {
                Ok(record) => decode_get_task_push_notification_config_params(value@)
                    == Ok::<GetTaskPushNotificationConfigParamsModel, DecodeError>(
                    record.deep_view(),
                ),
                Err(e) => decode_get_task_push_notification_config_params(value@)
                    == Err::<GetTaskPushNotificationConfigParamsModel, DecodeError>(e),
            },
    {
        if !value.is_object() {
            return Err(DecodeError::WrongKind);
        }
        let task_id = match value.get("taskId") {
            Some(v) => read_text(v)?,
            None => {
                return Err(DecodeError::MissingField);
            },
        };
        let config_id = match value.get("configId") {
            Some(v) => read_text(v)?,
            None => {
                return Err(DecodeError::MissingField);
            },
        };
        Ok(GetTaskPushNotificationConfigParams { task_id, config_id })
    }
}

/// The model of a request for a push notification configuration.
pub struct GetTaskPushNotificationConfigRequestModel {
    pub method: RequestMethod,
    pub params: GetTaskPushNotificationConfigParamsModel,
    pub id: Seq<char>,
    pub jsonrpc: Seq<char>,
}

impl DeepView for GetTaskPushNotificationConfigRequest {
    type V = GetTaskPushNotificationConfigRequestModel;

    open spec fn deep_view(&self) -> GetTaskPushNotificationConfigRequestModel {
        GetTaskPushNotificationConfigRequestModel {
            method: self.method.deep_view(),
            params: self.params.deep_view(),
            id: self.id.deep_view(),
            jsonrpc: self.jsonrpc.deep_view(),
        }
    }
}

/// The object that is written for a request for a push notification
/// configuration.
pub open spec fn encode_get_task_push_notification_config_request(
    record: GetTaskPushNotificationConfigRequestModel,
) -> JsonModel {
    let members = Seq::empty();
    let members = put(members, "method"@, encode_request_method(record.method));
    let members = put(
        members,
        "params"@,
        encode_get_task_push_notification_config_params(record.params),
    );
    let members = put(members, "id"@, JsonModel::String(record.id));
    let members = put(members, "jsonrpc"@, JsonModel::String(record.jsonrpc));
    JsonModel::Object(members)
}

/// What an object stands for when it is read as a request for a push
/// notification configuration: the record, or the first failure among its
/// members in their order.
pub open spec fn decode_get_task_push_notification_config_request(
    value: JsonModel,
) -> Result<GetTaskPushNotificationConfigRequestModel, DecodeError> {
    let method = required(value, "method"@, |v: JsonModel| decode_request_method(v));
    let params = required(
        value,
        "params"@,
        |v: JsonModel| decode_get_task_push_notification_config_params(v),
    );
    let id = required(value, "id"@, |v: JsonModel| text_of(v));
    let jsonrpc = required(value, "jsonrpc"@, |v: JsonModel| text_of(v));
    if !(value is Object) {
        Err(DecodeError::WrongKind)
    } else if method is Err {
        Err(method->Err_0)
    } else if params is Err {
        Err(params->Err_0)
    } else if id is Err {
        Err(id->Err_0)
    } else if jsonrpc is Err {
        Err(jsonrpc->Err_0)
    } else {
        Ok(
            GetTaskPushNotificationConfigRequestModel {
                method: method->Ok_0,
                params: params->Ok_0,
                id: id->Ok_0,
                jsonrpc: jsonrpc->Ok_0,
            },
        )
    }
}

/// Reading what was written for a request for a push notification
/// configuration gives the record back.
pub proof fn lemma_get_task_push_notification_config_request_round_trip(
    record: GetTaskPushNotificationConfigRequestModel,
)
    ensures
        decode_get_task_push_notification_config_request(
            encode_get_task_push_notification_config_request(record),
        )
            == Ok::<GetTaskPushNotificationConfigRequestModel, DecodeError>(record),
{
    broadcast use lemma_member_after_put, lemma_member_after_put_optional;
    reveal_strlit("method");
    reveal_strlit("params");
    reveal_strlit("id");
    reveal_strlit("jsonrpc");
    assert(
        "method"@.len() == 6
            && "params"@.len() == 6
            && "id"@.len() == 2
            && "jsonrpc"@.len() == 7
    );
    assert("method"@[0] != "params"@[0]);
    lemma_request_method_round_trip(record.method);
    lemma_get_task_push_notification_config_params_round_trip(record.params);
    let value = encode_get_task_push_notification_config_request(record);
    assert(value.member("method"@) == Some(encode_request_method(record.method)));
    assert(
        value.member("params"@)
            == Some(encode_get_task_push_notification_config_params(record.params))
    );
    assert(value.member("id"@) == Some(JsonModel::String(record.id)));
    assert(value.member("jsonrpc"@) == Some(JsonModel::String(record.jsonrpc)));
}

impl GetTaskPushNotificationConfigRequest {
    /// Writes the record as a JSON value.
    pub fn encode(&self) -> (r: JsonValue)
        ensures
            r@ == encode_get_task_push_notification_config_request(self.deep_view()),
    {
        let mut members: Vec<JsonMember> = Vec::new();
        assert(models(members@) =~= Seq::<MemberModel>::empty());
        push_member(&mut members, "method", self.method.encode());
        push_member(&mut members, "params", self.params.encode());
        push_member(&mut members, "id", string_of(self.id.as_str()));
        push_member(&mut members, "jsonrpc", string_of(self.jsonrpc.as_str()));
        object_of(members)
    }

    /// Reads the record from a JSON value.
    pub fn decode(value: &JsonValue) -> (r: Result<Self, DecodeError>)
        ensures
            match r {
                Ok(record) => decode_get_task_push_notification_config_request(value@)
                    == Ok::<GetTaskPushNotificationConfigRequestModel, DecodeError>(
                    record.deep_view(),
                ),
                Err(e) => decode_get_task_push_notification_config_request(value@)
                    == Err::<GetTaskPushNotificationConfigRequestModel, DecodeError>(e),
            },
    {
        if !value.is_object() {
            return Err(DecodeError::WrongKind);
        }
        let method = match value.get("method") {
            Some(v) => RequestMethod::decode(v)?,
            None => {
                return Err(DecodeError::MissingField);
            },
        };
        let params = match value.get("params") {
            Some(v) => GetTaskPushNotificationConfigParams::decode(v)?,
            None => {
                return Err(DecodeError::MissingField);
            },
        };
        let id = match value.get("id") {
            Some(v) => read_text(v)?,
            None => {
                return Err(DecodeError::MissingField);
            },
        };
        let jsonrpc = match value.get("jsonrpc") {
            Some(v) => read_text(v)?,
            None => {
                return Err(DecodeError::MissingField);
            },
        };
        Ok(GetTaskPushNotificationConfigRequest { method, params, id, jsonrpc })
    }
}

/// The model of a response to a request for a push notification configuration.
pub struct GetTaskPushNotificationConfigResponseModel {
    pub id: Seq<char>,
    pub jsonrpc: Seq<char>,
    pub result: PushNotificationConfigModel,
}

impl DeepView for GetTaskPushNotificationConfigResponse {
    type V = GetTaskPushNotificationConfigResponseModel;

    open spec fn deep_view(&self) -> GetTaskPushNotificationConfigResponseModel {
        GetTaskPushNotificationConfigResponseModel {
            id: self.id.deep_view(),
            jsonrpc: self.jsonrpc.deep_view(),
            result: self.result.deep_view(),
        }
    }
}

/// The object that is written for a response to a request for a push
/// notification configuration.
pub open spec fn encode_get_task_push_notification_config_response(
    record: GetTaskPushNotificationConfigResponseModel,
) -> JsonModel {
    let members = Seq::empty();
    let members = put(members, "id"@, JsonModel::String(record.id));
    let members = put(members, "jsonrpc"@, JsonModel::String(record.jsonrpc));
    let members = put(members, "result"@, encode_push_notification_config(record.result));
    JsonModel::Object(members)
}

/// What an object stands for when it is read as a response to a request for a
/// push notification configuration: the record, or the first failure among
/// its members in their order.
pub open spec fn decode_get_task_push_notification_config_response(
    value: JsonModel,
) -> Result<GetTaskPushNotificationConfigResponseModel, DecodeError> {
    let id = required(value, "id"@, |v: JsonModel| text_of(v));
    let jsonrpc = required(value, "jsonrpc"@, |v: JsonModel| text_of(v));
    let result = required(value, "result"@, |v: JsonModel| decode_push_notification_config(v));
    if !(value is Object) {
        Err(DecodeError::WrongKind)
    } else if id is Err {
        Err(id->Err_0)
    } else if jsonrpc is Err {
        Err(jsonrpc->Err_0)
    } else if result is Err {
        Err(result->Err_0)
    } else {
        Ok(
            GetTaskPushNotificationConfigResponseModel {
                id: id->Ok_0,
                jsonrpc: jsonrpc->Ok_0,
                result: result->Ok_0,
            },
        )
    }
}

/// Reading what was written for a response to a request for a push
/// notification configuration gives the record back.
pub proof fn lemma_get_task_push_notification_config_response_round_trip(
    record: GetTaskPushNotificationConfigResponseModel,
)
    ensures
        decode_get_task_push_notification_config_response(
            encode_get_task_push_notification_config_response(record),
        )
            == Ok::<GetTaskPushNotificationConfigResponseModel, DecodeError>(record),
{
    broadcast use lemma_member_after_put, lemma_member_after_put_optional;
    reveal_strlit("id");
    reveal_strlit("jsonrpc");
    reveal_strlit("result");
    assert("id"@.len() == 2 && "jsonrpc"@.len() == 7 && "result"@.len() == 6);
    lemma_push_notification_config_round_trip(record.result);
    let value = encode_get_task_push_notification_config_response(record);
    assert(value.member("id"@) == Some(JsonModel::String(record.id)));
    assert(value.member("jsonrpc"@) == Some(JsonModel::String(record.jsonrpc)));
    assert(value.member("result"@) == Some(encode_push_notification_config(record.result)));
}

impl GetTaskPushNotificationConfigResponse {
    /// Writes the record as a JSON value.
    pub fn encode(&self) -> (r: JsonValue)
        ensures
            r@ == encode_get_task_push_notification_config_response(self.deep_view()),
    {
        let mut members: Vec<JsonMember> = Vec::new();
        assert(models(members@) =~= Seq::<MemberModel>::empty());
        push_member(&mut members, "id", string_of(self.id.as_str()));
        push_member(&mut members, "jsonrpc", string_of(self.jsonrpc.as_str()));
        push_member(&mut members, "result", self.result.encode());
        object_of(members)
    }

    /// Reads the record from a JSON value.
    pub fn decode(value: &JsonValue) -> (r: Result<Self, DecodeError>)
        ensures
            match r {
                Ok(record) => decode_get_task_push_notification_config_response(value@)
                    == Ok::<GetTaskPushNotificationConfigResponseModel, DecodeError>(
                    record.deep_view(),
                ),
                Err(e) => decode_get_task_push_notification_config_response(value@)
                    == Err::<GetTaskPushNotificationConfigResponseModel, DecodeError>(e),
            },
    {
        if !value.is_object() {
            return Err(DecodeError::WrongKind);
        }
        let id = match value.get("id") {
            Some(v) => read_text(v)?,
            None => {
                return Err(DecodeError::MissingField);
            },
        };
        let jsonrpc = match value.get("jsonrpc") {
            Some(v) => read_text(v)?,
            None => {
                return Err(DecodeError::MissingField);
            },
        };
        let result = match value.get("result") {
            Some(v) => PushNotificationConfig::decode(v)?,
            None => {
                return Err(DecodeError::MissingField);
            },
        };
        Ok(GetTaskPushNotificationConfigResponse { id, jsonrpc, result })
    }
}

/// The model of the parameters of a request to subscribe again.
pub struct TaskResubscriptionParamsModel {
    pub task_id: Seq<char>,
}

impl DeepView for TaskResubscriptionParams {
    type V = TaskResubscriptionParamsModel;

    open spec fn deep_view(&self) -> TaskResubscriptionParamsModel {
        TaskResubscriptionParamsModel {
            task_id: self.task_id.deep_view(),
        }
    }
}

/// The object that is written for the parameters of a request to subscribe
/// again.
pub open spec fn encode_task_resubscription_params(
    record: TaskResubscriptionParamsModel,
) -> JsonModel {
    let members = Seq::empty();
    let members = put(members, "taskId"@, JsonModel::String(record.task_id));
    JsonModel::Object(members)
}

/// What an object stands for when it is read as the parameters of a request
/// to subscribe again: the record, or the first failure among its members in
/// their order.
pub open spec fn decode_task_resubscription_params(
    value: JsonModel,
) -> Result<TaskResubscriptionParamsModel, DecodeError> {
    let task_id = required(value, "taskId"@, |v: JsonModel| text_of(v));
    if !(value is Object) {
        Err(DecodeError::WrongKind)
    } else if task_id is Err {
        Err(task_id->Err_0)
    } else {
        Ok(TaskResubscriptionParamsModel { task_id: task_id->Ok_0 })
    }
}

/// Reading what was written for the parameters of a request to subscribe
/// again gives the record back.
pub proof fn lemma_task_resubscription_params_round_trip(record: TaskResubscriptionParamsModel)
    ensures
        decode_task_resubscription_params(encode_task_resubscription_params(record))
            == Ok::<TaskResubscriptionParamsModel, DecodeError>(record),
{
    broadcast use lemma_member_after_put, lemma_member_after_put_optional;
    reveal_strlit("taskId");
    assert("taskId"@.len() == 6);
    let value = encode_task_resubscription_params(record);
    assert(value.member("taskId"@) == Some(JsonModel::String(record.task_id)));
}

impl TaskResubscriptionParams {
    /// Writes the record as a JSON value.
    pub fn encode(&self) -> (r: JsonValue)
        ensures
            r@ == encode_task_resubscription_params(self.deep_view()),
    {
        let mut members: Vec<JsonMember> = Vec::new();
        assert(models(members@) =~= Seq::<MemberModel>::empty());
        push_member(&mut members, "taskId", string_of(self.task_id.as_str()));
        object_of(members)
    }

    /// Reads the record from a JSON value.
    pub fn decode(value: &JsonValue) -> (r: Result<Self, DecodeError>)
        ensures
            match r {
                Ok(record) => decode_task_resubscription_params(value@)
                    == Ok::<TaskResubscriptionParamsModel, DecodeError>(
                    record.deep_view(),
                ),
                Err(e) => decode_task_resubscription_params(value@)
                    == Err::<TaskResubscriptionParamsModel, DecodeError>(e),
            },
    {
        if !value.is_object() {
            return Err(DecodeError::WrongKind);
        }
        let task_id = match value.get("taskId") {
            Some(v) => read_text(v)?,
            None => {
                return Err(DecodeError::MissingField);
            },
        };
        Ok(TaskResubscriptionParams { task_id })
    }
}

/// The model of a request to subscribe again.
pub struct TaskResubscriptionRequestModel {
    pub method: RequestMethod,
    pub params: TaskResubscriptionParamsModel,
    pub id: Seq<char>,
    pub jsonrpc: Seq<char>,
}

impl DeepView for TaskResubscriptionRequest {
    type V = TaskResubscriptionRequestModel;

    open spec fn deep_view(&self) -> TaskResubscriptionRequestModel {
        TaskResubscriptionRequestModel {
            method: self.method.deep_view(),
            params: self.params.deep_view(),
            id: self.id.deep_view(),
            jsonrpc: self.jsonrpc.deep_view(),
        }
    }
}

/// The object that is written for a request to subscribe again.
pub open spec fn encode_task_resubscription_request(
    record: TaskResubscriptionRequestModel,
) -> JsonModel {
    let members = Seq::empty();
    let members = put(members, "method"@, encode_request_method(record.method));
    let members = put(members, "params"@, encode_task_resubscription_params(record.params));
    let members = put(members, "id"@, JsonModel::String(record.id));
    let members = put(members, "jsonrpc"@, JsonModel::String(record.jsonrpc));
    JsonModel::Object(members)
}

/// What an object stands for when it is read as a request to subscribe again:
/// the record, or the first failure among its members in their order.
pub open spec fn decode_task_resubscription_request(
    value: JsonModel,
) -> Result<TaskResubscriptionRequestModel, DecodeError> {
    let method = required(value, "method"@, |v: JsonModel| decode_request_method(v));
    let params = required(value, "params"@, |v: JsonModel| decode_task_resubscription_params(v));
    let id = required(value, "id"@, |v: JsonModel| text_of(v));
    let jsonrpc = required(value, "jsonrpc"@, |v: JsonModel| text_of(v));
    if !(value is Object) {
        Err(DecodeError::WrongKind)
    } else if method is Err {
        Err(method->Err_0)
    } else if params is Err {
        Err(params->Err_0)
    } else if id is Err {
        Err(id->Err_0)
    } else if jsonrpc is Err {
        Err(jsonrpc->Err_0)
    } else {
        Ok(
            TaskResubscriptionRequestModel {
                method: method->Ok_0,
                params: params->Ok_0,
                id: id->Ok_0,
                jsonrpc: jsonrpc->Ok_0,
            },
        )
    }
}

/// Reading what was written for a request to subscribe again gives the record
/// back.
pub proof fn lemma_task_resubscription_request_round_trip(record: TaskResubscriptionRequestModel)
    ensures
        decode_task_resubscription_request(encode_task_resubscription_request(record))
            == Ok::<TaskResubscriptionRequestModel, DecodeError>(record),
{
    broadcast use lemma_member_after_put, lemma_member_after_put_optional;
    reveal_strlit("method");
    reveal_strlit("params");
    reveal_strlit("id");
    reveal_strlit("jsonrpc");
    assert(
        "method"@.len() == 6
            && "params"@.len() == 6
            && "id"@.len() == 2
            && "jsonrpc"@.len() == 7
    );
    assert("method"@[0] != "params"@[0]);
    lemma_request_method_round_trip(record.method);
    lemma_task_resubscription_params_round_trip(record.params);
    let value = encode_task_resubscription_request(record);
    assert(value.member("method"@) == Some(encode_request_method(record.method)));
    assert(value.member("params"@) == Some(encode_task_resubscription_params(record.params)));
    assert(value.member("id"@) == Some(JsonModel::String(record.id)));
    assert(value.member("jsonrpc"@) == Some(JsonModel::String(record.jsonrpc)));
}

impl TaskResubscriptionRequest {
    /// Writes the record as a JSON value.
    pub fn encode(&self) -> (r: JsonValue)
        ensures
            r@ == encode_task_resubscription_request(self.deep_view()),
    {
        let mut members: Vec<JsonMember> = Vec::new();
        assert(models(members@) =~= Seq::<MemberModel>::empty());
        push_member(&mut members, "method", self.method.encode());
        push_member(&mut members, "params", self.params.encode());
        push_member(&mut members, "id", string_of(self.id.as_str()));
        push_member(&mut members, "jsonrpc", string_of(self.jsonrpc.as_str()));
        object_of(members)
    }

    /// Reads the record from a JSON value.
    pub fn decode(value: &JsonValue) -> (r: Result<Self, DecodeError>)
        ensures
            match r {
                Ok(record) => decode_task_resubscription_request(value@)
                    == Ok::<TaskResubscriptionRequestModel, DecodeError>(
                    record.deep_view(),
                ),
                Err(e) => decode_task_resubscription_request(value@)
                    == Err::<TaskResubscriptionRequestModel, DecodeError>(e),
            },
    {
        if !value.is_object() {
            return Err(DecodeError::WrongKind);
        }
        let method = match value.get("method") {
            Some(v) => RequestMethod::decode(v)?,
            None => {
                return Err(DecodeError::MissingField);
            },
        };
        let params = match value.get("params") {
            Some(v) => TaskResubscriptionParams::decode(v)?,
            None => {
                return Err(DecodeError::MissingField);
            },
        };
        let id = match value.get("id") {
            Some(v) => read_text(v)?,
            None => {
                return Err(DecodeError::MissingField);
            },
        };
        let jsonrpc = match value.get("jsonrpc") {
            Some(v) => read_text(v)?,
            None => {
                return Err(DecodeError::MissingField);
            },
        };
        Ok(TaskResubscriptionRequest { method, params, id, jsonrpc })
    }
}

/// The model of a response to a request to subscribe again.
pub struct TaskResubscriptionResponseModel {
    pub id: Seq<char>,
    pub jsonrpc: Seq<char>,
    pub result: TaskModel,
}

impl DeepView for TaskResubscriptionResponse {
    type V = TaskResubscriptionResponseModel;

    open spec fn deep_view(&self) -> TaskResubscriptionResponseModel {
        TaskResubscriptionResponseModel {
            id: self.id.deep_view(),
            jsonrpc: self.jsonrpc.deep_view(),
            result: self.result.deep_view(),
        }
    }
}

impl TaskResubscriptionResponseModel {
    /// Whether the record comes back unchanged when it is written and read:
    /// no optional JSON value in it is `null`, which reads as a missing
    /// value.
    pub open spec fn representable(self) -> bool {
        &&& self.result.representable()
    }
}

/// The object that is written for a response to a request to subscribe again.
pub open spec fn encode_task_resubscription_response(
    record: TaskResubscriptionResponseModel,
) -> JsonModel {
    let members = Seq::empty();
    let members = put(members, "id"@, JsonModel::String(record.id));
    let members = put(members, "jsonrpc"@, JsonModel::String(record.jsonrpc));
    let members = put(members, "result"@, encode_task(record.result));
    JsonModel::Object(members)
}

/// What an object stands for when it is read as a response to a request to
/// subscribe again: the record, or the first failure among its members in
/// their order.
pub open spec fn decode_task_resubscription_response(
    value: JsonModel,
) -> Result<TaskResubscriptionResponseModel, DecodeError> {
    let id = required(value, "id"@, |v: JsonModel| text_of(v));
    let jsonrpc = required(value, "jsonrpc"@, |v: JsonModel| text_of(v));
    let result = required(value, "result"@, |v: JsonModel| decode_task(v));
    if !(value is Object) {
        Err(DecodeError::WrongKind)
    } else if id is Err {
        Err(id->Err_0)
    } else if jsonrpc is Err {
        Err(jsonrpc->Err_0)
    } else if result is Err {
        Err(result->Err_0)
    } else {
        Ok(
            TaskResubscriptionResponseModel {
                id: id->Ok_0,
                jsonrpc: jsonrpc->Ok_0,
                result: result->Ok_0,
            },
        )
    }
}

/// Reading what was written for a response to a request to subscribe again
/// gives the record back.
pub proof fn lemma_task_resubscription_response_round_trip(record: TaskResubscriptionResponseModel)
    requires
        record.representable(),
    ensures
        decode_task_resubscription_response(encode_task_resubscription_response(record))
            == Ok::<TaskResubscriptionResponseModel, DecodeError>(record),
{
    broadcast use lemma_member_after_put, lemma_member_after_put_optional;
    reveal_strlit("id");
    reveal_strlit("jsonrpc");
    reveal_strlit("result");
    assert("id"@.len() == 2 && "jsonrpc"@.len() == 7 && "result"@.len() == 6);
    lemma_task_round_trip(record.result);
    let value = encode_task_resubscription_response(record);
    assert(value.member("id"@) == Some(JsonModel::String(record.id)));
    assert(value.member("jsonrpc"@) == Some(JsonModel::String(record.jsonrpc)));
    assert(value.member("result"@) == Some(encode_task(record.result)));
}

impl TaskResubscriptionResponse {
    /// Writes the record as a JSON value.
    pub fn encode(&self) -> (r: JsonValue)
        ensures
            r@ == encode_task_resubscription_response(self.deep_view()),
    {
        let mut members: Vec<JsonMember> = Vec::new();
        assert(models(members@) =~= Seq::<MemberModel>::empty());
        push_member(&mut members, "id", string_of(self.id.as_str()));
        push_member(&mut members, "jsonrpc", string_of(self.jsonrpc.as_str()));
        push_member(&mut members, "result", self.result.encode());
        object_of(members)
    }

    /// Reads the record from a JSON value.
    pub fn decode(value: &JsonValue) -> (r: Result<Self, DecodeError>)
        ensures
            match r {
                Ok(record) => decode_task_resubscription_response(value@)
                    == Ok::<TaskResubscriptionResponseModel, DecodeError>(
                    record.deep_view(),
                ),
                Err(e) => decode_task_resubscription_response(value@)
                    == Err::<TaskResubscriptionResponseModel, DecodeError>(e),
            },
    {
        if !value.is_object() {
            return Err(DecodeError::WrongKind);
        }
        let id = match value.get("id") {
            Some(v) => read_text(v)?,
            None => {
                return Err(DecodeError::MissingField);
            },
        };
        let jsonrpc = match value.get("jsonrpc") {
            Some(v) => read_text(v)?,
            None => {
                return Err(DecodeError::MissingField);
            },
        };
        let result = match value.get("result") {
            Some(v) => Task::decode(v)?,
            None => {
                return Err(DecodeError::MissingField);
            },
        };
        Ok(TaskResubscriptionResponse { id, jsonrpc, result })
    }
}

/// The model of the parameters of a request for the push notification
/// configurations.
pub struct ListTaskPushNotificationConfigParamsModel {
    pub task_id: Seq<char>,
}

impl DeepView for ListTaskPushNotificationConfigParams {
    type V = ListTaskPushNotificationConfigParamsModel;

    open spec fn deep_view(&self) -> ListTaskPushNotificationConfigParamsModel {
        ListTaskPushNotificationConfigParamsModel {
            task_id: self.task_id.deep_view(),
        }
    }
}

/// The object that is written for the parameters of a request for the push
/// notification configurations.
pub open spec fn encode_list_task_push_notification_config_params(
    record: ListTaskPushNotificationConfigParamsModel,
) -> JsonModel {
    let members = Seq::empty();
    let members = put(members, "taskId"@, JsonModel::String(record.task_id));
    JsonModel::Object(members)
}

/// What an object stands for when it is read as the parameters of a request
/// for the push notification configurations: the record, or the first failure
/// among its members in their order.
pub open spec fn decode_list_task_push_notification_config_params(
    value: JsonModel,
) -> Result<ListTaskPushNotificationConfigParamsModel, DecodeError> {
    let task_id = required(value, "taskId"@, |v: JsonModel| text_of(v));
    if !(value is Object) {
        Err(DecodeError::WrongKind)
    } else if task_id is Err {
        Err(task_id->Err_0)
    } else {
        Ok(ListTaskPushNotificationConfigParamsModel { task_id: task_id->Ok_0 })
    }
}

/// Reading what was written for the parameters of a request for the push
/// notification configurations gives the record back.
pub proof fn lemma_list_task_push_notification_config_params_round_trip(
    record: ListTaskPushNotificationConfigParamsModel,
)
    ensures
        decode_list_task_push_notification_config_params(
            encode_list_task_push_notification_config_params(record),
        )
            == Ok::<ListTaskPushNotificationConfigParamsModel, DecodeError>(record),
{
    broadcast use lemma_member_after_put, lemma_member_after_put_optional;
    reveal_strlit("taskId");
    assert("taskId"@.len() == 6);
    let value = encode_list_task_push_notification_config_params(record);
    assert(value.member("taskId"@) == Some(JsonModel::String(record.task_id)));
}

impl ListTaskPushNotificationConfigParams {
    /// Writes the record as a JSON value.
    pub fn encode(&self) -> (r: JsonValue)
        ensures
            r@ == encode_list_task_push_notification_config_params(self.deep_view()),
    {
        let mut members: Vec<JsonMember> = Vec::new();
        assert(models(members@) =~= Seq::<MemberModel>::empty());
        push_member(&mut members, "taskId", string_of(self.task_id.as_str()));
        object_of(members)
    }

    /// Reads the record from a JSON value.
    pub fn decode(value: &JsonValue) -> (r: Result<Self, DecodeError>)
        ensures
            match r {
                Ok(record) => decode_list_task_push_notification_config_params(value@)
                    == Ok::<ListTaskPushNotificationConfigParamsModel, DecodeError>(
                    record.deep_view(),
                ),
                Err(e) => decode_list_task_push_notification_config_params(value@)
                    == Err::<ListTaskPushNotificationConfigParamsModel, DecodeError>(e),
            },
    {
        if !value.is_object() {
            return Err(DecodeError::WrongKind);
        }
        let task_id = match value.get("taskId") {
            Some(v) => read_text(v)?,
            None => {
                return Err(DecodeError::MissingField);
            },
        };
        Ok(ListTaskPushNotificationConfigParams { task_id })
    }
}

/// The model of a request for the push notification configurations.
pub struct ListTaskPushNotificationConfigRequestModel {
    pub method: RequestMethod,
    pub params: ListTaskPushNotificationConfigParamsModel,
    pub id: Seq<char>,
    pub jsonrpc: Seq<char>,
}

impl DeepView for ListTaskPushNotificationConfigRequest {
    type V = ListTaskPushNotificationConfigRequestModel;

    open spec fn deep_view(&self) -> ListTaskPushNotificationConfigRequestModel {
        ListTaskPushNotificationConfigRequestModel {
            method: self.method.deep_view(),
            params: self.params.deep_view(),
            id: self.id.deep_view(),
            jsonrpc: self.jsonrpc.deep_view(),
        }
    }
}

/// The object that is written for a request for the push notification
/// configurations.
pub open spec fn encode_list_task_push_notification_config_request(
    record: ListTaskPushNotificationConfigRequestModel,
) -> JsonModel {
    let members = Seq::empty();
    let members = put(members, "method"@, encode_request_method(record.method));
    let members = put(
        members,
        "params"@,
        encode_list_task_push_notification_config_params(record.params),
    );
    let members = put(members, "id"@, JsonModel::String(record.id));
    let members = put(members, "jsonrpc"@, JsonModel::String(record.jsonrpc));
    JsonModel::Object(members)
}

/// What an object stands for when it is read as a request for the push
/// notification configurations: the record, or the first failure among its
/// members in their order.
pub open spec fn decode_list_task_push_notification_config_request(
    value: JsonModel,
) -> Result<ListTaskPushNotificationConfigRequestModel, DecodeError> {
    let method = required(value, "method"@, |v: JsonModel| decode_request_method(v));
    let params = required(
        value,
        "params"@,
        |v: JsonModel| decode_list_task_push_notification_config_params(v),
    );
    let id = required(value, "id"@, |v: JsonModel| text_of(v));
    let jsonrpc = required(value, "jsonrpc"@, |v: JsonModel| text_of(v));
    if !(value is Object) {
        Err(DecodeError::WrongKind)
    } else if method is Err {
        Err(method->Err_0)
    } else if params is Err {
        Err(params->Err_0)
    } else if id is Err {
        Err(id->Err_0)
    } else if jsonrpc is Err {
        Err(jsonrpc->Err_0)
    } else {
        Ok(
            ListTaskPushNotificationConfigRequestModel {
                method: method->Ok_0,
                params: params->Ok_0,
                id: id->Ok_0,
                jsonrpc: jsonrpc->Ok_0,
            },
        )
    }
}

/// Reading what was written for a request for the push notification
/// configurations gives the record back.
pub proof fn lemma_list_task_push_notification_config_request_round_trip(
    record: ListTaskPushNotificationConfigRequestModel,
)
    ensures
        decode_list_task_push_notification_config_request(
            encode_list_task_push_notification_config_request(record),
        )
            == Ok::<ListTaskPushNotificationConfigRequestModel, DecodeError>(record),
{
    broadcast use lemma_member_after_put, lemma_member_after_put_optional;
    reveal_strlit("method");
    reveal_strlit("params");
    reveal_strlit("id");
    reveal_strlit("jsonrpc");
    assert(
        "method"@.len() == 6
            && "params"@.len() == 6
            && "id"@.len() == 2
            && "jsonrpc"@.len() == 7
    );
    assert("method"@[0] != "params"@[0]);
    lemma_request_method_round_trip(record.method);
    lemma_list_task_push_notification_config_params_round_trip(record.params);
    let value = encode_list_task_push_notification_config_request(record);
    assert(value.member("method"@) == Some(encode_request_method(record.method)));
    assert(
        value.member("params"@)
            == Some(encode_list_task_push_notification_config_params(record.params))
    );
    assert(value.member("id"@) == Some(JsonModel::String(record.id)));
    assert(value.member("jsonrpc"@) == Some(JsonModel::String(record.jsonrpc)));
}

impl ListTaskPushNotificationConfigRequest {
    /// Writes the record as a JSON value.
    pub fn encode(&self) -> (r: JsonValue)
        ensures
            r@ == encode_list_task_push_notification_config_request(self.deep_view()),
    {
        let mut members: Vec<JsonMember> = Vec::new();
        assert(models(members@) =~= Seq::<MemberModel>::empty());
        push_member(&mut members, "method", self.method.encode());
        push_member(&mut members, "params", self.params.encode());
        push_member(&mut members, "id", string_of(self.id.as_str()));
        push_member(&mut members, "jsonrpc", string_of(self.jsonrpc.as_str()));
        object_of(members)
    }

    /// Reads the record from a JSON value.
    pub fn decode(value: &JsonValue) -> (r: Result<Self, DecodeError>)
        ensures
            match r {
                Ok(record) => decode_list_task_push_notification_config_request(value@)
                    == Ok::<ListTaskPushNotificationConfigRequestModel, DecodeError>(
                    record.deep_view(),
                ),
                Err(e) => decode_list_task_push_notification_config_request(value@)
                    == Err::<ListTaskPushNotificationConfigRequestModel, DecodeError>(e),
            },
    {
        if !value.is_object() {
            return Err(DecodeError::WrongKind);
        }
        let method = match value.get("method") {
            Some(v) => RequestMethod::decode(v)?,
            None => {
                return Err(DecodeError::MissingField);
            },
        };
        let params = match value.get("params") {
            Some(v) => ListTaskPushNotificationConfigParams::decode(v)?,
            None => {
                return Err(DecodeError::MissingField);
            },
        };
        let id = match value.get("id") {
            Some(v) => read_text(v)?,
            None => {
                return Err(DecodeError::MissingField);
            },
        };
        let jsonrpc = match value.get("jsonrpc") {
            Some(v) => read_text(v)?,
            None => {
                return Err(DecodeError::MissingField);
            },
        };
        Ok(ListTaskPushNotificationConfigRequest { method, params, id, jsonrpc })
    }
}

/// The model of a listed push notification configuration.
pub struct PushNotificationConfigInfoModel {
    pub config_id: Seq<char>,
    pub url: Seq<char>,
}

impl DeepView for PushNotificationConfigInfo {
    type V = PushNotificationConfigInfoModel;

    open spec fn deep_view(&self) -> PushNotificationConfigInfoModel {
        PushNotificationConfigInfoModel {
            config_id: self.config_id.deep_view(),
            url: self.url.deep_view(),
        }
    }
}

/// The object that is written for a listed push notification configuration.
pub open spec fn encode_push_notification_config_info(
    record: PushNotificationConfigInfoModel,
) -> JsonModel {
    let members = Seq::empty();
    let members = put(members, "configId"@, JsonModel::String(record.config_id));
    let members = put(members, "url"@, JsonModel::String(record.url));
    JsonModel::Object(members)
}

/// What an object stands for when it is read as a listed push notification
/// configuration: the record, or the first failure among its members in their
/// order.
pub open spec fn decode_push_notification_config_info(
    value: JsonModel,
) -> Result<PushNotificationConfigInfoModel, DecodeError> {
    let config_id = required(value, "configId"@, |v: JsonModel| text_of(v));
    let url = required(value, "url"@, |v: JsonModel| text_of(v));
    if !(value is Object) {
        Err(DecodeError::WrongKind)
    } else if config_id is Err {
        Err(config_id->Err_0)
    } else if url is Err {
        Err(url->Err_0)
    } else {
        Ok(PushNotificationConfigInfoModel { config_id: config_id->Ok_0, url: url->Ok_0 })
    }
}

/// Reading what was written for a listed push notification configuration
/// gives the record back.
pub proof fn lemma_push_notification_config_info_round_trip(record: PushNotificationConfigInfoModel)
    ensures
        decode_push_notification_config_info(encode_push_notification_config_info(record))
            == Ok::<PushNotificationConfigInfoModel, DecodeError>(record),
{
    broadcast use lemma_member_after_put, lemma_member_after_put_optional;
    reveal_strlit("configId");
    reveal_strlit("url");
    assert("configId"@.len() == 8 && "url"@.len() == 3);
    let value = encode_push_notification_config_info(record);
    assert(value.member("configId"@) == Some(JsonModel::String(record.config_id)));
    assert(value.member("url"@) == Some(JsonModel::String(record.url)));
}

impl PushNotificationConfigInfo {
    /// Writes the record as a JSON value.
    pub fn encode(&self) -> (r: JsonValue)
        ensures
            r@ == encode_push_notification_config_info(self.deep_view()),
    {
        let mut members: Vec<JsonMember> = Vec::new();
        assert(models(members@) =~= Seq::<MemberModel>::empty());
        push_member(&mut members, "configId", string_of(self.config_id.as_str()));
        push_member(&mut members, "url", string_of(self.url.as_str()));
        object_of(members)
    }

    /// Reads the record from a JSON value.
    pub fn decode(value: &JsonValue) -> (r: Result<Self, DecodeError>)
        ensures
            match r {
                Ok(record) => decode_push_notification_config_info(value@)
                    == Ok::<PushNotificationConfigInfoModel, DecodeError>(
                    record.deep_view(),
                ),
                Err(e) => decode_push_notification_config_info(value@)
                    == Err::<PushNotificationConfigInfoModel, DecodeError>(e),
            },
    {
        if !value.is_object() {
            return Err(DecodeError::WrongKind);
        }
        let config_id = match value.get("configId") {
            Some(v) => read_text(v)?,
            None => {
                return Err(DecodeError::MissingField);
            },
        };
        let url = match value.get("url") {
            Some(v) => read_text(v)?,
            None => {
                return Err(DecodeError::MissingField);
            },
        };
        Ok(PushNotificationConfigInfo { config_id, url })
    }
}

/// What writes a listed push notification configuration.
pub open spec fn push_notification_config_info_encoder(
) -> spec_fn(PushNotificationConfigInfoModel) -> JsonModel {
    |item: PushNotificationConfigInfoModel| encode_push_notification_config_info(item)
}

/// What reads a listed push notification configuration.
pub open spec fn push_notification_config_info_decoder(
) -> spec_fn(JsonModel) -> Result<PushNotificationConfigInfoModel, DecodeError> {
    |value: JsonModel| decode_push_notification_config_info(value)
}

/// The array that is written for a list of listed push notification
/// configurations.
pub open spec fn encode_push_notification_config_info_list(
    items: Seq<PushNotificationConfigInfoModel>,
) -> JsonModel {
    JsonModel::Array(items.map_values(push_notification_config_info_encoder()))
}

/// What an array stands for when it is read as a list of listed push
/// notification configurations.
pub open spec fn decode_push_notification_config_info_list(
    value: JsonModel,
) -> Result<Seq<PushNotificationConfigInfoModel>, DecodeError> {
    array_of(value, push_notification_config_info_decoder())
}

/// Reading what was written for a list of listed push notification
/// configurations gives the list back.
pub proof fn lemma_push_notification_config_info_list_round_trip(
    items: Seq<PushNotificationConfigInfoModel>,
)
    ensures
        decode_push_notification_config_info_list(encode_push_notification_config_info_list(items))
            == Ok::<Seq<PushNotificationConfigInfoModel>, DecodeError>(items),
{
    assert forall|i: int| 0 <= i < items.len() implies push_notification_config_info_decoder()(
        push_notification_config_info_encoder()(#[trigger] items[i]),
    ) == Ok::<PushNotificationConfigInfoModel, DecodeError>(items[i]) by {
        lemma_push_notification_config_info_round_trip(items[i]);
    }
    lemma_decode_all_encoded(
        items,
        push_notification_config_info_encoder(),
        push_notification_config_info_decoder(),
    );
}

/// Writes a list of listed push notification configurations as a JSON array.
pub fn write_push_notification_config_info_list(
    items: &Vec<PushNotificationConfigInfo>,
) -> (r: JsonValue)
    ensures
        r@ == encode_push_notification_config_info_list(items.deep_view()),
{
    let mut out: Vec<JsonValue> = Vec::new();
    let mut i: usize = 0;
    while i < items.len()
        invariant
            i <= items@.len(),
            out@.len() == i,
            forall|j: int|
                0 <= j < i ==> (#[trigger] out@[j])@
                    == encode_push_notification_config_info(items@[j].deep_view()),
        decreases items@.len() - i,
    {
        out.push(items[i].encode());
        i += 1;
    }
    let r = JsonValue::Array(out);
    assert(r@->Array_0 =~= items.deep_view().map_values(push_notification_config_info_encoder()));
    r
}

/// Reads a list of listed push notification configurations from a JSON array.
pub fn read_push_notification_config_info_list(
    value: &JsonValue,
) -> (r: Result<Vec<PushNotificationConfigInfo>, DecodeError>)
    ensures
        match r {
            Ok(items) => decode_push_notification_config_info_list(value@)
                == Ok::<Seq<PushNotificationConfigInfoModel>, DecodeError>(
                items.deep_view(),
            ),
            Err(e) => decode_push_notification_config_info_list(value@)
                == Err::<Seq<PushNotificationConfigInfoModel>, DecodeError>(e),
        },
{
    match value {
        JsonValue::Array(values) => {
            let ghost all = value@->Array_0;
            let mut out: Vec<PushNotificationConfigInfo> = Vec::new();
            let mut i: usize = 0;
            assert(all.subrange(0, 0) =~= Seq::<JsonModel>::empty());
            assert(out.deep_view() =~= Seq::<PushNotificationConfigInfoModel>::empty());
            while i < values.len()
                invariant
                    i <= values@.len(),
                    value@ == JsonModel::Array(all),
                    all.len() == values@.len(),
                    forall|j: int| 0 <= j < all.len() ==> all[j] == (#[trigger] values@[j])@,
                    decode_all(
                        all.subrange(0, i as int),
                        push_notification_config_info_decoder(),
                    ) == Ok::<
                        Seq<PushNotificationConfigInfoModel>,
                        DecodeError,
                    >(out.deep_view()),
                decreases values@.len() - i,
            {
                let ghost before = out.deep_view();
                match PushNotificationConfigInfo::decode(&values[i]) {
                    Ok(item) => {
                        proof {
                            lemma_decode_all_step(
                                all,
                                push_notification_config_info_decoder(),
                                i as int,
                            );
                        }
                        out.push(item);
                        assert(out.deep_view() =~= before.push(item.deep_view()));
                    },
                    Err(e) => {
                        proof {
                            lemma_decode_all_fails(
                                all,
                                push_notification_config_info_decoder(),
                                i as int,
                            );
                        }
                        return Err(e);
                    },
                }
                i += 1;
            }
            assert(all.subrange(0, i as int) =~= all);
            Ok(out)
        },
        _ => Err(DecodeError::WrongKind),
    }
}

/// The model of a response to a request for the push notification
/// configurations.
pub struct ListTaskPushNotificationConfigResponseModel {
    pub id: Seq<char>,
    pub jsonrpc: Seq<char>,
    pub result: Seq<PushNotificationConfigInfoModel>,
}

impl DeepView for ListTaskPushNotificationConfigResponse {
    type V = ListTaskPushNotificationConfigResponseModel;

    open spec fn deep_view(&self) -> ListTaskPushNotificationConfigResponseModel {
        ListTaskPushNotificationConfigResponseModel {
            id: self.id.deep_view(),
            jsonrpc: self.jsonrpc.deep_view(),
            result: self.result.deep_view(),
        }
    }
}

/// The object that is written for a response to a request for the push
/// notification configurations.
pub open spec fn encode_list_task_push_notification_config_response(
    record: ListTaskPushNotificationConfigResponseModel,
) -> JsonModel {
    let members = Seq::empty();
    let members = put(members, "id"@, JsonModel::String(record.id));
    let members = put(members, "jsonrpc"@, JsonModel::String(record.jsonrpc));
    let members = put(members, "result"@, encode_push_notification_config_info_list(record.result));
    JsonModel::Object(members)
}

/// What an object stands for when it is read as a response to a request for
/// the push notification configurations: the record, or the first failure
/// among its members in their order.
pub open spec fn decode_list_task_push_notification_config_response(
    value: JsonModel,
) -> Result<ListTaskPushNotificationConfigResponseModel, DecodeError> {
    let id = required(value, "id"@, |v: JsonModel| text_of(v));
    let jsonrpc = required(value, "jsonrpc"@, |v: JsonModel| text_of(v));
    let result = required(
        value,
        "result"@,
        |v: JsonModel| decode_push_notification_config_info_list(v),
    );
    if !(value is Object) {
        Err(DecodeError::WrongKind)
    } else if id is Err {
        Err(id->Err_0)
    } else if jsonrpc is Err {
        Err(jsonrpc->Err_0)
    } else if result is Err {
        Err(result->Err_0)
    } else {
        Ok(
            ListTaskPushNotificationConfigResponseModel {
                id: id->Ok_0,
                jsonrpc: jsonrpc->Ok_0,
                result: result->Ok_0,
            },
        )
    }
}

/// Reading what was written for a response to a request for the push
/// notification configurations gives the record back.
pub proof fn lemma_list_task_push_notification_config_response_round_trip(
    record: ListTaskPushNotificationConfigResponseModel,
)
    ensures
        decode_list_task_push_notification_config_response(
            encode_list_task_push_notification_config_response(record),
        )
            == Ok::<ListTaskPushNotificationConfigResponseModel, DecodeError>(record),
{
    broadcast use lemma_member_after_put, lemma_member_after_put_optional;
    reveal_strlit("id");
    reveal_strlit("jsonrpc");
    reveal_strlit("result");
    assert("id"@.len() == 2 && "jsonrpc"@.len() == 7 && "result"@.len() == 6);
    lemma_push_notification_config_info_list_round_trip(record.result);
    let value = encode_list_task_push_notification_config_response(record);
    assert(value.member("id"@) == Some(JsonModel::String(record.id)));
    assert(value.member("jsonrpc"@) == Some(JsonModel::String(record.jsonrpc)));
    assert(
        value.member("result"@) == Some(encode_push_notification_config_info_list(record.result))
    );
}

impl ListTaskPushNotificationConfigResponse {
    /// Writes the record as a JSON value.
    pub fn encode(&self) -> (r: JsonValue)
        ensures
            r@ == encode_list_task_push_notification_config_response(self.deep_view()),
    {
        let mut members: Vec<JsonMember> = Vec::new();
        assert(models(members@) =~= Seq::<MemberModel>::empty());
        push_member(&mut members, "id", string_of(self.id.as_str()));
        push_member(&mut members, "jsonrpc", string_of(self.jsonrpc.as_str()));
        push_member(&mut members, "result", write_push_notification_config_info_list(&self.result));
        object_of(members)
    }

    /// Reads the record from a JSON value.
    pub fn decode(value: &JsonValue) -> (r: Result<Self, DecodeError>)
        ensures
            match r {
                Ok(record) => decode_list_task_push_notification_config_response(value@)
                    == Ok::<ListTaskPushNotificationConfigResponseModel, DecodeError>(
                    record.deep_view(),
                ),
                Err(e) => decode_list_task_push_notification_config_response(value@)
                    == Err::<ListTaskPushNotificationConfigResponseModel, DecodeError>(e),
            },
    {
        if !value.is_object() {
            return Err(DecodeError::WrongKind);
        }
        let id = match value.get("id") {
            Some(v) => read_text(v)?,
            None => {
                return Err(DecodeError::MissingField);
            },
        };
        let jsonrpc = match value.get("jsonrpc") {
            Some(v) => read_text(v)?,
            None => {
                return Err(DecodeError::MissingField);
            },
        };
        let result = match value.get("result") {
            Some(v) => read_push_notification_config_info_list(v)?,
            None => {
                return Err(DecodeError::MissingField);
            },
        };
        Ok(ListTaskPushNotificationConfigResponse { id, jsonrpc, result })
    }
}

/// The model of the parameters of a request to delete a push notification
/// configuration.
pub struct DeleteTaskPushNotificationConfigParamsModel {
    pub task_id: Seq<char>,
    pub config_id: Seq<char>,
}

impl DeepView for DeleteTaskPushNotificationConfigParams {
    type V = DeleteTaskPushNotificationConfigParamsModel;

    open spec fn deep_view(&self) -> DeleteTaskPushNotificationConfigParamsModel {
        DeleteTaskPushNotificationConfigParamsModel {
            task_id: self.task_id.deep_view(),
            config_id: self.config_id.deep_view(),
        }
    }
}

/// The object that is written for the parameters of a request to delete a
/// push notification configuration.
pub open spec fn encode_delete_task_push_notification_config_params(
    record: DeleteTaskPushNotificationConfigParamsModel,
) -> JsonModel {
    let members = Seq::empty();
    let members = put(members, "taskId"@, JsonModel::String(record.task_id));
    let members = put(members, "configId"@, JsonModel::String(record.config_id));
    JsonModel::Object(members)
}

/// What an object stands for when it is read as the parameters of a request
/// to delete a push notification configuration: the record, or the first
/// failure among its members in their order.
pub open spec fn decode_delete_task_push_notification_config_params(
    value: JsonModel,
) -> Result<DeleteTaskPushNotificationConfigParamsModel, DecodeError> {
    let task_id = required(value, "taskId"@, |v: JsonModel| text_of(v));
    let config_id = required(value, "configId"@, |v: JsonModel| text_of(v));
    if !(value is Object) {
        Err(DecodeError::WrongKind)
    } else if task_id is Err {
        Err(task_id->Err_0)
    } else if config_id is Err {
        Err(config_id->Err_0)
    } else {
        Ok(
            DeleteTaskPushNotificationConfigParamsModel {
                task_id: task_id->Ok_0,
                config_id: config_id->Ok_0,
            },
        )
    }
}

/// Reading what was written for the parameters of a request to delete a push
/// notification configuration gives the record back.
pub proof fn lemma_delete_task_push_notification_config_params_round_trip(
    record: DeleteTaskPushNotificationConfigParamsModel,
)
    ensures
        decode_delete_task_push_notification_config_params(
            encode_delete_task_push_notification_config_params(record),
        )
            == Ok::<DeleteTaskPushNotificationConfigParamsModel, DecodeError>(record),
{
    broadcast use lemma_member_after_put, lemma_member_after_put_optional;
    reveal_strlit("taskId");
    reveal_strlit("configId");
    assert("taskId"@.len() == 6 && "configId"@.len() == 8);
    let value = encode_delete_task_push_notification_config_params(record);
    assert(value.member("taskId"@) == Some(JsonModel::String(record.task_id)));
    assert(value.member("configId"@) == Some(JsonModel::String(record.config_id)));
}

impl DeleteTaskPushNotificationConfigParams {
    /// Writes the record as a JSON value.
    pub fn encode(&self) -> (r: JsonValue)
        ensures
            r@ == encode_delete_task_push_notification_config_params(self.deep_view()),
    {
        let mut members: Vec<JsonMember> = Vec::new();
        assert(models(members@) =~= Seq::<MemberModel>::empty());
        push_member(&mut members, "taskId", string_of(self.task_id.as_str()));
        push_member(&mut members, "configId", string_of(self.config_id.as_str()));
        object_of(members)
    }

    /// Reads the record from a JSON value.
    pub fn decode(value: &JsonValue) -> (r: Result<Self, DecodeError>)
        ensures
            match r {
                Ok(record) => decode_delete_task_push_notification_config_params(value@)
                    == Ok::<DeleteTaskPushNotificationConfigParamsModel, DecodeError>(
                    record.deep_view(),
                ),
                Err(e) => decode_delete_task_push_notification_config_params(value@)
                    == Err::<DeleteTaskPushNotificationConfigParamsModel, DecodeError>(e),
            },
    {
        if !value.is_object() {
            return Err(DecodeError::WrongKind);
        }
        let task_id = match value.get("taskId") {
            Some(v) => read_text(v)?,
            None => {
                return Err(DecodeError::MissingField);
            },
        };
        let config_id = match value.get("configId") {
            Some(v) => read_text(v)?,
            None => {
                return Err(DecodeError::MissingField);
            },
        };
        Ok(DeleteTaskPushNotificationConfigParams { task_id, config_id })
    }
}

/// The model of a request to delete a push notification configuration.
pub struct DeleteTaskPushNotificationConfigRequestModel {
    pub method: RequestMethod,
    pub params: DeleteTaskPushNotificationConfigParamsModel,
    pub id: Seq<char>,
    pub jsonrpc: Seq<char>,
}

impl DeepView for DeleteTaskPushNotificationConfigRequest {
    type V = DeleteTaskPushNotificationConfigRequestModel;

    open spec fn deep_view(&self) -> DeleteTaskPushNotificationConfigRequestModel {
        DeleteTaskPushNotificationConfigRequestModel {
            method: self.method.deep_view(),
            params: self.params.deep_view(),
            id: self.id.deep_view(),
            jsonrpc: self.jsonrpc.deep_view(),
        }
    }
}

/// The object that is written for a request to delete a push notification
/// configuration.
pub open spec fn encode_delete_task_push_notification_config_request(
    record: DeleteTaskPushNotificationConfigRequestModel,
) -> JsonModel {
    let members = Seq::empty();
    let members = put(members, "method"@, encode_request_method(record.method));
    let members = put(
        members,
        "params"@,
        encode_delete_task_push_notification_config_params(record.params),
    );
    let members = put(members, "id"@, JsonModel::String(record.id));
    let members = put(members, "jsonrpc"@, JsonModel::String(record.jsonrpc));
    JsonModel::Object(members)
}

/// What an object stands for when it is read as a request to delete a push
/// notification configuration: the record, or the first failure among its
/// members in their order.
pub open spec fn decode_delete_task_push_notification_config_request(
    value: JsonModel,
) -> Result<DeleteTaskPushNotificationConfigRequestModel, DecodeError> {
    let method = required(value, "method"@, |v: JsonModel| decode_request_method(v));
    let params = required(
        value,
        "params"@,
        |v: JsonModel| decode_delete_task_push_notification_config_params(v),
    );
    let id = required(value, "id"@, |v: JsonModel| text_of(v));
    let jsonrpc = required(value, "jsonrpc"@, |v: JsonModel| text_of(v));
    if !(value is Object) {
        Err(DecodeError::WrongKind)
    } else if method is Err {
        Err(method->Err_0)
    } else if params is Err {
        Err(params->Err_0)
    } else if id is Err {
        Err(id->Err_0)
    } else if jsonrpc is Err {
        Err(jsonrpc->Err_0)
    } else {
        Ok(
            DeleteTaskPushNotificationConfigRequestModel {
                method: method->Ok_0,
                params: params->Ok_0,
                id: id->Ok_0,
                jsonrpc: jsonrpc->Ok_0,
            },
        )
    }
}

/// Reading what was written for a request to delete a push notification
/// configuration gives the record back.
pub proof fn lemma_delete_task_push_notification_config_request_round_trip(
    record: DeleteTaskPushNotificationConfigRequestModel,
)
    ensures
        decode_delete_task_push_notification_config_request(
            encode_delete_task_push_notification_config_request(record),
        )
            == Ok::<DeleteTaskPushNotificationConfigRequestModel, DecodeError>(record),
{
    broadcast use lemma_member_after_put, lemma_member_after_put_optional;
    reveal_strlit("method");
    reveal_strlit("params");
    reveal_strlit("id");
    reveal_strlit("jsonrpc");
    assert(
        "method"@.len() == 6
            && "params"@.len() == 6
            && "id"@.len() == 2
            && "jsonrpc"@.len() == 7
    );
    assert("method"@[0] != "params"@[0]);
    lemma_request_method_round_trip(record.method);
    lemma_delete_task_push_notification_config_params_round_trip(record.params);
    let value = encode_delete_task_push_notification_config_request(record);
    assert(value.member("method"@) == Some(encode_request_method(record.method)));
    assert(
        value.member("params"@)
            == Some(encode_delete_task_push_notification_config_params(record.params))
    );
    assert(value.member("id"@) == Some(JsonModel::String(record.id)));
    assert(value.member("jsonrpc"@) == Some(JsonModel::String(record.jsonrpc)));
}

impl DeleteTaskPushNotificationConfigRequest {
    /// Writes the record as a JSON value.
    pub fn encode(&self) -> (r: JsonValue)
        ensures
            r@ == encode_delete_task_push_notification_config_request(self.deep_view()),
    {
        let mut members: Vec<JsonMember> = Vec::new();
        assert(models(members@) =~= Seq::<MemberModel>::empty());
        push_member(&mut members, "method", self.method.encode());
        push_member(&mut members, "params", self.params.encode());
        push_member(&mut members, "id", string_of(self.id.as_str()));
        push_member(&mut members, "jsonrpc", string_of(self.jsonrpc.as_str()));
        object_of(members)
    }

    /// Reads the record from a JSON value.
    pub fn decode(value: &JsonValue) -> (r: Result<Self, DecodeError>)
        ensures
            match r {
                Ok(record) => decode_delete_task_push_notification_config_request(value@)
                    == Ok::<DeleteTaskPushNotificationConfigRequestModel, DecodeError>(
                    record.deep_view(),
                ),
                Err(e) => decode_delete_task_push_notification_config_request(value@)
                    == Err::<DeleteTaskPushNotificationConfigRequestModel, DecodeError>(e),
            },
    {
        if !value.is_object() {
            return Err(DecodeError::WrongKind);
        }
        let method = match value.get("method") {
            Some(v) => RequestMethod::decode(v)?,
            None => {
                return Err(DecodeError::MissingField);
            },
        };
        let params = match value.get("params") {
            Some(v) => DeleteTaskPushNotificationConfigParams::decode(v)?,
            None => {
                return Err(DecodeError::MissingField);
            },
        };
        let id = match value.get("id") {
            Some(v) => read_text(v)?,
            None => {
                return Err(DecodeError::MissingField);
            },
        };
        let jsonrpc = match value.get("jsonrpc") {
            Some(v) => read_text(v)?,
            None => {
                return Err(DecodeError::MissingField);
            },
        };
        Ok(DeleteTaskPushNotificationConfigRequest { method, params, id, jsonrpc })
    }
}

/// The model of a response to a request to delete a push notification
/// configuration.
pub struct DeleteTaskPushNotificationConfigResponseModel {
    pub id: Seq<char>,
    pub jsonrpc: Seq<char>,
    pub result: bool,
}

impl DeepView for DeleteTaskPushNotificationConfigResponse {
    type V = DeleteTaskPushNotificationConfigResponseModel;

    open spec fn deep_view(&self) -> DeleteTaskPushNotificationConfigResponseModel {
        DeleteTaskPushNotificationConfigResponseModel {
            id: self.id.deep_view(),
            jsonrpc: self.jsonrpc.deep_view(),
            result: self.result.deep_view(),
        }
    }
}

/// The object that is written for a response to a request to delete a push
/// notification configuration.
pub open spec fn encode_delete_task_push_notification_config_response(
    record: DeleteTaskPushNotificationConfigResponseModel,
) -> JsonModel {
    let members = Seq::empty();
    let members = put(members, "id"@, JsonModel::String(record.id));
    let members = put(members, "jsonrpc"@, JsonModel::String(record.jsonrpc));
    let members = put(members, "result"@, JsonModel::Bool(record.result));
    JsonModel::Object(members)
}

/// What an object stands for when it is read as a response to a request to
/// delete a push notification configuration: the record, or the first failure
/// among its members in their order.
pub open spec fn decode_delete_task_push_notification_config_response(
    value: JsonModel,
) -> Result<DeleteTaskPushNotificationConfigResponseModel, DecodeError> {
    let id = required(value, "id"@, |v: JsonModel| text_of(v));
    let jsonrpc = required(value, "jsonrpc"@, |v: JsonModel| text_of(v));
    let result = required(value, "result"@, |v: JsonModel| flag_of(v));
    if !(value is Object) {
        Err(DecodeError::WrongKind)
    } else if id is Err {
        Err(id->Err_0)
    } else if jsonrpc is Err {
        Err(jsonrpc->Err_0)
    } else if result is Err {
        Err(result->Err_0)
    } else {
        Ok(
            DeleteTaskPushNotificationConfigResponseModel {
                id: id->Ok_0,
                jsonrpc: jsonrpc->Ok_0,
                result: result->Ok_0,
            },
        )
    }
}

/// Reading what was written for a response to a request to delete a push
/// notification configuration gives the record back.
pub proof fn lemma_delete_task_push_notification_config_response_round_trip(
    record: DeleteTaskPushNotificationConfigResponseModel,
)
    ensures
        decode_delete_task_push_notification_config_response(
            encode_delete_task_push_notification_config_response(record),
        )
            == Ok::<DeleteTaskPushNotificationConfigResponseModel, DecodeError>(record),
{
    broadcast use lemma_member_after_put, lemma_member_after_put_optional;
    reveal_strlit("id");
    reveal_strlit("jsonrpc");
    reveal_strlit("result");
    assert("id"@.len() == 2 && "jsonrpc"@.len() == 7 && "result"@.len() == 6);
    let value = encode_delete_task_push_notification_config_response(record);
    assert(value.member("id"@) == Some(JsonModel::String(record.id)));
    assert(value.member("jsonrpc"@) == Some(JsonModel::String(record.jsonrpc)));
    assert(value.member("result"@) == Some(JsonModel::Bool(record.result)));
}

impl DeleteTaskPushNotificationConfigResponse {
    /// Writes the record as a JSON value.
    pub fn encode(&self) -> (r: JsonValue)
        ensures
            r@ == encode_delete_task_push_notification_config_response(self.deep_view()),
    {
        let mut members: Vec<JsonMember> = Vec::new();
        assert(models(members@) =~= Seq::<MemberModel>::empty());
        push_member(&mut members, "id", string_of(self.id.as_str()));
        push_member(&mut members, "jsonrpc", string_of(self.jsonrpc.as_str()));
        push_member(&mut members, "result", JsonValue::Bool(self.result));
        object_of(members)
    }

    /// Reads the record from a JSON value.
    pub fn decode(value: &JsonValue) -> (r: Result<Self, DecodeError>)
        ensures
            match r {
                Ok(record) => decode_delete_task_push_notification_config_response(value@)
                    == Ok::<DeleteTaskPushNotificationConfigResponseModel, DecodeError>(
                    record.deep_view(),
                ),
                Err(e) => decode_delete_task_push_notification_config_response(value@)
                    == Err::<DeleteTaskPushNotificationConfigResponseModel, DecodeError>(e),
            },
    {
        if !value.is_object() {
            return Err(DecodeError::WrongKind);
        }
        let id = match value.get("id") {
            Some(v) => read_text(v)?,
            None => {
                return Err(DecodeError::MissingField);
            },
        };
        let jsonrpc = match value.get("jsonrpc") {
            Some(v) => read_text(v)?,
            None => {
                return Err(DecodeError::MissingField);
            },
        };
        let result = match value.get("result") {
            Some(v) => read_flag(v)?,
            None => {
                return Err(DecodeError::MissingField);
            },
        };
        Ok(DeleteTaskPushNotificationConfigResponse { id, jsonrpc, result })
    }
}

} // verus!
