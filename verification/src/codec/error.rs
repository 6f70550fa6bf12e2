//! The records of the errors on the wire, each kind by itself.

use crate::codec::fields::{
    get_present, i32_of, integer_of, json_of, lemma_member_after_put,
    lemma_member_after_put_optional, models, object_of, optional, push_member, put,
    put_optional, read_i32, read_json, read_text, required, string_of, text_of, DecodeError,
};
use crate::json::{JsonMember, JsonModel, JsonValue, MemberModel};
use crate::error::{
    ContentTypeNotSupportedError, InternalError, InvalidAgentResponseError, InvalidParamsError,
    InvalidRequestError, JSONParseError, MethodNotFoundError, PushNotificationNotSupportedError,
    TaskNotCancelableError, TaskNotFoundError, UnsupportedOperationError,
};
use vstd::prelude::*;

verus! {

/// The model of a JSON parse error.
pub struct JSONParseErrorModel {
    pub code: i32,
    pub message: Seq<char>,
    pub data: Option<JsonModel>,
}

impl DeepView for JSONParseError {
    type V = JSONParseErrorModel;

    open spec fn deep_view(&self) -> JSONParseErrorModel {
        JSONParseErrorModel {
            code: self.code.deep_view(),
            message: self.message.deep_view(),
            data: self.data.deep_view(),
        }
    }
}

impl JSONParseErrorModel {
    /// Whether the record comes back unchanged when it is written and read:
    /// no optional JSON value in it is `null`, which reads as a missing
    /// value.
    pub open spec fn representable(self) -> bool {
        &&& self.data != Some(JsonModel::Null)
    }
}

/// The object that is written for a JSON parse error.
pub open spec fn encode_json_parse_error(record: JSONParseErrorModel) -> JsonModel {
    let members = Seq::empty();
    let members = put(members, "code"@, JsonModel::Integer(record.code as int));
    let members = put(members, "message"@, JsonModel::String(record.message));
    let members = put_optional(
        members,
        "data"@,
        record.data,
    );
    JsonModel::Object(members)
}

/// What an object stands for when it is read as a JSON parse error: the
/// record, or the first failure among its members in their order.
pub open spec fn decode_json_parse_error(
    value: JsonModel,
) -> Result<JSONParseErrorModel, DecodeError> {
    let code = required(value, "code"@, |v: JsonModel| i32_of(v));
    let message = required(value, "message"@, |v: JsonModel| text_of(v));
    let data = optional(value, "data"@, |v: JsonModel| json_of(v));
    if !(value is Object) {
        Err(DecodeError::WrongKind)
    } else if code is Err {
        Err(code->Err_0)
    } else if message is Err {
        Err(message->Err_0)
    } else if data is Err {
        Err(data->Err_0)
    } else {
        Ok(JSONParseErrorModel { code: code->Ok_0, message: message->Ok_0, data: data->Ok_0 })
    }
}

/// Reading what was written for a JSON parse error gives the record back.
pub proof fn lemma_json_parse_error_round_trip(record: JSONParseErrorModel)
    requires
        record.representable(),
    ensures
        decode_json_parse_error(encode_json_parse_error(record))
            == Ok::<JSONParseErrorModel, DecodeError>(record),
{
    broadcast use lemma_member_after_put, lemma_member_after_put_optional;
    reveal_strlit("code");
    reveal_strlit("message");
    reveal_strlit("data");
    assert("code"@.len() == 4 && "message"@.len() == 7 && "data"@.len() == 4);
    assert("code"@[0] != "data"@[0]);
    let value = encode_json_parse_error(record);
    assert(value.member("code"@) == Some(JsonModel::Integer(record.code as int)));
    assert(value.member("message"@) == Some(JsonModel::String(record.message)));
    assert(value.member("data"@) == record.data);
}

impl JSONParseError {
    /// Writes the record as a JSON value.
    pub fn encode(&self) -> (r: JsonValue)
        ensures
            r@ == encode_json_parse_error(self.deep_view()),
    {
        let mut members: Vec<JsonMember> = Vec::new();
        assert(models(members@) =~= Seq::<MemberModel>::empty());
        push_member(&mut members, "code", integer_of(self.code));
        push_member(&mut members, "message", string_of(self.message.as_str()));
        match &self.data {
            Some(item) => {
                push_member(&mut members, "data", item.clone());
            },
            None => {},
        }
        object_of(members)
    }

    /// Reads the record from a JSON value.
    pub fn decode(value: &JsonValue) -> (r: Result<Self, DecodeError>)
        ensures
            match r {
                Ok(record) => decode_json_parse_error(value@)
                    == Ok::<JSONParseErrorModel, DecodeError>(
                    record.deep_view(),
                ),
                Err(e) => decode_json_parse_error(value@)
                    == Err::<JSONParseErrorModel, DecodeError>(e),
            },
    {
        if !value.is_object() {
            return Err(DecodeError::WrongKind);
        }
        let code = match value.get("code") {
            Some(v) => read_i32(v)?,
            None => {
                return Err(DecodeError::MissingField);
            },
        };
        let message = match value.get("message") {
            Some(v) => read_text(v)?,
            None => {
                return Err(DecodeError::MissingField);
            },
        };
        let data = match get_present(value, "data") {
            Some(v) => Some(read_json(v)?),
            None => None,
        };
        Ok(JSONParseError { code, message, data })
    }
}

/// The model of an invalid request error.
pub struct InvalidRequestErrorModel {
    pub code: i32,
    pub message: Seq<char>,
    pub data: Option<JsonModel>,
}

impl DeepView for InvalidRequestError {
    type V = InvalidRequestErrorModel;

    open spec fn deep_view(&self) -> InvalidRequestErrorModel {
        InvalidRequestErrorModel {
            code: self.code.deep_view(),
            message: self.message.deep_view(),
            data: self.data.deep_view(),
        }
    }
}

impl InvalidRequestErrorModel {
    /// Whether the record comes back unchanged when it is written and read:
    /// no optional JSON value in it is `null`, which reads as a missing
    /// value.
    pub open spec fn representable(self) -> bool {
        &&& self.data != Some(JsonModel::Null)
    }
}

/// The object that is written for an invalid request error.
pub open spec fn encode_invalid_request_error(record: InvalidRequestErrorModel) -> JsonModel {
    let members = Seq::empty();
    let members = put(members, "code"@, JsonModel::Integer(record.code as int));
    let members = put(members, "message"@, JsonModel::String(record.message));
    let members = put_optional(
        members,
        "data"@,
        record.data,
    );
    JsonModel::Object(members)
}

/// What an object stands for when it is read as an invalid request error: the
/// record, or the first failure among its members in their order.
pub open spec fn decode_invalid_request_error(
    value: JsonModel,
) -> Result<InvalidRequestErrorModel, DecodeError> {
    let code = required(value, "code"@, |v: JsonModel| i32_of(v));
    let message = required(value, "message"@, |v: JsonModel| text_of(v));
    let data = optional(value, "data"@, |v: JsonModel| json_of(v));
    if !(value is Object) {
        Err(DecodeError::WrongKind)
    } else if code is Err {
        Err(code->Err_0)
    } else if message is Err {
        Err(message->Err_0)
    } else if data is Err {
        Err(data->Err_0)
    } else {
        Ok(InvalidRequestErrorModel { code: code->Ok_0, message: message->Ok_0, data: data->Ok_0 })
    }
}

/// Reading what was written for an invalid request error gives the record
/// back.
pub proof fn lemma_invalid_request_error_round_trip(record: InvalidRequestErrorModel)
    requires
        record.representable(),
    ensures
        decode_invalid_request_error(encode_invalid_request_error(record))
            == Ok::<InvalidRequestErrorModel, DecodeError>(record),
{
    broadcast use lemma_member_after_put, lemma_member_after_put_optional;
    reveal_strlit("code");
    reveal_strlit("message");
    reveal_strlit("data");
    assert("code"@.len() == 4 && "message"@.len() == 7 && "data"@.len() == 4);
    assert("code"@[0] != "data"@[0]);
    let value = encode_invalid_request_error(record);
    assert(value.member("code"@) == Some(JsonModel::Integer(record.code as int)));
    assert(value.member("message"@) == Some(JsonModel::String(record.message)));
    assert(value.member("data"@) == record.data);
}

impl InvalidRequestError {
    /// Writes the record as a JSON value.
    pub fn encode(&self) -> (r: JsonValue)
        ensures
            r@ == encode_invalid_request_error(self.deep_view()),
    {
        let mut members: Vec<JsonMember> = Vec::new();
        assert(models(members@) =~= Seq::<MemberModel>::empty());
        push_member(&mut members, "code", integer_of(self.code));
        push_member(&mut members, "message", string_of(self.message.as_str()));
        match &self.data {
            Some(item) => {
                push_member(&mut members, "data", item.clone());
            },
            None => {},
        }
        object_of(members)
    }

    /// Reads the record from a JSON value.
    pub fn decode(value: &JsonValue) -> (r: Result<Self, DecodeError>)
        ensures
            match r {
                Ok(record) => decode_invalid_request_error(value@)
                    == Ok::<InvalidRequestErrorModel, DecodeError>(
                    record.deep_view(),
                ),
                Err(e) => decode_invalid_request_error(value@)
                    == Err::<InvalidRequestErrorModel, DecodeError>(e),
            },
    {
        if !value.is_object() {
            return Err(DecodeError::WrongKind);
        }
        let code = match value.get("code") {
            Some(v) => read_i32(v)?,
            None => {
                return Err(DecodeError::MissingField);
            },
        };
        let message = match value.get("message") {
            Some(v) => read_text(v)?,
            None => {
                return Err(DecodeError::MissingField);
            },
        };
        let data = match get_present(value, "data") {
            Some(v) => Some(read_json(v)?),
            None => None,
        };
        Ok(InvalidRequestError { code, message, data })
    }
}

/// The model of a method not found error.
pub struct MethodNotFoundErrorModel {
    pub code: i32,
    pub message: Seq<char>,
    pub data: Option<JsonModel>,
}

impl DeepView for MethodNotFoundError {
    type V = MethodNotFoundErrorModel;

    open spec fn deep_view(&self) -> MethodNotFoundErrorModel {
        MethodNotFoundErrorModel {
            code: self.code.deep_view(),
            message: self.message.deep_view(),
            data: self.data.deep_view(),
        }
    }
}

impl MethodNotFoundErrorModel {
    /// Whether the record comes back unchanged when it is written and read:
    /// no optional JSON value in it is `null`, which reads as a missing
    /// value.
    pub open spec fn representable(self) -> bool {
        &&& self.data != Some(JsonModel::Null)
    }
}

/// The object that is written for a method not found error.
pub open spec fn encode_method_not_found_error(record: MethodNotFoundErrorModel) -> JsonModel {
    let members = Seq::empty();
    let members = put(members, "code"@, JsonModel::Integer(record.code as int));
    let members = put(members, "message"@, JsonModel::String(record.message));
    let members = put_optional(
        members,
        "data"@,
        record.data,
    );
    JsonModel::Object(members)
}

/// What an object stands for when it is read as a method not found error: the
/// record, or the first failure among its members in their order.
pub open spec fn decode_method_not_found_error(
    value: JsonModel,
) -> Result<MethodNotFoundErrorModel, DecodeError> {
    let code = required(value, "code"@, |v: JsonModel| i32_of(v));
    let message = required(value, "message"@, |v: JsonModel| text_of(v));
    let data = optional(value, "data"@, |v: JsonModel| json_of(v));
    if !(value is Object) {
        Err(DecodeError::WrongKind)
    } else if code is Err {
        Err(code->Err_0)
    } else if message is Err {
        Err(message->Err_0)
    } else if data is Err {
        Err(data->Err_0)
    } else {
        Ok(MethodNotFoundErrorModel { code: code->Ok_0, message: message->Ok_0, data: data->Ok_0 })
    }
}

/// Reading what was written for a method not found error gives the record
/// back.
pub proof fn lemma_method_not_found_error_round_trip(record: MethodNotFoundErrorModel)
    requires
        record.representable(),
    ensures
        decode_method_not_found_error(encode_method_not_found_error(record))
            == Ok::<MethodNotFoundErrorModel, DecodeError>(record),
{
    broadcast use lemma_member_after_put, lemma_member_after_put_optional;
    reveal_strlit("code");
    reveal_strlit("message");
    reveal_strlit("data");
    assert("code"@.len() == 4 && "message"@.len() == 7 && "data"@.len() == 4);
    assert("code"@[0] != "data"@[0]);
    let value = encode_method_not_found_error(record);
    assert(value.member("code"@) == Some(JsonModel::Integer(record.code as int)));
    assert(value.member("message"@) == Some(JsonModel::String(record.message)));
    assert(value.member("data"@) == record.data);
}

impl MethodNotFoundError {
    /// Writes the record as a JSON value.
    pub fn encode(&self) -> (r: JsonValue)
        ensures
            r@ == encode_method_not_found_error(self.deep_view()),
    {
        let mut members: Vec<JsonMember> = Vec::new();
        assert(models(members@) =~= Seq::<MemberModel>::empty());
        push_member(&mut members, "code", integer_of(self.code));
        push_member(&mut members, "message", string_of(self.message.as_str()));
        match &self.data {
            Some(item) => {
                push_member(&mut members, "data", item.clone());
            },
            None => {},
        }
        object_of(members)
    }

    /// Reads the record from a JSON value.
    pub fn decode(value: &JsonValue) -> (r: Result<Self, DecodeError>)
        ensures
            match r {
                Ok(record) => decode_method_not_found_error(value@)
                    == Ok::<MethodNotFoundErrorModel, DecodeError>(
                    record.deep_view(),
                ),
                Err(e) => decode_method_not_found_error(value@)
                    == Err::<MethodNotFoundErrorModel, DecodeError>(e),
            },
    {
        if !value.is_object() {
            return Err(DecodeError::WrongKind);
        }
        let code = match value.get("code") {
            Some(v) => read_i32(v)?,
            None => {
                return Err(DecodeError::MissingField);
            },
        };
        let message = match value.get("message") {
            Some(v) => read_text(v)?,
            None => {
                return Err(DecodeError::MissingField);
            },
        };
        let data = match get_present(value, "data") {
            Some(v) => Some(read_json(v)?),
            None => None,
        };
        Ok(MethodNotFoundError { code, message, data })
    }
}

/// The model of an invalid parameters error.
pub struct InvalidParamsErrorModel {
    pub code: i32,
    pub message: Seq<char>,
    pub data: Option<JsonModel>,
}

impl DeepView for InvalidParamsError {
    type V = InvalidParamsErrorModel;

    open spec fn deep_view(&self) -> InvalidParamsErrorModel {
        InvalidParamsErrorModel {
            code: self.code.deep_view(),
            message: self.message.deep_view(),
            data: self.data.deep_view(),
        }
    }
}

impl InvalidParamsErrorModel {
    /// Whether the record comes back unchanged when it is written and read:
    /// no optional JSON value in it is `null`, which reads as a missing
    /// value.
    pub open spec fn representable(self) -> bool {
        &&& self.data != Some(JsonModel::Null)
    }
}

/// The object that is written for an invalid parameters error.
pub open spec fn encode_invalid_params_error(record: InvalidParamsErrorModel) -> JsonModel {
    let members = Seq::empty();
    let members = put(members, "code"@, JsonModel::Integer(record.code as int));
    let members = put(members, "message"@, JsonModel::String(record.message));
    let members = put_optional(
        members,
        "data"@,
        record.data,
    );
    JsonModel::Object(members)
}

/// What an object stands for when it is read as an invalid parameters error:
/// the record, or the first failure among its members in their order.
pub open spec fn decode_invalid_params_error(
    value: JsonModel,
) -> Result<InvalidParamsErrorModel, DecodeError> {
    let code = required(value, "code"@, |v: JsonModel| i32_of(v));
    let message = required(value, "message"@, |v: JsonModel| text_of(v));
    let data = optional(value, "data"@, |v: JsonModel| json_of(v));
    if !(value is Object) {
        Err(DecodeError::WrongKind)
    } else if code is Err {
        Err(code->Err_0)
    } else if message is Err {
        Err(message->Err_0)
    } else if data is Err {
        Err(data->Err_0)
    } else {
        Ok(InvalidParamsErrorModel { code: code->Ok_0, message: message->Ok_0, data: data->Ok_0 })
    }
}

/// Reading what was written for an invalid parameters error gives the record
/// back.
pub proof fn lemma_invalid_params_error_round_trip(record: InvalidParamsErrorModel)
    requires
        record.representable(),
    ensures
        decode_invalid_params_error(encode_invalid_params_error(record))
            == Ok::<InvalidParamsErrorModel, DecodeError>(record),
{
    broadcast use lemma_member_after_put, lemma_member_after_put_optional;
    reveal_strlit("code");
    reveal_strlit("message");
    reveal_strlit("data");
    assert("code"@.len() == 4 && "message"@.len() == 7 && "data"@.len() == 4);
    assert("code"@[0] != "data"@[0]);
    let value = encode_invalid_params_error(record);
    assert(value.member("code"@) == Some(JsonModel::Integer(record.code as int)));
    assert(value.member("message"@) == Some(JsonModel::String(record.message)));
    assert(value.member("data"@) == record.data);
}

impl InvalidParamsError {
    /// Writes the record as a JSON value.
    pub fn encode(&self) -> (r: JsonValue)
        ensures
            r@ == encode_invalid_params_error(self.deep_view()),
    {
        let mut members: Vec<JsonMember> = Vec::new();
        assert(models(members@) =~= Seq::<MemberModel>::empty());
        push_member(&mut members, "code", integer_of(self.code));
        push_member(&mut members, "message", string_of(self.message.as_str()));
        match &self.data {
            Some(item) => {
                push_member(&mut members, "data", item.clone());
            },
            None => {},
        }
        object_of(members)
    }

    /// Reads the record from a JSON value.
    pub fn decode(value: &JsonValue) -> (r: Result<Self, DecodeError>)
        ensures
            match r {
                Ok(record) => decode_invalid_params_error(value@)
                    == Ok::<InvalidParamsErrorModel, DecodeError>(
                    record.deep_view(),
                ),
                Err(e) => decode_invalid_params_error(value@)
                    == Err::<InvalidParamsErrorModel, DecodeError>(e),
            },
    {
        if !value.is_object() {
            return Err(DecodeError::WrongKind);
        }
        let code = match value.get("code") {
            Some(v) => read_i32(v)?,
            None => {
                return Err(DecodeError::MissingField);
            },
        };
        let message = match value.get("message") {
            Some(v) => read_text(v)?,
            None => {
                return Err(DecodeError::MissingField);
            },
        };
        let data = match get_present(value, "data") {
            Some(v) => Some(read_json(v)?),
            None => None,
        };
        Ok(InvalidParamsError { code, message, data })
    }
}

/// The model of an internal error.
pub struct InternalErrorModel {
    pub code: i32,
    pub message: Seq<char>,
    pub data: Option<JsonModel>,
}

impl DeepView for InternalError {
    type V = InternalErrorModel;

    open spec fn deep_view(&self) -> InternalErrorModel {
        InternalErrorModel {
            code: self.code.deep_view(),
            message: self.message.deep_view(),
            data: self.data.deep_view(),
        }
    }
}

impl InternalErrorModel {
    /// Whether the record comes back unchanged when it is written and read:
    /// no optional JSON value in it is `null`, which reads as a missing
    /// value.
    pub open spec fn representable(self) -> bool {
        &&& self.data != Some(JsonModel::Null)
    }
}

/// The object that is written for an internal error.
pub open spec fn encode_internal_error(record: InternalErrorModel) -> JsonModel {
    let members = Seq::empty();
    let members = put(members, "code"@, JsonModel::Integer(record.code as int));
    let members = put(members, "message"@, JsonModel::String(record.message));
    let members = put_optional(
        members,
        "data"@,
        record.data,
    );
    JsonModel::Object(members)
}

/// What an object stands for when it is read as an internal error: the
/// record, or the first failure among its members in their order.
pub open spec fn decode_internal_error(
    value: JsonModel,
) -> Result<InternalErrorModel, DecodeError> {
    let code = required(value, "code"@, |v: JsonModel| i32_of(v));
    let message = required(value, "message"@, |v: JsonModel| text_of(v));
    let data = optional(value, "data"@, |v: JsonModel| json_of(v));
    if !(value is Object) {
        Err(DecodeError::WrongKind)
    } else if code is Err {
        Err(code->Err_0)
    } else if message is Err {
        Err(message->Err_0)
    } else if data is Err {
        Err(data->Err_0)
    } else {
        Ok(InternalErrorModel { code: code->Ok_0, message: message->Ok_0, data: data->Ok_0 })
    }
}

/// Reading what was written for an internal error gives the record back.
pub proof fn lemma_internal_error_round_trip(record: InternalErrorModel)
    requires
        record.representable(),
    ensures
        decode_internal_error(encode_internal_error(record))
            == Ok::<InternalErrorModel, DecodeError>(record),
{
    broadcast use lemma_member_after_put, lemma_member_after_put_optional;
    reveal_strlit("code");
    reveal_strlit("message");
    reveal_strlit("data");
    assert("code"@.len() == 4 && "message"@.len() == 7 && "data"@.len() == 4);
    assert("code"@[0] != "data"@[0]);
    let value = encode_internal_error(record);
    assert(value.member("code"@) == Some(JsonModel::Integer(record.code as int)));
    assert(value.member("message"@) == Some(JsonModel::String(record.message)));
    assert(value.member("data"@) == record.data);
}

impl InternalError {
    /// Writes the record as a JSON value.
    pub fn encode(&self) -> (r: JsonValue)
        ensures
            r@ == encode_internal_error(self.deep_view()),
    {
        let mut members: Vec<JsonMember> = Vec::new();
        assert(models(members@) =~= Seq::<MemberModel>::empty());
        push_member(&mut members, "code", integer_of(self.code));
        push_member(&mut members, "message", string_of(self.message.as_str()));
        match &self.data {
            Some(item) => {
                push_member(&mut members, "data", item.clone());
            },
            None => {},
        }
        object_of(members)
    }

    /// Reads the record from a JSON value.
    pub fn decode(value: &JsonValue) -> (r: Result<Self, DecodeError>)
        ensures
            match r {
                Ok(record) => decode_internal_error(value@)
                    == Ok::<InternalErrorModel, DecodeError>(
                    record.deep_view(),
                ),
                Err(e) => decode_internal_error(value@)
                    == Err::<InternalErrorModel, DecodeError>(e),
            },
    {
        if !value.is_object() {
            return Err(DecodeError::WrongKind);
        }
        let code = match value.get("code") {
            Some(v) => read_i32(v)?,
            None => {
                return Err(DecodeError::MissingField);
            },
        };
        let message = match value.get("message") {
            Some(v) => read_text(v)?,
            None => {
                return Err(DecodeError::MissingField);
            },
        };
        let data = match get_present(value, "data") {
            Some(v) => Some(read_json(v)?),
            None => None,
        };
        Ok(InternalError { code, message, data })
    }
}

/// The model of a task not found error.
pub struct TaskNotFoundErrorModel {
    pub code: i32,
    pub message: Seq<char>,
    pub data: Option<JsonModel>,
}

impl DeepView for TaskNotFoundError {
    type V = TaskNotFoundErrorModel;

    open spec fn deep_view(&self) -> TaskNotFoundErrorModel {
        TaskNotFoundErrorModel {
            code: self.code.deep_view(),
            message: self.message.deep_view(),
            data: self.data.deep_view(),
        }
    }
}

impl TaskNotFoundErrorModel {
    /// Whether the record comes back unchanged when it is written and read:
    /// no optional JSON value in it is `null`, which reads as a missing
    /// value.
    pub open spec fn representable(self) -> bool {
        &&& self.data != Some(JsonModel::Null)
    }
}

/// The object that is written for a task not found error.
pub open spec fn encode_task_not_found_error(record: TaskNotFoundErrorModel) -> JsonModel {
    let members = Seq::empty();
    let members = put(members, "code"@, JsonModel::Integer(record.code as int));
    let members = put(members, "message"@, JsonModel::String(record.message));
    let members = put_optional(
        members,
        "data"@,
        record.data,
    );
    JsonModel::Object(members)
}

/// What an object stands for when it is read as a task not found error: the
/// record, or the first failure among its members in their order.
pub open spec fn decode_task_not_found_error(
    value: JsonModel,
) -> Result<TaskNotFoundErrorModel, DecodeError> {
    let code = required(value, "code"@, |v: JsonModel| i32_of(v));
    let message = required(value, "message"@, |v: JsonModel| text_of(v));
    let data = optional(value, "data"@, |v: JsonModel| json_of(v));
    if !(value is Object) {
        Err(DecodeError::WrongKind)
    } else if code is Err {
        Err(code->Err_0)
    } else if message is Err {
        Err(message->Err_0)
    } else if data is Err {
        Err(data->Err_0)
    } else {
        Ok(TaskNotFoundErrorModel { code: code->Ok_0, message: message->Ok_0, data: data->Ok_0 })
    }
}

/// Reading what was written for a task not found error gives the record back.
pub proof fn lemma_task_not_found_error_round_trip(record: TaskNotFoundErrorModel)
    requires
        record.representable(),
    ensures
        decode_task_not_found_error(encode_task_not_found_error(record))
            == Ok::<TaskNotFoundErrorModel, DecodeError>(record),
{
    broadcast use lemma_member_after_put, lemma_member_after_put_optional;
    reveal_strlit("code");
    reveal_strlit("message");
    reveal_strlit("data");
    assert("code"@.len() == 4 && "message"@.len() == 7 && "data"@.len() == 4);
    assert("code"@[0] != "data"@[0]);
    let value = encode_task_not_found_error(record);
    assert(value.member("code"@) == Some(JsonModel::Integer(record.code as int)));
    assert(value.member("message"@) == Some(JsonModel::String(record.message)));
    assert(value.member("data"@) == record.data);
}

impl TaskNotFoundError {
    /// Writes the record as a JSON value.
    pub fn encode(&self) -> (r: JsonValue)
        ensures
            r@ == encode_task_not_found_error(self.deep_view()),
    {
        let mut members: Vec<JsonMember> = Vec::new();
        assert(models(members@) =~= Seq::<MemberModel>::empty());
        push_member(&mut members, "code", integer_of(self.code));
        push_member(&mut members, "message", string_of(self.message.as_str()));
        match &self.data {
            Some(item) => {
                push_member(&mut members, "data", item.clone());
            },
            None => {},
        }
        object_of(members)
    }

    /// Reads the record from a JSON value.
    pub fn decode(value: &JsonValue) -> (r: Result<Self, DecodeError>)
        ensures
            match r {
                Ok(record) => decode_task_not_found_error(value@)
                    == Ok::<TaskNotFoundErrorModel, DecodeError>(
                    record.deep_view(),
                ),
                Err(e) => decode_task_not_found_error(value@)
                    == Err::<TaskNotFoundErrorModel, DecodeError>(e),
            },
    {
        if !value.is_object() {
            return Err(DecodeError::WrongKind);
        }
        let code = match value.get("code") {
            Some(v) => read_i32(v)?,
            None => {
                return Err(DecodeError::MissingField);
            },
        };
        let message = match value.get("message") {
            Some(v) => read_text(v)?,
            None => {
                return Err(DecodeError::MissingField);
            },
        };
        let data = match get_present(value, "data") {
            Some(v) => Some(read_json(v)?),
            None => None,
        };
        Ok(TaskNotFoundError { code, message, data })
    }
}

/// The model of a task not cancelable error.
pub struct TaskNotCancelableErrorModel {
    pub code: i32,
    pub message: Seq<char>,
    pub data: Option<JsonModel>,
}

impl DeepView for TaskNotCancelableError {
    type V = TaskNotCancelableErrorModel;

    open spec fn deep_view(&self) -> TaskNotCancelableErrorModel {
        TaskNotCancelableErrorModel {
            code: self.code.deep_view(),
            message: self.message.deep_view(),
            data: self.data.deep_view(),
        }
    }
}

impl TaskNotCancelableErrorModel {
    /// Whether the record comes back unchanged when it is written and read:
    /// no optional JSON value in it is `null`, which reads as a missing
    /// value.
    pub open spec fn representable(self) -> bool {
        &&& self.data != Some(JsonModel::Null)
    }
}

/// The object that is written for a task not cancelable error.
pub open spec fn encode_task_not_cancelable_error(
    record: TaskNotCancelableErrorModel,
) -> JsonModel {
    let members = Seq::empty();
    let members = put(members, "code"@, JsonModel::Integer(record.code as int));
    let members = put(members, "message"@, JsonModel::String(record.message));
    let members = put_optional(
        members,
        "data"@,
        record.data,
    );
    JsonModel::Object(members)
}

/// What an object stands for when it is read as a task not cancelable error:
/// the record, or the first failure among its members in their order.
pub open spec fn decode_task_not_cancelable_error(
    value: JsonModel,
) -> Result<TaskNotCancelableErrorModel, DecodeError> {
    let code = required(value, "code"@, |v: JsonModel| i32_of(v));
    let message = required(value, "message"@, |v: JsonModel| text_of(v));
    let data = optional(value, "data"@, |v: JsonModel| json_of(v));
    if !(value is Object) {
        Err(DecodeError::WrongKind)
    } else if code is Err {
        Err(code->Err_0)
    } else if message is Err {
        Err(message->Err_0)
    } else if data is Err {
        Err(data->Err_0)
    } else {
        Ok(
            TaskNotCancelableErrorModel {
                code: code->Ok_0,
                message: message->Ok_0,
                data: data->Ok_0,
            },
        )
    }
}

/// Reading what was written for a task not cancelable error gives the record
/// back.
pub proof fn lemma_task_not_cancelable_error_round_trip(record: TaskNotCancelableErrorModel)
    requires
        record.representable(),
    ensures
        decode_task_not_cancelable_error(encode_task_not_cancelable_error(record))
            == Ok::<TaskNotCancelableErrorModel, DecodeError>(record),
{
    broadcast use lemma_member_after_put, lemma_member_after_put_optional;
    reveal_strlit("code");
    reveal_strlit("message");
    reveal_strlit("data");
    assert("code"@.len() == 4 && "message"@.len() == 7 && "data"@.len() == 4);
    assert("code"@[0] != "data"@[0]);
    let value = encode_task_not_cancelable_error(record);
    assert(value.member("code"@) == Some(JsonModel::Integer(record.code as int)));
    assert(value.member("message"@) == Some(JsonModel::String(record.message)));
    assert(value.member("data"@) == record.data);
}

impl TaskNotCancelableError {
    /// Writes the record as a JSON value.
    pub fn encode(&self) -> (r: JsonValue)
        ensures
            r@ == encode_task_not_cancelable_error(self.deep_view()),
    {
        let mut members: Vec<JsonMember> = Vec::new();
        assert(models(members@) =~= Seq::<MemberModel>::empty());
        push_member(&mut members, "code", integer_of(self.code));
        push_member(&mut members, "message", string_of(self.message.as_str()));
        match &self.data {
            Some(item) => {
                push_member(&mut members, "data", item.clone());
            },
            None => {},
        }
        object_of(members)
    }

    /// Reads the record from a JSON value.
    pub fn decode(value: &JsonValue) -> (r: Result<Self, DecodeError>)
        ensures
            match r {
                Ok(record) => decode_task_not_cancelable_error(value@)
                    == Ok::<TaskNotCancelableErrorModel, DecodeError>(
                    record.deep_view(),
                ),
                Err(e) => decode_task_not_cancelable_error(value@)
                    == Err::<TaskNotCancelableErrorModel, DecodeError>(e),
            },
    {
        if !value.is_object() {
            return Err(DecodeError::WrongKind);
        }
        let code = match value.get("code") {
            Some(v) => read_i32(v)?,
            None => {
                return Err(DecodeError::MissingField);
            },
        };
        let message = match value.get("message") {
            Some(v) => read_text(v)?,
            None => {
                return Err(DecodeError::MissingField);
            },
        };
        let data = match get_present(value, "data") {
            Some(v) => Some(read_json(v)?),
            None => None,
        };
        Ok(TaskNotCancelableError { code, message, data })
    }
}

/// The model of a push notification not supported error.
pub struct PushNotificationNotSupportedErrorModel {
    pub code: i32,
    pub message: Seq<char>,
    pub data: Option<JsonModel>,
}

impl DeepView for PushNotificationNotSupportedError {
    type V = PushNotificationNotSupportedErrorModel;

    open spec fn deep_view(&self) -> PushNotificationNotSupportedErrorModel {
        PushNotificationNotSupportedErrorModel {
            code: self.code.deep_view(),
            message: self.message.deep_view(),
            data: self.data.deep_view(),
        }
    }
}

impl PushNotificationNotSupportedErrorModel {
    /// Whether the record comes back unchanged when it is written and read:
    /// no optional JSON value in it is `null`, which reads as a missing
    /// value.
    pub open spec fn representable(self) -> bool {
        &&& self.data != Some(JsonModel::Null)
    }
}

/// The object that is written for a push notification not supported error.
pub open spec fn encode_push_notification_not_supported_error(
    record: PushNotificationNotSupportedErrorModel,
) -> JsonModel {
    let members = Seq::empty();
    let members = put(members, "code"@, JsonModel::Integer(record.code as int));
    let members = put(members, "message"@, JsonModel::String(record.message));
    let members = put_optional(
        members,
        "data"@,
        record.data,
    );
    JsonModel::Object(members)
}

/// What an object stands for when it is read as a push notification not
/// supported error: the record, or the first failure among its members in
/// their order.
pub open spec fn decode_push_notification_not_supported_error(
    value: JsonModel,
) -> Result<PushNotificationNotSupportedErrorModel, DecodeError> {
    let code = required(value, "code"@, |v: JsonModel| i32_of(v));
    let message = required(value, "message"@, |v: JsonModel| text_of(v));
    let data = optional(value, "data"@, |v: JsonModel| json_of(v));
    if !(value is Object) {
        Err(DecodeError::WrongKind)
    } else if code is Err {
        Err(code->Err_0)
    } else if message is Err {
        Err(message->Err_0)
    } else if data is Err {
        Err(data->Err_0)
    } else {
        Ok(
            PushNotificationNotSupportedErrorModel {
                code: code->Ok_0,
                message: message->Ok_0,
                data: data->Ok_0,
            },
        )
    }
}

/// Reading what was written for a push notification not supported error gives
/// the record back.
pub proof fn lemma_push_notification_not_supported_error_round_trip(
    record: PushNotificationNotSupportedErrorModel,
)
    requires
        record.representable(),
    ensures
        decode_push_notification_not_supported_error(
            encode_push_notification_not_supported_error(record),
        )
            == Ok::<PushNotificationNotSupportedErrorModel, DecodeError>(record),
{
    broadcast use lemma_member_after_put, lemma_member_after_put_optional;
    reveal_strlit("code");
    reveal_strlit("message");
    reveal_strlit("data");
    assert("code"@.len() == 4 && "message"@.len() == 7 && "data"@.len() == 4);
    assert("code"@[0] != "data"@[0]);
    let value = encode_push_notification_not_supported_error(record);
    assert(value.member("code"@) == Some(JsonModel::Integer(record.code as int)));
    assert(value.member("message"@) == Some(JsonModel::String(record.message)));
    assert(value.member("data"@) == record.data);
}

impl PushNotificationNotSupportedError {
    /// Writes the record as a JSON value.
    pub fn encode(&self) -> (r: JsonValue)
        ensures
            r@ == encode_push_notification_not_supported_error(self.deep_view()),
    {
        let mut members: Vec<JsonMember> = Vec::new();
        assert(models(members@) =~= Seq::<MemberModel>::empty());
        push_member(&mut members, "code", integer_of(self.code));
        push_member(&mut members, "message", string_of(self.message.as_str()));
        match &self.data {
            Some(item) => {
                push_member(&mut members, "data", item.clone());
            },
            None => {},
        }
        object_of(members)
    }

    /// Reads the record from a JSON value.
    pub fn decode(value: &JsonValue) -> (r: Result<Self, DecodeError>)
        ensures
            match r {
                Ok(record) => decode_push_notification_not_supported_error(value@)
                    == Ok::<PushNotificationNotSupportedErrorModel, DecodeError>(
                    record.deep_view(),
                ),
                Err(e) => decode_push_notification_not_supported_error(value@)
                    == Err::<PushNotificationNotSupportedErrorModel, DecodeError>(e),
            },
    {
        if !value.is_object() {
            return Err(DecodeError::WrongKind);
        }
        let code = match value.get("code") {
            Some(v) => read_i32(v)?,
            None => {
                return Err(DecodeError::MissingField);
            },
        };
        let message = match value.get("message") {
            Some(v) => read_text(v)?,
            None => {
                return Err(DecodeError::MissingField);
            },
        };
        let data = match get_present(value, "data") {
            Some(v) => Some(read_json(v)?),
            None => None,
        };
        Ok(PushNotificationNotSupportedError { code, message, data })
    }
}

/// The model of an unsupported operation error.
pub struct UnsupportedOperationErrorModel {
    pub code: i32,
    pub message: Seq<char>,
    pub data: Option<JsonModel>,
}

impl DeepView for UnsupportedOperationError {
    type V = UnsupportedOperationErrorModel;

    open spec fn deep_view(&self) -> UnsupportedOperationErrorModel {
        UnsupportedOperationErrorModel {
            code: self.code.deep_view(),
            message: self.message.deep_view(),
            data: self.data.deep_view(),
        }
    }
}

impl UnsupportedOperationErrorModel {
    /// Whether the record comes back unchanged when it is written and read:
    /// no optional JSON value in it is `null`, which reads as a missing
    /// value.
    pub open spec fn representable(self) -> bool {
        &&& self.data != Some(JsonModel::Null)
    }
}

/// The object that is written for an unsupported operation error.
pub open spec fn encode_unsupported_operation_error(
    record: UnsupportedOperationErrorModel,
) -> JsonModel {
    let members = Seq::empty();
    let members = put(members, "code"@, JsonModel::Integer(record.code as int));
    let members = put(members, "message"@, JsonModel::String(record.message));
    let members = put_optional(
        members,
        "data"@,
        record.data,
    );
    JsonModel::Object(members)
}

/// What an object stands for when it is read as an unsupported operation
/// error: the record, or the first failure among its members in their order.
pub open spec fn decode_unsupported_operation_error(
    value: JsonModel,
) -> Result<UnsupportedOperationErrorModel, DecodeError> {
    let code = required(value, "code"@, |v: JsonModel| i32_of(v));
    let message = required(value, "message"@, |v: JsonModel| text_of(v));
    let data = optional(value, "data"@, |v: JsonModel| json_of(v));
    if !(value is Object) {
        Err(DecodeError::WrongKind)
    } else if code is Err {
        Err(code->Err_0)
    } else if message is Err {
        Err(message->Err_0)
    } else if data is Err {
        Err(data->Err_0)
    } else {
        Ok(
            UnsupportedOperationErrorModel {
                code: code->Ok_0,
                message: message->Ok_0,
                data: data->Ok_0,
            },
        )
    }
}

/// Reading what was written for an unsupported operation error gives the
/// record back.
pub proof fn lemma_unsupported_operation_error_round_trip(record: UnsupportedOperationErrorModel)
    requires
        record.representable(),
    ensures
        decode_unsupported_operation_error(encode_unsupported_operation_error(record))
            == Ok::<UnsupportedOperationErrorModel, DecodeError>(record),
{
    broadcast use lemma_member_after_put, lemma_member_after_put_optional;
    reveal_strlit("code");
    reveal_strlit("message");
    reveal_strlit("data");
    assert("code"@.len() == 4 && "message"@.len() == 7 && "data"@.len() == 4);
    assert("code"@[0] != "data"@[0]);
    let value = encode_unsupported_operation_error(record);
    assert(value.member("code"@) == Some(JsonModel::Integer(record.code as int)));
    assert(value.member("message"@) == Some(JsonModel::String(record.message)));
    assert(value.member("data"@) == record.data);
}

impl UnsupportedOperationError {
    /// Writes the record as a JSON value.
    pub fn encode(&self) -> (r: JsonValue)
        ensures
            r@ == encode_unsupported_operation_error(self.deep_view()),
    {
        let mut members: Vec<JsonMember> = Vec::new();
        assert(models(members@) =~= Seq::<MemberModel>::empty());
        push_member(&mut members, "code", integer_of(self.code));
        push_member(&mut members, "message", string_of(self.message.as_str()));
        match &self.data {
            Some(item) => {
                push_member(&mut members, "data", item.clone());
            },
            None => {},
        }
        object_of(members)
    }

    /// Reads the record from a JSON value.
    pub fn decode(value: &JsonValue) -> (r: Result<Self, DecodeError>)
        ensures
            match r {
                Ok(record) => decode_unsupported_operation_error(value@)
                    == Ok::<UnsupportedOperationErrorModel, DecodeError>(
                    record.deep_view(),
                ),
                Err(e) => decode_unsupported_operation_error(value@)
                    == Err::<UnsupportedOperationErrorModel, DecodeError>(e),
            },
    {
        if !value.is_object() {
            return Err(DecodeError::WrongKind);
        }
        let code = match value.get("code") {
            Some(v) => read_i32(v)?,
            None => {
                return Err(DecodeError::MissingField);
            },
        };
        let message = match value.get("message") {
            Some(v) => read_text(v)?,
            None => {
                return Err(DecodeError::MissingField);
            },
        };
        let data = match get_present(value, "data") {
            Some(v) => Some(read_json(v)?),
            None => None,
        };
        Ok(UnsupportedOperationError { code, message, data })
    }
}

/// The model of a content type not supported error.
pub struct ContentTypeNotSupportedErrorModel {
    pub code: i32,
    pub message: Seq<char>,
    pub data: Option<JsonModel>,
}

impl DeepView for ContentTypeNotSupportedError {
    type V = ContentTypeNotSupportedErrorModel;

    open spec fn deep_view(&self) -> ContentTypeNotSupportedErrorModel {
        ContentTypeNotSupportedErrorModel {
            code: self.code.deep_view(),
            message: self.message.deep_view(),
            data: self.data.deep_view(),
        }
    }
}

impl ContentTypeNotSupportedErrorModel {
    /// Whether the record comes back unchanged when it is written and read:
    /// no optional JSON value in it is `null`, which reads as a missing
    /// value.
    pub open spec fn representable(self) -> bool {
        &&& self.data != Some(JsonModel::Null)
    }
}

/// The object that is written for a content type not supported error.
pub open spec fn encode_content_type_not_supported_error(
    record: ContentTypeNotSupportedErrorModel,
) -> JsonModel {
    let members = Seq::empty();
    let members = put(members, "code"@, JsonModel::Integer(record.code as int));
    let members = put(members, "message"@, JsonModel::String(record.message));
    let members = put_optional(
        members,
        "data"@,
        record.data,
    );
    JsonModel::Object(members)
}

/// What an object stands for when it is read as a content type not supported
/// error: the record, or the first failure among its members in their order.
pub open spec fn decode_content_type_not_supported_error(
    value: JsonModel,
) -> Result<ContentTypeNotSupportedErrorModel, DecodeError> {
    let code = required(value, "code"@, |v: JsonModel| i32_of(v));
    let message = required(value, "message"@, |v: JsonModel| text_of(v));
    let data = optional(value, "data"@, |v: JsonModel| json_of(v));
    if !(value is Object) {
        Err(DecodeError::WrongKind)
    } else if code is Err {
        Err(code->Err_0)
    } else if message is Err {
        Err(message->Err_0)
    } else if data is Err {
        Err(data->Err_0)
    } else {
        Ok(
            ContentTypeNotSupportedErrorModel {
                code: code->Ok_0,
                message: message->Ok_0,
                data: data->Ok_0,
            },
        )
    }
}

/// Reading what was written for a content type not supported error gives the
/// record back.
pub proof fn lemma_content_type_not_supported_error_round_trip(
    record: ContentTypeNotSupportedErrorModel,
)
    requires
        record.representable(),
    ensures
        decode_content_type_not_supported_error(encode_content_type_not_supported_error(record))
            == Ok::<ContentTypeNotSupportedErrorModel, DecodeError>(record),
{
    broadcast use lemma_member_after_put, lemma_member_after_put_optional;
    reveal_strlit("code");
    reveal_strlit("message");
    reveal_strlit("data");
    assert("code"@.len() == 4 && "message"@.len() == 7 && "data"@.len() == 4);
    assert("code"@[0] != "data"@[0]);
    let value = encode_content_type_not_supported_error(record);
    assert(value.member("code"@) == Some(JsonModel::Integer(record.code as int)));
    assert(value.member("message"@) == Some(JsonModel::String(record.message)));
    assert(value.member("data"@) == record.data);
}

impl ContentTypeNotSupportedError {
    /// Writes the record as a JSON value.
    pub fn encode(&self) -> (r: JsonValue)
        ensures
            r@ == encode_content_type_not_supported_error(self.deep_view()),
    {
        let mut members: Vec<JsonMember> = Vec::new();
        assert(models(members@) =~= Seq::<MemberModel>::empty());
        push_member(&mut members, "code", integer_of(self.code));
        push_member(&mut members, "message", string_of(self.message.as_str()));
        match &self.data {
            Some(item) => {
                push_member(&mut members, "data", item.clone());
            },
            None => {},
        }
        object_of(members)
    }

    /// Reads the record from a JSON value.
    pub fn decode(value: &JsonValue) -> (r: Result<Self, DecodeError>)
        ensures
            match r {
                Ok(record) => decode_content_type_not_supported_error(value@)
                    == Ok::<ContentTypeNotSupportedErrorModel, DecodeError>(
                    record.deep_view(),
                ),
                Err(e) => decode_content_type_not_supported_error(value@)
                    == Err::<ContentTypeNotSupportedErrorModel, DecodeError>(e),
            },
    {
        if !value.is_object() {
            return Err(DecodeError::WrongKind);
        }
        let code = match value.get("code") {
            Some(v) => read_i32(v)?,
            None => {
                return Err(DecodeError::MissingField);
            },
        };
        let message = match value.get("message") {
            Some(v) => read_text(v)?,
            None => {
                return Err(DecodeError::MissingField);
            },
        };
        let data = match get_present(value, "data") {
            Some(v) => Some(read_json(v)?),
            None => None,
        };
        Ok(ContentTypeNotSupportedError { code, message, data })
    }
}

/// The model of an invalid agent response error.
pub struct InvalidAgentResponseErrorModel {
    pub code: i32,
    pub message: Seq<char>,
    pub data: Option<JsonModel>,
}

impl DeepView for InvalidAgentResponseError {
    type V = InvalidAgentResponseErrorModel;

    open spec fn deep_view(&self) -> InvalidAgentResponseErrorModel {
        InvalidAgentResponseErrorModel {
            code: self.code.deep_view(),
            message: self.message.deep_view(),
            data: self.data.deep_view(),
        }
    }
}

impl InvalidAgentResponseErrorModel {
    /// Whether the record comes back unchanged when it is written and read:
    /// no optional JSON value in it is `null`, which reads as a missing
    /// value.
    pub open spec fn representable(self) -> bool {
        &&& self.data != Some(JsonModel::Null)
    }
}

/// The object that is written for an invalid agent response error.
pub open spec fn encode_invalid_agent_response_error(
    record: InvalidAgentResponseErrorModel,
) -> JsonModel {
    let members = Seq::empty();
    let members = put(members, "code"@, JsonModel::Integer(record.code as int));
    let members = put(members, "message"@, JsonModel::String(record.message));
    let members = put_optional(
        members,
        "data"@,
        record.data,
    );
    JsonModel::Object(members)
}

/// What an object stands for when it is read as an invalid agent response
/// error: the record, or the first failure among its members in their order.
pub open spec fn decode_invalid_agent_response_error(
    value: JsonModel,
) -> Result<InvalidAgentResponseErrorModel, DecodeError> {
    let code = required(value, "code"@, |v: JsonModel| i32_of(v));
    let message = required(value, "message"@, |v: JsonModel| text_of(v));
    let data = optional(value, "data"@, |v: JsonModel| json_of(v));
    if !(value is Object) {
        Err(DecodeError::WrongKind)
    } else if code is Err {
        Err(code->Err_0)
    } else if message is Err {
        Err(message->Err_0)
    } else if data is Err {
        Err(data->Err_0)
    } else {
        Ok(
            InvalidAgentResponseErrorModel {
                code: code->Ok_0,
                message: message->Ok_0,
                data: data->Ok_0,
            },
        )
    }
}

/// Reading what was written for an invalid agent response error gives the
/// record back.
pub proof fn lemma_invalid_agent_response_error_round_trip(record: InvalidAgentResponseErrorModel)
    requires
        record.representable(),
    ensures
        decode_invalid_agent_response_error(encode_invalid_agent_response_error(record))
            == Ok::<InvalidAgentResponseErrorModel, DecodeError>(record),
{
    broadcast use lemma_member_after_put, lemma_member_after_put_optional;
    reveal_strlit("code");
    reveal_strlit("message");
    reveal_strlit("data");
    assert("code"@.len() == 4 && "message"@.len() == 7 && "data"@.len() == 4);
    assert("code"@[0] != "data"@[0]);
    let value = encode_invalid_agent_response_error(record);
    assert(value.member("code"@) == Some(JsonModel::Integer(record.code as int)));
    assert(value.member("message"@) == Some(JsonModel::String(record.message)));
    assert(value.member("data"@) == record.data);
}

impl InvalidAgentResponseError {
    /// Writes the record as a JSON value.
    pub fn encode(&self) -> (r: JsonValue)
        ensures
            r@ == encode_invalid_agent_response_error(self.deep_view()),
    {
        let mut members: Vec<JsonMember> = Vec::new();
        assert(models(members@) =~= Seq::<MemberModel>::empty());
        push_member(&mut members, "code", integer_of(self.code));
        push_member(&mut members, "message", string_of(self.message.as_str()));
        match &self.data {
            Some(item) => {
                push_member(&mut members, "data", item.clone());
            },
            None => {},
        }
        object_of(members)
    }

    /// Reads the record from a JSON value.
    pub fn decode(value: &JsonValue) -> (r: Result<Self, DecodeError>)
        ensures
            match r {
                Ok(record) => decode_invalid_agent_response_error(value@)
                    == Ok::<InvalidAgentResponseErrorModel, DecodeError>(
                    record.deep_view(),
                ),
                Err(e) => decode_invalid_agent_response_error(value@)
                    == Err::<InvalidAgentResponseErrorModel, DecodeError>(e),
            },
    {
        if !value.is_object() {
            return Err(DecodeError::WrongKind);
        }
        let code = match value.get("code") {
            Some(v) => read_i32(v)?,
            None => {
                return Err(DecodeError::MissingField);
            },
        };
        let message = match value.get("message") {
            Some(v) => read_text(v)?,
            None => {
                return Err(DecodeError::MissingField);
            },
        };
        let data = match get_present(value, "data") {
            Some(v) => Some(read_json(v)?),
            None => None,
        };
        Ok(InvalidAgentResponseError { code, message, data })
    }
}

} // verus!
