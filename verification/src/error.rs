//! The errors that an agent reports, told apart by their numeric code.
//!
//! Each kind of error has one fixed code, and no two kinds share one. On the
//! wire an error is a flat object with the members `code`, `message` and,
//! where there is any, `data`; the code alone says which kind it is.

use crate::codec::fields::{
    lemma_member_after_put, lemma_member_after_put_optional, present, put, put_optional,
    DecodeError,
};
use crate::json::{optional_view, JsonModel, JsonValue};
use crate::text::join;
use vstd::prelude::*;

verus! {

/// The kinds of error.
#[derive(Debug, Clone, Copy, PartialEq, Eq, Structural)]
pub enum ErrorKind {
    /// Invalid JSON was received.
    JSONParse,
    /// The JSON sent is not a valid request object.
    InvalidRequest,
    /// The method does not exist or is not available.
    MethodNotFound,
    /// The parameters of the method are invalid.
    InvalidParams,
    /// An internal error of the server.
    Internal,
    /// The task that was asked for was not found.
    TaskNotFound,
    /// The task is in a state in which it cannot be canceled.
    TaskNotCancelable,
    /// The agent does not support push notifications.
    PushNotificationNotSupported,
    /// The agent does not support the operation.
    UnsupportedOperation,
    /// The content types of the request and of the agent do not fit.
    ContentTypeNotSupported,
    /// The agent returned an invalid response for the method.
    InvalidAgentResponse,
}

impl ErrorKind {
    /// The code of the kind.
    pub open spec fn fixed_code(self) -> int {
        match self {
            ErrorKind::JSONParse => -32700,
            ErrorKind::InvalidRequest => -32600,
            ErrorKind::MethodNotFound => -32601,
            ErrorKind::InvalidParams => -32602,
            ErrorKind::Internal => -32603,
            ErrorKind::TaskNotFound => -32001,
            ErrorKind::TaskNotCancelable => -32002,
            ErrorKind::PushNotificationNotSupported => -32003,
            ErrorKind::UnsupportedOperation => -32004,
            ErrorKind::ContentTypeNotSupported => -32005,
            ErrorKind::InvalidAgentResponse => -32006,
        }
    }

    /// The kind that has the code `code`, if there is one.
    pub open spec fn of_code(code: int) -> Option<ErrorKind> {
        if code == -32700 {
            Some(ErrorKind::JSONParse)
        } else if code == -32600 {
            Some(ErrorKind::InvalidRequest)
        } else if code == -32601 {
            Some(ErrorKind::MethodNotFound)
        } else if code == -32602 {
            Some(ErrorKind::InvalidParams)
        } else if code == -32603 {
            Some(ErrorKind::Internal)
        } else if code == -32001 {
            Some(ErrorKind::TaskNotFound)
        } else if code == -32002 {
            Some(ErrorKind::TaskNotCancelable)
        } else if code == -32003 {
            Some(ErrorKind::PushNotificationNotSupported)
        } else if code == -32004 {
            Some(ErrorKind::UnsupportedOperation)
        } else if code == -32005 {
            Some(ErrorKind::ContentTypeNotSupported)
        } else if code == -32006 {
            Some(ErrorKind::InvalidAgentResponse)
        } else {
            None
        }
    }

    /// The label of the kind in diagnostics.
    pub open spec fn label(self) -> Seq<char> {
        match self {
            ErrorKind::JSONParse => "JSON parse error"@,
            ErrorKind::InvalidRequest => "Invalid request"@,
            ErrorKind::MethodNotFound => "Method not found"@,
            ErrorKind::InvalidParams => "Invalid parameters"@,
            ErrorKind::Internal => "Internal error"@,
            ErrorKind::TaskNotFound => "Task not found"@,
            ErrorKind::TaskNotCancelable => "Task not cancelable"@,
            ErrorKind::PushNotificationNotSupported => "Push notification not supported"@,
            ErrorKind::UnsupportedOperation => "Unsupported operation"@,
            ErrorKind::ContentTypeNotSupported => "Content type not supported"@,
            ErrorKind::InvalidAgentResponse => "Invalid agent response"@,
        }
    }

    /// The code of the kind.
    pub fn code(&self) -> (r: i32)
        ensures
            r == self.fixed_code(),
    {
        match self {
            ErrorKind::JSONParse => -32700,
            ErrorKind::InvalidRequest => -32600,
            ErrorKind::MethodNotFound => -32601,
            ErrorKind::InvalidParams => -32602,
            ErrorKind::Internal => -32603,
            ErrorKind::TaskNotFound => -32001,
            ErrorKind::TaskNotCancelable => -32002,
            ErrorKind::PushNotificationNotSupported => -32003,
            ErrorKind::UnsupportedOperation => -32004,
            ErrorKind::ContentTypeNotSupported => -32005,
            ErrorKind::InvalidAgentResponse => -32006,
        }
    }

    /// The kind that has the code `code`, if there is one.
    pub fn from_code(code: i64) -> (r: Option<ErrorKind>)
        ensures
            r == Self::of_code(code as int),
    {
        match code {
            -32700 => Some(ErrorKind::JSONParse),
            -32600 => Some(ErrorKind::InvalidRequest),
            -32601 => Some(ErrorKind::MethodNotFound),
            -32602 => Some(ErrorKind::InvalidParams),
            -32603 => Some(ErrorKind::Internal),
            -32001 => Some(ErrorKind::TaskNotFound),
            -32002 => Some(ErrorKind::TaskNotCancelable),
            -32003 => Some(ErrorKind::PushNotificationNotSupported),
            -32004 => Some(ErrorKind::UnsupportedOperation),
            -32005 => Some(ErrorKind::ContentTypeNotSupported),
            -32006 => Some(ErrorKind::InvalidAgentResponse),
            _ => None,
        }
    }

    /// The label of the kind in diagnostics.
    pub fn name(&self) -> (r: &'static str)
        ensures
            r@ == self.label(),
    {
        match self {
            ErrorKind::JSONParse => "JSON parse error",
            ErrorKind::InvalidRequest => "Invalid request",
            ErrorKind::MethodNotFound => "Method not found",
            ErrorKind::InvalidParams => "Invalid parameters",
            ErrorKind::Internal => "Internal error",
            ErrorKind::TaskNotFound => "Task not found",
            ErrorKind::TaskNotCancelable => "Task not cancelable",
            ErrorKind::PushNotificationNotSupported => "Push notification not supported",
            ErrorKind::UnsupportedOperation => "Unsupported operation",
            ErrorKind::ContentTypeNotSupported => "Content type not supported",
            ErrorKind::InvalidAgentResponse => "Invalid agent response",
        }
    }
}

/// No two kinds share a code.
pub proof fn lemma_codes_are_distinct(a: ErrorKind, b: ErrorKind)
    requires
        a.fixed_code() == b.fixed_code(),
    ensures
        a == b,
{
}

/// The code of a kind leads back to the kind, and a code that leads to a
/// kind is the code of that kind.
pub proof fn lemma_kind_of_code(kind: ErrorKind, code: int)
    ensures
        ErrorKind::of_code(kind.fixed_code()) == Some(kind),
        ErrorKind::of_code(code) == Some(kind) <==> code == kind.fixed_code(),
{
}

/// Invalid JSON was received.
#[derive(Debug, Clone, PartialEq)]
pub struct JSONParseError {
    /// The number that says which kind of error occurred: always -32700.
    pub code: i32,
    /// A short description of the error.
    pub message: String,
    /// More about the error.
    pub data: Option<JsonValue>,
}

/// The JSON sent is not a valid request object.
#[derive(Debug, Clone, PartialEq)]
pub struct InvalidRequestError {
    /// The number that says which kind of error occurred: always -32600.
    pub code: i32,
    /// A short description of the error.
    pub message: String,
    /// More about the error.
    pub data: Option<JsonValue>,
}

/// The method does not exist or is not available.
#[derive(Debug, Clone, PartialEq)]
pub struct MethodNotFoundError {
    /// The number that says which kind of error occurred: always -32601.
    pub code: i32,
    /// A short description of the error.
    pub message: String,
    /// More about the error.
    pub data: Option<JsonValue>,
}

/// The parameters of the method are invalid.
#[derive(Debug, Clone, PartialEq)]
pub struct InvalidParamsError {
    /// The number that says which kind of error occurred: always -32602.
    pub code: i32,
    /// A short description of the error.
    pub message: String,
    /// More about the error.
    pub data: Option<JsonValue>,
}

/// An internal error of the server.
#[derive(Debug, Clone, PartialEq)]
pub struct InternalError {
    /// The number that says which kind of error occurred: always -32603.
    pub code: i32,
    /// A short description of the error.
    pub message: String,
    /// More about the error.
    pub data: Option<JsonValue>,
}

/// The task that was asked for was not found.
#[derive(Debug, Clone, PartialEq)]
pub struct TaskNotFoundError {
    /// The number that says which kind of error occurred: always -32001.
    pub code: i32,
    /// A short description of the error.
    pub message: String,
    /// More about the error.
    pub data: Option<JsonValue>,
}

/// The task is in a state in which it cannot be canceled.
#[derive(Debug, Clone, PartialEq)]
pub struct TaskNotCancelableError {
    /// The number that says which kind of error occurred: always -32002.
    pub code: i32,
    /// A short description of the error.
    pub message: String,
    /// More about the error.
    pub data: Option<JsonValue>,
}

/// The agent does not support push notifications.
#[derive(Debug, Clone, PartialEq)]
pub struct PushNotificationNotSupportedError {
    /// The number that says which kind of error occurred: always -32003.
    pub code: i32,
    /// A short description of the error.
    pub message: String,
    /// More about the error.
    pub data: Option<JsonValue>,
}

/// The agent does not support the operation.
#[derive(Debug, Clone, PartialEq)]
pub struct UnsupportedOperationError {
    /// The number that says which kind of error occurred: always -32004.
    pub code: i32,
    /// A short description of the error.
    pub message: String,
    /// More about the error.
    pub data: Option<JsonValue>,
}

/// The content types of the request and of the agent do not fit.
#[derive(Debug, Clone, PartialEq)]
pub struct ContentTypeNotSupportedError {
    /// The number that says which kind of error occurred: always -32005.
    pub code: i32,
    /// A short description of the error.
    pub message: String,
    /// More about the error.
    pub data: Option<JsonValue>,
}

/// The agent returned an invalid response for the method.
#[derive(Debug, Clone, PartialEq)]
pub struct InvalidAgentResponseError {
    /// The number that says which kind of error occurred: always -32006.
    pub code: i32,
    /// A short description of the error.
    pub message: String,
    /// More about the error.
    pub data: Option<JsonValue>,
}

/// An error of one of the eleven kinds.
#[derive(Debug, Clone, PartialEq)]
pub enum A2AError {
    /// Invalid JSON was received.
    JSONParse(JSONParseError),
    /// The JSON sent is not a valid request object.
    InvalidRequest(InvalidRequestError),
    /// The method does not exist or is not available.
    MethodNotFound(MethodNotFoundError),
    /// The parameters of the method are invalid.
    InvalidParams(InvalidParamsError),
    /// An internal error of the server.
    Internal(InternalError),
    /// The task that was asked for was not found.
    TaskNotFound(TaskNotFoundError),
    /// The task is in a state in which it cannot be canceled.
    TaskNotCancelable(TaskNotCancelableError),
    /// The agent does not support push notifications.
    PushNotificationNotSupported(PushNotificationNotSupportedError),
    /// The agent does not support the operation.
    UnsupportedOperation(UnsupportedOperationError),
    /// The content types of the request and of the agent do not fit.
    ContentTypeNotSupported(ContentTypeNotSupportedError),
    /// The agent returned an invalid response for the method.
    InvalidAgentResponse(InvalidAgentResponseError),
}

/// The mathematical model of an error.
pub struct ErrorModel {
    /// The kind of the error.
    pub kind: ErrorKind,
    /// The code that the error carries.
    pub code: int,
    /// The message of the error.
    pub message: Seq<char>,
    /// What the error holds beside the message.
    pub data: Option<JsonModel>,
}

impl ErrorModel {
    /// The error carries the code of its kind.
    pub open spec fn well_formed(self) -> bool {
        self.code == self.kind.fixed_code()
    }

    /// What a reader of the error is shown: the label of the kind, a colon
    /// and the message.
    pub open spec fn text(self) -> Seq<char> {
        self.kind.label() + ": "@ + self.message
    }
}

impl View for A2AError {
    type V = ErrorModel;

    open spec fn view(&self) -> ErrorModel {
        match self {
            A2AError::JSONParse(e) => ErrorModel {
                kind: ErrorKind::JSONParse,
                code: e.code as int,
                message: e.message@,
                data: optional_view(e.data),
            },
            A2AError::InvalidRequest(e) => ErrorModel {
                kind: ErrorKind::InvalidRequest,
                code: e.code as int,
                message: e.message@,
                data: optional_view(e.data),
            },
            A2AError::MethodNotFound(e) => ErrorModel {
                kind: ErrorKind::MethodNotFound,
                code: e.code as int,
                message: e.message@,
                data: optional_view(e.data),
            },
            A2AError::InvalidParams(e) => ErrorModel {
                kind: ErrorKind::InvalidParams,
                code: e.code as int,
                message: e.message@,
                data: optional_view(e.data),
            },
            A2AError::Internal(e) => ErrorModel {
                kind: ErrorKind::Internal,
                code: e.code as int,
                message: e.message@,
                data: optional_view(e.data),
            },
            A2AError::TaskNotFound(e) => ErrorModel {
                kind: ErrorKind::TaskNotFound,
                code: e.code as int,
                message: e.message@,
                data: optional_view(e.data),
            },
            A2AError::TaskNotCancelable(e) => ErrorModel {
                kind: ErrorKind::TaskNotCancelable,
                code: e.code as int,
                message: e.message@,
                data: optional_view(e.data),
            },
            A2AError::PushNotificationNotSupported(e) => ErrorModel {
                kind: ErrorKind::PushNotificationNotSupported,
                code: e.code as int,
                message: e.message@,
                data: optional_view(e.data),
            },
            A2AError::UnsupportedOperation(e) => ErrorModel {
                kind: ErrorKind::UnsupportedOperation,
                code: e.code as int,
                message: e.message@,
                data: optional_view(e.data),
            },
            A2AError::ContentTypeNotSupported(e) => ErrorModel {
                kind: ErrorKind::ContentTypeNotSupported,
                code: e.code as int,
                message: e.message@,
                data: optional_view(e.data),
            },
            A2AError::InvalidAgentResponse(e) => ErrorModel {
                kind: ErrorKind::InvalidAgentResponse,
                code: e.code as int,
                message: e.message@,
                data: optional_view(e.data),
            },
        }
    }
}

/// The error that a JSON value stands for. The member `code` is read first
/// and decides the kind: it is missing where the value is no object, has no
/// such member, or has one that is no integer of 64 bits; a code that is
/// none of the eleven fixed codes is refused. The members `message` and
/// `data` are read then.
pub open spec fn decode_model(value: JsonModel) -> Result<ErrorModel, DecodeError> {
    match value.member("code"@) {
        None => Err(DecodeError::MissingField),
        Some(number) => match number.as_i64() {
            None => Err(DecodeError::MissingField),
            Some(code) => match ErrorKind::of_code(code as int) {
                None => Err(DecodeError::UnknownCode(code)),
                Some(kind) => match value.member("message"@) {
                    None => Err(DecodeError::MissingField),
                    Some(JsonModel::String(message)) => Ok(
                        ErrorModel {
                            kind,
                            code: code as int,
                            message,
                            data: present(value.member("data"@)),
                        },
                    ),
                    Some(_) => Err(DecodeError::WrongKind),
                },
            },
        },
    }
}

/// The JSON value that stands for an error: a flat object with the members
/// `code`, `message` and, where there is any, `data`. Nothing in it but the
/// code says of which kind the error is.
pub open spec fn encode_model(error: ErrorModel) -> JsonModel {
    let members = Seq::empty();
    let members = put(members, "code"@, JsonModel::Integer(error.code));
    let members = put(members, "message"@, JsonModel::String(error.message));
    let members = put_optional(members, "data"@, error.data);
    JsonModel::Object(members)
}

/// Encoding an error and decoding the result gives the error back, with its
/// kind, code, message and data: for every error that carries the code of
/// its kind and whose data, if there is any, is not `null`.
pub proof fn lemma_decode_encode(error: ErrorModel)
    requires
        error.well_formed(),
        error.data != Some(JsonModel::Null),
    ensures
        decode_model(encode_model(error)) == Ok::<ErrorModel, DecodeError>(error),
{
    broadcast use lemma_member_after_put, lemma_member_after_put_optional;
    reveal_strlit("code");
    reveal_strlit("data");
    reveal_strlit("message");
    assert("code"@.len() == 4 && "data"@.len() == 4 && "message"@.len() == 7);
    assert("code"@[0] != "data"@[0]);
    let encoded = encode_model(error);
    assert(encoded.member("code"@) == Some(JsonModel::Integer(error.code)));
    assert(encoded.member("message"@) == Some(JsonModel::String(error.message)));
    assert(encoded.member("data"@) == error.data);
}

/// A value whose code is none of the eleven fixed codes is refused, whatever
/// else it holds.
pub proof fn lemma_unknown_code_is_refused(value: JsonModel, code: i64)
    requires
        value.member("code"@) == Some(JsonModel::Integer(code as int)),
        ErrorKind::of_code(code as int) is None,
    ensures
        decode_model(value) == Err::<ErrorModel, DecodeError>(DecodeError::UnknownCode(code)),
{
}

/// A decoded error carries the code of its kind.
pub proof fn lemma_decoded_is_well_formed(value: JsonModel)
    requires
        decode_model(value) is Ok,
    ensures
        decode_model(value)->Ok_0.well_formed(),
{
}

impl A2AError {
    /// An error of kind `kind` that carries `code`.
    pub fn from_parts(kind: ErrorKind, code: i32, message: String, data: Option<JsonValue>) -> (r:
        Self)
        ensures
            r@ == (ErrorModel {
                kind,
                code: code as int,
                message: message@,
                data: optional_view(data),
            }),
    {
        match kind {
            ErrorKind::JSONParse => A2AError::JSONParse(JSONParseError { code, message, data }),
            ErrorKind::InvalidRequest => A2AError::InvalidRequest(
                InvalidRequestError { code, message, data },
            ),
            ErrorKind::MethodNotFound => A2AError::MethodNotFound(
                MethodNotFoundError { code, message, data },
            ),
            ErrorKind::InvalidParams => A2AError::InvalidParams(
                InvalidParamsError { code, message, data },
            ),
            ErrorKind::Internal => A2AError::Internal(InternalError { code, message, data }),
            ErrorKind::TaskNotFound => A2AError::TaskNotFound(
                TaskNotFoundError { code, message, data },
            ),
            ErrorKind::TaskNotCancelable => A2AError::TaskNotCancelable(
                TaskNotCancelableError { code, message, data },
            ),
            ErrorKind::PushNotificationNotSupported => A2AError::PushNotificationNotSupported(
                PushNotificationNotSupportedError { code, message, data },
            ),
            ErrorKind::UnsupportedOperation => A2AError::UnsupportedOperation(
                UnsupportedOperationError { code, message, data },
            ),
            ErrorKind::ContentTypeNotSupported => A2AError::ContentTypeNotSupported(
                ContentTypeNotSupportedError { code, message, data },
            ),
            ErrorKind::InvalidAgentResponse => A2AError::InvalidAgentResponse(
                InvalidAgentResponseError { code, message, data },
            ),
        }
    }

    /// An error of kind `kind` with the code of that kind.
    pub fn new(kind: ErrorKind, message: String, data: Option<JsonValue>) -> (r: Self)
        ensures
            r@ == (ErrorModel {
                kind,
                code: kind.fixed_code(),
                message: message@,
                data: optional_view(data),
            }),
            r@.well_formed(),
    {
        Self::from_parts(kind, kind.code(), message, data)
    }

    /// The kind of the error.
    pub fn kind(&self) -> (r: ErrorKind)
        ensures
            r == self@.kind,
    {
        match self {
            A2AError::JSONParse(_) => ErrorKind::JSONParse,
            A2AError::InvalidRequest(_) => ErrorKind::InvalidRequest,
            A2AError::MethodNotFound(_) => ErrorKind::MethodNotFound,
            A2AError::InvalidParams(_) => ErrorKind::InvalidParams,
            A2AError::Internal(_) => ErrorKind::Internal,
            A2AError::TaskNotFound(_) => ErrorKind::TaskNotFound,
            A2AError::TaskNotCancelable(_) => ErrorKind::TaskNotCancelable,
            A2AError::PushNotificationNotSupported(_) => ErrorKind::PushNotificationNotSupported,
            A2AError::UnsupportedOperation(_) => ErrorKind::UnsupportedOperation,
            A2AError::ContentTypeNotSupported(_) => ErrorKind::ContentTypeNotSupported,
            A2AError::InvalidAgentResponse(_) => ErrorKind::InvalidAgentResponse,
        }
    }

    /// The code that the error carries.
    pub fn code(&self) -> (r: i32)
        ensures
            r == self@.code,
    {
        match self {
            A2AError::JSONParse(e) => e.code,
            A2AError::InvalidRequest(e) => e.code,
            A2AError::MethodNotFound(e) => e.code,
            A2AError::InvalidParams(e) => e.code,
            A2AError::Internal(e) => e.code,
            A2AError::TaskNotFound(e) => e.code,
            A2AError::TaskNotCancelable(e) => e.code,
            A2AError::PushNotificationNotSupported(e) => e.code,
            A2AError::UnsupportedOperation(e) => e.code,
            A2AError::ContentTypeNotSupported(e) => e.code,
            A2AError::InvalidAgentResponse(e) => e.code,
        }
    }

    /// The message of the error.
    pub fn message(&self) -> (r: &str)
        ensures
            r@ == self@.message,
    {
        match self {
            A2AError::JSONParse(e) => e.message.as_str(),
            A2AError::InvalidRequest(e) => e.message.as_str(),
            A2AError::MethodNotFound(e) => e.message.as_str(),
            A2AError::InvalidParams(e) => e.message.as_str(),
            A2AError::Internal(e) => e.message.as_str(),
            A2AError::TaskNotFound(e) => e.message.as_str(),
            A2AError::TaskNotCancelable(e) => e.message.as_str(),
            A2AError::PushNotificationNotSupported(e) => e.message.as_str(),
            A2AError::UnsupportedOperation(e) => e.message.as_str(),
            A2AError::ContentTypeNotSupported(e) => e.message.as_str(),
            A2AError::InvalidAgentResponse(e) => e.message.as_str(),
        }
    }

    /// What the error holds beside the message.
    pub fn data(&self) -> (r: &Option<JsonValue>)
        ensures
            optional_view(*r) == self@.data,
    {
        match self {
            A2AError::JSONParse(e) => &e.data,
            A2AError::InvalidRequest(e) => &e.data,
            A2AError::MethodNotFound(e) => &e.data,
            A2AError::InvalidParams(e) => &e.data,
            A2AError::Internal(e) => &e.data,
            A2AError::TaskNotFound(e) => &e.data,
            A2AError::TaskNotCancelable(e) => &e.data,
            A2AError::PushNotificationNotSupported(e) => &e.data,
            A2AError::UnsupportedOperation(e) => &e.data,
            A2AError::ContentTypeNotSupported(e) => &e.data,
            A2AError::InvalidAgentResponse(e) => &e.data,
        }
    }

    /// Reads an error from a JSON value. The member `code` is read first and
    /// decides the kind.
    pub fn decode(value: &JsonValue) -> (r: Result<A2AError, DecodeError>)
        ensures
            match r {
                Ok(error) => decode_model(value@) == Ok::<ErrorModel, DecodeError>(error@),
                Err(why) => decode_model(value@) == Err::<ErrorModel, DecodeError>(why),
            },
    {
        let code = match value.get("code") {
            Some(number) => match number.as_i64() {
                Some(code) => code,
                None => {
                    return Err(DecodeError::MissingField);
                },
            },
            None => {
                return Err(DecodeError::MissingField);
            },
        };
        let kind = match ErrorKind::from_code(code) {
            Some(kind) => kind,
            None => {
                return Err(DecodeError::UnknownCode(code));
            },
        };
        let message = match value.get("message") {
            Some(JsonValue::String(text)) => text.clone(),
            Some(_) => {
                return Err(DecodeError::WrongKind);
            },
            None => {
                return Err(DecodeError::MissingField);
            },
        };
        let data = match value.get("data") {
            Some(JsonValue::Null) => None,
            Some(other) => Some(other.clone()),
            None => None,
        };
        Ok(Self::from_parts(kind, code as i32, message, data))
    }

    /// Writes the error as a JSON value: the record of its kind, as it is.
    pub fn encode(&self) -> (r: JsonValue)
        ensures
            r@ == encode_model(self@),
    {
        match self {
            A2AError::JSONParse(e) => e.encode(),
            A2AError::InvalidRequest(e) => e.encode(),
            A2AError::MethodNotFound(e) => e.encode(),
            A2AError::InvalidParams(e) => e.encode(),
            A2AError::Internal(e) => e.encode(),
            A2AError::TaskNotFound(e) => e.encode(),
            A2AError::TaskNotCancelable(e) => e.encode(),
            A2AError::PushNotificationNotSupported(e) => e.encode(),
            A2AError::UnsupportedOperation(e) => e.encode(),
            A2AError::ContentTypeNotSupported(e) => e.encode(),
            A2AError::InvalidAgentResponse(e) => e.encode(),
        }
    }

    /// What a reader of the error is shown: the label of the kind, a colon
    /// and the message.
    pub fn to_string(&self) -> (r: String)
        ensures
            r@ == self@.text(),
    {
        let head = join(self.kind().name(), ": ");
        join(head.as_str(), self.message())
    }
}

} // verus!
