//! Tasks, their statuses and their artifacts on the wire.

use crate::codec::fields::{
    array_of, decode_all, decode_texts, encode_texts, get_present, i32_of, integer_of, json_of,
    lemma_decode_all_encoded, lemma_decode_all_fails, lemma_decode_all_step,
    lemma_member_after_put, lemma_member_after_put_optional, lemma_texts_round_trip, models,
    object_of, optional, push_member, put, put_optional, read_i32, read_json, read_text,
    read_texts, required, string_of, text_of, write_texts, DecodeError,
};
use crate::codec::message::{
    decode_message, decode_message_list, decode_part_list, encode_message, encode_message_list,
    encode_part_list, lemma_message_list_round_trip, lemma_message_round_trip,
    lemma_part_list_round_trip, message_list_representable, part_list_representable,
    read_message_list, read_part_list, write_message_list, write_part_list, MessageModel,
    PartModel,
};
use crate::json::{JsonMember, JsonModel, JsonValue, MemberModel};
use crate::message::Message;
use crate::task::{A2AErrorResponse, Artifact, Task, TaskIdParams, TaskState, TaskStatus};
use crate::text::same_text;
use vstd::prelude::*;

verus! {

impl DeepView for TaskState {
    type V = TaskState;

    open spec fn deep_view(&self) -> TaskState {
        *self
    }
}

impl TaskState {
    /// The name of the value on the wire.
    pub open spec fn wire_name(self) -> Seq<char> {
        match self {
            TaskState::Submitted => "submitted"@,
            TaskState::Working => "working"@,
            TaskState::InputRequired => "input-required"@,
            TaskState::Completed => "completed"@,
            TaskState::Canceled => "canceled"@,
            TaskState::Failed => "failed"@,
            TaskState::Rejected => "rejected"@,
            TaskState::AuthRequired => "auth-required"@,
            TaskState::Unknown => "unknown"@,
        }
    }

    /// The value that a name on the wire stands for.
    pub open spec fn of_name(name: Seq<char>) -> Option<TaskState> {
        if name == "submitted"@ {
            Some(TaskState::Submitted)
        } else if name == "working"@ {
            Some(TaskState::Working)
        } else if name == "input-required"@ {
            Some(TaskState::InputRequired)
        } else if name == "completed"@ {
            Some(TaskState::Completed)
        } else if name == "canceled"@ {
            Some(TaskState::Canceled)
        } else if name == "failed"@ {
            Some(TaskState::Failed)
        } else if name == "rejected"@ {
            Some(TaskState::Rejected)
        } else if name == "auth-required"@ {
            Some(TaskState::AuthRequired)
        } else if name == "unknown"@ {
            Some(TaskState::Unknown)
        } else {
            None
        }
    }

    /// The name of the value on the wire.
    pub fn as_str(&self) -> (r: &'static str)
        ensures
            r@ == self.wire_name(),
    {
        match self {
            TaskState::Submitted => "submitted",
            TaskState::Working => "working",
            TaskState::InputRequired => "input-required",
            TaskState::Completed => "completed",
            TaskState::Canceled => "canceled",
            TaskState::Failed => "failed",
            TaskState::Rejected => "rejected",
            TaskState::AuthRequired => "auth-required",
            TaskState::Unknown => "unknown",
        }
    }

    /// The value that `s` names on the wire, if it names one.
    pub fn from_str(s: &str) -> (r: Option<Self>)
        ensures
            r == Self::of_name(s@),
    {
        if same_text(s, "submitted") {
            Some(TaskState::Submitted)
        } else if same_text(s, "working") {
            Some(TaskState::Working)
        } else if same_text(s, "input-required") {
            Some(TaskState::InputRequired)
        } else if same_text(s, "completed") {
            Some(TaskState::Completed)
        } else if same_text(s, "canceled") {
            Some(TaskState::Canceled)
        } else if same_text(s, "failed") {
            Some(TaskState::Failed)
        } else if same_text(s, "rejected") {
            Some(TaskState::Rejected)
        } else if same_text(s, "auth-required") {
            Some(TaskState::AuthRequired)
        } else if same_text(s, "unknown") {
            Some(TaskState::Unknown)
        } else {
            None
        }
    }
}

/// Reading the name that was written for the state of a task gives the value
/// back.
pub proof fn lemma_task_state_name_round_trip(value: TaskState)
    ensures
        TaskState::of_name(value.wire_name()) == Some(value),
{
    reveal_strlit("submitted");
    reveal_strlit("working");
    reveal_strlit("input-required");
    reveal_strlit("completed");
    reveal_strlit("canceled");
    reveal_strlit("failed");
    reveal_strlit("rejected");
    reveal_strlit("auth-required");
    reveal_strlit("unknown");
    assert(
        "submitted"@.len() == 9
            && "working"@.len() == 7
            && "input-required"@.len() == 14
            && "completed"@.len() == 9
    );
    assert(
        "canceled"@.len() == 8
            && "failed"@.len() == 6
            && "rejected"@.len() == 8
            && "auth-required"@.len() == 13
    );
    assert("unknown"@.len() == 7);
    assert("submitted"@[0] != "completed"@[0]);
    assert("working"@[0] != "unknown"@[0]);
    assert("canceled"@[0] != "rejected"@[0]);
}

/// The string that is written for the state of a task.
pub open spec fn encode_task_state(value: TaskState) -> JsonModel {
    JsonModel::String(value.wire_name())
}

/// What a JSON value stands for when it is read as the state of a task: the
/// value that the string names, if it is a string and names one.
pub open spec fn decode_task_state(value: JsonModel) -> Result<TaskState, DecodeError> {
    match value {
        JsonModel::String(name) => match TaskState::of_name(name) {
            Some(found) => Ok(found),
            None => Err(DecodeError::UnknownVariant),
        },
        _ => Err(DecodeError::WrongKind),
    }
}

/// Reading what was written for the state of a task gives the value back.
pub proof fn lemma_task_state_round_trip(value: TaskState)
    ensures
        decode_task_state(encode_task_state(value)) == Ok::<TaskState, DecodeError>(value),
{
    lemma_task_state_name_round_trip(value);
}

impl TaskState {
    /// Writes the value as a JSON string.
    pub fn encode(&self) -> (r: JsonValue)
        ensures
            r@ == encode_task_state(*self),
    {
        string_of(self.as_str())
    }

    /// Reads the value from a JSON string.
    pub fn decode(value: &JsonValue) -> (r: Result<Self, DecodeError>)
        ensures
            r == decode_task_state(value@),
    {
        match value {
            JsonValue::String(name) => match Self::from_str(name.as_str()) {
                Some(found) => Ok(found),
                None => Err(DecodeError::UnknownVariant),
            },
            _ => Err(DecodeError::WrongKind),
        }
    }
}

/// The model of the status of a task.
pub struct TaskStatusModel {
    pub state: TaskState,
    pub message: Option<MessageModel>,
    pub timestamp: Option<Seq<char>>,
}

impl DeepView for TaskStatus {
    type V = TaskStatusModel;

    open spec fn deep_view(&self) -> TaskStatusModel {
        TaskStatusModel {
            state: self.state.deep_view(),
            message: self.message.deep_view(),
            timestamp: self.timestamp.deep_view(),
        }
    }
}

impl TaskStatusModel {
    /// Whether the record comes back unchanged when it is written and read:
    /// no optional JSON value in it is `null`, which reads as a missing
    /// value.
    pub open spec fn representable(self) -> bool {
        &&& (self.message is Some ==> self.message->0.representable())
    }
}

/// The object that is written for the status of a task.
pub open spec fn encode_task_status(record: TaskStatusModel) -> JsonModel {
    let members = Seq::empty();
    let members = put(members, "state"@, encode_task_state(record.state));
    let members = put_optional(
        members,
        "message"@,
        match record.message {
            Some(item) => Some(encode_message(item)),
            None => None,
        },
    );
    let members = put_optional(
        members,
        "timestamp"@,
        match record.timestamp {
            Some(item) => Some(JsonModel::String(item)),
            None => None,
        },
    );
    JsonModel::Object(members)
}

/// What an object stands for when it is read as the status of a task: the
/// record, or the first failure among its members in their order.
pub open spec fn decode_task_status(value: JsonModel) -> Result<TaskStatusModel, DecodeError> {
    let state = required(value, "state"@, |v: JsonModel| decode_task_state(v));
    let message = optional(value, "message"@, |v: JsonModel| decode_message(v));
    let timestamp = optional(value, "timestamp"@, |v: JsonModel| text_of(v));
    if !(value is Object) {
        Err(DecodeError::WrongKind)
    } else if state is Err {
        Err(state->Err_0)
    } else if message is Err {
        Err(message->Err_0)
    } else if timestamp is Err {
        Err(timestamp->Err_0)
    } else {
        Ok(
            TaskStatusModel {
                state: state->Ok_0,
                message: message->Ok_0,
                timestamp: timestamp->Ok_0,
            },
        )
    }
}

/// Reading what was written for the status of a task gives the record back.
pub proof fn lemma_task_status_round_trip(record: TaskStatusModel)
    requires
        record.representable(),
    ensures
        decode_task_status(encode_task_status(record))
            == Ok::<TaskStatusModel, DecodeError>(record),
{
    broadcast use lemma_member_after_put, lemma_member_after_put_optional;
    reveal_strlit("state");
    reveal_strlit("message");
    reveal_strlit("timestamp");
    assert("state"@.len() == 5 && "message"@.len() == 7 && "timestamp"@.len() == 9);
    lemma_task_state_round_trip(record.state);
    if record.message is Some {
        lemma_message_round_trip(record.message->0);
    }
    let value = encode_task_status(record);
    assert(value.member("state"@) == Some(encode_task_state(record.state)));
    assert(value.member("message"@) == match record.message {
        Some(item) => Some(encode_message(item)),
        None => None,
    });
    assert(value.member("timestamp"@) == match record.timestamp {
        Some(item) => Some(JsonModel::String(item)),
        None => None,
    });
}

impl TaskStatus {
    /// Writes the record as a JSON value.
    pub fn encode(&self) -> (r: JsonValue)
        ensures
            r@ == encode_task_status(self.deep_view()),
    {
        let mut members: Vec<JsonMember> = Vec::new();
        assert(models(members@) =~= Seq::<MemberModel>::empty());
        push_member(&mut members, "state", self.state.encode());
        match &self.message {
            Some(item) => {
                push_member(&mut members, "message", item.encode());
            },
            None => {},
        }
        match &self.timestamp {
            Some(item) => {
                push_member(&mut members, "timestamp", string_of(item.as_str()));
            },
            None => {},
        }
        object_of(members)
    }

    /// Reads the record from a JSON value.
    pub fn decode(value: &JsonValue) -> (r: Result<Self, DecodeError>)
        ensures
            match r {
                Ok(record) => decode_task_status(value@) == Ok::<TaskStatusModel, DecodeError>(
                    record.deep_view(),
                ),
                Err(e) => decode_task_status(value@) == Err::<TaskStatusModel, DecodeError>(e),
            },
    {
        if !value.is_object() {
            return Err(DecodeError::WrongKind);
        }
        let state = match value.get("state") {
            Some(v) => TaskState::decode(v)?,
            None => {
                return Err(DecodeError::MissingField);
            },
        };
        let message = match get_present(value, "message") {
            Some(v) => Some(Message::decode(v)?),
            None => None,
        };
        let timestamp = match get_present(value, "timestamp") {
            Some(v) => Some(read_text(v)?),
            None => None,
        };
        Ok(TaskStatus { state, message, timestamp })
    }
}

/// What writes the status of a task.
pub open spec fn task_status_encoder() -> spec_fn(TaskStatusModel) -> JsonModel {
    |item: TaskStatusModel| encode_task_status(item)
}

/// What reads the status of a task.
pub open spec fn task_status_decoder(
) -> spec_fn(JsonModel) -> Result<TaskStatusModel, DecodeError> {
    |value: JsonModel| decode_task_status(value)
}

/// The array that is written for a list of statuses.
pub open spec fn encode_task_status_list(items: Seq<TaskStatusModel>) -> JsonModel {
    JsonModel::Array(items.map_values(task_status_encoder()))
}

/// What an array stands for when it is read as a list of statuses.
pub open spec fn decode_task_status_list(
    value: JsonModel,
) -> Result<Seq<TaskStatusModel>, DecodeError> {
    array_of(value, task_status_decoder())
}

/// Every item of the list comes back unchanged when it is written and read.
pub open spec fn task_status_list_representable(items: Seq<TaskStatusModel>) -> bool {
    forall|i: int| 0 <= i < items.len() ==> (#[trigger] items[i]).representable()
}

/// Reading what was written for a list of statuses gives the list back.
pub proof fn lemma_task_status_list_round_trip(items: Seq<TaskStatusModel>)
    requires
        task_status_list_representable(items),
    ensures
        decode_task_status_list(encode_task_status_list(items))
            == Ok::<Seq<TaskStatusModel>, DecodeError>(items),
{
    assert forall|i: int| 0 <= i < items.len() implies task_status_decoder()(
        task_status_encoder()(#[trigger] items[i]),
    ) == Ok::<TaskStatusModel, DecodeError>(items[i]) by {
        lemma_task_status_round_trip(items[i]);
    }
    lemma_decode_all_encoded(items, task_status_encoder(), task_status_decoder());
}

/// Writes a list of statuses as a JSON array.
pub fn write_task_status_list(items: &Vec<TaskStatus>) -> (r: JsonValue)
    ensures
        r@ == encode_task_status_list(items.deep_view()),
{
    let mut out: Vec<JsonValue> = Vec::new();
    let mut i: usize = 0;
    while i < items.len()
        invariant
            i <= items@.len(),
            out@.len() == i,
            forall|j: int|
                0 <= j < i ==> (#[trigger] out@[j])@ == encode_task_status(items@[j].deep_view()),
        decreases items@.len() - i,
    {
        out.push(items[i].encode());
        i += 1;
    }
    let r = JsonValue::Array(out);
    assert(r@->Array_0 =~= items.deep_view().map_values(task_status_encoder()));
    r
}

/// Reads a list of statuses from a JSON array.
pub fn read_task_status_list(value: &JsonValue) -> (r: Result<Vec<TaskStatus>, DecodeError>)
    ensures
        match r {
            Ok(items) => decode_task_status_list(value@) == Ok::<Seq<TaskStatusModel>, DecodeError>(
                items.deep_view(),
            ),
            Err(e) => decode_task_status_list(value@)
                == Err::<Seq<TaskStatusModel>, DecodeError>(e),
        },
{
    match value {
        JsonValue::Array(values) => {
            let ghost all = value@->Array_0;
            let mut out: Vec<TaskStatus> = Vec::new();
            let mut i: usize = 0;
            assert(all.subrange(0, 0) =~= Seq::<JsonModel>::empty());
            assert(out.deep_view() =~= Seq::<TaskStatusModel>::empty());
            while i < values.len()
                invariant
                    i <= values@.len(),
                    value@ == JsonModel::Array(all),
                    all.len() == values@.len(),
                    forall|j: int| 0 <= j < all.len() ==> all[j] == (#[trigger] values@[j])@,
                    decode_all(all.subrange(0, i as int), task_status_decoder()) == Ok::<
                        Seq<TaskStatusModel>,
                        DecodeError,
                    >(out.deep_view()),
                decreases values@.len() - i,
            {
                let ghost before = out.deep_view();
                match TaskStatus::decode(&values[i]) {
                    Ok(item) => {
                        proof {
                            lemma_decode_all_step(all, task_status_decoder(), i as int);
                        }
                        out.push(item);
                        assert(out.deep_view() =~= before.push(item.deep_view()));
                    },
                    Err(e) => {
                        proof {
                            lemma_decode_all_fails(all, task_status_decoder(), i as int);
                        }
                        return Err(e);
                    },
                }
                i += 1;
            }
            assert(all.subrange(0, i as int) =~= all);
            Ok(out)
        },
        _ => Err(DecodeError::WrongKind),
    }
}

/// The model of the error that a task records.
pub struct A2AErrorResponseModel {
    pub code: i32,
    pub message: Seq<char>,
    pub data: Option<JsonModel>,
}

impl DeepView for A2AErrorResponse {
    type V = A2AErrorResponseModel;

    open spec fn deep_view(&self) -> A2AErrorResponseModel {
        A2AErrorResponseModel {
            code: self.code.deep_view(),
            message: self.message.deep_view(),
            data: self.data.deep_view(),
        }
    }
}

impl A2AErrorResponseModel {
    /// Whether the record comes back unchanged when it is written and read:
    /// no optional JSON value in it is `null`, which reads as a missing
    /// value.
    pub open spec fn representable(self) -> bool {
        &&& self.data != Some(JsonModel::Null)
    }
}

/// The object that is written for the error that a task records.
pub open spec fn encode_error_response(record: A2AErrorResponseModel) -> JsonModel {
    let members = Seq::empty();
    let members = put(members, "code"@, JsonModel::Integer(record.code as int));
    let members = put(members, "message"@, JsonModel::String(record.message));
    let members = put_optional(
        members,
        "data"@,
        record.data,
    );
    JsonModel::Object(members)
}

/// What an object stands for when it is read as the error that a task
/// records: the record, or the first failure among its members in their
/// order.
pub open spec fn decode_error_response(
    value: JsonModel,
) -> Result<A2AErrorResponseModel, DecodeError> {
    let code = required(value, "code"@, |v: JsonModel| i32_of(v));
    let message = required(value, "message"@, |v: JsonModel| text_of(v));
    let data = optional(value, "data"@, |v: JsonModel| json_of(v));
    if !(value is Object) {
        Err(DecodeError::WrongKind)
    } else if code is Err {
        Err(code->Err_0)
    } else if message is Err {
        Err(message->Err_0)
    } else if data is Err {
        Err(data->Err_0)
    } else {
        Ok(A2AErrorResponseModel { code: code->Ok_0, message: message->Ok_0, data: data->Ok_0 })
    }
}

/// Reading what was written for the error that a task records gives the
/// record back.
pub proof fn lemma_error_response_round_trip(record: A2AErrorResponseModel)
    requires
        record.representable(),
    ensures
        decode_error_response(encode_error_response(record))
            == Ok::<A2AErrorResponseModel, DecodeError>(record),
{
    broadcast use lemma_member_after_put, lemma_member_after_put_optional;
    reveal_strlit("code");
    reveal_strlit("message");
    reveal_strlit("data");
    assert("code"@.len() == 4 && "message"@.len() == 7 && "data"@.len() == 4);
    assert("code"@[0] != "data"@[0]);
    let value = encode_error_response(record);
    assert(value.member("code"@) == Some(JsonModel::Integer(record.code as int)));
    assert(value.member("message"@) == Some(JsonModel::String(record.message)));
    assert(value.member("data"@) == record.data);
}

impl A2AErrorResponse {
    /// Writes the record as a JSON value.
    pub fn encode(&self) -> (r: JsonValue)
        ensures
            r@ == encode_error_response(self.deep_view()),
    {
        let mut members: Vec<JsonMember> = Vec::new();
        assert(models(members@) =~= Seq::<MemberModel>::empty());
        push_member(&mut members, "code", integer_of(self.code));
        push_member(&mut members, "message", string_of(self.message.as_str()));
        match &self.data {
            Some(item) => {
                push_member(&mut members, "data", item.clone());
            },
            None => {},
        }
        object_of(members)
    }

    /// Reads the record from a JSON value.
    pub fn decode(value: &JsonValue) -> (r: Result<Self, DecodeError>)
        ensures
            match r {
                Ok(record) => decode_error_response(value@)
                    == Ok::<A2AErrorResponseModel, DecodeError>(
                    record.deep_view(),
                ),
                Err(e) => decode_error_response(value@)
                    == Err::<A2AErrorResponseModel, DecodeError>(e),
            },
    {
        if !value.is_object() {
            return Err(DecodeError::WrongKind);
        }
        let code = match value.get("code") {
            Some(v) => read_i32(v)?,
            None => {
                return Err(DecodeError::MissingField);
            },
        };
        let message = match value.get("message") {
            Some(v) => read_text(v)?,
            None => {
                return Err(DecodeError::MissingField);
            },
        };
        let data = match get_present(value, "data") {
            Some(v) => Some(read_json(v)?),
            None => None,
        };
        Ok(A2AErrorResponse { code, message, data })
    }
}

/// The model of an artifact.
pub struct ArtifactModel {
    pub artifact_id: Seq<char>,
    pub parts: Seq<PartModel>,
    pub description: Option<Seq<char>>,
    pub extensions: Option<Seq<Seq<char>>>,
    pub metadata: Option<JsonModel>,
    pub name: Option<Seq<char>>,
}

impl DeepView for Artifact {
    type V = ArtifactModel;

    open spec fn deep_view(&self) -> ArtifactModel {
        ArtifactModel {
            artifact_id: self.artifact_id.deep_view(),
            parts: self.parts.deep_view(),
            description: self.description.deep_view(),
            extensions: self.extensions.deep_view(),
            metadata: self.metadata.deep_view(),
            name: self.name.deep_view(),
        }
    }
}

impl ArtifactModel {
    /// Whether the record comes back unchanged when it is written and read:
    /// no optional JSON value in it is `null`, which reads as a missing
    /// value.
    pub open spec fn representable(self) -> bool {
        &&& part_list_representable(self.parts)
        &&& self.metadata != Some(JsonModel::Null)
    }
}

/// The object that is written for an artifact.
pub open spec fn encode_artifact(record: ArtifactModel) -> JsonModel {
    let members = Seq::empty();
    let members = put(members, "artifactId"@, JsonModel::String(record.artifact_id));
    let members = put(members, "parts"@, encode_part_list(record.parts));
    let members = put_optional(
        members,
        "description"@,
        match record.description {
            Some(item) => Some(JsonModel::String(item)),
            None => None,
        },
    );
    let members = put_optional(
        members,
        "extensions"@,
        match record.extensions {
            Some(item) => Some(encode_texts(item)),
            None => None,
        },
    );
    let members = put_optional(
        members,
        "metadata"@,
        record.metadata,
    );
    let members = put_optional(
        members,
        "name"@,
        match record.name {
            Some(item) => Some(JsonModel::String(item)),
            None => None,
        },
    );
    JsonModel::Object(members)
}

/// What an object stands for when it is read as an artifact: the record, or
/// the first failure among its members in their order.
pub open spec fn decode_artifact(value: JsonModel) -> Result<ArtifactModel, DecodeError> {
    let artifact_id = required(value, "artifactId"@, |v: JsonModel| text_of(v));
    let parts = required(value, "parts"@, |v: JsonModel| decode_part_list(v));
    let description = optional(value, "description"@, |v: JsonModel| text_of(v));
    let extensions = optional(value, "extensions"@, |v: JsonModel| decode_texts(v));
    let metadata = optional(value, "metadata"@, |v: JsonModel| json_of(v));
    let name = optional(value, "name"@, |v: JsonModel| text_of(v));
    if !(value is Object) {
        Err(DecodeError::WrongKind)
    } else if artifact_id is Err {
        Err(artifact_id->Err_0)
    } else if parts is Err {
        Err(parts->Err_0)
    } else if description is Err {
        Err(description->Err_0)
    } else if extensions is Err {
        Err(extensions->Err_0)
    } else if metadata is Err {
        Err(metadata->Err_0)
    } else if name is Err {
        Err(name->Err_0)
    } else {
        Ok(
            ArtifactModel {
                artifact_id: artifact_id->Ok_0,
                parts: parts->Ok_0,
                description: description->Ok_0,
                extensions: extensions->Ok_0,
                metadata: metadata->Ok_0,
                name: name->Ok_0,
            },
        )
    }
}

/// Reading what was written for an artifact gives the record back.
pub proof fn lemma_artifact_round_trip(record: ArtifactModel)
    requires
        record.representable(),
    ensures
        decode_artifact(encode_artifact(record)) == Ok::<ArtifactModel, DecodeError>(record),
{
    broadcast use lemma_member_after_put, lemma_member_after_put_optional;
    reveal_strlit("artifactId");
    reveal_strlit("parts");
    reveal_strlit("description");
    reveal_strlit("extensions");
    reveal_strlit("metadata");
    reveal_strlit("name");
    assert(
        "artifactId"@.len() == 10
            && "parts"@.len() == 5
            && "description"@.len() == 11
            && "extensions"@.len() == 10
    );
    assert("metadata"@.len() == 8 && "name"@.len() == 4);
    assert("artifactId"@[0] != "extensions"@[0]);
    lemma_part_list_round_trip(record.parts);
    if record.extensions is Some {
        lemma_texts_round_trip(record.extensions->0);
    }
    let value = encode_artifact(record);
    assert(value.member("artifactId"@) == Some(JsonModel::String(record.artifact_id)));
    assert(value.member("parts"@) == Some(encode_part_list(record.parts)));
    assert(value.member("description"@) == match record.description {
        Some(item) => Some(JsonModel::String(item)),
        None => None,
    });
    assert(value.member("extensions"@) == match record.extensions {
        Some(item) => Some(encode_texts(item)),
        None => None,
    });
    assert(value.member("metadata"@) == record.metadata);
    assert(value.member("name"@) == match record.name {
        Some(item) => Some(JsonModel::String(item)),
        None => None,
    });
}

impl Artifact {
    /// Writes the record as a JSON value.
    pub fn encode(&self) -> (r: JsonValue)
        ensures
            r@ == encode_artifact(self.deep_view()),
    {
        let mut members: Vec<JsonMember> = Vec::new();
        assert(models(members@) =~= Seq::<MemberModel>::empty());
        push_member(&mut members, "artifactId", string_of(self.artifact_id.as_str()));
        push_member(&mut members, "parts", write_part_list(&self.parts));
        match &self.description {
            Some(item) => {
                push_member(&mut members, "description", string_of(item.as_str()));
            },
            None => {},
        }
        match &self.extensions {
            Some(item) => {
                push_member(&mut members, "extensions", write_texts(item));
            },
            None => {},
        }
        match &self.metadata {
            Some(item) => {
                push_member(&mut members, "metadata", item.clone());
            },
            None => {},
        }
        match &self.name {
            Some(item) => {
                push_member(&mut members, "name", string_of(item.as_str()));
            },
            None => {},
        }
        object_of(members)
    }

    /// Reads the record from a JSON value.
    pub fn decode(value: &JsonValue) -> (r: Result<Self, DecodeError>)
        ensures
            match r {
                Ok(record) => decode_artifact(value@) == Ok::<ArtifactModel, DecodeError>(
                    record.deep_view(),
                ),
                Err(e) => decode_artifact(value@) == Err::<ArtifactModel, DecodeError>(e),
            },
    {
        if !value.is_object() {
            return Err(DecodeError::WrongKind);
        }
        let artifact_id = match value.get("artifactId") {
            Some(v) => read_text(v)?,
            None => {
                return Err(DecodeError::MissingField);
            },
        };
        let parts = match value.get("parts") {
            Some(v) => read_part_list(v)?,
            None => {
                return Err(DecodeError::MissingField);
            },
        };
        let description = match get_present(value, "description") {
            Some(v) => Some(read_text(v)?),
            None => None,
        };
        let extensions = match get_present(value, "extensions") {
            Some(v) => Some(read_texts(v)?),
            None => None,
        };
        let metadata = match get_present(value, "metadata") {
            Some(v) => Some(read_json(v)?),
            None => None,
        };
        let name = match get_present(value, "name") {
            Some(v) => Some(read_text(v)?),
            None => None,
        };
        Ok(Artifact { artifact_id, parts, description, extensions, metadata, name })
    }
}

/// What writes an artifact.
pub open spec fn artifact_encoder() -> spec_fn(ArtifactModel) -> JsonModel {
    |item: ArtifactModel| encode_artifact(item)
}

/// What reads an artifact.
pub open spec fn artifact_decoder() -> spec_fn(JsonModel) -> Result<ArtifactModel, DecodeError> {
    |value: JsonModel| decode_artifact(value)
}

/// The array that is written for a list of artifacts.
pub open spec fn encode_artifact_list(items: Seq<ArtifactModel>) -> JsonModel {
    JsonModel::Array(items.map_values(artifact_encoder()))
}

/// What an array stands for when it is read as a list of artifacts.
pub open spec fn decode_artifact_list(value: JsonModel) -> Result<Seq<ArtifactModel>, DecodeError> {
    array_of(value, artifact_decoder())
}

/// Every item of the list comes back unchanged when it is written and read.
pub open spec fn artifact_list_representable(items: Seq<ArtifactModel>) -> bool {
    forall|i: int| 0 <= i < items.len() ==> (#[trigger] items[i]).representable()
}

/// Reading what was written for a list of artifacts gives the list back.
pub proof fn lemma_artifact_list_round_trip(items: Seq<ArtifactModel>)
    requires
        artifact_list_representable(items),
    ensures
        decode_artifact_list(encode_artifact_list(items))
            == Ok::<Seq<ArtifactModel>, DecodeError>(items),
{
    assert forall|i: int| 0 <= i < items.len() implies artifact_decoder()(
        artifact_encoder()(#[trigger] items[i]),
    ) == Ok::<ArtifactModel, DecodeError>(items[i]) by {
        lemma_artifact_round_trip(items[i]);
    }
    lemma_decode_all_encoded(items, artifact_encoder(), artifact_decoder());
}

/// Writes a list of artifacts as a JSON array.
pub fn write_artifact_list(items: &Vec<Artifact>) -> (r: JsonValue)
    ensures
        r@ == encode_artifact_list(items.deep_view()),
{
    let mut out: Vec<JsonValue> = Vec::new();
    let mut i: usize = 0;
    while i < items.len()
        invariant
            i <= items@.len(),
            out@.len() == i,
            forall|j: int|
                0 <= j < i ==> (#[trigger] out@[j])@ == encode_artifact(items@[j].deep_view()),
        decreases items@.len() - i,
    {
        out.push(items[i].encode());
        i += 1;
    }
    let r = JsonValue::Array(out);
    assert(r@->Array_0 =~= items.deep_view().map_values(artifact_encoder()));
    r
}

/// Reads a list of artifacts from a JSON array.
pub fn read_artifact_list(value: &JsonValue) -> (r: Result<Vec<Artifact>, DecodeError>)
    ensures
        match r {
            Ok(items) => decode_artifact_list(value@) == Ok::<Seq<ArtifactModel>, DecodeError>(
                items.deep_view(),
            ),
            Err(e) => decode_artifact_list(value@) == Err::<Seq<ArtifactModel>, DecodeError>(e),
        },
{
    match value {
        JsonValue::Array(values) => {
            let ghost all = value@->Array_0;
            let mut out: Vec<Artifact> = Vec::new();
            let mut i: usize = 0;
            assert(all.subrange(0, 0) =~= Seq::<JsonModel>::empty());
            assert(out.deep_view() =~= Seq::<ArtifactModel>::empty());
            while i < values.len()
                invariant
                    i <= values@.len(),
                    value@ == JsonModel::Array(all),
                    all.len() == values@.len(),
                    forall|j: int| 0 <= j < all.len() ==> all[j] == (#[trigger] values@[j])@,
                    decode_all(all.subrange(0, i as int), artifact_decoder()) == Ok::<
                        Seq<ArtifactModel>,
                        DecodeError,
                    >(out.deep_view()),
                decreases values@.len() - i,
            {
                let ghost before = out.deep_view();
                match Artifact::decode(&values[i]) {
                    Ok(item) => {
                        proof {
                            lemma_decode_all_step(all, artifact_decoder(), i as int);
                        }
                        out.push(item);
                        assert(out.deep_view() =~= before.push(item.deep_view()));
                    },
                    Err(e) => {
                        proof {
                            lemma_decode_all_fails(all, artifact_decoder(), i as int);
                        }
                        return Err(e);
                    },
                }
                i += 1;
            }
            assert(all.subrange(0, i as int) =~= all);
            Ok(out)
        },
        _ => Err(DecodeError::WrongKind),
    }
}

/// The model of a task.
pub struct TaskModel {
    pub id: Seq<char>,
    pub kind: Seq<char>,
    pub status: TaskStatusModel,
    pub context_id: Seq<char>,
    pub artifacts: Option<Seq<ArtifactModel>>,
    pub history: Option<Seq<MessageModel>>,
    pub metadata: Option<JsonModel>,
    pub result: Option<JsonModel>,
    pub error: Option<A2AErrorResponseModel>,
    pub created_at: Option<Seq<char>>,
    pub updated_at: Option<Seq<char>>,
    pub status_history: Option<Seq<TaskStatusModel>>,
}

impl DeepView for Task {
    type V = TaskModel;

    open spec fn deep_view(&self) -> TaskModel {
        TaskModel {
            id: self.id.deep_view(),
            kind: self.kind.deep_view(),
            status: self.status.deep_view(),
            context_id: self.context_id.deep_view(),
            artifacts: self.artifacts.deep_view(),
            history: self.history.deep_view(),
            metadata: self.metadata.deep_view(),
            result: self.result.deep_view(),
            error: self.error.deep_view(),
            created_at: self.created_at.deep_view(),
            updated_at: self.updated_at.deep_view(),
            status_history: self.status_history.deep_view(),
        }
    }
}

impl TaskModel {
    /// Whether the record comes back unchanged when it is written and read:
    /// no optional JSON value in it is `null`, which reads as a missing
    /// value.
    pub open spec fn representable(self) -> bool {
        &&& self.status.representable()
        &&& (self.artifacts is Some ==> artifact_list_representable(self.artifacts->0))
        &&& (self.history is Some ==> message_list_representable(self.history->0))
        &&& self.metadata != Some(JsonModel::Null)
        &&& self.result != Some(JsonModel::Null)
        &&& (self.error is Some ==> self.error->0.representable())
        &&& (self.status_history is Some ==> task_status_list_representable(self.status_history->0))
    }
}

/// The object that is written for a task.
pub open spec fn encode_task(record: TaskModel) -> JsonModel {
    let members = Seq::empty();
    let members = put(members, "id"@, JsonModel::String(record.id));
    let members = put(members, "kind"@, JsonModel::String(record.kind));
    let members = put(members, "status"@, encode_task_status(record.status));
    let members = put(members, "contextId"@, JsonModel::String(record.context_id));
    let members = put_optional(
        members,
        "artifacts"@,
        match record.artifacts {
            Some(item) => Some(encode_artifact_list(item)),
            None => None,
        },
    );
    let members = put_optional(
        members,
        "history"@,
        match record.history {
            Some(item) => Some(encode_message_list(item)),
            None => None,
        },
    );
    let members = put_optional(
        members,
        "metadata"@,
        record.metadata,
    );
    let members = put_optional(
        members,
        "result"@,
        record.result,
    );
    let members = put_optional(
        members,
        "error"@,
        match record.error {
            Some(item) => Some(encode_error_response(item)),
            None => None,
        },
    );
    let members = put_optional(
        members,
        "createdAt"@,
        match record.created_at {
            Some(item) => Some(JsonModel::String(item)),
            None => None,
        },
    );
    let members = put_optional(
        members,
        "updatedAt"@,
        match record.updated_at {
            Some(item) => Some(JsonModel::String(item)),
            None => None,
        },
    );
    let members = put_optional(
        members,
        "statusHistory"@,
        match record.status_history {
            Some(item) => Some(encode_task_status_list(item)),
            None => None,
        },
    );
    JsonModel::Object(members)
}

/// What an object stands for when it is read as a task: the record, or the
/// first failure among its members in their order.
pub open spec fn decode_task(value: JsonModel) -> Result<TaskModel, DecodeError> {
    let id = required(value, "id"@, |v: JsonModel| text_of(v));
    let kind = required(value, "kind"@, |v: JsonModel| text_of(v));
    let status = required(value, "status"@, |v: JsonModel| decode_task_status(v));
    let context_id = required(value, "contextId"@, |v: JsonModel| text_of(v));
    let artifacts = optional(value, "artifacts"@, |v: JsonModel| decode_artifact_list(v));
    let history = optional(value, "history"@, |v: JsonModel| decode_message_list(v));
    let metadata = optional(value, "metadata"@, |v: JsonModel| json_of(v));
    let result = optional(value, "result"@, |v: JsonModel| json_of(v));
    let error = optional(value, "error"@, |v: JsonModel| decode_error_response(v));
    let created_at = optional(value, "createdAt"@, |v: JsonModel| text_of(v));
    let updated_at = optional(value, "updatedAt"@, |v: JsonModel| text_of(v));
    let status_history = optional(
        value,
        "statusHistory"@,
        |v: JsonModel| decode_task_status_list(v),
    );
    if !(value is Object) {
        Err(DecodeError::WrongKind)
    } else if id is Err {
        Err(id->Err_0)
    } else if kind is Err {
        Err(kind->Err_0)
    } else if status is Err {
        Err(status->Err_0)
    } else if context_id is Err {
        Err(context_id->Err_0)
    } else if artifacts is Err {
        Err(artifacts->Err_0)
    } else if history is Err {
        Err(history->Err_0)
    } else if metadata is Err {
        Err(metadata->Err_0)
    } else if result is Err {
        Err(result->Err_0)
    } else if error is Err {
        Err(error->Err_0)
    } else if created_at is Err {
        Err(created_at->Err_0)
    } else if updated_at is Err {
        Err(updated_at->Err_0)
    } else if status_history is Err {
        Err(status_history->Err_0)
    } else {
        Ok(
            TaskModel {
                id: id->Ok_0,
                kind: kind->Ok_0,
                status: status->Ok_0,
                context_id: context_id->Ok_0,
                artifacts: artifacts->Ok_0,
                history: history->Ok_0,
                metadata: metadata->Ok_0,
                result: result->Ok_0,
                error: error->Ok_0,
                created_at: created_at->Ok_0,
                updated_at: updated_at->Ok_0,
                status_history: status_history->Ok_0,
            },
        )
    }
}

/// Reading what was written for a task gives the record back.
pub proof fn lemma_task_round_trip(record: TaskModel)
    requires
        record.representable(),
    ensures
        decode_task(encode_task(record)) == Ok::<TaskModel, DecodeError>(record),
{
    broadcast use lemma_member_after_put, lemma_member_after_put_optional;
    reveal_strlit("id");
    reveal_strlit("kind");
    reveal_strlit("status");
    reveal_strlit("contextId");
    reveal_strlit("artifacts");
    reveal_strlit("history");
    reveal_strlit("metadata");
    reveal_strlit("result");
    reveal_strlit("error");
    reveal_strlit("createdAt");
    reveal_strlit("updatedAt");
    reveal_strlit("statusHistory");
    assert(
        "id"@.len() == 2
            && "kind"@.len() == 4
            && "status"@.len() == 6
            && "contextId"@.len() == 9
    );
    assert(
        "artifacts"@.len() == 9
            && "history"@.len() == 7
            && "metadata"@.len() == 8
            && "result"@.len() == 6
    );
    assert(
        "error"@.len() == 5
            && "createdAt"@.len() == 9
            && "updatedAt"@.len() == 9
            && "statusHistory"@.len() == 13
    );
    assert("status"@[0] != "result"@[0]);
    assert("contextId"@[0] != "artifacts"@[0]);
    assert("contextId"@[1] != "createdAt"@[1]);
    assert("contextId"@[0] != "updatedAt"@[0]);
    assert("artifacts"@[0] != "createdAt"@[0]);
    assert("artifacts"@[0] != "updatedAt"@[0]);
    assert("createdAt"@[0] != "updatedAt"@[0]);
    lemma_task_status_round_trip(record.status);
    if record.artifacts is Some {
        lemma_artifact_list_round_trip(record.artifacts->0);
    }
    if record.history is Some {
        lemma_message_list_round_trip(record.history->0);
    }
    if record.error is Some {
        lemma_error_response_round_trip(record.error->0);
    }
    if record.status_history is Some {
        lemma_task_status_list_round_trip(record.status_history->0);
    }
    let value = encode_task(record);
    assert(value.member("id"@) == Some(JsonModel::String(record.id)));
    assert(value.member("kind"@) == Some(JsonModel::String(record.kind)));
    assert(value.member("status"@) == Some(encode_task_status(record.status)));
    assert(value.member("contextId"@) == Some(JsonModel::String(record.context_id)));
    assert(value.member("artifacts"@) == match record.artifacts {
        Some(item) => Some(encode_artifact_list(item)),
        None => None,
    });
    assert(value.member("history"@) == match record.history {
        Some(item) => Some(encode_message_list(item)),
        None => None,
    });
    assert(value.member("metadata"@) == record.metadata);
    assert(value.member("result"@) == record.result);
    assert(value.member("error"@) == match record.error {
        Some(item) => Some(encode_error_response(item)),
        None => None,
    });
    assert(value.member("createdAt"@) == match record.created_at {
        Some(item) => Some(JsonModel::String(item)),
        None => None,
    });
    assert(value.member("updatedAt"@) == match record.updated_at {
        Some(item) => Some(JsonModel::String(item)),
        None => None,
    });
    assert(value.member("statusHistory"@) == match record.status_history {
        Some(item) => Some(encode_task_status_list(item)),
        None => None,
    });
}

impl Task {
    /// Writes the record as a JSON value.
    pub fn encode(&self) -> (r: JsonValue)
        ensures
            r@ == encode_task(self.deep_view()),
    {
        let mut members: Vec<JsonMember> = Vec::new();
        assert(models(members@) =~= Seq::<MemberModel>::empty());
        push_member(&mut members, "id", string_of(self.id.as_str()));
        push_member(&mut members, "kind", string_of(self.kind.as_str()));
        push_member(&mut members, "status", self.status.encode());
        push_member(&mut members, "contextId", string_of(self.context_id.as_str()));
        match &self.artifacts {
            Some(item) => {
                push_member(&mut members, "artifacts", write_artifact_list(item));
            },
            None => {},
        }
        match &self.history {
            Some(item) => {
                push_member(&mut members, "history", write_message_list(item));
            },
            None => {},
        }
        match &self.metadata {
            Some(item) => {
                push_member(&mut members, "metadata", item.clone());
            },
            None => {},
        }
        match &self.result {
            Some(item) => {
                push_member(&mut members, "result", item.clone());
            },
            None => {},
        }
        match &self.error {
            Some(item) => {
                push_member(&mut members, "error", item.encode());
            },
            None => {},
        }
        match &self.created_at {
            Some(item) => {
                push_member(&mut members, "createdAt", string_of(item.as_str()));
            },
            None => {},
        }
        match &self.updated_at {
            Some(item) => {
                push_member(&mut members, "updatedAt", string_of(item.as_str()));
            },
            None => {},
        }
        match &self.status_history {
            Some(item) => {
                push_member(&mut members, "statusHistory", write_task_status_list(item));
            },
            None => {},
        }
        object_of(members)
    }

    /// Reads the record from a JSON value.
    pub fn decode(value: &JsonValue) -> (r: Result<Self, DecodeError>)
        ensures
            match r {
                Ok(record) => decode_task(value@) == Ok::<TaskModel, DecodeError>(
                    record.deep_view(),
                ),
                Err(e) => decode_task(value@) == Err::<TaskModel, DecodeError>(e),
            },
    {
        if !value.is_object() {
            return Err(DecodeError::WrongKind);
        }
        let id = match value.get("id") {
            Some(v) => read_text(v)?,
            None => {
                return Err(DecodeError::MissingField);
            },
        };
        let kind = match value.get("kind") {
            Some(v) => read_text(v)?,
            None => {
                return Err(DecodeError::MissingField);
            },
        };
        let status = match value.get("status") {
            Some(v) => TaskStatus::decode(v)?,
            None => {
                return Err(DecodeError::MissingField);
            },
        };
        let context_id = match value.get("contextId") {
            Some(v) => read_text(v)?,
            None => {
                return Err(DecodeError::MissingField);
            },
        };
        let artifacts = match get_present(value, "artifacts") {
            Some(v) => Some(read_artifact_list(v)?),
            None => None,
        };
        let history = match get_present(value, "history") {
            Some(v) => Some(read_message_list(v)?),
            None => None,
        };
        let metadata = match get_present(value, "metadata") {
            Some(v) => Some(read_json(v)?),
            None => None,
        };
        let result = match get_present(value, "result") {
            Some(v) => Some(read_json(v)?),
            None => None,
        };
        let error = match get_present(value, "error") {
            Some(v) => Some(A2AErrorResponse::decode(v)?),
            None => None,
        };
        let created_at = match get_present(value, "createdAt") {
            Some(v) => Some(read_text(v)?),
            None => None,
        };
        let updated_at = match get_present(value, "updatedAt") {
            Some(v) => Some(read_text(v)?),
            None => None,
        };
        let status_history = match get_present(value, "statusHistory") {
            Some(v) => Some(read_task_status_list(v)?),
            None => None,
        };
        Ok(
            Task {
                id,
                kind,
                status,
                context_id,
                artifacts,
                history,
                metadata,
                result,
                error,
                created_at,
                updated_at,
                status_history,
            },
        )
    }
}

/// The model of the parameters that name a task.
pub struct TaskIdParamsModel {
    pub id: Seq<char>,
    pub metadata: Option<JsonModel>,
}

impl DeepView for TaskIdParams {
    type V = TaskIdParamsModel;

    open spec fn deep_view(&self) -> TaskIdParamsModel {
        TaskIdParamsModel {
            id: self.id.deep_view(),
            metadata: self.metadata.deep_view(),
        }
    }
}

impl TaskIdParamsModel {
    /// Whether the record comes back unchanged when it is written and read:
    /// no optional JSON value in it is `null`, which reads as a missing
    /// value.
    pub open spec fn representable(self) -> bool {
        &&& self.metadata != Some(JsonModel::Null)
    }
}

/// The object that is written for the parameters that name a task.
pub open spec fn encode_task_id_params(record: TaskIdParamsModel) -> JsonModel {
    let members = Seq::empty();
    let members = put(members, "id"@, JsonModel::String(record.id));
    let members = put_optional(
        members,
        "metadata"@,
        record.metadata,
    );
    JsonModel::Object(members)
}

/// What an object stands for when it is read as the parameters that name a
/// task: the record, or the first failure among its members in their order.
pub open spec fn decode_task_id_params(value: JsonModel) -> Result<TaskIdParamsModel, DecodeError> {
    let id = required(value, "id"@, |v: JsonModel| text_of(v));
    let metadata = optional(value, "metadata"@, |v: JsonModel| json_of(v));
    if !(value is Object) {
        Err(DecodeError::WrongKind)
    } else if id is Err {
        Err(id->Err_0)
    } else if metadata is Err {
        Err(metadata->Err_0)
    } else {
        Ok(TaskIdParamsModel { id: id->Ok_0, metadata: metadata->Ok_0 })
    }
}

/// Reading what was written for the parameters that name a task gives the
/// record back.
pub proof fn lemma_task_id_params_round_trip(record: TaskIdParamsModel)
    requires
        record.representable(),
    ensures
        decode_task_id_params(encode_task_id_params(record))
            == Ok::<TaskIdParamsModel, DecodeError>(record),
{
    broadcast use lemma_member_after_put, lemma_member_after_put_optional;
    reveal_strlit("id");
    reveal_strlit("metadata");
    assert("id"@.len() == 2 && "metadata"@.len() == 8);
    let value = encode_task_id_params(record);
    assert(value.member("id"@) == Some(JsonModel::String(record.id)));
    assert(value.member("metadata"@) == record.metadata);
}

impl TaskIdParams {
    /// Writes the record as a JSON value.
    pub fn encode(&self) -> (r: JsonValue)
        ensures
            r@ == encode_task_id_params(self.deep_view()),
    {
        let mut members: Vec<JsonMember> = Vec::new();
        assert(models(members@) =~= Seq::<MemberModel>::empty());
        push_member(&mut members, "id", string_of(self.id.as_str()));
        match &self.metadata {
            Some(item) => {
                push_member(&mut members, "metadata", item.clone());
            },
            None => {},
        }
        object_of(members)
    }

    /// Reads the record from a JSON value.
    pub fn decode(value: &JsonValue) -> (r: Result<Self, DecodeError>)
        ensures
            match r {
                Ok(record) => decode_task_id_params(value@) == Ok::<TaskIdParamsModel, DecodeError>(
                    record.deep_view(),
                ),
                Err(e) => decode_task_id_params(value@) == Err::<TaskIdParamsModel, DecodeError>(e),
            },
    {
        if !value.is_object() {
            return Err(DecodeError::WrongKind);
        }
        let id = match value.get("id") {
            Some(v) => read_text(v)?,
            None => {
                return Err(DecodeError::MissingField);
            },
        };
        let metadata = match get_present(value, "metadata") {
            Some(v) => Some(read_json(v)?),
            None => None,
        };
        Ok(TaskIdParams { id, metadata })
    }
}

} // verus!
