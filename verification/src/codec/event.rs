//! The streamed events on the wire.

use crate::codec::fields::{
    flag_of, get_present, json_of, lemma_member_after_put, lemma_member_after_put_optional,
    models, object_of, optional, push_member, put, put_optional, read_flag, read_json,
    read_text, required, string_of, text_of, DecodeError,
};
use crate::codec::task::{
    decode_artifact, decode_task_status, encode_artifact, encode_task_status,
    lemma_artifact_round_trip, lemma_task_status_round_trip, ArtifactModel, TaskStatusModel,
};
use crate::json::{JsonMember, JsonModel, JsonValue, MemberModel};
use crate::event::{TaskArtifactUpdateEvent, TaskStatusUpdateEvent};
use crate::task::{Artifact, TaskStatus};
use vstd::prelude::*;

verus! {

/// The model of an update on an artifact.
pub struct TaskArtifactUpdateEventModel {
    pub kind: Seq<char>,
    pub task_id: Seq<char>,
    pub context_id: Seq<char>,
    pub artifact: ArtifactModel,
    pub append: Option<bool>,
    pub last_chunk: Option<bool>,
    pub metadata: Option<JsonModel>,
}

impl DeepView for TaskArtifactUpdateEvent {
    type V = TaskArtifactUpdateEventModel;

    open spec fn deep_view(&self) -> TaskArtifactUpdateEventModel {
        TaskArtifactUpdateEventModel {
            kind: self.kind.deep_view(),
            task_id: self.task_id.deep_view(),
            context_id: self.context_id.deep_view(),
            artifact: self.artifact.deep_view(),
            append: self.append.deep_view(),
            last_chunk: self.last_chunk.deep_view(),
            metadata: self.metadata.deep_view(),
        }
    }
}

impl TaskArtifactUpdateEventModel {
    /// Whether the record comes back unchanged when it is written and read:
    /// no optional JSON value in it is `null`, which reads as a missing
    /// value.
    pub open spec fn representable(self) -> bool {
        &&& self.artifact.representable()
        &&& self.metadata != Some(JsonModel::Null)
    }
}

/// The object that is written for an update on an artifact.
pub open spec fn encode_task_artifact_update_event(
    record: TaskArtifactUpdateEventModel,
) -> JsonModel {
    let members = Seq::empty();
    let members = put(members, "kind"@, JsonModel::String(record.kind));
    let members = put(members, "taskId"@, JsonModel::String(record.task_id));
    let members = put(members, "contextId"@, JsonModel::String(record.context_id));
    let members = put(members, "artifact"@, encode_artifact(record.artifact));
    let members = put_optional(
        members,
        "append"@,
        match record.append {
            Some(item) => Some(JsonModel::Bool(item)),
            None => None,
        },
    );
    let members = put_optional(
        members,
        "lastChunk"@,
        match record.last_chunk {
            Some(item) => Some(JsonModel::Bool(item)),
            None => None,
        },
    );
    let members = put_optional(
        members,
        "metadata"@,
        record.metadata,
    );
    JsonModel::Object(members)
}

/// What an object stands for when it is read as an update on an artifact: the
/// record, or the first failure among its members in their order.
pub open spec fn decode_task_artifact_update_event(
    value: JsonModel,
) -> Result<TaskArtifactUpdateEventModel, DecodeError> {
    let kind = required(value, "kind"@, |v: JsonModel| text_of(v));
    let task_id = required(value, "taskId"@, |v: JsonModel| text_of(v));
    let context_id = required(value, "contextId"@, |v: JsonModel| text_of(v));
    let artifact = required(value, "artifact"@, |v: JsonModel| decode_artifact(v));
    let append = optional(value, "append"@, |v: JsonModel| flag_of(v));
    let last_chunk = optional(value, "lastChunk"@, |v: JsonModel| flag_of(v));
    let metadata = optional(value, "metadata"@, |v: JsonModel| json_of(v));
    if !(value is Object) {
        Err(DecodeError::WrongKind)
    } else if kind is Err {
        Err(kind->Err_0)
    } else if task_id is Err {
        Err(task_id->Err_0)
    } else if context_id is Err {
        Err(context_id->Err_0)
    } else if artifact is Err {
        Err(artifact->Err_0)
    } else if append is Err {
        Err(append->Err_0)
    } else if last_chunk is Err {
        Err(last_chunk->Err_0)
    } else if metadata is Err {
        Err(metadata->Err_0)
    } else {
        Ok(
            TaskArtifactUpdateEventModel {
                kind: kind->Ok_0,
                task_id: task_id->Ok_0,
                context_id: context_id->Ok_0,
                artifact: artifact->Ok_0,
                append: append->Ok_0,
                last_chunk: last_chunk->Ok_0,
                metadata: metadata->Ok_0,
            },
        )
    }
}

/// Reading what was written for an update on an artifact gives the record
/// back.
pub proof fn lemma_task_artifact_update_event_round_trip(record: TaskArtifactUpdateEventModel)
    requires
        record.representable(),
    ensures
        decode_task_artifact_update_event(encode_task_artifact_update_event(record))
            == Ok::<TaskArtifactUpdateEventModel, DecodeError>(record),
{
    broadcast use lemma_member_after_put, lemma_member_after_put_optional;
    reveal_strlit("kind");
    reveal_strlit("taskId");
    reveal_strlit("contextId");
    reveal_strlit("artifact");
    reveal_strlit("append");
    reveal_strlit("lastChunk");
    reveal_strlit("metadata");
    assert(
        "kind"@.len() == 4
            && "taskId"@.len() == 6
            && "contextId"@.len() == 9
            && "artifact"@.len() == 8
    );
    assert("append"@.len() == 6 && "lastChunk"@.len() == 9 && "metadata"@.len() == 8);
    assert("taskId"@[0] != "append"@[0]);
    assert("contextId"@[0] != "lastChunk"@[0]);
    assert("artifact"@[0] != "metadata"@[0]);
    lemma_artifact_round_trip(record.artifact);
    let value = encode_task_artifact_update_event(record);
    assert(value.member("kind"@) == Some(JsonModel::String(record.kind)));
    assert(value.member("taskId"@) == Some(JsonModel::String(record.task_id)));
    assert(value.member("contextId"@) == Some(JsonModel::String(record.context_id)));
    assert(value.member("artifact"@) == Some(encode_artifact(record.artifact)));
    assert(value.member("append"@) == match record.append {
        Some(item) => Some(JsonModel::Bool(item)),
        None => None,
    });
    assert(value.member("lastChunk"@) == match record.last_chunk {
        Some(item) => Some(JsonModel::Bool(item)),
        None => None,
    });
    assert(value.member("metadata"@) == record.metadata);
}

impl TaskArtifactUpdateEvent {
    /// Writes the record as a JSON value.
    pub fn encode(&self) -> (r: JsonValue)
        ensures
            r@ == encode_task_artifact_update_event(self.deep_view()),
    {
        let mut members: Vec<JsonMember> = Vec::new();
        assert(models(members@) =~= Seq::<MemberModel>::empty());
        push_member(&mut members, "kind", string_of(self.kind.as_str()));
        push_member(&mut members, "taskId", string_of(self.task_id.as_str()));
        push_member(&mut members, "contextId", string_of(self.context_id.as_str()));
        push_member(&mut members, "artifact", self.artifact.encode());
        match &self.append {
            Some(item) => {
                push_member(&mut members, "append", JsonValue::Bool(*item));
            },
            None => {},
        }
        match &self.last_chunk {
            Some(item) => {
                push_member(&mut members, "lastChunk", JsonValue::Bool(*item));
            },
            None => {},
        }
        match &self.metadata {
            Some(item) => {
                push_member(&mut members, "metadata", item.clone());
            },
            None => {},
        }
        object_of(members)
    }

    /// Reads the record from a JSON value.
    pub fn decode(value: &JsonValue) -> (r: Result<Self, DecodeError>)
        ensures
            match r {
                Ok(record) => decode_task_artifact_update_event(value@)
                    == Ok::<TaskArtifactUpdateEventModel, DecodeError>(
                    record.deep_view(),
                ),
                Err(e) => decode_task_artifact_update_event(value@)
                    == Err::<TaskArtifactUpdateEventModel, DecodeError>(e),
            },
    {
        if !value.is_object() {
            return Err(DecodeError::WrongKind);
        }
        let kind = match value.get("kind") {
            Some(v) => read_text(v)?,
            None => {
                return Err(DecodeError::MissingField);
            },
        };
        let task_id = match value.get("taskId") {
            Some(v) => read_text(v)?,
            None => {
                return Err(DecodeError::MissingField);
            },
        };
        let context_id = match value.get("contextId") {
            Some(v) => read_text(v)?,
            None => {
                return Err(DecodeError::MissingField);
            },
        };
        let artifact = match value.get("artifact") {
            Some(v) => Artifact::decode(v)?,
            None => {
                return Err(DecodeError::MissingField);
            },
        };
        let append = match get_present(value, "append") {
            Some(v) => Some(read_flag(v)?),
            None => None,
        };
        let last_chunk = match get_present(value, "lastChunk") {
            Some(v) => Some(read_flag(v)?),
            None => None,
        };
        let metadata = match get_present(value, "metadata") {
            Some(v) => Some(read_json(v)?),
            None => None,
        };
        Ok(
            TaskArtifactUpdateEvent {
                kind,
                task_id,
                context_id,
                artifact,
                append,
                last_chunk,
                metadata,
            },
        )
    }
}

/// The model of an update on a status.
pub struct TaskStatusUpdateEventModel {
    pub kind: Seq<char>,
    pub task_id: Seq<char>,
    pub context_id: Seq<char>,
    pub status: TaskStatusModel,
    pub final_event: bool,
    pub metadata: Option<JsonModel>,
}

impl DeepView for TaskStatusUpdateEvent {
    type V = TaskStatusUpdateEventModel;

    open spec fn deep_view(&self) -> TaskStatusUpdateEventModel {
        TaskStatusUpdateEventModel {
            kind: self.kind.deep_view(),
            task_id: self.task_id.deep_view(),
            context_id: self.context_id.deep_view(),
            status: self.status.deep_view(),
            final_event: self.final_event.deep_view(),
            metadata: self.metadata.deep_view(),
        }
    }
}

impl TaskStatusUpdateEventModel {
    /// Whether the record comes back unchanged when it is written and read:
    /// no optional JSON value in it is `null`, which reads as a missing
    /// value.
    pub open spec fn representable(self) -> bool {
        &&& self.status.representable()
        &&& self.metadata != Some(JsonModel::Null)
    }
}

/// The object that is written for an update on a status.
pub open spec fn encode_task_status_update_event(record: TaskStatusUpdateEventModel) -> JsonModel {
    let members = Seq::empty();
    let members = put(members, "kind"@, JsonModel::String(record.kind));
    let members = put(members, "taskId"@, JsonModel::String(record.task_id));
    let members = put(members, "contextId"@, JsonModel::String(record.context_id));
    let members = put(members, "status"@, encode_task_status(record.status));
    let members = put(members, "final"@, JsonModel::Bool(record.final_event));
    let members = put_optional(
        members,
        "metadata"@,
        record.metadata,
    );
    JsonModel::Object(members)
}

/// What an object stands for when it is read as an update on a status: the
/// record, or the first failure among its members in their order.
pub open spec fn decode_task_status_update_event(
    value: JsonModel,
) -> Result<TaskStatusUpdateEventModel, DecodeError> {
    let kind = required(value, "kind"@, |v: JsonModel| text_of(v));
    let task_id = required(value, "taskId"@, |v: JsonModel| text_of(v));
    let context_id = required(value, "contextId"@, |v: JsonModel| text_of(v));
    let status = required(value, "status"@, |v: JsonModel| decode_task_status(v));
    let final_event = required(value, "final"@, |v: JsonModel| flag_of(v));
    let metadata = optional(value, "metadata"@, |v: JsonModel| json_of(v));
    if !(value is Object) {
        Err(DecodeError::WrongKind)
    } else if kind is Err {
        Err(kind->Err_0)
    } else if task_id is Err {
        Err(task_id->Err_0)
    } else if context_id is Err {
        Err(context_id->Err_0)
    } else if status is Err {
        Err(status->Err_0)
    } else if final_event is Err {
        Err(final_event->Err_0)
    } else if metadata is Err {
        Err(metadata->Err_0)
    } else {
        Ok(
            TaskStatusUpdateEventModel {
                kind: kind->Ok_0,
                task_id: task_id->Ok_0,
                context_id: context_id->Ok_0,
                status: status->Ok_0,
                final_event: final_event->Ok_0,
                metadata: metadata->Ok_0,
            },
        )
    }
}

/// Reading what was written for an update on a status gives the record back.
pub proof fn lemma_task_status_update_event_round_trip(record: TaskStatusUpdateEventModel)
    requires
        record.representable(),
    ensures
        decode_task_status_update_event(encode_task_status_update_event(record))
            == Ok::<TaskStatusUpdateEventModel, DecodeError>(record),
{
    broadcast use lemma_member_after_put, lemma_member_after_put_optional;
    reveal_strlit("kind");
    reveal_strlit("taskId");
    reveal_strlit("contextId");
    reveal_strlit("status");
    reveal_strlit("final");
    reveal_strlit("metadata");
    assert(
        "kind"@.len() == 4
            && "taskId"@.len() == 6
            && "contextId"@.len() == 9
            && "status"@.len() == 6
    );
    assert("final"@.len() == 5 && "metadata"@.len() == 8);
    assert("taskId"@[0] != "status"@[0]);
    lemma_task_status_round_trip(record.status);
    let value = encode_task_status_update_event(record);
    assert(value.member("kind"@) == Some(JsonModel::String(record.kind)));
    assert(value.member("taskId"@) == Some(JsonModel::String(record.task_id)));
    assert(value.member("contextId"@) == Some(JsonModel::String(record.context_id)));
    assert(value.member("status"@) == Some(encode_task_status(record.status)));
    assert(value.member("final"@) == Some(JsonModel::Bool(record.final_event)));
    assert(value.member("metadata"@) == record.metadata);
}

impl TaskStatusUpdateEvent {
    /// Writes the record as a JSON value.
    pub fn encode(&self) -> (r: JsonValue)
        ensures
            r@ == encode_task_status_update_event(self.deep_view()),
    {
        let mut members: Vec<JsonMember> = Vec::new();
        assert(models(members@) =~= Seq::<MemberModel>::empty());
        push_member(&mut members, "kind", string_of(self.kind.as_str()));
        push_member(&mut members, "taskId", string_of(self.task_id.as_str()));
        push_member(&mut members, "contextId", string_of(self.context_id.as_str()));
        push_member(&mut members, "status", self.status.encode());
        push_member(&mut members, "final", JsonValue::Bool(self.final_event));
        match &self.metadata {
            Some(item) => {
                push_member(&mut members, "metadata", item.clone());
            },
            None => {},
        }
        object_of(members)
    }

    /// Reads the record from a JSON value.
    pub fn decode(value: &JsonValue) -> (r: Result<Self, DecodeError>)
        ensures
            match r {
                Ok(record) => decode_task_status_update_event(value@)
                    == Ok::<TaskStatusUpdateEventModel, DecodeError>(
                    record.deep_view(),
                ),
                Err(e) => decode_task_status_update_event(value@)
                    == Err::<TaskStatusUpdateEventModel, DecodeError>(e),
            },
    {
        if !value.is_object() {
            return Err(DecodeError::WrongKind);
        }
        let kind = match value.get("kind") {
            Some(v) => read_text(v)?,
            None => {
                return Err(DecodeError::MissingField);
            },
        };
        let task_id = match value.get("taskId") {
            Some(v) => read_text(v)?,
            None => {
                return Err(DecodeError::MissingField);
            },
        };
        let context_id = match value.get("contextId") {
            Some(v) => read_text(v)?,
            None => {
                return Err(DecodeError::MissingField);
            },
        };
        let status = match value.get("status") {
            Some(v) => TaskStatus::decode(v)?,
            None => {
                return Err(DecodeError::MissingField);
            },
        };
        let final_event = match value.get("final") {
            Some(v) => read_flag(v)?,
            None => {
                return Err(DecodeError::MissingField);
            },
        };
        let metadata = match get_present(value, "metadata") {
            Some(v) => Some(read_json(v)?),
            None => None,
        };
        Ok(TaskStatusUpdateEvent { kind, task_id, context_id, status, final_event, metadata })
    }
}

} // verus!
