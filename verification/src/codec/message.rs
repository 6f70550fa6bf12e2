//! Messages and their parts on the wire.

use crate::codec::fields::{
    array_of, decode_all, decode_texts, encode_texts, get_present, json_of,
    lemma_decode_all_encoded, lemma_decode_all_fails, lemma_decode_all_step,
    lemma_member_after_put, lemma_member_after_put_optional, lemma_texts_round_trip, models,
    object_of, optional, push_member, put, put_optional, read_json, read_text, read_texts,
    required, string_of, text_of, write_texts, DecodeError,
};
use crate::json::{last_named, JsonMember, JsonModel, JsonValue, MemberModel};
use crate::message::{
    DataPart, FileContent, FilePart, FileWithBytes, FileWithUri, Message, MessageRole, Part,
    TextPart,
};
use crate::text::same_text;
use vstd::prelude::*;

verus! {

impl DeepView for MessageRole {
    type V = MessageRole;

    open spec fn deep_view(&self) -> MessageRole {
        *self
    }
}

impl MessageRole {
    /// The name of the value on the wire.
    pub open spec fn wire_name(self) -> Seq<char> {
        match self {
            MessageRole::Agent => "agent"@,
            MessageRole::User => "user"@,
        }
    }

    /// The value that a name on the wire stands for.
    pub open spec fn of_name(name: Seq<char>) -> Option<MessageRole> {
        if name == "agent"@ {
            Some(MessageRole::Agent)
        } else if name == "user"@ {
            Some(MessageRole::User)
        } else {
            None
        }
    }

    /// The name of the value on the wire.
    pub fn as_str(&self) -> (r: &'static str)
        ensures
            r@ == self.wire_name(),
    {
        match self {
            MessageRole::Agent => "agent",
            MessageRole::User => "user",
        }
    }

    /// The value that `s` names on the wire, if it names one.
    pub fn from_str(s: &str) -> (r: Option<Self>)
        ensures
            r == Self::of_name(s@),
    {
        if same_text(s, "agent") {
            Some(MessageRole::Agent)
        } else if same_text(s, "user") {
            Some(MessageRole::User)
        } else {
            None
        }
    }
}

/// Reading the name that was written for the role of a sender gives the value
/// back.
pub proof fn lemma_message_role_name_round_trip(value: MessageRole)
    ensures
        MessageRole::of_name(value.wire_name()) == Some(value),
{
    reveal_strlit("agent");
    reveal_strlit("user");
    assert("agent"@.len() == 5 && "user"@.len() == 4);
}

/// The string that is written for the role of a sender.
pub open spec fn encode_message_role(value: MessageRole) -> JsonModel {
    JsonModel::String(value.wire_name())
}

/// What a JSON value stands for when it is read as the role of a sender: the
/// value that the string names, if it is a string and names one.
pub open spec fn decode_message_role(value: JsonModel) -> Result<MessageRole, DecodeError> {
    match value {
        JsonModel::String(name) => match MessageRole::of_name(name) {
            Some(found) => Ok(found),
            None => Err(DecodeError::UnknownVariant),
        },
        _ => Err(DecodeError::WrongKind),
    }
}

/// Reading what was written for the role of a sender gives the value back.
pub proof fn lemma_message_role_round_trip(value: MessageRole)
    ensures
        decode_message_role(encode_message_role(value)) == Ok::<MessageRole, DecodeError>(value),
{
    lemma_message_role_name_round_trip(value);
}

impl MessageRole {
    /// Writes the value as a JSON string.
    pub fn encode(&self) -> (r: JsonValue)
        ensures
            r@ == encode_message_role(*self),
    {
        string_of(self.as_str())
    }

    /// Reads the value from a JSON string.
    pub fn decode(value: &JsonValue) -> (r: Result<Self, DecodeError>)
        ensures
            r == decode_message_role(value@),
    {
        match value {
            JsonValue::String(name) => match Self::from_str(name.as_str()) {
                Some(found) => Ok(found),
                None => Err(DecodeError::UnknownVariant),
            },
            _ => Err(DecodeError::WrongKind),
        }
    }
}

/// The model of a file with inline content.
pub struct FileWithBytesModel {
    pub bytes: Seq<char>,
    pub name: Option<Seq<char>>,
    pub mime_type: Option<Seq<char>>,
}

impl DeepView for FileWithBytes {
    type V = FileWithBytesModel;

    open spec fn deep_view(&self) -> FileWithBytesModel {
        FileWithBytesModel {
            bytes: self.bytes.deep_view(),
            name: self.name.deep_view(),
            mime_type: self.mime_type.deep_view(),
        }
    }
}

/// The object that is written for a file with inline content.
pub open spec fn encode_file_with_bytes(record: FileWithBytesModel) -> JsonModel {
    let members = Seq::empty();
    let members = put(members, "bytes"@, JsonModel::String(record.bytes));
    let members = put_optional(
        members,
        "name"@,
        match record.name {
            Some(item) => Some(JsonModel::String(item)),
            None => None,
        },
    );
    let members = put_optional(
        members,
        "mimeType"@,
        match record.mime_type {
            Some(item) => Some(JsonModel::String(item)),
            None => None,
        },
    );
    JsonModel::Object(members)
}

/// What an object stands for when it is read as a file with inline content:
/// the record, or the first failure among its members in their order.
pub open spec fn decode_file_with_bytes(
    value: JsonModel,
) -> Result<FileWithBytesModel, DecodeError> {
    let bytes = required(value, "bytes"@, |v: JsonModel| text_of(v));
    let name = optional(value, "name"@, |v: JsonModel| text_of(v));
    let mime_type = optional(value, "mimeType"@, |v: JsonModel| text_of(v));
    if !(value is Object) {
        Err(DecodeError::WrongKind)
    } else if bytes is Err {
        Err(bytes->Err_0)
    } else if name is Err {
        Err(name->Err_0)
    } else if mime_type is Err {
        Err(mime_type->Err_0)
    } else {
        Ok(FileWithBytesModel { bytes: bytes->Ok_0, name: name->Ok_0, mime_type: mime_type->Ok_0 })
    }
}

/// Reading what was written for a file with inline content gives the record
/// back.
pub proof fn lemma_file_with_bytes_round_trip(record: FileWithBytesModel)
    ensures
        decode_file_with_bytes(encode_file_with_bytes(record))
            == Ok::<FileWithBytesModel, DecodeError>(record),
{
    broadcast use lemma_member_after_put, lemma_member_after_put_optional;
    reveal_strlit("bytes");
    reveal_strlit("name");
    reveal_strlit("mimeType");
    assert("bytes"@.len() == 5 && "name"@.len() == 4 && "mimeType"@.len() == 8);
    let value = encode_file_with_bytes(record);
    assert(value.member("bytes"@) == Some(JsonModel::String(record.bytes)));
    assert(value.member("name"@) == match record.name {
        Some(item) => Some(JsonModel::String(item)),
        None => None,
    });
    assert(value.member("mimeType"@) == match record.mime_type {
        Some(item) => Some(JsonModel::String(item)),
        None => None,
    });
}

impl FileWithBytes {
    /// Writes the record as a JSON value.
    pub fn encode(&self) -> (r: JsonValue)
        ensures
            r@ == encode_file_with_bytes(self.deep_view()),
    {
        let mut members: Vec<JsonMember> = Vec::new();
        assert(models(members@) =~= Seq::<MemberModel>::empty());
        push_member(&mut members, "bytes", string_of(self.bytes.as_str()));
        match &self.name {
            Some(item) => {
                push_member(&mut members, "name", string_of(item.as_str()));
            },
            None => {},
        }
        match &self.mime_type {
            Some(item) => {
                push_member(&mut members, "mimeType", string_of(item.as_str()));
            },
            None => {},
        }
        object_of(members)
    }

    /// Reads the record from a JSON value.
    pub fn decode(value: &JsonValue) -> (r: Result<Self, DecodeError>)
        ensures
            match r {
                Ok(record) => decode_file_with_bytes(value@)
                    == Ok::<FileWithBytesModel, DecodeError>(
                    record.deep_view(),
                ),
                Err(e) => decode_file_with_bytes(value@)
                    == Err::<FileWithBytesModel, DecodeError>(e),
            },
    {
        if !value.is_object() {
            return Err(DecodeError::WrongKind);
        }
        let bytes = match value.get("bytes") {
            Some(v) => read_text(v)?,
            None => {
                return Err(DecodeError::MissingField);
            },
        };
        let name = match get_present(value, "name") {
            Some(v) => Some(read_text(v)?),
            None => None,
        };
        let mime_type = match get_present(value, "mimeType") {
            Some(v) => Some(read_text(v)?),
            None => None,
        };
        Ok(FileWithBytes { bytes, name, mime_type })
    }
}

/// The model of a file found at a URI.
pub struct FileWithUriModel {
    pub uri: Seq<char>,
    pub name: Option<Seq<char>>,
    pub mime_type: Option<Seq<char>>,
}

impl DeepView for FileWithUri {
    type V = FileWithUriModel;

    open spec fn deep_view(&self) -> FileWithUriModel {
        FileWithUriModel {
            uri: self.uri.deep_view(),
            name: self.name.deep_view(),
            mime_type: self.mime_type.deep_view(),
        }
    }
}

/// The object that is written for a file found at a URI.
pub open spec fn encode_file_with_uri(record: FileWithUriModel) -> JsonModel {
    let members = Seq::empty();
    let members = put(members, "uri"@, JsonModel::String(record.uri));
    let members = put_optional(
        members,
        "name"@,
        match record.name {
            Some(item) => Some(JsonModel::String(item)),
            None => None,
        },
    );
    let members = put_optional(
        members,
        "mimeType"@,
        match record.mime_type {
            Some(item) => Some(JsonModel::String(item)),
            None => None,
        },
    );
    JsonModel::Object(members)
}

/// What an object stands for when it is read as a file found at a URI: the
/// record, or the first failure among its members in their order.
pub open spec fn decode_file_with_uri(value: JsonModel) -> Result<FileWithUriModel, DecodeError> {
    let uri = required(value, "uri"@, |v: JsonModel| text_of(v));
    let name = optional(value, "name"@, |v: JsonModel| text_of(v));
    let mime_type = optional(value, "mimeType"@, |v: JsonModel| text_of(v));
    if !(value is Object) {
        Err(DecodeError::WrongKind)
    } else if uri is Err {
        Err(uri->Err_0)
    } else if name is Err {
        Err(name->Err_0)
    } else if mime_type is Err {
        Err(mime_type->Err_0)
    } else {
        Ok(FileWithUriModel { uri: uri->Ok_0, name: name->Ok_0, mime_type: mime_type->Ok_0 })
    }
}

/// Reading what was written for a file found at a URI gives the record back.
pub proof fn lemma_file_with_uri_round_trip(record: FileWithUriModel)
    ensures
        decode_file_with_uri(encode_file_with_uri(record))
            == Ok::<FileWithUriModel, DecodeError>(record),
{
    broadcast use lemma_member_after_put, lemma_member_after_put_optional;
    reveal_strlit("uri");
    reveal_strlit("name");
    reveal_strlit("mimeType");
    assert("uri"@.len() == 3 && "name"@.len() == 4 && "mimeType"@.len() == 8);
    let value = encode_file_with_uri(record);
    assert(value.member("uri"@) == Some(JsonModel::String(record.uri)));
    assert(value.member("name"@) == match record.name {
        Some(item) => Some(JsonModel::String(item)),
        None => None,
    });
    assert(value.member("mimeType"@) == match record.mime_type {
        Some(item) => Some(JsonModel::String(item)),
        None => None,
    });
}

impl FileWithUri {
    /// Writes the record as a JSON value.
    pub fn encode(&self) -> (r: JsonValue)
        ensures
            r@ == encode_file_with_uri(self.deep_view()),
    {
        let mut members: Vec<JsonMember> = Vec::new();
        assert(models(members@) =~= Seq::<MemberModel>::empty());
        push_member(&mut members, "uri", string_of(self.uri.as_str()));
        match &self.name {
            Some(item) => {
                push_member(&mut members, "name", string_of(item.as_str()));
            },
            None => {},
        }
        match &self.mime_type {
            Some(item) => {
                push_member(&mut members, "mimeType", string_of(item.as_str()));
            },
            None => {},
        }
        object_of(members)
    }

    /// Reads the record from a JSON value.
    pub fn decode(value: &JsonValue) -> (r: Result<Self, DecodeError>)
        ensures
            match r {
                Ok(record) => decode_file_with_uri(value@) == Ok::<FileWithUriModel, DecodeError>(
                    record.deep_view(),
                ),
                Err(e) => decode_file_with_uri(value@) == Err::<FileWithUriModel, DecodeError>(e),
            },
    {
        if !value.is_object() {
            return Err(DecodeError::WrongKind);
        }
        let uri = match value.get("uri") {
            Some(v) => read_text(v)?,
            None => {
                return Err(DecodeError::MissingField);
            },
        };
        let name = match get_present(value, "name") {
            Some(v) => Some(read_text(v)?),
            None => None,
        };
        let mime_type = match get_present(value, "mimeType") {
            Some(v) => Some(read_text(v)?),
            None => None,
        };
        Ok(FileWithUri { uri, name, mime_type })
    }
}

/// The model of the content of a file.
pub enum FileContentModel {
    WithBytes(FileWithBytesModel),
    WithUri(FileWithUriModel),
}

impl DeepView for FileContent {
    type V = FileContentModel;

    open spec fn deep_view(&self) -> FileContentModel {
        match self {
            FileContent::WithBytes(inner) => FileContentModel::WithBytes(inner.deep_view()),
            FileContent::WithUri(inner) => FileContentModel::WithUri(inner.deep_view()),
        }
    }
}

/// The object that is written for the content of a file: that of the variant,
/// with nothing that says which variant it is.
pub open spec fn encode_file_content(value: FileContentModel) -> JsonModel {
    match value {
        FileContentModel::WithBytes(inner) => encode_file_with_bytes(inner),
        FileContentModel::WithUri(inner) => encode_file_with_uri(inner),
    }
}

/// What an object stands for when it is read as the content of a file: the
/// first of the variants `WithBytes`, `WithUri` as which it can be read; if
/// there is none, it is refused.
pub open spec fn decode_file_content(value: JsonModel) -> Result<FileContentModel, DecodeError> {
    if decode_file_with_bytes(value) is Ok {
        Ok(FileContentModel::WithBytes(decode_file_with_bytes(value)->Ok_0))
    } else if decode_file_with_uri(value) is Ok {
        Ok(FileContentModel::WithUri(decode_file_with_uri(value)->Ok_0))
    } else {
        Err(DecodeError::UnknownVariant)
    }
}

/// Reading what was written for the content of a file gives the value back.
pub proof fn lemma_file_content_round_trip(value: FileContentModel)
    ensures
        decode_file_content(encode_file_content(value))
            == Ok::<FileContentModel, DecodeError>(value),
{
    broadcast use lemma_member_after_put, lemma_member_after_put_optional;
    reveal_strlit("bytes");
    reveal_strlit("name");
    reveal_strlit("mimeType");
    reveal_strlit("uri");
    assert(
        "bytes"@.len() == 5
            && "name"@.len() == 4
            && "mimeType"@.len() == 8
            && "uri"@.len() == 3
    );
    match value {
        FileContentModel::WithBytes(inner) => {
            lemma_file_with_bytes_round_trip(inner);
        },
        FileContentModel::WithUri(inner) => {
            lemma_file_with_uri_round_trip(inner);
            assert(encode_file_with_uri(inner).member("bytes"@) is None);
            assert(decode_file_with_bytes(encode_file_with_uri(inner)) is Err);
        },
    }
}

impl FileContent {
    /// Writes the value as a JSON value.
    pub fn encode(&self) -> (r: JsonValue)
        ensures
            r@ == encode_file_content(self.deep_view()),
    {
        match self {
            FileContent::WithBytes(inner) => inner.encode(),
            FileContent::WithUri(inner) => inner.encode(),
        }
    }

    /// Reads the value from a JSON value.
    pub fn decode(value: &JsonValue) -> (r: Result<Self, DecodeError>)
        ensures
            match r {
                Ok(found) => decode_file_content(value@)
                    == Ok::<FileContentModel, DecodeError>(found.deep_view()),
                Err(e) => decode_file_content(value@) == Err::<FileContentModel, DecodeError>(e),
            },
    {
        match FileWithBytes::decode(value) {
            Ok(inner) => {
                return Ok(FileContent::WithBytes(inner));
            },
            Err(_) => {},
        }
        match FileWithUri::decode(value) {
            Ok(inner) => {
                return Ok(FileContent::WithUri(inner));
            },
            Err(_) => {},
        }
        Err(DecodeError::UnknownVariant)
    }
}

/// The model of a text part.
pub struct TextPartModel {
    pub text: Seq<char>,
    pub metadata: Option<JsonModel>,
}

impl DeepView for TextPart {
    type V = TextPartModel;

    open spec fn deep_view(&self) -> TextPartModel {
        TextPartModel {
            text: self.text.deep_view(),
            metadata: self.metadata.deep_view(),
        }
    }
}

impl TextPartModel {
    /// Whether the record comes back unchanged when it is written and read:
    /// no optional JSON value in it is `null`, which reads as a missing
    /// value.
    pub open spec fn representable(self) -> bool {
        &&& self.metadata != Some(JsonModel::Null)
    }
}

/// The members that are written for a text part, after the members `base`.
pub open spec fn text_part_members(
    record: TextPartModel,
    base: Seq<MemberModel>,
) -> Seq<MemberModel> {
    let members = base;
    let members = put(members, "text"@, JsonModel::String(record.text));
    let members = put_optional(
        members,
        "metadata"@,
        record.metadata,
    );
    members
}

/// The object that is written for a text part.
pub open spec fn encode_text_part(record: TextPartModel) -> JsonModel {
    JsonModel::Object(text_part_members(record, Seq::empty()))
}

/// What an object stands for when it is read as a text part: the record, or
/// the first failure among its members in their order.
pub open spec fn decode_text_part(value: JsonModel) -> Result<TextPartModel, DecodeError> {
    let text = required(value, "text"@, |v: JsonModel| text_of(v));
    let metadata = optional(value, "metadata"@, |v: JsonModel| json_of(v));
    if !(value is Object) {
        Err(DecodeError::WrongKind)
    } else if text is Err {
        Err(text->Err_0)
    } else if metadata is Err {
        Err(metadata->Err_0)
    } else {
        Ok(TextPartModel { text: text->Ok_0, metadata: metadata->Ok_0 })
    }
}

/// Reading what was written for a text part gives the record back, whatever
/// members stand before its own, as long as none of them has one of its
/// names.
pub proof fn lemma_text_part_round_trip_after(record: TextPartModel, base: Seq<MemberModel>)
    requires
        record.representable(),
        last_named(base, "text"@) is None,
        last_named(base, "metadata"@) is None,
    ensures
        decode_text_part(JsonModel::Object(text_part_members(record, base)))
            == Ok::<TextPartModel, DecodeError>(record),
        forall|key: Seq<char>|
            key != "text"@ && key != "metadata"@ ==> last_named(
                text_part_members(record, base),
                key,
            ) == last_named(base, key),
{
    broadcast use lemma_member_after_put, lemma_member_after_put_optional;
    reveal_strlit("text");
    reveal_strlit("metadata");
    assert("text"@.len() == 4 && "metadata"@.len() == 8);
    let value = JsonModel::Object(text_part_members(record, base));
    assert(value.member("text"@) == Some(JsonModel::String(record.text)));
    assert(value.member("metadata"@) == record.metadata);
}

/// Reading what was written for a text part gives the record back.
pub proof fn lemma_text_part_round_trip(record: TextPartModel)
    requires
        record.representable(),
    ensures
        decode_text_part(encode_text_part(record)) == Ok::<TextPartModel, DecodeError>(record),
{
    lemma_text_part_round_trip_after(record, Seq::empty());
}

impl TextPart {
    /// Adds the members of the record to `members`.
    pub fn encode_into(&self, members: &mut Vec<JsonMember>)
        ensures
            models(final(members)@) == text_part_members(self.deep_view(), models(old(members)@)),
    {
        push_member(members, "text", string_of(self.text.as_str()));
        match &self.metadata {
            Some(item) => {
                push_member(members, "metadata", item.clone());
            },
            None => {},
        }
    }

    /// Writes the record as a JSON value.
    pub fn encode(&self) -> (r: JsonValue)
        ensures
            r@ == encode_text_part(self.deep_view()),
    {
        let mut members: Vec<JsonMember> = Vec::new();
        assert(models(members@) =~= Seq::<MemberModel>::empty());
        self.encode_into(&mut members);
        object_of(members)
    }

    /// Reads the record from a JSON value.
    pub fn decode(value: &JsonValue) -> (r: Result<Self, DecodeError>)
        ensures
            match r {
                Ok(record) => decode_text_part(value@) == Ok::<TextPartModel, DecodeError>(
                    record.deep_view(),
                ),
                Err(e) => decode_text_part(value@) == Err::<TextPartModel, DecodeError>(e),
            },
    {
        if !value.is_object() {
            return Err(DecodeError::WrongKind);
        }
        let text = match value.get("text") {
            Some(v) => read_text(v)?,
            None => {
                return Err(DecodeError::MissingField);
            },
        };
        let metadata = match get_present(value, "metadata") {
            Some(v) => Some(read_json(v)?),
            None => None,
        };
        Ok(TextPart { text, metadata })
    }
}

/// The model of a file part.
pub struct FilePartModel {
    pub file: FileContentModel,
    pub metadata: Option<JsonModel>,
}

impl DeepView for FilePart {
    type V = FilePartModel;

    open spec fn deep_view(&self) -> FilePartModel {
        FilePartModel {
            file: self.file.deep_view(),
            metadata: self.metadata.deep_view(),
        }
    }
}

impl FilePartModel {
    /// Whether the record comes back unchanged when it is written and read:
    /// no optional JSON value in it is `null`, which reads as a missing
    /// value.
    pub open spec fn representable(self) -> bool {
        &&& self.metadata != Some(JsonModel::Null)
    }
}

/// The members that are written for a file part, after the members `base`.
pub open spec fn file_part_members(
    record: FilePartModel,
    base: Seq<MemberModel>,
) -> Seq<MemberModel> {
    let members = base;
    let members = put(members, "file"@, encode_file_content(record.file));
    let members = put_optional(
        members,
        "metadata"@,
        record.metadata,
    );
    members
}

/// The object that is written for a file part.
pub open spec fn encode_file_part(record: FilePartModel) -> JsonModel {
    JsonModel::Object(file_part_members(record, Seq::empty()))
}

/// What an object stands for when it is read as a file part: the record, or
/// the first failure among its members in their order.
pub open spec fn decode_file_part(value: JsonModel) -> Result<FilePartModel, DecodeError> {
    let file = required(value, "file"@, |v: JsonModel| decode_file_content(v));
    let metadata = optional(value, "metadata"@, |v: JsonModel| json_of(v));
    if !(value is Object) {
        Err(DecodeError::WrongKind)
    } else if file is Err {
        Err(file->Err_0)
    } else if metadata is Err {
        Err(metadata->Err_0)
    } else {
        Ok(FilePartModel { file: file->Ok_0, metadata: metadata->Ok_0 })
    }
}

/// Reading what was written for a file part gives the record back, whatever
/// members stand before its own, as long as none of them has one of its
/// names.
pub proof fn lemma_file_part_round_trip_after(record: FilePartModel, base: Seq<MemberModel>)
    requires
        record.representable(),
        last_named(base, "file"@) is None,
        last_named(base, "metadata"@) is None,
    ensures
        decode_file_part(JsonModel::Object(file_part_members(record, base)))
            == Ok::<FilePartModel, DecodeError>(record),
        forall|key: Seq<char>|
            key != "file"@ && key != "metadata"@ ==> last_named(
                file_part_members(record, base),
                key,
            ) == last_named(base, key),
{
    broadcast use lemma_member_after_put, lemma_member_after_put_optional;
    reveal_strlit("file");
    reveal_strlit("metadata");
    assert("file"@.len() == 4 && "metadata"@.len() == 8);
    lemma_file_content_round_trip(record.file);
    let value = JsonModel::Object(file_part_members(record, base));
    assert(value.member("file"@) == Some(encode_file_content(record.file)));
    assert(value.member("metadata"@) == record.metadata);
}

/// Reading what was written for a file part gives the record back.
pub proof fn lemma_file_part_round_trip(record: FilePartModel)
    requires
        record.representable(),
    ensures
        decode_file_part(encode_file_part(record)) == Ok::<FilePartModel, DecodeError>(record),
{
    lemma_file_part_round_trip_after(record, Seq::empty());
}

impl FilePart {
    /// Adds the members of the record to `members`.
    pub fn encode_into(&self, members: &mut Vec<JsonMember>)
        ensures
            models(final(members)@) == file_part_members(self.deep_view(), models(old(members)@)),
    {
        push_member(members, "file", self.file.encode());
        match &self.metadata {
            Some(item) => {
                push_member(members, "metadata", item.clone());
            },
            None => {},
        }
    }

    /// Writes the record as a JSON value.
    pub fn encode(&self) -> (r: JsonValue)
        ensures
            r@ == encode_file_part(self.deep_view()),
    {
        let mut members: Vec<JsonMember> = Vec::new();
        assert(models(members@) =~= Seq::<MemberModel>::empty());
        self.encode_into(&mut members);
        object_of(members)
    }

    /// Reads the record from a JSON value.
    pub fn decode(value: &JsonValue) -> (r: Result<Self, DecodeError>)
        ensures
            match r {
                Ok(record) => decode_file_part(value@) == Ok::<FilePartModel, DecodeError>(
                    record.deep_view(),
                ),
                Err(e) => decode_file_part(value@) == Err::<FilePartModel, DecodeError>(e),
            },
    {
        if !value.is_object() {
            return Err(DecodeError::WrongKind);
        }
        let file = match value.get("file") {
            Some(v) => FileContent::decode(v)?,
            None => {
                return Err(DecodeError::MissingField);
            },
        };
        let metadata = match get_present(value, "metadata") {
            Some(v) => Some(read_json(v)?),
            None => None,
        };
        Ok(FilePart { file, metadata })
    }
}

/// The model of a data part.
pub struct DataPartModel {
    pub data: JsonModel,
    pub metadata: Option<JsonModel>,
}

impl DeepView for DataPart {
    type V = DataPartModel;

    open spec fn deep_view(&self) -> DataPartModel {
        DataPartModel {
            data: self.data.deep_view(),
            metadata: self.metadata.deep_view(),
        }
    }
}

impl DataPartModel {
    /// Whether the record comes back unchanged when it is written and read:
    /// no optional JSON value in it is `null`, which reads as a missing
    /// value.
    pub open spec fn representable(self) -> bool {
        &&& self.metadata != Some(JsonModel::Null)
    }
}

/// The members that are written for a data part, after the members `base`.
pub open spec fn data_part_members(
    record: DataPartModel,
    base: Seq<MemberModel>,
) -> Seq<MemberModel> {
    let members = base;
    let members = put(members, "data"@, record.data);
    let members = put_optional(
        members,
        "metadata"@,
        record.metadata,
    );
    members
}

/// The object that is written for a data part.
pub open spec fn encode_data_part(record: DataPartModel) -> JsonModel {
    JsonModel::Object(data_part_members(record, Seq::empty()))
}

/// What an object stands for when it is read as a data part: the record, or
/// the first failure among its members in their order.
pub open spec fn decode_data_part(value: JsonModel) -> Result<DataPartModel, DecodeError> {
    let data = required(value, "data"@, |v: JsonModel| json_of(v));
    let metadata = optional(value, "metadata"@, |v: JsonModel| json_of(v));
    if !(value is Object) {
        Err(DecodeError::WrongKind)
    } else if data is Err {
        Err(data->Err_0)
    } else if metadata is Err {
        Err(metadata->Err_0)
    } else {
        Ok(DataPartModel { data: data->Ok_0, metadata: metadata->Ok_0 })
    }
}

/// Reading what was written for a data part gives the record back, whatever
/// members stand before its own, as long as none of them has one of its
/// names.
pub proof fn lemma_data_part_round_trip_after(record: DataPartModel, base: Seq<MemberModel>)
    requires
        record.representable(),
        last_named(base, "data"@) is None,
        last_named(base, "metadata"@) is None,
    ensures
        decode_data_part(JsonModel::Object(data_part_members(record, base)))
            == Ok::<DataPartModel, DecodeError>(record),
        forall|key: Seq<char>|
            key != "data"@ && key != "metadata"@ ==> last_named(
                data_part_members(record, base),
                key,
            ) == last_named(base, key),
{
    broadcast use lemma_member_after_put, lemma_member_after_put_optional;
    reveal_strlit("data");
    reveal_strlit("metadata");
    assert("data"@.len() == 4 && "metadata"@.len() == 8);
    let value = JsonModel::Object(data_part_members(record, base));
    assert(value.member("data"@) == Some(record.data));
    assert(value.member("metadata"@) == record.metadata);
}

/// Reading what was written for a data part gives the record back.
pub proof fn lemma_data_part_round_trip(record: DataPartModel)
    requires
        record.representable(),
    ensures
        decode_data_part(encode_data_part(record)) == Ok::<DataPartModel, DecodeError>(record),
{
    lemma_data_part_round_trip_after(record, Seq::empty());
}

impl DataPart {
    /// Adds the members of the record to `members`.
    pub fn encode_into(&self, members: &mut Vec<JsonMember>)
        ensures
            models(final(members)@) == data_part_members(self.deep_view(), models(old(members)@)),
    {
        push_member(members, "data", self.data.clone());
        match &self.metadata {
            Some(item) => {
                push_member(members, "metadata", item.clone());
            },
            None => {},
        }
    }

    /// Writes the record as a JSON value.
    pub fn encode(&self) -> (r: JsonValue)
        ensures
            r@ == encode_data_part(self.deep_view()),
    {
        let mut members: Vec<JsonMember> = Vec::new();
        assert(models(members@) =~= Seq::<MemberModel>::empty());
        self.encode_into(&mut members);
        object_of(members)
    }

    /// Reads the record from a JSON value.
    pub fn decode(value: &JsonValue) -> (r: Result<Self, DecodeError>)
        ensures
            match r {
                Ok(record) => decode_data_part(value@) == Ok::<DataPartModel, DecodeError>(
                    record.deep_view(),
                ),
                Err(e) => decode_data_part(value@) == Err::<DataPartModel, DecodeError>(e),
            },
    {
        if !value.is_object() {
            return Err(DecodeError::WrongKind);
        }
        let data = match value.get("data") {
            Some(v) => read_json(v)?,
            None => {
                return Err(DecodeError::MissingField);
            },
        };
        let metadata = match get_present(value, "metadata") {
            Some(v) => Some(read_json(v)?),
            None => None,
        };
        Ok(DataPart { data, metadata })
    }
}

/// The model of a part of a message.
pub enum PartModel {
    Text(TextPartModel),
    File(FilePartModel),
    Data(DataPartModel),
}

impl DeepView for Part {
    type V = PartModel;

    open spec fn deep_view(&self) -> PartModel {
        match self {
            Part::Text(inner) => PartModel::Text(inner.deep_view()),
            Part::File(inner) => PartModel::File(inner.deep_view()),
            Part::Data(inner) => PartModel::Data(inner.deep_view()),
        }
    }
}

impl PartModel {
    /// Whether the value comes back unchanged when it is written and read.
    pub open spec fn representable(self) -> bool {
        match self {
            PartModel::Text(inner) => inner.representable(),
            PartModel::File(inner) => inner.representable(),
            PartModel::Data(inner) => inner.representable(),
        }
    }
}

/// The object that is written for a part of a message: the member `kind` says
/// which variant it is, and the members of the variant follow.
pub open spec fn encode_part(value: PartModel) -> JsonModel {
    match value {
        PartModel::Text(inner) => JsonModel::Object(
            text_part_members(inner, put(Seq::empty(), "kind"@, JsonModel::String("text"@))),
        ),
        PartModel::File(inner) => JsonModel::Object(
            file_part_members(inner, put(Seq::empty(), "kind"@, JsonModel::String("file"@))),
        ),
        PartModel::Data(inner) => JsonModel::Object(
            data_part_members(inner, put(Seq::empty(), "kind"@, JsonModel::String("data"@))),
        ),
    }
}

/// What an object stands for when it is read as a part of a message: the
/// member `kind` is read first and decides the variant; a name of no variant
/// is refused.
pub open spec fn decode_part(value: JsonModel) -> Result<PartModel, DecodeError> {
    let tag = required(value, "kind"@, |v: JsonModel| text_of(v));
    if !(value is Object) {
        Err(DecodeError::WrongKind)
    } else if tag is Err {
        Err(tag->Err_0)
    } else if tag->Ok_0 == "text"@ {
        match decode_text_part(value) {
            Ok(inner) => Ok(PartModel::Text(inner)),
            Err(e) => Err(e),
        }
    } else if tag->Ok_0 == "file"@ {
        match decode_file_part(value) {
            Ok(inner) => Ok(PartModel::File(inner)),
            Err(e) => Err(e),
        }
    } else if tag->Ok_0 == "data"@ {
        match decode_data_part(value) {
            Ok(inner) => Ok(PartModel::Data(inner)),
            Err(e) => Err(e),
        }
    } else {
        Err(DecodeError::UnknownVariant)
    }
}

/// Reading what was written for a part of a message gives the value back.
pub proof fn lemma_part_round_trip(value: PartModel)
    requires
        value.representable(),
    ensures
        decode_part(encode_part(value)) == Ok::<PartModel, DecodeError>(value),
{
    broadcast use lemma_member_after_put, lemma_member_after_put_optional;
    reveal_strlit("kind");
    reveal_strlit("text");
    reveal_strlit("metadata");
    reveal_strlit("file");
    reveal_strlit("data");
    assert(
        "kind"@.len() == 4
            && "text"@.len() == 4
            && "metadata"@.len() == 8
            && "file"@.len() == 4
    );
    assert("data"@.len() == 4);
    assert("kind"@[0] != "text"@[0]);
    assert("kind"@[0] != "file"@[0]);
    assert("kind"@[0] != "data"@[0]);
    assert("text"@[0] != "file"@[0]);
    assert("text"@[0] != "data"@[0]);
    assert("file"@[0] != "data"@[0]);
    match value {
        PartModel::Text(inner) => {
            let base = put(Seq::<MemberModel>::empty(), "kind"@, JsonModel::String("text"@));
            lemma_text_part_round_trip_after(inner, base);
            assert(encode_part(value).member("kind"@) == Some(JsonModel::String("text"@)));
        },
        PartModel::File(inner) => {
            let base = put(Seq::<MemberModel>::empty(), "kind"@, JsonModel::String("file"@));
            lemma_file_part_round_trip_after(inner, base);
            assert(encode_part(value).member("kind"@) == Some(JsonModel::String("file"@)));
        },
        PartModel::Data(inner) => {
            let base = put(Seq::<MemberModel>::empty(), "kind"@, JsonModel::String("data"@));
            lemma_data_part_round_trip_after(inner, base);
            assert(encode_part(value).member("kind"@) == Some(JsonModel::String("data"@)));
        },
    }
}

impl Part {
    /// The name of the variant on the wire.
    pub fn kind(&self) -> (r: &'static str)
        ensures
            r@ == match self {
                Part::Text(_) => "text"@,
                Part::File(_) => "file"@,
                Part::Data(_) => "data"@,
            },
    {
        match self {
            Part::Text(_) => "text",
            Part::File(_) => "file",
            Part::Data(_) => "data",
        }
    }

    /// Writes the value as a JSON value.
    pub fn encode(&self) -> (r: JsonValue)
        ensures
            r@ == encode_part(self.deep_view()),
    {
        let mut members: Vec<JsonMember> = Vec::new();
        assert(models(members@) =~= Seq::<MemberModel>::empty());
        push_member(&mut members, "kind", string_of(self.kind()));
        match self {
            Part::Text(inner) => inner.encode_into(&mut members),
            Part::File(inner) => inner.encode_into(&mut members),
            Part::Data(inner) => inner.encode_into(&mut members),
        }
        object_of(members)
    }

    /// Reads the value from a JSON value.
    pub fn decode(value: &JsonValue) -> (r: Result<Self, DecodeError>)
        ensures
            match r {
                Ok(found) => decode_part(value@) == Ok::<PartModel, DecodeError>(found.deep_view()),
                Err(e) => decode_part(value@) == Err::<PartModel, DecodeError>(e),
            },
    {
        if !value.is_object() {
            return Err(DecodeError::WrongKind);
        }
        let tag = match value.get("kind") {
            Some(v) => read_text(v)?,
            None => {
                return Err(DecodeError::MissingField);
            },
        };
        if same_text(tag.as_str(), "text") {
            Ok(Part::Text(TextPart::decode(value)?))
        } else if same_text(tag.as_str(), "file") {
            Ok(Part::File(FilePart::decode(value)?))
        } else if same_text(tag.as_str(), "data") {
            Ok(Part::Data(DataPart::decode(value)?))
        } else {
            Err(DecodeError::UnknownVariant)
        }
    }
}

/// What writes a part of a message.
pub open spec fn part_encoder() -> spec_fn(PartModel) -> JsonModel {
    |item: PartModel| encode_part(item)
}

/// What reads a part of a message.
pub open spec fn part_decoder() -> spec_fn(JsonModel) -> Result<PartModel, DecodeError> {
    |value: JsonModel| decode_part(value)
}

/// The array that is written for a list of parts.
pub open spec fn encode_part_list(items: Seq<PartModel>) -> JsonModel {
    JsonModel::Array(items.map_values(part_encoder()))
}

/// What an array stands for when it is read as a list of parts.
pub open spec fn decode_part_list(value: JsonModel) -> Result<Seq<PartModel>, DecodeError> {
    array_of(value, part_decoder())
}

/// Every item of the list comes back unchanged when it is written and read.
pub open spec fn part_list_representable(items: Seq<PartModel>) -> bool {
    forall|i: int| 0 <= i < items.len() ==> (#[trigger] items[i]).representable()
}

/// Reading what was written for a list of parts gives the list back.
pub proof fn lemma_part_list_round_trip(items: Seq<PartModel>)
    requires
        part_list_representable(items),
    ensures
        decode_part_list(encode_part_list(items)) == Ok::<Seq<PartModel>, DecodeError>(items),
{
    assert forall|i: int| 0 <= i < items.len() implies part_decoder()(
        part_encoder()(#[trigger] items[i]),
    ) == Ok::<PartModel, DecodeError>(items[i]) by {
        lemma_part_round_trip(items[i]);
    }
    lemma_decode_all_encoded(items, part_encoder(), part_decoder());
}

/// Writes a list of parts as a JSON array.
pub fn write_part_list(items: &Vec<Part>) -> (r: JsonValue)
    ensures
        r@ == encode_part_list(items.deep_view()),
{
    let mut out: Vec<JsonValue> = Vec::new();
    let mut i: usize = 0;
    while i < items.len()
        invariant
            i <= items@.len(),
            out@.len() == i,
            forall|j: int|
                0 <= j < i ==> (#[trigger] out@[j])@ == encode_part(items@[j].deep_view()),
        decreases items@.len() - i,
    {
        out.push(items[i].encode());
        i += 1;
    }
    let r = JsonValue::Array(out);
    assert(r@->Array_0 =~= items.deep_view().map_values(part_encoder()));
    r
}

/// Reads a list of parts from a JSON array.
pub fn read_part_list(value: &JsonValue) -> (r: Result<Vec<Part>, DecodeError>)
    ensures
        match r {
            Ok(items) => decode_part_list(value@) == Ok::<Seq<PartModel>, DecodeError>(
                items.deep_view(),
            ),
            Err(e) => decode_part_list(value@) == Err::<Seq<PartModel>, DecodeError>(e),
        },
{
    match value {
        JsonValue::Array(values) => {
            let ghost all = value@->Array_0;
            let mut out: Vec<Part> = Vec::new();
            let mut i: usize = 0;
            assert(all.subrange(0, 0) =~= Seq::<JsonModel>::empty());
            assert(out.deep_view() =~= Seq::<PartModel>::empty());
            while i < values.len()
                invariant
                    i <= values@.len(),
                    value@ == JsonModel::Array(all),
                    all.len() == values@.len(),
                    forall|j: int| 0 <= j < all.len() ==> all[j] == (#[trigger] values@[j])@,
                    decode_all(all.subrange(0, i as int), part_decoder()) == Ok::<
                        Seq<PartModel>,
                        DecodeError,
                    >(out.deep_view()),
                decreases values@.len() - i,
            {
                let ghost before = out.deep_view();
                match Part::decode(&values[i]) {
                    Ok(item) => {
                        proof {
                            lemma_decode_all_step(all, part_decoder(), i as int);
                        }
                        out.push(item);
                        assert(out.deep_view() =~= before.push(item.deep_view()));
                    },
                    Err(e) => {
                        proof {
                            lemma_decode_all_fails(all, part_decoder(), i as int);
                        }
                        return Err(e);
                    },
                }
                i += 1;
            }
            assert(all.subrange(0, i as int) =~= all);
            Ok(out)
        },
        _ => Err(DecodeError::WrongKind),
    }
}

/// The model of a message.
pub struct MessageModel {
    pub kind: Seq<char>,
    pub message_id: Seq<char>,
    pub parts: Seq<PartModel>,
    pub role: MessageRole,
    pub context_id: Option<Seq<char>>,
    pub extensions: Option<Seq<Seq<char>>>,
    pub metadata: Option<JsonModel>,
    pub reference_task_ids: Option<Seq<Seq<char>>>,
    pub task_id: Option<Seq<char>>,
}

impl DeepView for Message {
    type V = MessageModel;

    open spec fn deep_view(&self) -> MessageModel {
        MessageModel {
            kind: self.kind.deep_view(),
            message_id: self.message_id.deep_view(),
            parts: self.parts.deep_view(),
            role: self.role.deep_view(),
            context_id: self.context_id.deep_view(),
            extensions: self.extensions.deep_view(),
            metadata: self.metadata.deep_view(),
            reference_task_ids: self.reference_task_ids.deep_view(),
            task_id: self.task_id.deep_view(),
        }
    }
}

impl MessageModel {
    /// Whether the record comes back unchanged when it is written and read:
    /// no optional JSON value in it is `null`, which reads as a missing
    /// value.
    pub open spec fn representable(self) -> bool {
        &&& part_list_representable(self.parts)
        &&& self.metadata != Some(JsonModel::Null)
    }
}

/// The object that is written for a message.
pub open spec fn encode_message(record: MessageModel) -> JsonModel {
    let members = Seq::empty();
    let members = put(members, "kind"@, JsonModel::String(record.kind));
    let members = put(members, "messageId"@, JsonModel::String(record.message_id));
    let members = put(members, "parts"@, encode_part_list(record.parts));
    let members = put(members, "role"@, encode_message_role(record.role));
    let members = put_optional(
        members,
        "contextId"@,
        match record.context_id {
            Some(item) => Some(JsonModel::String(item)),
            None => None,
        },
    );
    let members = put_optional(
        members,
        "extensions"@,
        match record.extensions {
            Some(item) => Some(encode_texts(item)),
            None => None,
        },
    );
    let members = put_optional(
        members,
        "metadata"@,
        record.metadata,
    );
    let members = put_optional(
        members,
        "referenceTaskIds"@,
        match record.reference_task_ids {
            Some(item) => Some(encode_texts(item)),
            None => None,
        },
    );
    let members = put_optional(
        members,
        "taskId"@,
        match record.task_id {
            Some(item) => Some(JsonModel::String(item)),
            None => None,
        },
    );
    JsonModel::Object(members)
}

/// What an object stands for when it is read as a message: the record, or the
/// first failure among its members in their order.
pub open spec fn decode_message(value: JsonModel) -> Result<MessageModel, DecodeError> {
    let kind = required(value, "kind"@, |v: JsonModel| text_of(v));
    let message_id = required(value, "messageId"@, |v: JsonModel| text_of(v));
    let parts = required(value, "parts"@, |v: JsonModel| decode_part_list(v));
    let role = required(value, "role"@, |v: JsonModel| decode_message_role(v));
    let context_id = optional(value, "contextId"@, |v: JsonModel| text_of(v));
    let extensions = optional(value, "extensions"@, |v: JsonModel| decode_texts(v));
    let metadata = optional(value, "metadata"@, |v: JsonModel| json_of(v));
    let reference_task_ids = optional(value, "referenceTaskIds"@, |v: JsonModel| decode_texts(v));
    let task_id = optional(value, "taskId"@, |v: JsonModel| text_of(v));
    if !(value is Object) {
        Err(DecodeError::WrongKind)
    } else if kind is Err {
        Err(kind->Err_0)
    } else if message_id is Err {
        Err(message_id->Err_0)
    } else if parts is Err {
        Err(parts->Err_0)
    } else if role is Err {
        Err(role->Err_0)
    } else if context_id is Err {
        Err(context_id->Err_0)
    } else if extensions is Err {
        Err(extensions->Err_0)
    } else if metadata is Err {
        Err(metadata->Err_0)
    } else if reference_task_ids is Err {
        Err(reference_task_ids->Err_0)
    } else if task_id is Err {
        Err(task_id->Err_0)
    } else {
        Ok(
            MessageModel {
                kind: kind->Ok_0,
                message_id: message_id->Ok_0,
                parts: parts->Ok_0,
                role: role->Ok_0,
                context_id: context_id->Ok_0,
                extensions: extensions->Ok_0,
                metadata: metadata->Ok_0,
                reference_task_ids: reference_task_ids->Ok_0,
                task_id: task_id->Ok_0,
            },
        )
    }
}

/// Reading what was written for a message gives the record back.
pub proof fn lemma_message_round_trip(record: MessageModel)
    requires
        record.representable(),
    ensures
        decode_message(encode_message(record)) == Ok::<MessageModel, DecodeError>(record),
{
    broadcast use lemma_member_after_put, lemma_member_after_put_optional;
    reveal_strlit("kind");
    reveal_strlit("messageId");
    reveal_strlit("parts");
    reveal_strlit("role");
    reveal_strlit("contextId");
    reveal_strlit("extensions");
    reveal_strlit("metadata");
    reveal_strlit("referenceTaskIds");
    reveal_strlit("taskId");
    assert(
        "kind"@.len() == 4
            && "messageId"@.len() == 9
            && "parts"@.len() == 5
            && "role"@.len() == 4
    );
    assert(
        "contextId"@.len() == 9
            && "extensions"@.len() == 10
            && "metadata"@.len() == 8
            && "referenceTaskIds"@.len() == 16
    );
    assert("taskId"@.len() == 6);
    assert("kind"@[0] != "role"@[0]);
    assert("messageId"@[0] != "contextId"@[0]);
    lemma_part_list_round_trip(record.parts);
    lemma_message_role_round_trip(record.role);
    if record.extensions is Some {
        lemma_texts_round_trip(record.extensions->0);
    }
    if record.reference_task_ids is Some {
        lemma_texts_round_trip(record.reference_task_ids->0);
    }
    let value = encode_message(record);
    assert(value.member("kind"@) == Some(JsonModel::String(record.kind)));
    assert(value.member("messageId"@) == Some(JsonModel::String(record.message_id)));
    assert(value.member("parts"@) == Some(encode_part_list(record.parts)));
    assert(value.member("role"@) == Some(encode_message_role(record.role)));
    assert(value.member("contextId"@) == match record.context_id {
        Some(item) => Some(JsonModel::String(item)),
        None => None,
    });
    assert(value.member("extensions"@) == match record.extensions {
        Some(item) => Some(encode_texts(item)),
        None => None,
    });
    assert(value.member("metadata"@) == record.metadata);
    assert(value.member("referenceTaskIds"@) == match record.reference_task_ids {
        Some(item) => Some(encode_texts(item)),
        None => None,
    });
    assert(value.member("taskId"@) == match record.task_id {
        Some(item) => Some(JsonModel::String(item)),
        None => None,
    });
}

impl Message {
    /// Writes the record as a JSON value.
    pub fn encode(&self) -> (r: JsonValue)
        ensures
            r@ == encode_message(self.deep_view()),
    {
        let mut members: Vec<JsonMember> = Vec::new();
        assert(models(members@) =~= Seq::<MemberModel>::empty());
        push_member(&mut members, "kind", string_of(self.kind.as_str()));
        push_member(&mut members, "messageId", string_of(self.message_id.as_str()));
        push_member(&mut members, "parts", write_part_list(&self.parts));
        push_member(&mut members, "role", self.role.encode());
        match &self.context_id {
            Some(item) => {
                push_member(&mut members, "contextId", string_of(item.as_str()));
            },
            None => {},
        }
        match &self.extensions {
            Some(item) => {
                push_member(&mut members, "extensions", write_texts(item));
            },
            None => {},
        }
        match &self.metadata {
            Some(item) => {
                push_member(&mut members, "metadata", item.clone());
            },
            None => {},
        }
        match &self.reference_task_ids {
            Some(item) => {
                push_member(&mut members, "referenceTaskIds", write_texts(item));
            },
            None => {},
        }
        match &self.task_id {
            Some(item) => {
                push_member(&mut members, "taskId", string_of(item.as_str()));
            },
            None => {},
        }
        object_of(members)
    }

    /// Reads the record from a JSON value.
    pub fn decode(value: &JsonValue) -> (r: Result<Self, DecodeError>)
        ensures
            match r {
                Ok(record) => decode_message(value@) == Ok::<MessageModel, DecodeError>(
                    record.deep_view(),
                ),
                Err(e) => decode_message(value@) == Err::<MessageModel, DecodeError>(e),
            },
    {
        if !value.is_object() {
            return Err(DecodeError::WrongKind);
        }
        let kind = match value.get("kind") {
            Some(v) => read_text(v)?,
            None => {
                return Err(DecodeError::MissingField);
            },
        };
        let message_id = match value.get("messageId") {
            Some(v) => read_text(v)?,
            None => {
                return Err(DecodeError::MissingField);
            },
        };
        let parts = match value.get("parts") {
            Some(v) => read_part_list(v)?,
            None => {
                return Err(DecodeError::MissingField);
            },
        };
        let role = match value.get("role") {
            Some(v) => MessageRole::decode(v)?,
            None => {
                return Err(DecodeError::MissingField);
            },
        };
        let context_id = match get_present(value, "contextId") {
            Some(v) => Some(read_text(v)?),
            None => None,
        };
        let extensions = match get_present(value, "extensions") {
            Some(v) => Some(read_texts(v)?),
            None => None,
        };
        let metadata = match get_present(value, "metadata") {
            Some(v) => Some(read_json(v)?),
            None => None,
        };
        let reference_task_ids = match get_present(value, "referenceTaskIds") {
            Some(v) => Some(read_texts(v)?),
            None => None,
        };
        let task_id = match get_present(value, "taskId") {
            Some(v) => Some(read_text(v)?),
            None => None,
        };
        Ok(
            Message {
                kind,
                message_id,
                parts,
                role,
                context_id,
                extensions,
                metadata,
                reference_task_ids,
                task_id,
            },
        )
    }
}

/// What writes a message.
pub open spec fn message_encoder() -> spec_fn(MessageModel) -> JsonModel {
    |item: MessageModel| encode_message(item)
}

/// What reads a message.
pub open spec fn message_decoder() -> spec_fn(JsonModel) -> Result<MessageModel, DecodeError> {
    |value: JsonModel| decode_message(value)
}

/// The array that is written for a list of messages.
pub open spec fn encode_message_list(items: Seq<MessageModel>) -> JsonModel {
    JsonModel::Array(items.map_values(message_encoder()))
}

/// What an array stands for when it is read as a list of messages.
pub open spec fn decode_message_list(value: JsonModel) -> Result<Seq<MessageModel>, DecodeError> {
    array_of(value, message_decoder())
}

/// Every item of the list comes back unchanged when it is written and read.
pub open spec fn message_list_representable(items: Seq<MessageModel>) -> bool {
    forall|i: int| 0 <= i < items.len() ==> (#[trigger] items[i]).representable()
}

/// Reading what was written for a list of messages gives the list back.
pub proof fn lemma_message_list_round_trip(items: Seq<MessageModel>)
    requires
        message_list_representable(items),
    ensures
        decode_message_list(encode_message_list(items))
            == Ok::<Seq<MessageModel>, DecodeError>(items),
{
    assert forall|i: int| 0 <= i < items.len() implies message_decoder()(
        message_encoder()(#[trigger] items[i]),
    ) == Ok::<MessageModel, DecodeError>(items[i]) by {
        lemma_message_round_trip(items[i]);
    }
    lemma_decode_all_encoded(items, message_encoder(), message_decoder());
}

/// Writes a list of messages as a JSON array.
pub fn write_message_list(items: &Vec<Message>) -> (r: JsonValue)
    ensures
        r@ == encode_message_list(items.deep_view()),
{
    let mut out: Vec<JsonValue> = Vec::new();
    let mut i: usize = 0;
    while i < items.len()
        invariant
            i <= items@.len(),
            out@.len() == i,
            forall|j: int|
                0 <= j < i ==> (#[trigger] out@[j])@ == encode_message(items@[j].deep_view()),
        decreases items@.len() - i,
    {
        out.push(items[i].encode());
        i += 1;
    }
    let r = JsonValue::Array(out);
    assert(r@->Array_0 =~= items.deep_view().map_values(message_encoder()));
    r
}

/// Reads a list of messages from a JSON array.
pub fn read_message_list(value: &JsonValue) -> (r: Result<Vec<Message>, DecodeError>)
    ensures
        match r {
            Ok(items) => decode_message_list(value@) == Ok::<Seq<MessageModel>, DecodeError>(
                items.deep_view(),
            ),
            Err(e) => decode_message_list(value@) == Err::<Seq<MessageModel>, DecodeError>(e),
        },
{
    match value {
        JsonValue::Array(values) => {
            let ghost all = value@->Array_0;
            let mut out: Vec<Message> = Vec::new();
            let mut i: usize = 0;
            assert(all.subrange(0, 0) =~= Seq::<JsonModel>::empty());
            assert(out.deep_view() =~= Seq::<MessageModel>::empty());
            while i < values.len()
                invariant
                    i <= values@.len(),
                    value@ == JsonModel::Array(all),
                    all.len() == values@.len(),
                    forall|j: int| 0 <= j < all.len() ==> all[j] == (#[trigger] values@[j])@,
                    decode_all(all.subrange(0, i as int), message_decoder()) == Ok::<
                        Seq<MessageModel>,
                        DecodeError,
                    >(out.deep_view()),
                decreases values@.len() - i,
            {
                let ghost before = out.deep_view();
                match Message::decode(&values[i]) {
                    Ok(item) => {
                        proof {
                            lemma_decode_all_step(all, message_decoder(), i as int);
                        }
                        out.push(item);
                        assert(out.deep_view() =~= before.push(item.deep_view()));
                    },
                    Err(e) => {
                        proof {
                            lemma_decode_all_fails(all, message_decoder(), i as int);
                        }
                        return Err(e);
                    },
                }
                i += 1;
            }
            assert(all.subrange(0, i as int) =~= all);
            Ok(out)
        },
        _ => Err(DecodeError::WrongKind),
    }
}

} // verus!
