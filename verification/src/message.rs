//! Messages and their parts.

use crate::json::JsonValue;
use vstd::prelude::*;

verus! {

/// Who sent a message.
#[derive(Debug, Clone, Copy, PartialEq, Eq, Structural)]
pub enum MessageRole {
    /// The agent.
    Agent,
    /// The user.
    User,
}

/// A file whose content is carried inline, encoded in base64.
#[derive(Debug, Clone, PartialEq)]
pub struct FileWithBytes {
    /// The content of the file in base64.
    pub bytes: String,
    /// The name of the file.
    pub name: Option<String>,
    /// The media type of the file.
    pub mime_type: Option<String>,
}

/// A file whose content is found at a URI.
#[derive(Debug, Clone, PartialEq)]
pub struct FileWithUri {
    /// Where the content of the file is found.
    pub uri: String,
    /// The name of the file.
    pub name: Option<String>,
    /// The media type of the file.
    pub mime_type: Option<String>,
}

/// The content of a file: carried inline or found at a URI.
#[derive(Debug, Clone, PartialEq)]
pub enum FileContent {
    /// Carried inline.
    WithBytes(FileWithBytes),
    /// Found at a URI.
    WithUri(FileWithUri),
}

/// A text segment of a message.
#[derive(Debug, Clone, PartialEq)]
pub struct TextPart {
    /// The text.
    pub text: String,
    /// Metadata of the part.
    pub metadata: Option<JsonValue>,
}

/// A file segment of a message.
#[derive(Debug, Clone, PartialEq)]
pub struct FilePart {
    /// The content of the file.
    pub file: FileContent,
    /// Metadata of the part.
    pub metadata: Option<JsonValue>,
}

/// A segment of structured data in a message.
#[derive(Debug, Clone, PartialEq)]
pub struct DataPart {
    /// The data.
    pub data: JsonValue,
    /// Metadata of the part.
    pub metadata: Option<JsonValue>,
}

/// A part of a message: text, a file or structured data.
#[derive(Debug, Clone, PartialEq)]
pub enum Part {
    /// Text.
    Text(TextPart),
    /// A file.
    File(FilePart),
    /// Structured data.
    Data(DataPart),
}

/// A message exchanged between user and agent.
#[derive(Debug, Clone, PartialEq)]
pub struct Message {
    /// The kind of the record: always `message`.
    pub kind: String,
    /// The identifier that the creator of the message gave it.
    pub message_id: String,
    /// The content of the message.
    pub parts: Vec<Part>,
    /// Who sent the message.
    pub role: MessageRole,
    /// The context that the message belongs to.
    pub context_id: Option<String>,
    /// The URIs of the extensions that contributed to the message.
    pub extensions: Option<Vec<String>>,
    /// Metadata of extensions.
    pub metadata: Option<JsonValue>,
    /// The tasks that the message refers to as context.
    pub reference_task_ids: Option<Vec<String>>,
    /// The task that the message belongs to.
    pub task_id: Option<String>,
}

} // verus!
