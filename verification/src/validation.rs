//! Validators for the string-shaped fields of the protocol and for task
//! state transitions.
//!
//! Each validator reports the first rule that its input breaks. What it
//! reports is given by a `.._verdict` function over the characters of the
//! input.

use crate::task::TaskState;
use crate::text::{
    alphanumeric, byte_len, byte_length, chars_of, contains_char, has_prefix, is_alphanumeric,
    is_whitespace, join, outcome, owned, same_text, split, split_ranges, starts_with, whitespace,
};
use vstd::prelude::*;
use vstd::string::StrSliceExecFns;

verus! {

/// The verdict on a URL: it is not empty, begins with `http://` or
/// `https://`, takes at least ten bytes, has something after the scheme, and
/// holds no space.
pub open spec fn url_verdict(url: Seq<char>) -> Result<(), Seq<char>> {
    if url.len() == 0 {
        Err("URL cannot be empty"@)
    } else if !has_prefix(url, "http://"@) && !has_prefix(url, "https://"@) {
        Err("URL must start with http:// or https://"@)
    } else if byte_len(url) < 10 {
        Err("URL appears to be too short"@)
    } else if url.len() == scheme_len(url) {
        Err("URL must contain a domain"@)
    } else if url.contains(' ') {
        Err("URL cannot contain spaces"@)
    } else {
        Ok(())
    }
}

/// The number of characters that the scheme takes at the front of `url`.
pub open spec fn scheme_len(url: Seq<char>) -> nat {
    if has_prefix(url, "https://"@) {
        "https://"@.len()
    } else {
        "http://"@.len()
    }
}

/// A URL passes exactly if it is not empty, begins with `http://` or
/// `https://`, takes at least ten bytes, has something after the scheme, and
/// holds no space.
pub proof fn lemma_url_passes(url: Seq<char>)
    ensures
        url_verdict(url) is Ok <==> {
            &&& url.len() > 0
            &&& has_prefix(url, "http://"@) || has_prefix(url, "https://"@)
            &&& byte_len(url) >= 10
            &&& url.len() > scheme_len(url)
            &&& !url.contains(' ')
        },
{
    if has_prefix(url, "https://"@) {
    } else if has_prefix(url, "http://"@) {
    }
}

/// No text that holds a space passes as a URL.
pub proof fn lemma_url_with_space_is_refused(url: Seq<char>)
    requires
        url.contains(' '),
    ensures
        url_verdict(url) is Err,
{
}

/// Validates a URL.
pub fn validate_url(url: &str) -> (r: Result<(), String>)
    ensures
        outcome(r) == url_verdict(url@),
{
    if url.is_empty() {
        return Err(owned("URL cannot be empty"));
    }
    let cs = chars_of(url);
    let secure = starts_with(cs.as_slice(), "https://");
    if !starts_with(cs.as_slice(), "http://") && !secure {
        return Err(owned("URL must start with http:// or https://"));
    }
    if byte_length(url) < 10 {
        return Err(owned("URL appears to be too short"));
    }
    let scheme = if secure {
        "https://"
    } else {
        "http://"
    };
    if cs.len() == scheme.unicode_len() {
        return Err(owned("URL must contain a domain"));
    }
    if contains_char(cs.as_slice(), ' ') {
        return Err(owned("URL cannot contain spaces"));
    }
    Ok(())
}

/// The main types that a media type may have without the prefix `x-`.
pub open spec fn known_main_type(t: Seq<char>) -> bool {
    t == "text"@ || t == "image"@ || t == "audio"@ || t == "video"@ || t == "application"@ || t
        == "multipart"@ || t == "message"@
}

/// The verdict on a media type: exactly one `/` parts a main type from a
/// subtype, neither is empty, and the main type is a known one or begins
/// with `x-`.
pub open spec fn media_type_verdict(media_type: Seq<char>) -> Result<(), Seq<char>> {
    let parts = split(media_type, '/');
    if media_type.len() == 0 {
        Err("Media type cannot be empty"@)
    } else if parts.len() != 2 {
        Err("Media type must be in format 'type/subtype'"@)
    } else if parts[0].len() == 0 || parts[1].len() == 0 {
        Err("Media type parts cannot be empty"@)
    } else if !known_main_type(parts[0]) && !has_prefix(parts[0], "x-"@) {
        Err("Unknown media type: "@ + parts[0])
    } else {
        Ok(())
    }
}

/// Whether `t` is one of the known main types.
pub fn is_known_main_type(t: &str) -> (r: bool)
    ensures
        r == known_main_type(t@),
{
    same_text(t, "text") || same_text(t, "image") || same_text(t, "audio") || same_text(t, "video")
        || same_text(t, "application") || same_text(t, "multipart") || same_text(t, "message")
}

/// Validates a media type.
pub fn validate_media_type(media_type: &str) -> (r: Result<(), String>)
    ensures
        outcome(r) == media_type_verdict(media_type@),
{
    if media_type.is_empty() {
        return Err(owned("Media type cannot be empty"));
    }
    let cs = chars_of(media_type);
    let parts = split_ranges(cs.as_slice(), '/');
    if parts.len() != 2 {
        return Err(owned("Media type must be in format 'type/subtype'"));
    }
    let (main_from, main_to) = parts[0];
    let (sub_from, sub_to) = parts[1];
    assert(cs@.subrange(main_from as int, main_to as int) == split(media_type@, '/')[0]);
    assert(cs@.subrange(sub_from as int, sub_to as int) == split(media_type@, '/')[1]);
    if main_from == main_to || sub_from == sub_to {
        return Err(owned("Media type parts cannot be empty"));
    }
    let main_type = media_type.substring_char(main_from, main_to);
    let main_chars = chars_of(main_type);
    if !is_known_main_type(main_type) && !starts_with(main_chars.as_slice(), "x-") {
        return Err(join("Unknown media type: ", main_type));
    }
    Ok(())
}

/// The transition table of the task lifecycle: whether a task in state
/// `from` may go to state `to`.
pub open spec fn transition_allowed(from: TaskState, to: TaskState) -> bool {
    match from {
        TaskState::Submitted => to is Working || to is Rejected || to is Canceled
            || to is AuthRequired,
        TaskState::Working => to is Completed || to is Failed || to is Canceled
            || to is InputRequired,
        TaskState::InputRequired => to is Working || to is Canceled || to is Failed,
        TaskState::AuthRequired => to is Working || to is Rejected || to is Canceled,
        TaskState::Completed
        | TaskState::Failed
        | TaskState::Canceled
        | TaskState::Rejected => false,
        TaskState::Unknown => !(to is Unknown),
    }
}

/// A transition that the lifecycle does not allow.
#[derive(Debug, Clone, Copy, PartialEq, Eq, Structural)]
pub struct InvalidTransition {
    /// The state the task is in.
    pub from: TaskState,
    /// The state that was asked for.
    pub to: TaskState,
}

impl InvalidTransition {
    /// The diagnostic for the refused transition.
    pub open spec fn text(self) -> Seq<char> {
        "Invalid task state transition from "@ + self.from.label() + " to "@ + self.to.label()
    }

    /// The diagnostic for the refused transition.
    pub fn message(&self) -> (r: String)
        ensures
            r@ == self.text(),
    {
        let head = join("Invalid task state transition from ", self.from.name());
        let mid = join(head.as_str(), " to ");
        join(mid.as_str(), self.to.name())
    }
}

/// Whether the lifecycle allows a task in state `from` to go to state `to`.
pub fn is_transition_allowed(from: &TaskState, to: &TaskState) -> (r: bool)
    ensures
        r == transition_allowed(*from, *to),
{
    match from {
        TaskState::Submitted => matches!(
            to,
            TaskState::Working | TaskState::Rejected | TaskState::Canceled | TaskState::AuthRequired
        ),
        TaskState::Working => matches!(
            to,
            TaskState::Completed
                | TaskState::Failed
                | TaskState::Canceled
                | TaskState::InputRequired
        ),
        TaskState::InputRequired => matches!(
            to,
            TaskState::Working | TaskState::Canceled | TaskState::Failed
        ),
        TaskState::AuthRequired => matches!(
            to,
            TaskState::Working | TaskState::Rejected | TaskState::Canceled
        ),
        TaskState::Completed
        | TaskState::Failed
        | TaskState::Canceled
        | TaskState::Rejected => false,
        TaskState::Unknown => !matches!(to, TaskState::Unknown),
    }
}

/// Validates a task state transition against the lifecycle's table.
pub fn validate_task_state_transition(from_state: &TaskState, to_state: &TaskState) -> (r: Result<
    (),
    InvalidTransition,
>)
    ensures
        r is Ok <==> transition_allowed(*from_state, *to_state),
        r is Err ==> r->Err_0 == (InvalidTransition { from: *from_state, to: *to_state }),
{
    if is_transition_allowed(from_state, to_state) {
        Ok(())
    } else {
        Err(InvalidTransition { from: *from_state, to: *to_state })
    }
}

/// No transition leaves a terminal state.
pub proof fn lemma_terminal_states_are_final(from: TaskState, to: TaskState)
    requires
        from.terminal(),
    ensures
        !transition_allowed(from, to),
{
}

/// A state that is not terminal can be left.
pub proof fn lemma_live_states_can_move(from: TaskState)
    requires
        !from.terminal(),
    ensures
        exists|to: TaskState| transition_allowed(from, to),
{
    assert(transition_allowed(from, TaskState::Canceled));
}

/// The characters that an identifier may hold.
pub open spec fn identifier_char(c: char) -> bool {
    alphanumeric(c) || c == '-' || c == '_'
}

/// The characters that a skill identifier may hold.
pub open spec fn skill_char(c: char) -> bool {
    identifier_char(c) || c == '.'
}

/// Every character of `s` may stand in an identifier.
pub open spec fn identifier_chars(s: Seq<char>) -> bool {
    forall|i: int| 0 <= i < s.len() ==> identifier_char(#[trigger] s[i])
}

/// Every character of `s` may stand in a skill identifier.
pub open spec fn skill_chars(s: Seq<char>) -> bool {
    forall|i: int| 0 <= i < s.len() ==> skill_char(#[trigger] s[i])
}

/// Whether `c` may stand in an identifier, given whether it is alphanumeric.
pub fn is_identifier_char(c: char, alnum: bool) -> (r: bool)
    ensures
        r == (alnum || c == '-' || c == '_'),
{
    alnum || c == '-' || c == '_'
}

/// Whether `c` may stand in a skill identifier, given whether it is
/// alphanumeric.
pub fn is_skill_char(c: char, alnum: bool) -> (r: bool)
    ensures
        r == (alnum || c == '-' || c == '_' || c == '.'),
{
    is_identifier_char(c, alnum) || c == '.'
}

/// Whether every character of `s` may stand in an identifier.
pub fn has_identifier_chars(s: &str) -> (r: bool)
    ensures
        r == identifier_chars(s@),
{
    let cs = chars_of(s);
    let mut i: usize = 0;
    while i < cs.len()
        invariant
            cs@ == s@,
            i <= cs@.len(),
            forall|j: int| 0 <= j < i ==> identifier_char(#[trigger] s@[j]),
        decreases cs@.len() - i,
    {
        let c = cs[i];
        if !is_identifier_char(c, is_alphanumeric(c)) {
            return false;
        }
        i += 1;
    }
    true
}

/// Whether every character of `s` may stand in a skill identifier.
pub fn has_skill_chars(s: &str) -> (r: bool)
    ensures
        r == skill_chars(s@),
{
    let cs = chars_of(s);
    let mut i: usize = 0;
    while i < cs.len()
        invariant
            cs@ == s@,
            i <= cs@.len(),
            forall|j: int| 0 <= j < i ==> skill_char(#[trigger] s@[j]),
        decreases cs@.len() - i,
    {
        let c = cs[i];
        if !is_skill_char(c, is_alphanumeric(c)) {
            return false;
        }
        i += 1;
    }
    true
}

/// The verdict on a message identifier whose characters are `clean` or not:
/// it is not empty, takes at most 255 bytes, and is clean.
pub open spec fn message_id_verdict_given(id: Seq<char>, clean: bool) -> Result<(), Seq<char>> {
    if id.len() == 0 {
        Err("Message ID cannot be empty"@)
    } else if byte_len(id) > 255 {
        Err("Message ID is too long (max 255 characters)"@)
    } else if !clean {
        Err("Message ID can only contain alphanumeric characters, hyphens, and underscores"@)
    } else {
        Ok(())
    }
}

/// The verdict on a message identifier: it is not empty, takes at most 255
/// bytes, and holds only alphanumeric characters, `-` and `_`.
pub open spec fn message_id_verdict(id: Seq<char>) -> Result<(), Seq<char>> {
    message_id_verdict_given(id, identifier_chars(id))
}

/// Validates a message identifier of which it is known whether all its
/// characters may stand in an identifier.
pub fn check_message_id(message_id: &str, clean: bool) -> (r: Result<(), String>)
    ensures
        outcome(r) == message_id_verdict_given(message_id@, clean),
{
    if message_id.is_empty() {
        return Err(owned("Message ID cannot be empty"));
    }
    if byte_length(message_id) > 255 {
        return Err(owned("Message ID is too long (max 255 characters)"));
    }
    if !clean {
        return Err(
            owned("Message ID can only contain alphanumeric characters, hyphens, and underscores"),
        );
    }
    Ok(())
}

/// Validates a message identifier.
pub fn validate_message_id(message_id: &str) -> (r: Result<(), String>)
    ensures
        outcome(r) == message_id_verdict(message_id@),
{
    check_message_id(message_id, has_identifier_chars(message_id))
}

/// The verdict on a task identifier whose characters are `clean` or not: it
/// is not empty, takes at most 255 bytes, and is clean.
pub open spec fn task_id_verdict_given(id: Seq<char>, clean: bool) -> Result<(), Seq<char>> {
    if id.len() == 0 {
        Err("Task ID cannot be empty"@)
    } else if byte_len(id) > 255 {
        Err("Task ID is too long (max 255 characters)"@)
    } else if !clean {
        Err("Task ID can only contain alphanumeric characters, hyphens, and underscores"@)
    } else {
        Ok(())
    }
}

/// The verdict on a task identifier: it is not empty, takes at most 255
/// bytes, and holds only alphanumeric characters, `-` and `_`.
pub open spec fn task_id_verdict(id: Seq<char>) -> Result<(), Seq<char>> {
    task_id_verdict_given(id, identifier_chars(id))
}

/// Validates a task identifier of which it is known whether all its
/// characters may stand in an identifier.
pub fn check_task_id(task_id: &str, clean: bool) -> (r: Result<(), String>)
    ensures
        outcome(r) == task_id_verdict_given(task_id@, clean),
{
    if task_id.is_empty() {
        return Err(owned("Task ID cannot be empty"));
    }
    if byte_length(task_id) > 255 {
        return Err(owned("Task ID is too long (max 255 characters)"));
    }
    if !clean {
        return Err(
            owned("Task ID can only contain alphanumeric characters, hyphens, and underscores"),
        );
    }
    Ok(())
}

/// Validates a task identifier.
pub fn validate_task_id(task_id: &str) -> (r: Result<(), String>)
    ensures
        outcome(r) == task_id_verdict(task_id@),
{
    check_task_id(task_id, has_identifier_chars(task_id))
}

/// The verdict on an agent name that is `padded` with whitespace or not: it
/// is not empty, takes at most 100 bytes, and is not padded.
pub open spec fn agent_name_verdict_given(name: Seq<char>, padded: bool) -> Result<(), Seq<char>> {
    if name.len() == 0 {
        Err("Agent name cannot be empty"@)
    } else if byte_len(name) > 100 {
        Err("Agent name is too long (max 100 characters)"@)
    } else if padded {
        Err("Agent name cannot start or end with whitespace"@)
    } else {
        Ok(())
    }
}

/// `name` begins or ends with whitespace.
pub open spec fn padded(name: Seq<char>) -> bool {
    name.len() > 0 && (whitespace(name[0]) || whitespace(name.last()))
}

/// The verdict on an agent name: it is not empty, takes at most 100 bytes,
/// and neither begins nor ends with whitespace.
pub open spec fn agent_name_verdict(name: Seq<char>) -> Result<(), Seq<char>> {
    agent_name_verdict_given(name, padded(name))
}

/// Whether `name` begins or ends with whitespace.
pub fn is_padded(name: &str) -> (r: bool)
    ensures
        r == padded(name@),
{
    let cs = chars_of(name);
    cs.len() > 0 && (is_whitespace(cs[0]) || is_whitespace(cs[cs.len() - 1]))
}

/// Validates an agent name of which it is known whether whitespace begins or
/// ends it.
pub fn check_agent_name(name: &str, padded: bool) -> (r: Result<(), String>)
    ensures
        outcome(r) == agent_name_verdict_given(name@, padded),
{
    if name.is_empty() {
        return Err(owned("Agent name cannot be empty"));
    }
    if byte_length(name) > 100 {
        return Err(owned("Agent name is too long (max 100 characters)"));
    }
    if padded {
        return Err(owned("Agent name cannot start or end with whitespace"));
    }
    Ok(())
}

/// Validates an agent name.
pub fn validate_agent_name(name: &str) -> (r: Result<(), String>)
    ensures
        outcome(r) == agent_name_verdict(name@),
{
    check_agent_name(name, is_padded(name))
}

/// One of the pieces is empty.
pub open spec fn has_empty_piece(parts: Seq<Seq<char>>) -> bool {
    exists|k: int| 0 <= k < parts.len() && (#[trigger] parts[k]).len() == 0
}

/// The verdict on a version: it is not empty, takes at most 50 bytes, and is
/// made of one to four pieces parted by `.`, none of them empty.
pub open spec fn version_verdict(version: Seq<char>) -> Result<(), Seq<char>> {
    let parts = split(version, '.');
    if version.len() == 0 {
        Err("Version cannot be empty"@)
    } else if byte_len(version) > 50 {
        Err("Version is too long (max 50 characters)"@)
    } else if parts.len() > 4 {
        Err("Version should have 1-4 dot-separated parts"@)
    } else if has_empty_piece(parts) {
        Err("Version parts cannot be empty"@)
    } else {
        Ok(())
    }
}

/// Validates a version string.
#[verifier::loop_isolation(false)]
pub fn validate_version(version: &str) -> (r: Result<(), String>)
    ensures
        outcome(r) == version_verdict(version@),
{
    if version.is_empty() {
        return Err(owned("Version cannot be empty"));
    }
    if byte_length(version) > 50 {
        return Err(owned("Version is too long (max 50 characters)"));
    }
    let cs = chars_of(version);
    let parts = split_ranges(cs.as_slice(), '.');
    if parts.len() > 4 {
        return Err(owned("Version should have 1-4 dot-separated parts"));
    }
    let ghost pieces = split(version@, '.');
    let mut k: usize = 0;
    while k < parts.len()
        invariant
            k <= parts@.len(),
            parts@.len() == pieces.len(),
            forall|j: int|
                0 <= j < parts@.len() ==> (#[trigger] parts@[j]).1 - parts@[j].0 == pieces[j].len(),
            forall|j: int| 0 <= j < k ==> (#[trigger] pieces[j]).len() != 0,
        decreases parts@.len() - k,
    {
        let (from, to) = parts[k];
        if from == to {
            assert(pieces[k as int].len() == 0);
            return Err(owned("Version parts cannot be empty"));
        }
        k += 1;
    }
    Ok(())
}

/// The verdict on a skill identifier whose characters are `clean` or not: it
/// is not empty, takes at most 255 bytes, and is clean.
pub open spec fn skill_id_verdict_given(id: Seq<char>, clean: bool) -> Result<(), Seq<char>> {
    if id.len() == 0 {
        Err("Skill ID cannot be empty"@)
    } else if byte_len(id) > 255 {
        Err("Skill ID is too long (max 255 characters)"@)
    } else if !clean {
        Err(
            "Skill ID can only contain alphanumeric characters, hyphens, underscores, and dots"@,
        )
    } else {
        Ok(())
    }
}

/// The verdict on a skill identifier: it is not empty, takes at most 255
/// bytes, and holds only alphanumeric characters, `-`, `_` and `.`.
pub open spec fn skill_id_verdict(id: Seq<char>) -> Result<(), Seq<char>> {
    skill_id_verdict_given(id, skill_chars(id))
}

/// Validates a skill identifier of which it is known whether all its
/// characters may stand in a skill identifier.
pub fn check_skill_id(skill_id: &str, clean: bool) -> (r: Result<(), String>)
    ensures
        outcome(r) == skill_id_verdict_given(skill_id@, clean),
{
    if skill_id.is_empty() {
        return Err(owned("Skill ID cannot be empty"));
    }
    if byte_length(skill_id) > 255 {
        return Err(owned("Skill ID is too long (max 255 characters)"));
    }
    if !clean {
        return Err(
            owned(
                "Skill ID can only contain alphanumeric characters, hyphens, underscores, and dots",
            ),
        );
    }
    Ok(())
}

/// Validates a skill identifier.
pub fn validate_skill_id(skill_id: &str) -> (r: Result<(), String>)
    ensures
        outcome(r) == skill_id_verdict(skill_id@),
{
    check_skill_id(skill_id, has_skill_chars(skill_id))
}

} // verus!
