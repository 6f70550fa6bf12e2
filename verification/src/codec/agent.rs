//! Agent cards and what they hold on the wire.

use crate::codec::fields::{
    array_of, decode_all, decode_members, decode_texts, encode_texts, flag_of, get_present,
    json_of, lemma_decode_all_encoded, lemma_decode_all_fails, lemma_decode_all_step,
    lemma_decode_members_encoded, lemma_decode_members_fails, lemma_decode_members_step,
    lemma_member_after_put, lemma_member_after_put_optional, lemma_texts_round_trip, map_of,
    members_of, models, object_of, optional, push_member, put, put_optional, read_flag,
    read_json, read_text, read_texts, required, string_of, text_of, write_texts, DecodeError,
};
use crate::codec::security::{
    decode_schemes, encode_schemes, lemma_schemes_round_trip, read_schemes, write_schemes,
    SecuritySchemeModel,
};
use crate::json::{JsonMember, JsonModel, JsonValue, MemberModel};
use crate::agent::{
    AgentCapabilities, AgentCard, AgentExtension, AgentInterface, AgentProvider, AgentSkill,
};
use vstd::prelude::*;

verus! {

/// What writes a list of texts.
pub open spec fn texts_encoder() -> spec_fn(Seq<Seq<char>>) -> JsonModel {
    |item: Seq<Seq<char>>| encode_texts(item)
}

/// What reads a list of texts.
pub open spec fn texts_decoder() -> spec_fn(JsonModel) -> Result<Seq<Seq<char>>, DecodeError> {
    |value: JsonModel| decode_texts(value)
}

/// The object that is written for a security requirement: one member for each
/// entry, in order.
pub open spec fn encode_requirement(entries: Seq<(Seq<char>, Seq<Seq<char>>)>) -> JsonModel {
    JsonModel::Object(members_of(entries, texts_encoder()))
}

/// What an object stands for when it is read as a security requirement: one
/// entry for each member, in order.
pub open spec fn decode_requirement(
    value: JsonModel,
) -> Result<Seq<(Seq<char>, Seq<Seq<char>>)>, DecodeError> {
    map_of(value, texts_decoder())
}

/// Reading what was written for a security requirement gives the entries back.
pub proof fn lemma_requirement_round_trip(entries: Seq<(Seq<char>, Seq<Seq<char>>)>)
    ensures
        decode_requirement(encode_requirement(entries))
            == Ok::<Seq<(Seq<char>, Seq<Seq<char>>)>, DecodeError>(entries),
{
    assert forall|i: int| 0 <= i < entries.len() implies texts_decoder()(
        texts_encoder()((#[trigger] entries[i]).1),
    ) == Ok::<Seq<Seq<char>>, DecodeError>(entries[i].1) by {
        lemma_texts_round_trip(entries[i].1);
    }
    lemma_decode_members_encoded(entries, texts_encoder(), texts_decoder());
}

/// Writes a security requirement as a JSON object.
pub fn write_requirement(entries: &Vec<(String, Vec<String>)>) -> (r: JsonValue)
    ensures
        r@ == encode_requirement(entries.deep_view()),
{
    let mut out: Vec<JsonMember> = Vec::new();
    let mut i: usize = 0;
    while i < entries.len()
        invariant
            i <= entries@.len(),
            out@.len() == i,
            forall|j: int|
                0 <= j < i ==> (#[trigger] out@[j])@ == (MemberModel {
                    name: entries@[j].0@,
                    value: encode_texts(entries@[j].1.deep_view()),
                }),
        decreases entries@.len() - i,
    {
        out.push(
            JsonMember {
                name: entries[i].0.clone(),
                value: write_texts(&entries[i].1),
            },
        );
        i += 1;
    }
    let r = JsonValue::Object(out);
    assert(r@->Object_0 =~= members_of(entries.deep_view(), texts_encoder()));
    r
}

/// Reads a security requirement from a JSON object.
pub fn read_requirement(value: &JsonValue) -> (r: Result<Vec<(String, Vec<String>)>, DecodeError>)
    ensures
        match r {
            Ok(entries) => decode_requirement(value@)
                == Ok::<Seq<(Seq<char>, Seq<Seq<char>>)>, DecodeError>(
                entries.deep_view(),
            ),
            Err(e) => decode_requirement(value@)
                == Err::<Seq<(Seq<char>, Seq<Seq<char>>)>, DecodeError>(e),
        },
{
    match value {
        JsonValue::Object(members) => {
            let ghost all = value@->Object_0;
            let mut out: Vec<(String, Vec<String>)> = Vec::new();
            let mut i: usize = 0;
            assert(all.subrange(0, 0) =~= Seq::<MemberModel>::empty());
            assert(out.deep_view() =~= Seq::<(Seq<char>, Seq<Seq<char>>)>::empty());
            while i < members.len()
                invariant
                    i <= members@.len(),
                    value@ == JsonModel::Object(all),
                    all.len() == members@.len(),
                    forall|j: int| 0 <= j < all.len() ==> all[j] == (#[trigger] members@[j])@,
                    decode_members(all.subrange(0, i as int), texts_decoder()) == Ok::<
                        Seq<(Seq<char>, Seq<Seq<char>>)>,
                        DecodeError,
                    >(out.deep_view()),
                decreases members@.len() - i,
            {
                let ghost before = out.deep_view();
                match read_texts(&members[i].value) {
                    Ok(item) => {
                        proof {
                            lemma_decode_members_step(all, texts_decoder(), i as int);
                        }
                        let name = members[i].name.clone();
                        out.push((name, item));
                        assert(out.deep_view() =~= before.push(
                            (members@[i as int].name@, item.deep_view()),
                        ));
                    },
                    Err(e) => {
                        proof {
                            lemma_decode_members_fails(all, texts_decoder(), i as int);
                        }
                        return Err(e);
                    },
                }
                i += 1;
            }
            assert(all.subrange(0, i as int) =~= all);
            Ok(out)
        },
        _ => Err(DecodeError::WrongKind),
    }
}

/// What writes a security requirement.
pub open spec fn requirement_encoder() -> spec_fn(Seq<(Seq<char>, Seq<Seq<char>>)>) -> JsonModel {
    |item: Seq<(Seq<char>, Seq<Seq<char>>)>| encode_requirement(item)
}

/// What reads a security requirement.
pub open spec fn requirement_decoder(
) -> spec_fn(JsonModel) -> Result<Seq<(Seq<char>, Seq<Seq<char>>)>, DecodeError> {
    |value: JsonModel| decode_requirement(value)
}

/// The array that is written for a list of security requirements.
pub open spec fn encode_requirements(items: Seq<Seq<(Seq<char>, Seq<Seq<char>>)>>) -> JsonModel {
    JsonModel::Array(items.map_values(requirement_encoder()))
}

/// What an array stands for when it is read as a list of security
/// requirements.
pub open spec fn decode_requirements(
    value: JsonModel,
) -> Result<Seq<Seq<(Seq<char>, Seq<Seq<char>>)>>, DecodeError> {
    array_of(value, requirement_decoder())
}

/// Reading what was written for a list of security requirements gives the
/// list back.
pub proof fn lemma_requirements_round_trip(items: Seq<Seq<(Seq<char>, Seq<Seq<char>>)>>)
    ensures
        decode_requirements(encode_requirements(items))
            == Ok::<Seq<Seq<(Seq<char>, Seq<Seq<char>>)>>, DecodeError>(items),
{
    assert forall|i: int| 0 <= i < items.len() implies requirement_decoder()(
        requirement_encoder()(#[trigger] items[i]),
    ) == Ok::<Seq<(Seq<char>, Seq<Seq<char>>)>, DecodeError>(items[i]) by {
        lemma_requirement_round_trip(items[i]);
    }
    lemma_decode_all_encoded(items, requirement_encoder(), requirement_decoder());
}

/// Writes a list of security requirements as a JSON array.
pub fn write_requirements(items: &Vec<Vec<(String, Vec<String>)>>) -> (r: JsonValue)
    ensures
        r@ == encode_requirements(items.deep_view()),
{
    let mut out: Vec<JsonValue> = Vec::new();
    let mut i: usize = 0;
    while i < items.len()
        invariant
            i <= items@.len(),
            out@.len() == i,
            forall|j: int|
                0 <= j < i ==> (#[trigger] out@[j])@ == encode_requirement(items@[j].deep_view()),
        decreases items@.len() - i,
    {
        out.push(write_requirement(&items[i]));
        i += 1;
    }
    let r = JsonValue::Array(out);
    assert(r@->Array_0 =~= items.deep_view().map_values(requirement_encoder()));
    r
}

/// Reads a list of security requirements from a JSON array.
pub fn read_requirements(
    value: &JsonValue,
) -> (r: Result<Vec<Vec<(String, Vec<String>)>>, DecodeError>)
    ensures
        match r {
            Ok(items) => decode_requirements(value@)
                == Ok::<Seq<Seq<(Seq<char>, Seq<Seq<char>>)>>, DecodeError>(
                items.deep_view(),
            ),
            Err(e) => decode_requirements(value@)
                == Err::<Seq<Seq<(Seq<char>, Seq<Seq<char>>)>>, DecodeError>(e),
        },
{
    match value {
        JsonValue::Array(values) => {
            let ghost all = value@->Array_0;
            let mut out: Vec<Vec<(String, Vec<String>)>> = Vec::new();
            let mut i: usize = 0;
            assert(all.subrange(0, 0) =~= Seq::<JsonModel>::empty());
            assert(out.deep_view() =~= Seq::<Seq<(Seq<char>, Seq<Seq<char>>)>>::empty());
            while i < values.len()
                invariant
                    i <= values@.len(),
                    value@ == JsonModel::Array(all),
                    all.len() == values@.len(),
                    forall|j: int| 0 <= j < all.len() ==> all[j] == (#[trigger] values@[j])@,
                    decode_all(all.subrange(0, i as int), requirement_decoder()) == Ok::<
                        Seq<Seq<(Seq<char>, Seq<Seq<char>>)>>,
                        DecodeError,
                    >(out.deep_view()),
                decreases values@.len() - i,
            {
                let ghost before = out.deep_view();
                match read_requirement(&values[i]) {
                    Ok(item) => {
                        proof {
                            lemma_decode_all_step(all, requirement_decoder(), i as int);
                        }
                        out.push(item);
                        assert(out.deep_view() =~= before.push(item.deep_view()));
                    },
                    Err(e) => {
                        proof {
                            lemma_decode_all_fails(all, requirement_decoder(), i as int);
                        }
                        return Err(e);
                    },
                }
                i += 1;
            }
            assert(all.subrange(0, i as int) =~= all);
            Ok(out)
        },
        _ => Err(DecodeError::WrongKind),
    }
}

/// The model of an extension of an agent.
pub struct AgentExtensionModel {
    pub uri: Seq<char>,
    pub required: Option<bool>,
    pub description: Option<Seq<char>>,
    pub params: Option<JsonModel>,
}

impl DeepView for AgentExtension {
    type V = AgentExtensionModel;

    open spec fn deep_view(&self) -> AgentExtensionModel {
        AgentExtensionModel {
            uri: self.uri.deep_view(),
            required: self.required.deep_view(),
            description: self.description.deep_view(),
            params: self.params.deep_view(),
        }
    }
}

impl AgentExtensionModel {
    /// Whether the record comes back unchanged when it is written and read:
    /// no optional JSON value in it is `null`, which reads as a missing
    /// value.
    pub open spec fn representable(self) -> bool {
        &&& self.params != Some(JsonModel::Null)
    }
}

/// The object that is written for an extension of an agent.
pub open spec fn encode_agent_extension(record: AgentExtensionModel) -> JsonModel {
    let members = Seq::empty();
    let members = put(members, "uri"@, JsonModel::String(record.uri));
    let members = put_optional(
        members,
        "required"@,
        match record.required {
            Some(item) => Some(JsonModel::Bool(item)),
            None => None,
        },
    );
    let members = put_optional(
        members,
        "description"@,
        match record.description {
            Some(item) => Some(JsonModel::String(item)),
            None => None,
        },
    );
    let members = put_optional(
        members,
        "params"@,
        record.params,
    );
    JsonModel::Object(members)
}

/// What an object stands for when it is read as an extension of an agent: the
/// record, or the first failure among its members in their order.
pub open spec fn decode_agent_extension(
    value: JsonModel,
) -> Result<AgentExtensionModel, DecodeError> {
    let uri = required(value, "uri"@, |v: JsonModel| text_of(v));
    let required = optional(value, "required"@, |v: JsonModel| flag_of(v));
    let description = optional(value, "description"@, |v: JsonModel| text_of(v));
    let params = optional(value, "params"@, |v: JsonModel| json_of(v));
    if !(value is Object) {
        Err(DecodeError::WrongKind)
    } else if uri is Err {
        Err(uri->Err_0)
    } else if required is Err {
        Err(required->Err_0)
    } else if description is Err {
        Err(description->Err_0)
    } else if params is Err {
        Err(params->Err_0)
    } else {
        Ok(
            AgentExtensionModel {
                uri: uri->Ok_0,
                required: required->Ok_0,
                description: description->Ok_0,
                params: params->Ok_0,
            },
        )
    }
}

/// Reading what was written for an extension of an agent gives the record
/// back.
pub proof fn lemma_agent_extension_round_trip(record: AgentExtensionModel)
    requires
        record.representable(),
    ensures
        decode_agent_extension(encode_agent_extension(record))
            == Ok::<AgentExtensionModel, DecodeError>(record),
{
    broadcast use lemma_member_after_put, lemma_member_after_put_optional;
    reveal_strlit("uri");
    reveal_strlit("required");
    reveal_strlit("description");
    reveal_strlit("params");
    assert(
        "uri"@.len() == 3
            && "required"@.len() == 8
            && "description"@.len() == 11
            && "params"@.len() == 6
    );
    let value = encode_agent_extension(record);
    assert(value.member("uri"@) == Some(JsonModel::String(record.uri)));
    assert(value.member("required"@) == match record.required {
        Some(item) => Some(JsonModel::Bool(item)),
        None => None,
    });
    assert(value.member("description"@) == match record.description {
        Some(item) => Some(JsonModel::String(item)),
        None => None,
    });
    assert(value.member("params"@) == record.params);
}

impl AgentExtension {
    /// Writes the record as a JSON value.
    pub fn encode(&self) -> (r: JsonValue)
        ensures
            r@ == encode_agent_extension(self.deep_view()),
    {
        let mut members: Vec<JsonMember> = Vec::new();
        assert(models(members@) =~= Seq::<MemberModel>::empty());
        push_member(&mut members, "uri", string_of(self.uri.as_str()));
        match &self.required {
            Some(item) => {
                push_member(&mut members, "required", JsonValue::Bool(*item));
            },
            None => {},
        }
        match &self.description {
            Some(item) => {
                push_member(&mut members, "description", string_of(item.as_str()));
            },
            None => {},
        }
        match &self.params {
            Some(item) => {
                push_member(&mut members, "params", item.clone());
            },
            None => {},
        }
        object_of(members)
    }

    /// Reads the record from a JSON value.
    pub fn decode(value: &JsonValue) -> (r: Result<Self, DecodeError>)
        ensures
            match r {
                Ok(record) => decode_agent_extension(value@)
                    == Ok::<AgentExtensionModel, DecodeError>(
                    record.deep_view(),
                ),
                Err(e) => decode_agent_extension(value@)
                    == Err::<AgentExtensionModel, DecodeError>(e),
            },
    {
        if !value.is_object() {
            return Err(DecodeError::WrongKind);
        }
        let uri = match value.get("uri") {
            Some(v) => read_text(v)?,
            None => {
                return Err(DecodeError::MissingField);
            },
        };
        let required = match get_present(value, "required") {
            Some(v) => Some(read_flag(v)?),
            None => None,
        };
        let description = match get_present(value, "description") {
            Some(v) => Some(read_text(v)?),
            None => None,
        };
        let params = match get_present(value, "params") {
            Some(v) => Some(read_json(v)?),
            None => None,
        };
        Ok(AgentExtension { uri, required, description, params })
    }
}

/// What writes an extension of an agent.
pub open spec fn agent_extension_encoder() -> spec_fn(AgentExtensionModel) -> JsonModel {
    |item: AgentExtensionModel| encode_agent_extension(item)
}

/// What reads an extension of an agent.
pub open spec fn agent_extension_decoder(
) -> spec_fn(JsonModel) -> Result<AgentExtensionModel, DecodeError> {
    |value: JsonModel| decode_agent_extension(value)
}

/// The array that is written for a list of extensions.
pub open spec fn encode_agent_extension_list(items: Seq<AgentExtensionModel>) -> JsonModel {
    JsonModel::Array(items.map_values(agent_extension_encoder()))
}

/// What an array stands for when it is read as a list of extensions.
pub open spec fn decode_agent_extension_list(
    value: JsonModel,
) -> Result<Seq<AgentExtensionModel>, DecodeError> {
    array_of(value, agent_extension_decoder())
}

/// Every item of the list comes back unchanged when it is written and read.
pub open spec fn agent_extension_list_representable(items: Seq<AgentExtensionModel>) -> bool {
    forall|i: int| 0 <= i < items.len() ==> (#[trigger] items[i]).representable()
}

/// Reading what was written for a list of extensions gives the list back.
pub proof fn lemma_agent_extension_list_round_trip(items: Seq<AgentExtensionModel>)
    requires
        agent_extension_list_representable(items),
    ensures
        decode_agent_extension_list(encode_agent_extension_list(items))
            == Ok::<Seq<AgentExtensionModel>, DecodeError>(items),
{
    assert forall|i: int| 0 <= i < items.len() implies agent_extension_decoder()(
        agent_extension_encoder()(#[trigger] items[i]),
    ) == Ok::<AgentExtensionModel, DecodeError>(items[i]) by {
        lemma_agent_extension_round_trip(items[i]);
    }
    lemma_decode_all_encoded(items, agent_extension_encoder(), agent_extension_decoder());
}

/// Writes a list of extensions as a JSON array.
pub fn write_agent_extension_list(items: &Vec<AgentExtension>) -> (r: JsonValue)
    ensures
        r@ == encode_agent_extension_list(items.deep_view()),
{
    let mut out: Vec<JsonValue> = Vec::new();
    let mut i: usize = 0;
    while i < items.len()
        invariant
            i <= items@.len(),
            out@.len() == i,
            forall|j: int|
                0 <= j < i ==> (#[trigger] out@[j])@
                    == encode_agent_extension(items@[j].deep_view()),
        decreases items@.len() - i,
    {
        out.push(items[i].encode());
        i += 1;
    }
    let r = JsonValue::Array(out);
    assert(r@->Array_0 =~= items.deep_view().map_values(agent_extension_encoder()));
    r
}

/// Reads a list of extensions from a JSON array.
pub fn read_agent_extension_list(value: &JsonValue) -> (r: Result<Vec<AgentExtension>, DecodeError>)
    ensures
        match r {
            Ok(items) => decode_agent_extension_list(value@)
                == Ok::<Seq<AgentExtensionModel>, DecodeError>(
                items.deep_view(),
            ),
            Err(e) => decode_agent_extension_list(value@)
                == Err::<Seq<AgentExtensionModel>, DecodeError>(e),
        },
{
    match value {
        JsonValue::Array(values) => {
            let ghost all = value@->Array_0;
            let mut out: Vec<AgentExtension> = Vec::new();
            let mut i: usize = 0;
            assert(all.subrange(0, 0) =~= Seq::<JsonModel>::empty());
            assert(out.deep_view() =~= Seq::<AgentExtensionModel>::empty());
            while i < values.len()
                invariant
                    i <= values@.len(),
                    value@ == JsonModel::Array(all),
                    all.len() == values@.len(),
                    forall|j: int| 0 <= j < all.len() ==> all[j] == (#[trigger] values@[j])@,
                    decode_all(all.subrange(0, i as int), agent_extension_decoder()) == Ok::<
                        Seq<AgentExtensionModel>,
                        DecodeError,
                    >(out.deep_view()),
                decreases values@.len() - i,
            {
                let ghost before = out.deep_view();
                match AgentExtension::decode(&values[i]) {
                    Ok(item) => {
                        proof {
                            lemma_decode_all_step(all, agent_extension_decoder(), i as int);
                        }
                        out.push(item);
                        assert(out.deep_view() =~= before.push(item.deep_view()));
                    },
                    Err(e) => {
                        proof {
                            lemma_decode_all_fails(all, agent_extension_decoder(), i as int);
                        }
                        return Err(e);
                    },
                }
                i += 1;
            }
            assert(all.subrange(0, i as int) =~= all);
            Ok(out)
        },
        _ => Err(DecodeError::WrongKind),
    }
}

/// The model of the capabilities of an agent.
pub struct AgentCapabilitiesModel {
    pub extensions: Option<Seq<AgentExtensionModel>>,
    pub push_notifications: Option<bool>,
    pub state_transition_history: Option<bool>,
    pub streaming: Option<bool>,
}

impl DeepView for AgentCapabilities {
    type V = AgentCapabilitiesModel;

    open spec fn deep_view(&self) -> AgentCapabilitiesModel {
        AgentCapabilitiesModel {
            extensions: self.extensions.deep_view(),
            push_notifications: self.push_notifications.deep_view(),
            state_transition_history: self.state_transition_history.deep_view(),
            streaming: self.streaming.deep_view(),
        }
    }
}

impl AgentCapabilitiesModel {
    /// Whether the record comes back unchanged when it is written and read:
    /// no optional JSON value in it is `null`, which reads as a missing
    /// value.
    pub open spec fn representable(self) -> bool {
        &&& (self.extensions is Some ==> agent_extension_list_representable(self.extensions->0))
    }
}

/// The object that is written for the capabilities of an agent.
pub open spec fn encode_agent_capabilities(record: AgentCapabilitiesModel) -> JsonModel {
    let members = Seq::empty();
    let members = put_optional(
        members,
        "extensions"@,
        match record.extensions {
            Some(item) => Some(encode_agent_extension_list(item)),
            None => None,
        },
    );
    let members = put_optional(
        members,
        "pushNotifications"@,
        match record.push_notifications {
            Some(item) => Some(JsonModel::Bool(item)),
            None => None,
        },
    );
    let members = put_optional(
        members,
        "stateTransitionHistory"@,
        match record.state_transition_history {
            Some(item) => Some(JsonModel::Bool(item)),
            None => None,
        },
    );
    let members = put_optional(
        members,
        "streaming"@,
        match record.streaming {
            Some(item) => Some(JsonModel::Bool(item)),
            None => None,
        },
    );
    JsonModel::Object(members)
}

/// What an object stands for when it is read as the capabilities of an agent:
/// the record, or the first failure among its members in their order.
pub open spec fn decode_agent_capabilities(
    value: JsonModel,
) -> Result<AgentCapabilitiesModel, DecodeError> {
    let extensions = optional(value, "extensions"@, |v: JsonModel| decode_agent_extension_list(v));
    let push_notifications = optional(value, "pushNotifications"@, |v: JsonModel| flag_of(v));
    let state_transition_history = optional(
        value,
        "stateTransitionHistory"@,
        |v: JsonModel| flag_of(v),
    );
    let streaming = optional(value, "streaming"@, |v: JsonModel| flag_of(v));
    if !(value is Object) {
        Err(DecodeError::WrongKind)
    } else if extensions is Err {
        Err(extensions->Err_0)
    } else if push_notifications is Err {
        Err(push_notifications->Err_0)
    } else if state_transition_history is Err {
        Err(state_transition_history->Err_0)
    } else if streaming is Err {
        Err(streaming->Err_0)
    } else {
        Ok(
            AgentCapabilitiesModel {
                extensions: extensions->Ok_0,
                push_notifications: push_notifications->Ok_0,
                state_transition_history: state_transition_history->Ok_0,
                streaming: streaming->Ok_0,
            },
        )
    }
}

/// Reading what was written for the capabilities of an agent gives the record
/// back.
pub proof fn lemma_agent_capabilities_round_trip(record: AgentCapabilitiesModel)
    requires
        record.representable(),
    ensures
        decode_agent_capabilities(encode_agent_capabilities(record))
            == Ok::<AgentCapabilitiesModel, DecodeError>(record),
{
    broadcast use lemma_member_after_put, lemma_member_after_put_optional;
    reveal_strlit("extensions");
    reveal_strlit("pushNotifications");
    reveal_strlit("stateTransitionHistory");
    reveal_strlit("streaming");
    assert(
        "extensions"@.len() == 10
            && "pushNotifications"@.len() == 17
            && "stateTransitionHistory"@.len() == 22
            && "streaming"@.len() == 9
    );
    if record.extensions is Some {
        lemma_agent_extension_list_round_trip(record.extensions->0);
    }
    let value = encode_agent_capabilities(record);
    assert(value.member("extensions"@) == match record.extensions {
        Some(item) => Some(encode_agent_extension_list(item)),
        None => None,
    });
    assert(value.member("pushNotifications"@) == match record.push_notifications {
        Some(item) => Some(JsonModel::Bool(item)),
        None => None,
    });
    assert(value.member("stateTransitionHistory"@) == match record.state_transition_history {
        Some(item) => Some(JsonModel::Bool(item)),
        None => None,
    });
    assert(value.member("streaming"@) == match record.streaming {
        Some(item) => Some(JsonModel::Bool(item)),
        None => None,
    });
}

impl AgentCapabilities {
    /// Writes the record as a JSON value.
    pub fn encode(&self) -> (r: JsonValue)
        ensures
            r@ == encode_agent_capabilities(self.deep_view()),
    {
        let mut members: Vec<JsonMember> = Vec::new();
        assert(models(members@) =~= Seq::<MemberModel>::empty());
        match &self.extensions {
            Some(item) => {
                push_member(&mut members, "extensions", write_agent_extension_list(item));
            },
            None => {},
        }
        match &self.push_notifications {
            Some(item) => {
                push_member(&mut members, "pushNotifications", JsonValue::Bool(*item));
            },
            None => {},
        }
        match &self.state_transition_history {
            Some(item) => {
                push_member(&mut members, "stateTransitionHistory", JsonValue::Bool(*item));
            },
            None => {},
        }
        match &self.streaming {
            Some(item) => {
                push_member(&mut members, "streaming", JsonValue::Bool(*item));
            },
            None => {},
        }
        object_of(members)
    }

    /// Reads the record from a JSON value.
    pub fn decode(value: &JsonValue) -> (r: Result<Self, DecodeError>)
        ensures
            match r {
                Ok(record) => decode_agent_capabilities(value@)
                    == Ok::<AgentCapabilitiesModel, DecodeError>(
                    record.deep_view(),
                ),
                Err(e) => decode_agent_capabilities(value@)
                    == Err::<AgentCapabilitiesModel, DecodeError>(e),
            },
    {
        if !value.is_object() {
            return Err(DecodeError::WrongKind);
        }
        let extensions = match get_present(value, "extensions") {
            Some(v) => Some(read_agent_extension_list(v)?),
            None => None,
        };
        let push_notifications = match get_present(value, "pushNotifications") {
            Some(v) => Some(read_flag(v)?),
            None => None,
        };
        let state_transition_history = match get_present(value, "stateTransitionHistory") {
            Some(v) => Some(read_flag(v)?),
            None => None,
        };
        let streaming = match get_present(value, "streaming") {
            Some(v) => Some(read_flag(v)?),
            None => None,
        };
        Ok(
            AgentCapabilities {
                extensions,
                push_notifications,
                state_transition_history,
                streaming,
            },
        )
    }
}

/// The model of an interface of an agent.
pub struct AgentInterfaceModel {
    pub url: Seq<char>,
    pub transport: Seq<char>,
}

impl DeepView for AgentInterface {
    type V = AgentInterfaceModel;

    open spec fn deep_view(&self) -> AgentInterfaceModel {
        AgentInterfaceModel {
            url: self.url.deep_view(),
            transport: self.transport.deep_view(),
        }
    }
}

/// The object that is written for an interface of an agent.
pub open spec fn encode_agent_interface(record: AgentInterfaceModel) -> JsonModel {
    let members = Seq::empty();
    let members = put(members, "url"@, JsonModel::String(record.url));
    let members = put(members, "transport"@, JsonModel::String(record.transport));
    JsonModel::Object(members)
}

/// What an object stands for when it is read as an interface of an agent: the
/// record, or the first failure among its members in their order.
pub open spec fn decode_agent_interface(
    value: JsonModel,
) -> Result<AgentInterfaceModel, DecodeError> {
    let url = required(value, "url"@, |v: JsonModel| text_of(v));
    let transport = required(value, "transport"@, |v: JsonModel| text_of(v));
    if !(value is Object) {
        Err(DecodeError::WrongKind)
    } else if url is Err {
        Err(url->Err_0)
    } else if transport is Err {
        Err(transport->Err_0)
    } else {
        Ok(AgentInterfaceModel { url: url->Ok_0, transport: transport->Ok_0 })
    }
}

/// Reading what was written for an interface of an agent gives the record
/// back.
pub proof fn lemma_agent_interface_round_trip(record: AgentInterfaceModel)
    ensures
        decode_agent_interface(encode_agent_interface(record))
            == Ok::<AgentInterfaceModel, DecodeError>(record),
{
    broadcast use lemma_member_after_put, lemma_member_after_put_optional;
    reveal_strlit("url");
    reveal_strlit("transport");
    assert("url"@.len() == 3 && "transport"@.len() == 9);
    let value = encode_agent_interface(record);
    assert(value.member("url"@) == Some(JsonModel::String(record.url)));
    assert(value.member("transport"@) == Some(JsonModel::String(record.transport)));
}

impl AgentInterface {
    /// Writes the record as a JSON value.
    pub fn encode(&self) -> (r: JsonValue)
        ensures
            r@ == encode_agent_interface(self.deep_view()),
    {
        let mut members: Vec<JsonMember> = Vec::new();
        assert(models(members@) =~= Seq::<MemberModel>::empty());
        push_member(&mut members, "url", string_of(self.url.as_str()));
        push_member(&mut members, "transport", string_of(self.transport.as_str()));
        object_of(members)
    }

    /// Reads the record from a JSON value.
    pub fn decode(value: &JsonValue) -> (r: Result<Self, DecodeError>)
        ensures
            match r {
                Ok(record) => decode_agent_interface(value@)
                    == Ok::<AgentInterfaceModel, DecodeError>(
                    record.deep_view(),
                ),
                Err(e) => decode_agent_interface(value@)
                    == Err::<AgentInterfaceModel, DecodeError>(e),
            },
    {
        if !value.is_object() {
            return Err(DecodeError::WrongKind);
        }
        let url = match value.get("url") {
            Some(v) => read_text(v)?,
            None => {
                return Err(DecodeError::MissingField);
            },
        };
        let transport = match value.get("transport") {
            Some(v) => read_text(v)?,
            None => {
                return Err(DecodeError::MissingField);
            },
        };
        Ok(AgentInterface { url, transport })
    }
}

/// What writes an interface of an agent.
pub open spec fn agent_interface_encoder() -> spec_fn(AgentInterfaceModel) -> JsonModel {
    |item: AgentInterfaceModel| encode_agent_interface(item)
}

/// What reads an interface of an agent.
pub open spec fn agent_interface_decoder(
) -> spec_fn(JsonModel) -> Result<AgentInterfaceModel, DecodeError> {
    |value: JsonModel| decode_agent_interface(value)
}

/// The array that is written for a list of interfaces.
pub open spec fn encode_agent_interface_list(items: Seq<AgentInterfaceModel>) -> JsonModel {
    JsonModel::Array(items.map_values(agent_interface_encoder()))
}

/// What an array stands for when it is read as a list of interfaces.
pub open spec fn decode_agent_interface_list(
    value: JsonModel,
) -> Result<Seq<AgentInterfaceModel>, DecodeError> {
    array_of(value, agent_interface_decoder())
}

/// Reading what was written for a list of interfaces gives the list back.
pub proof fn lemma_agent_interface_list_round_trip(items: Seq<AgentInterfaceModel>)
    ensures
        decode_agent_interface_list(encode_agent_interface_list(items))
            == Ok::<Seq<AgentInterfaceModel>, DecodeError>(items),
{
    assert forall|i: int| 0 <= i < items.len() implies agent_interface_decoder()(
        agent_interface_encoder()(#[trigger] items[i]),
    ) == Ok::<AgentInterfaceModel, DecodeError>(items[i]) by {
        lemma_agent_interface_round_trip(items[i]);
    }
    lemma_decode_all_encoded(items, agent_interface_encoder(), agent_interface_decoder());
}

/// Writes a list of interfaces as a JSON array.
pub fn write_agent_interface_list(items: &Vec<AgentInterface>) -> (r: JsonValue)
    ensures
        r@ == encode_agent_interface_list(items.deep_view()),
{
    let mut out: Vec<JsonValue> = Vec::new();
    let mut i: usize = 0;
    while i < items.len()
        invariant
            i <= items@.len(),
            out@.len() == i,
            forall|j: int|
                0 <= j < i ==> (#[trigger] out@[j])@
                    == encode_agent_interface(items@[j].deep_view()),
        decreases items@.len() - i,
    {
        out.push(items[i].encode());
        i += 1;
    }
    let r = JsonValue::Array(out);
    assert(r@->Array_0 =~= items.deep_view().map_values(agent_interface_encoder()));
    r
}

/// Reads a list of interfaces from a JSON array.
pub fn read_agent_interface_list(value: &JsonValue) -> (r: Result<Vec<AgentInterface>, DecodeError>)
    ensures
        match r {
            Ok(items) => decode_agent_interface_list(value@)
                == Ok::<Seq<AgentInterfaceModel>, DecodeError>(
                items.deep_view(),
            ),
            Err(e) => decode_agent_interface_list(value@)
                == Err::<Seq<AgentInterfaceModel>, DecodeError>(e),
        },
{
    match value {
        JsonValue::Array(values) => {
            let ghost all = value@->Array_0;
            let mut out: Vec<AgentInterface> = Vec::new();
            let mut i: usize = 0;
            assert(all.subrange(0, 0) =~= Seq::<JsonModel>::empty());
            assert(out.deep_view() =~= Seq::<AgentInterfaceModel>::empty());
            while i < values.len()
                invariant
                    i <= values@.len(),
                    value@ == JsonModel::Array(all),
                    all.len() == values@.len(),
                    forall|j: int| 0 <= j < all.len() ==> all[j] == (#[trigger] values@[j])@,
                    decode_all(all.subrange(0, i as int), agent_interface_decoder()) == Ok::<
                        Seq<AgentInterfaceModel>,
                        DecodeError,
                    >(out.deep_view()),
                decreases values@.len() - i,
            {
                let ghost before = out.deep_view();
                match AgentInterface::decode(&values[i]) {
                    Ok(item) => {
                        proof {
                            lemma_decode_all_step(all, agent_interface_decoder(), i as int);
                        }
                        out.push(item);
                        assert(out.deep_view() =~= before.push(item.deep_view()));
                    },
                    Err(e) => {
                        proof {
                            lemma_decode_all_fails(all, agent_interface_decoder(), i as int);
                        }
                        return Err(e);
                    },
                }
                i += 1;
            }
            assert(all.subrange(0, i as int) =~= all);
            Ok(out)
        },
        _ => Err(DecodeError::WrongKind),
    }
}

/// The model of the provider of an agent.
pub struct AgentProviderModel {
    pub organization: Seq<char>,
    pub url: Seq<char>,
}

impl DeepView for AgentProvider {
    type V = AgentProviderModel;

    open spec fn deep_view(&self) -> AgentProviderModel {
        AgentProviderModel {
            organization: self.organization.deep_view(),
            url: self.url.deep_view(),
        }
    }
}

/// The object that is written for the provider of an agent.
pub open spec fn encode_agent_provider(record: AgentProviderModel) -> JsonModel {
    let members = Seq::empty();
    let members = put(members, "organization"@, JsonModel::String(record.organization));
    let members = put(members, "url"@, JsonModel::String(record.url));
    JsonModel::Object(members)
}

/// What an object stands for when it is read as the provider of an agent: the
/// record, or the first failure among its members in their order.
pub open spec fn decode_agent_provider(
    value: JsonModel,
) -> Result<AgentProviderModel, DecodeError> {
    let organization = required(value, "organization"@, |v: JsonModel| text_of(v));
    let url = required(value, "url"@, |v: JsonModel| text_of(v));
    if !(value is Object) {
        Err(DecodeError::WrongKind)
    } else if organization is Err {
        Err(organization->Err_0)
    } else if url is Err {
        Err(url->Err_0)
    } else {
        Ok(AgentProviderModel { organization: organization->Ok_0, url: url->Ok_0 })
    }
}

/// Reading what was written for the provider of an agent gives the record
/// back.
pub proof fn lemma_agent_provider_round_trip(record: AgentProviderModel)
    ensures
        decode_agent_provider(encode_agent_provider(record))
            == Ok::<AgentProviderModel, DecodeError>(record),
{
    broadcast use lemma_member_after_put, lemma_member_after_put_optional;
    reveal_strlit("organization");
    reveal_strlit("url");
    assert("organization"@.len() == 12 && "url"@.len() == 3);
    let value = encode_agent_provider(record);
    assert(value.member("organization"@) == Some(JsonModel::String(record.organization)));
    assert(value.member("url"@) == Some(JsonModel::String(record.url)));
}

impl AgentProvider {
    /// Writes the record as a JSON value.
    pub fn encode(&self) -> (r: JsonValue)
        ensures
            r@ == encode_agent_provider(self.deep_view()),
    {
        let mut members: Vec<JsonMember> = Vec::new();
        assert(models(members@) =~= Seq::<MemberModel>::empty());
        push_member(&mut members, "organization", string_of(self.organization.as_str()));
        push_member(&mut members, "url", string_of(self.url.as_str()));
        object_of(members)
    }

    /// Reads the record from a JSON value.
    pub fn decode(value: &JsonValue) -> (r: Result<Self, DecodeError>)
        ensures
            match r {
                Ok(record) => decode_agent_provider(value@)
                    == Ok::<AgentProviderModel, DecodeError>(
                    record.deep_view(),
                ),
                Err(e) => decode_agent_provider(value@)
                    == Err::<AgentProviderModel, DecodeError>(e),
            },
    {
        if !value.is_object() {
            return Err(DecodeError::WrongKind);
        }
        let organization = match value.get("organization") {
            Some(v) => read_text(v)?,
            None => {
                return Err(DecodeError::MissingField);
            },
        };
        let url = match value.get("url") {
            Some(v) => read_text(v)?,
            None => {
                return Err(DecodeError::MissingField);
            },
        };
        Ok(AgentProvider { organization, url })
    }
}

/// The model of a skill of an agent.
pub struct AgentSkillModel {
    pub name: Seq<char>,
    pub description: Seq<char>,
    pub input_modes: Option<Seq<Seq<char>>>,
    pub output_modes: Option<Seq<Seq<char>>>,
    pub examples: Option<Seq<Seq<char>>>,
}

impl DeepView for AgentSkill {
    type V = AgentSkillModel;

    open spec fn deep_view(&self) -> AgentSkillModel {
        AgentSkillModel {
            name: self.name.deep_view(),
            description: self.description.deep_view(),
            input_modes: self.input_modes.deep_view(),
            output_modes: self.output_modes.deep_view(),
            examples: self.examples.deep_view(),
        }
    }
}

/// The object that is written for a skill of an agent.
pub open spec fn encode_agent_skill(record: AgentSkillModel) -> JsonModel {
    let members = Seq::empty();
    let members = put(members, "name"@, JsonModel::String(record.name));
    let members = put(members, "description"@, JsonModel::String(record.description));
    let members = put_optional(
        members,
        "inputModes"@,
        match record.input_modes {
            Some(item) => Some(encode_texts(item)),
            None => None,
        },
    );
    let members = put_optional(
        members,
        "outputModes"@,
        match record.output_modes {
            Some(item) => Some(encode_texts(item)),
            None => None,
        },
    );
    let members = put_optional(
        members,
        "examples"@,
        match record.examples {
            Some(item) => Some(encode_texts(item)),
            None => None,
        },
    );
    JsonModel::Object(members)
}

/// What an object stands for when it is read as a skill of an agent: the
/// record, or the first failure among its members in their order.
pub open spec fn decode_agent_skill(value: JsonModel) -> Result<AgentSkillModel, DecodeError> {
    let name = required(value, "name"@, |v: JsonModel| text_of(v));
    let description = required(value, "description"@, |v: JsonModel| text_of(v));
    let input_modes = optional(value, "inputModes"@, |v: JsonModel| decode_texts(v));
    let output_modes = optional(value, "outputModes"@, |v: JsonModel| decode_texts(v));
    let examples = optional(value, "examples"@, |v: JsonModel| decode_texts(v));
    if !(value is Object) {
        Err(DecodeError::WrongKind)
    } else if name is Err {
        Err(name->Err_0)
    } else if description is Err {
        Err(description->Err_0)
    } else if input_modes is Err {
        Err(input_modes->Err_0)
    } else if output_modes is Err {
        Err(output_modes->Err_0)
    } else if examples is Err {
        Err(examples->Err_0)
    } else {
        Ok(
            AgentSkillModel {
                name: name->Ok_0,
                description: description->Ok_0,
                input_modes: input_modes->Ok_0,
                output_modes: output_modes->Ok_0,
                examples: examples->Ok_0,
            },
        )
    }
}

/// Reading what was written for a skill of an agent gives the record back.
pub proof fn lemma_agent_skill_round_trip(record: AgentSkillModel)
    ensures
        decode_agent_skill(encode_agent_skill(record))
            == Ok::<AgentSkillModel, DecodeError>(record),
{
    broadcast use lemma_member_after_put, lemma_member_after_put_optional;
    reveal_strlit("name");
    reveal_strlit("description");
    reveal_strlit("inputModes");
    reveal_strlit("outputModes");
    reveal_strlit("examples");
    assert(
        "name"@.len() == 4
            && "description"@.len() == 11
            && "inputModes"@.len() == 10
            && "outputModes"@.len() == 11
    );
    assert("examples"@.len() == 8);
    assert("description"@[0] != "outputModes"@[0]);
    if record.input_modes is Some {
        lemma_texts_round_trip(record.input_modes->0);
    }
    if record.output_modes is Some {
        lemma_texts_round_trip(record.output_modes->0);
    }
    if record.examples is Some {
        lemma_texts_round_trip(record.examples->0);
    }
    let value = encode_agent_skill(record);
    assert(value.member("name"@) == Some(JsonModel::String(record.name)));
    assert(value.member("description"@) == Some(JsonModel::String(record.description)));
    assert(value.member("inputModes"@) == match record.input_modes {
        Some(item) => Some(encode_texts(item)),
        None => None,
    });
    assert(value.member("outputModes"@) == match record.output_modes {
        Some(item) => Some(encode_texts(item)),
        None => None,
    });
    assert(value.member("examples"@) == match record.examples {
        Some(item) => Some(encode_texts(item)),
        None => None,
    });
}

impl AgentSkill {
    /// Writes the record as a JSON value.
    pub fn encode(&self) -> (r: JsonValue)
        ensures
            r@ == encode_agent_skill(self.deep_view()),
    {
        let mut members: Vec<JsonMember> = Vec::new();
        assert(models(members@) =~= Seq::<MemberModel>::empty());
        push_member(&mut members, "name", string_of(self.name.as_str()));
        push_member(&mut members, "description", string_of(self.description.as_str()));
        match &self.input_modes {
            Some(item) => {
                push_member(&mut members, "inputModes", write_texts(item));
            },
            None => {},
        }
        match &self.output_modes {
            Some(item) => {
                push_member(&mut members, "outputModes", write_texts(item));
            },
            None => {},
        }
        match &self.examples {
            Some(item) => {
                push_member(&mut members, "examples", write_texts(item));
            },
            None => {},
        }
        object_of(members)
    }

    /// Reads the record from a JSON value.
    pub fn decode(value: &JsonValue) -> (r: Result<Self, DecodeError>)
        ensures
            match r {
                Ok(record) => decode_agent_skill(value@) == Ok::<AgentSkillModel, DecodeError>(
                    record.deep_view(),
                ),
                Err(e) => decode_agent_skill(value@) == Err::<AgentSkillModel, DecodeError>(e),
            },
    {
        if !value.is_object() {
            return Err(DecodeError::WrongKind);
        }
        let name = match value.get("name") {
            Some(v) => read_text(v)?,
            None => {
                return Err(DecodeError::MissingField);
            },
        };
        let description = match value.get("description") {
            Some(v) => read_text(v)?,
            None => {
                return Err(DecodeError::MissingField);
            },
        };
        let input_modes = match get_present(value, "inputModes") {
            Some(v) => Some(read_texts(v)?),
            None => None,
        };
        let output_modes = match get_present(value, "outputModes") {
            Some(v) => Some(read_texts(v)?),
            None => None,
        };
        let examples = match get_present(value, "examples") {
            Some(v) => Some(read_texts(v)?),
            None => None,
        };
        Ok(AgentSkill { name, description, input_modes, output_modes, examples })
    }
}

/// What writes a skill of an agent.
pub open spec fn agent_skill_encoder() -> spec_fn(AgentSkillModel) -> JsonModel {
    |item: AgentSkillModel| encode_agent_skill(item)
}

/// What reads a skill of an agent.
pub open spec fn agent_skill_decoder(
) -> spec_fn(JsonModel) -> Result<AgentSkillModel, DecodeError> {
    |value: JsonModel| decode_agent_skill(value)
}

/// The array that is written for a list of skills.
pub open spec fn encode_agent_skill_list(items: Seq<AgentSkillModel>) -> JsonModel {
    JsonModel::Array(items.map_values(agent_skill_encoder()))
}

/// What an array stands for when it is read as a list of skills.
pub open spec fn decode_agent_skill_list(
    value: JsonModel,
) -> Result<Seq<AgentSkillModel>, DecodeError> {
    array_of(value, agent_skill_decoder())
}

/// Reading what was written for a list of skills gives the list back.
pub proof fn lemma_agent_skill_list_round_trip(items: Seq<AgentSkillModel>)
    ensures
        decode_agent_skill_list(encode_agent_skill_list(items))
            == Ok::<Seq<AgentSkillModel>, DecodeError>(items),
{
    assert forall|i: int| 0 <= i < items.len() implies agent_skill_decoder()(
        agent_skill_encoder()(#[trigger] items[i]),
    ) == Ok::<AgentSkillModel, DecodeError>(items[i]) by {
        lemma_agent_skill_round_trip(items[i]);
    }
    lemma_decode_all_encoded(items, agent_skill_encoder(), agent_skill_decoder());
}

/// Writes a list of skills as a JSON array.
pub fn write_agent_skill_list(items: &Vec<AgentSkill>) -> (r: JsonValue)
    ensures
        r@ == encode_agent_skill_list(items.deep_view()),
{
    let mut out: Vec<JsonValue> = Vec::new();
    let mut i: usize = 0;
    while i < items.len()
        invariant
            i <= items@.len(),
            out@.len() == i,
            forall|j: int|
                0 <= j < i ==> (#[trigger] out@[j])@ == encode_agent_skill(items@[j].deep_view()),
        decreases items@.len() - i,
    {
        out.push(items[i].encode());
        i += 1;
    }
    let r = JsonValue::Array(out);
    assert(r@->Array_0 =~= items.deep_view().map_values(agent_skill_encoder()));
    r
}

/// Reads a list of skills from a JSON array.
pub fn read_agent_skill_list(value: &JsonValue) -> (r: Result<Vec<AgentSkill>, DecodeError>)
    ensures
        match r {
            Ok(items) => decode_agent_skill_list(value@) == Ok::<Seq<AgentSkillModel>, DecodeError>(
                items.deep_view(),
            ),
            Err(e) => decode_agent_skill_list(value@)
                == Err::<Seq<AgentSkillModel>, DecodeError>(e),
        },
{
    match value {
        JsonValue::Array(values) => {
            let ghost all = value@->Array_0;
            let mut out: Vec<AgentSkill> = Vec::new();
            let mut i: usize = 0;
            assert(all.subrange(0, 0) =~= Seq::<JsonModel>::empty());
            assert(out.deep_view() =~= Seq::<AgentSkillModel>::empty());
            while i < values.len()
                invariant
                    i <= values@.len(),
                    value@ == JsonModel::Array(all),
                    all.len() == values@.len(),
                    forall|j: int| 0 <= j < all.len() ==> all[j] == (#[trigger] values@[j])@,
                    decode_all(all.subrange(0, i as int), agent_skill_decoder()) == Ok::<
                        Seq<AgentSkillModel>,
                        DecodeError,
                    >(out.deep_view()),
                decreases values@.len() - i,
            {
                let ghost before = out.deep_view();
                match AgentSkill::decode(&values[i]) {
                    Ok(item) => {
                        proof {
                            lemma_decode_all_step(all, agent_skill_decoder(), i as int);
                        }
                        out.push(item);
                        assert(out.deep_view() =~= before.push(item.deep_view()));
                    },
                    Err(e) => {
                        proof {
                            lemma_decode_all_fails(all, agent_skill_decoder(), i as int);
                        }
                        return Err(e);
                    },
                }
                i += 1;
            }
            assert(all.subrange(0, i as int) =~= all);
            Ok(out)
        },
        _ => Err(DecodeError::WrongKind),
    }
}

/// The model of an agent card.
pub struct AgentCardModel {
    pub name: Seq<char>,
    pub description: Seq<char>,
    pub version: Seq<char>,
    pub protocol_version: Seq<char>,
    pub url: Seq<char>,
    pub preferred_transport: Option<Seq<char>>,
    pub capabilities: AgentCapabilitiesModel,
    pub default_input_modes: Seq<Seq<char>>,
    pub default_output_modes: Seq<Seq<char>>,
    pub skills: Seq<AgentSkillModel>,
    pub provider: Option<AgentProviderModel>,
    pub documentation_url: Option<Seq<char>>,
    pub icon_url: Option<Seq<char>>,
    pub supports_authenticated_extended_card: Option<bool>,
    pub additional_interfaces: Option<Seq<AgentInterfaceModel>>,
    pub security: Option<Seq<Seq<(Seq<char>, Seq<Seq<char>>)>>>,
    pub security_schemes: Option<Seq<(Seq<char>, SecuritySchemeModel)>>,
}

impl DeepView for AgentCard {
    type V = AgentCardModel;

    open spec fn deep_view(&self) -> AgentCardModel {
        AgentCardModel {
            name: self.name.deep_view(),
            description: self.description.deep_view(),
            version: self.version.deep_view(),
            protocol_version: self.protocol_version.deep_view(),
            url: self.url.deep_view(),
            preferred_transport: self.preferred_transport.deep_view(),
            capabilities: self.capabilities.deep_view(),
            default_input_modes: self.default_input_modes.deep_view(),
            default_output_modes: self.default_output_modes.deep_view(),
            skills: self.skills.deep_view(),
            provider: self.provider.deep_view(),
            documentation_url: self.documentation_url.deep_view(),
            icon_url: self.icon_url.deep_view(),
            supports_authenticated_extended_card: self.supports_authenticated_extended_card.deep_view(),
            additional_interfaces: self.additional_interfaces.deep_view(),
            security: self.security.deep_view(),
            security_schemes: self.security_schemes.deep_view(),
        }
    }
}

impl AgentCardModel {
    /// Whether the record comes back unchanged when it is written and read:
    /// no optional JSON value in it is `null`, which reads as a missing
    /// value.
    pub open spec fn representable(self) -> bool {
        &&& self.capabilities.representable()
    }
}

/// The object that is written for an agent card.
pub open spec fn encode_agent_card(record: AgentCardModel) -> JsonModel {
    let members = Seq::empty();
    let members = put(members, "name"@, JsonModel::String(record.name));
    let members = put(members, "description"@, JsonModel::String(record.description));
    let members = put(members, "version"@, JsonModel::String(record.version));
    let members = put(members, "protocolVersion"@, JsonModel::String(record.protocol_version));
    let members = put(members, "url"@, JsonModel::String(record.url));
    let members = put_optional(
        members,
        "preferredTransport"@,
        match record.preferred_transport {
            Some(item) => Some(JsonModel::String(item)),
            None => None,
        },
    );
    let members = put(members, "capabilities"@, encode_agent_capabilities(record.capabilities));
    let members = put(members, "defaultInputModes"@, encode_texts(record.default_input_modes));
    let members = put(members, "defaultOutputModes"@, encode_texts(record.default_output_modes));
    let members = put(members, "skills"@, encode_agent_skill_list(record.skills));
    let members = put_optional(
        members,
        "provider"@,
        match record.provider {
            Some(item) => Some(encode_agent_provider(item)),
            None => None,
        },
    );
    let members = put_optional(
        members,
        "documentationUrl"@,
        match record.documentation_url {
            Some(item) => Some(JsonModel::String(item)),
            None => None,
        },
    );
    let members = put_optional(
        members,
        "iconUrl"@,
        match record.icon_url {
            Some(item) => Some(JsonModel::String(item)),
            None => None,
        },
    );
    let members = put_optional(
        members,
        "supportsAuthenticatedExtendedCard"@,
        match record.supports_authenticated_extended_card {
            Some(item) => Some(JsonModel::Bool(item)),
            None => None,
        },
    );
    let members = put_optional(
        members,
        "additionalInterfaces"@,
        match record.additional_interfaces {
            Some(item) => Some(encode_agent_interface_list(item)),
            None => None,
        },
    );
    let members = put_optional(
        members,
        "security"@,
        match record.security {
            Some(item) => Some(encode_requirements(item)),
            None => None,
        },
    );
    let members = put_optional(
        members,
        "securitySchemes"@,
        match record.security_schemes {
            Some(item) => Some(encode_schemes(item)),
            None => None,
        },
    );
    JsonModel::Object(members)
}

/// What an object stands for when it is read as an agent card: the record, or
/// the first failure among its members in their order.
pub open spec fn decode_agent_card(value: JsonModel) -> Result<AgentCardModel, DecodeError> {
    let name = required(value, "name"@, |v: JsonModel| text_of(v));
    let description = required(value, "description"@, |v: JsonModel| text_of(v));
    let version = required(value, "version"@, |v: JsonModel| text_of(v));
    let protocol_version = required(value, "protocolVersion"@, |v: JsonModel| text_of(v));
    let url = required(value, "url"@, |v: JsonModel| text_of(v));
    let preferred_transport = optional(value, "preferredTransport"@, |v: JsonModel| text_of(v));
    let capabilities = required(
        value,
        "capabilities"@,
        |v: JsonModel| decode_agent_capabilities(v),
    );
    let default_input_modes = required(value, "defaultInputModes"@, |v: JsonModel| decode_texts(v));
    let default_output_modes = required(
        value,
        "defaultOutputModes"@,
        |v: JsonModel| decode_texts(v),
    );
    let skills = required(value, "skills"@, |v: JsonModel| decode_agent_skill_list(v));
    let provider = optional(value, "provider"@, |v: JsonModel| decode_agent_provider(v));
    let documentation_url = optional(value, "documentationUrl"@, |v: JsonModel| text_of(v));
    let icon_url = optional(value, "iconUrl"@, |v: JsonModel| text_of(v));
    let supports_authenticated_extended_card = optional(
        value,
        "supportsAuthenticatedExtendedCard"@,
        |v: JsonModel| flag_of(v),
    );
    let additional_interfaces = optional(
        value,
        "additionalInterfaces"@,
        |v: JsonModel| decode_agent_interface_list(v),
    );
    let security = optional(value, "security"@, |v: JsonModel| decode_requirements(v));
    let security_schemes = optional(value, "securitySchemes"@, |v: JsonModel| decode_schemes(v));
    if !(value is Object) {
        Err(DecodeError::WrongKind)
    } else if name is Err {
        Err(name->Err_0)
    } else if description is Err {
        Err(description->Err_0)
    } else if version is Err {
        Err(version->Err_0)
    } else if protocol_version is Err {
        Err(protocol_version->Err_0)
    } else if url is Err {
        Err(url->Err_0)
    } else if preferred_transport is Err {
        Err(preferred_transport->Err_0)
    } else if capabilities is Err {
        Err(capabilities->Err_0)
    } else if default_input_modes is Err {
        Err(default_input_modes->Err_0)
    } else if default_output_modes is Err {
        Err(default_output_modes->Err_0)
    } else if skills is Err {
        Err(skills->Err_0)
    } else if provider is Err {
        Err(provider->Err_0)
    } else if documentation_url is Err {
        Err(documentation_url->Err_0)
    } else if icon_url is Err {
        Err(icon_url->Err_0)
    } else if supports_authenticated_extended_card is Err {
        Err(supports_authenticated_extended_card->Err_0)
    } else if additional_interfaces is Err {
        Err(additional_interfaces->Err_0)
    } else if security is Err {
        Err(security->Err_0)
    } else if security_schemes is Err {
        Err(security_schemes->Err_0)
    } else {
        Ok(
            AgentCardModel {
                name: name->Ok_0,
                description: description->Ok_0,
                version: version->Ok_0,
                protocol_version: protocol_version->Ok_0,
                url: url->Ok_0,
                preferred_transport: preferred_transport->Ok_0,
                capabilities: capabilities->Ok_0,
                default_input_modes: default_input_modes->Ok_0,
                default_output_modes: default_output_modes->Ok_0,
                skills: skills->Ok_0,
                provider: provider->Ok_0,
                documentation_url: documentation_url->Ok_0,
                icon_url: icon_url->Ok_0,
                supports_authenticated_extended_card: supports_authenticated_extended_card->Ok_0,
                additional_interfaces: additional_interfaces->Ok_0,
                security: security->Ok_0,
                security_schemes: security_schemes->Ok_0,
            },
        )
    }
}

/// Reading what was written for an agent card gives the record back.
#[verifier::rlimit(80)]
pub proof fn lemma_agent_card_round_trip(record: AgentCardModel)
    requires
        record.representable(),
    ensures
        decode_agent_card(encode_agent_card(record)) == Ok::<AgentCardModel, DecodeError>(record),
{
    broadcast use lemma_member_after_put, lemma_member_after_put_optional;
    reveal_strlit("name");
    reveal_strlit("description");
    reveal_strlit("version");
    reveal_strlit("protocolVersion");
    reveal_strlit("url");
    reveal_strlit("preferredTransport");
    reveal_strlit("capabilities");
    reveal_strlit("defaultInputModes");
    reveal_strlit("defaultOutputModes");
    reveal_strlit("skills");
    reveal_strlit("provider");
    reveal_strlit("documentationUrl");
    reveal_strlit("iconUrl");
    reveal_strlit("supportsAuthenticatedExtendedCard");
    reveal_strlit("additionalInterfaces");
    reveal_strlit("security");
    reveal_strlit("securitySchemes");
    assert(
        "name"@.len() == 4
            && "description"@.len() == 11
            && "version"@.len() == 7
            && "protocolVersion"@.len() == 15
    );
    assert(
        "url"@.len() == 3
            && "preferredTransport"@.len() == 18
            && "capabilities"@.len() == 12
            && "defaultInputModes"@.len() == 17
    );
    assert(
        "defaultOutputModes"@.len() == 18
            && "skills"@.len() == 6
            && "provider"@.len() == 8
            && "documentationUrl"@.len() == 16
    );
    assert(
        "iconUrl"@.len() == 7
            && "supportsAuthenticatedExtendedCard"@.len() == 33
            && "additionalInterfaces"@.len() == 20
            && "security"@.len() == 8
    );
    assert("securitySchemes"@.len() == 15);
    assert("version"@[0] != "iconUrl"@[0]);
    assert("protocolVersion"@[0] != "securitySchemes"@[0]);
    assert("preferredTransport"@[0] != "defaultOutputModes"@[0]);
    assert("provider"@[0] != "security"@[0]);
    lemma_agent_capabilities_round_trip(record.capabilities);
    lemma_texts_round_trip(record.default_input_modes);
    lemma_texts_round_trip(record.default_output_modes);
    lemma_agent_skill_list_round_trip(record.skills);
    if record.provider is Some {
        lemma_agent_provider_round_trip(record.provider->0);
    }
    if record.additional_interfaces is Some {
        lemma_agent_interface_list_round_trip(record.additional_interfaces->0);
    }
    if record.security is Some {
        lemma_requirements_round_trip(record.security->0);
    }
    if record.security_schemes is Some {
        lemma_schemes_round_trip(record.security_schemes->0);
    }
    let value = encode_agent_card(record);
    assert(value.member("name"@) == Some(JsonModel::String(record.name)));
    assert(value.member("description"@) == Some(JsonModel::String(record.description)));
    assert(value.member("version"@) == Some(JsonModel::String(record.version)));
    assert(value.member("protocolVersion"@) == Some(JsonModel::String(record.protocol_version)));
    assert(value.member("url"@) == Some(JsonModel::String(record.url)));
    assert(value.member("preferredTransport"@) == match record.preferred_transport {
        Some(item) => Some(JsonModel::String(item)),
        None => None,
    });
    assert(value.member("capabilities"@) == Some(encode_agent_capabilities(record.capabilities)));
    assert(value.member("defaultInputModes"@) == Some(encode_texts(record.default_input_modes)));
    assert(value.member("defaultOutputModes"@) == Some(encode_texts(record.default_output_modes)));
    assert(value.member("skills"@) == Some(encode_agent_skill_list(record.skills)));
    assert(value.member("provider"@) == match record.provider {
        Some(item) => Some(encode_agent_provider(item)),
        None => None,
    });
    assert(value.member("documentationUrl"@) == match record.documentation_url {
        Some(item) => Some(JsonModel::String(item)),
        None => None,
    });
    assert(value.member("iconUrl"@) == match record.icon_url {
        Some(item) => Some(JsonModel::String(item)),
        None => None,
    });
    assert(value.member("supportsAuthenticatedExtendedCard"@) == match record.supports_authenticated_extended_card {
        Some(item) => Some(JsonModel::Bool(item)),
        None => None,
    });
    assert(value.member("additionalInterfaces"@) == match record.additional_interfaces {
        Some(item) => Some(encode_agent_interface_list(item)),
        None => None,
    });
    assert(value.member("security"@) == match record.security {
        Some(item) => Some(encode_requirements(item)),
        None => None,
    });
    assert(value.member("securitySchemes"@) == match record.security_schemes {
        Some(item) => Some(encode_schemes(item)),
        None => None,
    });
}

impl AgentCard {
    /// Writes the record as a JSON value.
    pub fn encode(&self) -> (r: JsonValue)
        ensures
            r@ == encode_agent_card(self.deep_view()),
    {
        let mut members: Vec<JsonMember> = Vec::new();
        assert(models(members@) =~= Seq::<MemberModel>::empty());
        push_member(&mut members, "name", string_of(self.name.as_str()));
        push_member(&mut members, "description", string_of(self.description.as_str()));
        push_member(&mut members, "version", string_of(self.version.as_str()));
        push_member(&mut members, "protocolVersion", string_of(self.protocol_version.as_str()));
        push_member(&mut members, "url", string_of(self.url.as_str()));
        match &self.preferred_transport {
            Some(item) => {
                push_member(&mut members, "preferredTransport", string_of(item.as_str()));
            },
            None => {},
        }
        push_member(&mut members, "capabilities", self.capabilities.encode());
        push_member(&mut members, "defaultInputModes", write_texts(&self.default_input_modes));
        push_member(&mut members, "defaultOutputModes", write_texts(&self.default_output_modes));
        push_member(&mut members, "skills", write_agent_skill_list(&self.skills));
        match &self.provider {
            Some(item) => {
                push_member(&mut members, "provider", item.encode());
            },
            None => {},
        }
        match &self.documentation_url {
            Some(item) => {
                push_member(&mut members, "documentationUrl", string_of(item.as_str()));
            },
            None => {},
        }
        match &self.icon_url {
            Some(item) => {
                push_member(&mut members, "iconUrl", string_of(item.as_str()));
            },
            None => {},
        }
        match &self.supports_authenticated_extended_card {
            Some(item) => {
                push_member(
                    &mut members,
                    "supportsAuthenticatedExtendedCard",
                    JsonValue::Bool(*item),
                );
            },
            None => {},
        }
        match &self.additional_interfaces {
            Some(item) => {
                push_member(&mut members, "additionalInterfaces", write_agent_interface_list(item));
            },
            None => {},
        }
        match &self.security {
            Some(item) => {
                push_member(&mut members, "security", write_requirements(item));
            },
            None => {},
        }
        match &self.security_schemes {
            Some(item) => {
                push_member(&mut members, "securitySchemes", write_schemes(item));
            },
            None => {},
        }
        object_of(members)
    }

    /// Reads the record from a JSON value.
    pub fn decode(value: &JsonValue) -> (r: Result<Self, DecodeError>)
        ensures
            match r {
                Ok(record) => decode_agent_card(value@) == Ok::<AgentCardModel, DecodeError>(
                    record.deep_view(),
                ),
                Err(e) => decode_agent_card(value@) == Err::<AgentCardModel, DecodeError>(e),
            },
    {
        if !value.is_object() {
            return Err(DecodeError::WrongKind);
        }
        let name = match value.get("name") {
            Some(v) => read_text(v)?,
            None => {
                return Err(DecodeError::MissingField);
            },
        };
        let description = match value.get("description") {
            Some(v) => read_text(v)?,
            None => {
                return Err(DecodeError::MissingField);
            },
        };
        let version = match value.get("version") {
            Some(v) => read_text(v)?,
            None => {
                return Err(DecodeError::MissingField);
            },
        };
        let protocol_version = match value.get("protocolVersion") {
            Some(v) => read_text(v)?,
            None => {
                return Err(DecodeError::MissingField);
            },
        };
        let url = match value.get("url") {
            Some(v) => read_text(v)?,
            None => {
                return Err(DecodeError::MissingField);
            },
        };
        let preferred_transport = match get_present(value, "preferredTransport") {
            Some(v) => Some(read_text(v)?),
            None => None,
        };
        let capabilities = match value.get("capabilities") {
            Some(v) => AgentCapabilities::decode(v)?,
            None => {
                return Err(DecodeError::MissingField);
            },
        };
        let default_input_modes = match value.get("defaultInputModes") {
            Some(v) => read_texts(v)?,
            None => {
                return Err(DecodeError::MissingField);
            },
        };
        let default_output_modes = match value.get("defaultOutputModes") {
            Some(v) => read_texts(v)?,
            None => {
                return Err(DecodeError::MissingField);
            },
        };
        let skills = match value.get("skills") {
            Some(v) => read_agent_skill_list(v)?,
            None => {
                return Err(DecodeError::MissingField);
            },
        };
        let provider = match get_present(value, "provider") {
            Some(v) => Some(AgentProvider::decode(v)?),
            None => None,
        };
        let documentation_url = match get_present(value, "documentationUrl") {
            Some(v) => Some(read_text(v)?),
            None => None,
        };
        let icon_url = match get_present(value, "iconUrl") {
            Some(v) => Some(read_text(v)?),
            None => None,
        };
        let supports_authenticated_extended_card = match get_present(value, "supportsAuthenticatedExtendedCard") {
            Some(v) => Some(read_flag(v)?),
            None => None,
        };
        let additional_interfaces = match get_present(value, "additionalInterfaces") {
            Some(v) => Some(read_agent_interface_list(v)?),
            None => None,
        };
        let security = match get_present(value, "security") {
            Some(v) => Some(read_requirements(v)?),
            None => None,
        };
        let security_schemes = match get_present(value, "securitySchemes") {
            Some(v) => Some(read_schemes(v)?),
            None => None,
        };
        Ok(
            AgentCard {
                name,
                description,
                version,
                protocol_version,
                url,
                preferred_transport,
                capabilities,
                default_input_modes,
                default_output_modes,
                skills,
                provider,
                documentation_url,
                icon_url,
                supports_authenticated_extended_card,
                additional_interfaces,
                security,
                security_schemes,
            },
        )
    }
}

} // verus!
