//! The methods of the protocol and their names on the wire.
//!
//! Each method has one canonical name, which is what is written. Three
//! methods also have an older name, which is accepted when reading only.

use crate::error::{A2AError, ErrorKind, ErrorModel};
use crate::text::{join, owned, same_text};
use vstd::prelude::*;

verus! {

/// The methods of the protocol.
#[derive(Debug, Clone, Copy, PartialEq, Eq, Hash, Structural)]
pub enum RequestMethod {
    /// Send a message to an agent.
    MessageSend,
    /// Send a streaming message to an agent.
    MessageStream,
    /// Get a task.
    TasksGet,
    /// Cancel a task.
    TasksCancel,
    /// Set a push notification config for a task.
    TasksPushNotificationConfigSet,
    /// Get a push notification config for a task.
    TasksPushNotificationConfigGet,
    /// List the push notification configs of a task.
    TasksPushNotificationConfigList,
    /// Delete a push notification config of a task.
    TasksPushNotificationConfigDelete,
    /// Resubscribe to a task.
    TasksResubscribe,
}

impl RequestMethod {
    /// The canonical name of the method.
    pub open spec fn wire_name(self) -> Seq<char> {
        match self {
            RequestMethod::MessageSend => "message/send"@,
            RequestMethod::MessageStream => "message/stream"@,
            RequestMethod::TasksGet => "tasks/get"@,
            RequestMethod::TasksCancel => "tasks/cancel"@,
            RequestMethod::TasksPushNotificationConfigSet => "tasks/pushNotificationConfig/set"@,
            RequestMethod::TasksPushNotificationConfigGet => "tasks/pushNotificationConfig/get"@,
            RequestMethod::TasksPushNotificationConfigList => "tasks/pushNotificationConfig/list"@,
            RequestMethod::TasksPushNotificationConfigDelete =>
                "tasks/pushNotificationConfig/delete"@,
            RequestMethod::TasksResubscribe => "tasks/resubscribe"@,
        }
    }

    /// The method that an older name stands for.
    pub open spec fn of_alias(name: Seq<char>) -> Option<RequestMethod> {
        if name == "sendMessage"@ {
            Some(RequestMethod::MessageSend)
        } else if name == "getTask"@ {
            Some(RequestMethod::TasksGet)
        } else if name == "cancelTask"@ {
            Some(RequestMethod::TasksCancel)
        } else {
            None
        }
    }

    /// The method that a canonical name stands for.
    pub open spec fn of_canonical(name: Seq<char>) -> Option<RequestMethod> {
        if name == "message/send"@ {
            Some(RequestMethod::MessageSend)
        } else if name == "message/stream"@ {
            Some(RequestMethod::MessageStream)
        } else if name == "tasks/get"@ {
            Some(RequestMethod::TasksGet)
        } else if name == "tasks/cancel"@ {
            Some(RequestMethod::TasksCancel)
        } else if name == "tasks/pushNotificationConfig/set"@ {
            Some(RequestMethod::TasksPushNotificationConfigSet)
        } else if name == "tasks/pushNotificationConfig/get"@ {
            Some(RequestMethod::TasksPushNotificationConfigGet)
        } else if name == "tasks/pushNotificationConfig/list"@ {
            Some(RequestMethod::TasksPushNotificationConfigList)
        } else if name == "tasks/pushNotificationConfig/delete"@ {
            Some(RequestMethod::TasksPushNotificationConfigDelete)
        } else if name == "tasks/resubscribe"@ {
            Some(RequestMethod::TasksResubscribe)
        } else {
            None
        }
    }

    /// The method that a name stands for, canonical or older.
    pub open spec fn of_name(name: Seq<char>) -> Option<RequestMethod> {
        if Self::of_canonical(name) is Some {
            Self::of_canonical(name)
        } else {
            Self::of_alias(name)
        }
    }

    /// The canonical name of the method.
    pub fn as_str(&self) -> (r: &'static str)
        ensures
            r@ == self.wire_name(),
    {
        match self {
            RequestMethod::MessageSend => "message/send",
            RequestMethod::MessageStream => "message/stream",
            RequestMethod::TasksGet => "tasks/get",
            RequestMethod::TasksCancel => "tasks/cancel",
            RequestMethod::TasksPushNotificationConfigSet => "tasks/pushNotificationConfig/set",
            RequestMethod::TasksPushNotificationConfigGet => "tasks/pushNotificationConfig/get",
            RequestMethod::TasksPushNotificationConfigList => "tasks/pushNotificationConfig/list",
            RequestMethod::TasksPushNotificationConfigDelete =>
                "tasks/pushNotificationConfig/delete",
            RequestMethod::TasksResubscribe => "tasks/resubscribe",
        }
    }

    /// The canonical name of the method, as an owned string.
    pub fn to_string(&self) -> (r: String)
        ensures
            r@ == self.wire_name(),
    {
        owned(self.as_str())
    }

    /// The method that `s` names, if it names one. The canonical names and
    /// the older names are accepted.
    pub fn from_str(s: &str) -> (r: Option<Self>)
        ensures
            r == Self::of_name(s@),
    {
        if same_text(s, "message/send") {
            Some(RequestMethod::MessageSend)
        } else if same_text(s, "message/stream") {
            Some(RequestMethod::MessageStream)
        } else if same_text(s, "tasks/get") {
            Some(RequestMethod::TasksGet)
        } else if same_text(s, "tasks/cancel") {
            Some(RequestMethod::TasksCancel)
        } else if same_text(s, "tasks/pushNotificationConfig/set") {
            Some(RequestMethod::TasksPushNotificationConfigSet)
        } else if same_text(s, "tasks/pushNotificationConfig/get") {
            Some(RequestMethod::TasksPushNotificationConfigGet)
        } else if same_text(s, "tasks/pushNotificationConfig/list") {
            Some(RequestMethod::TasksPushNotificationConfigList)
        } else if same_text(s, "tasks/pushNotificationConfig/delete") {
            Some(RequestMethod::TasksPushNotificationConfigDelete)
        } else if same_text(s, "tasks/resubscribe") {
            Some(RequestMethod::TasksResubscribe)
        } else if same_text(s, "sendMessage") {
            Some(RequestMethod::MessageSend)
        } else if same_text(s, "getTask") {
            Some(RequestMethod::TasksGet)
        } else if same_text(s, "cancelTask") {
            Some(RequestMethod::TasksCancel)
        } else {
            None
        }
    }

    /// The error for a name that names no method.
    pub open spec fn not_found(name: Seq<char>) -> ErrorModel {
        ErrorModel {
            kind: ErrorKind::MethodNotFound,
            code: ErrorKind::MethodNotFound.fixed_code(),
            message: "Method not found: "@ + name,
            data: None,
        }
    }

    /// The method that `s` names, or the error that says that it names none.
    pub fn parse(s: &str) -> (r: Result<Self, A2AError>)
        ensures
            match r {
                Ok(method) => Self::of_name(s@) == Some(method),
                Err(error) => Self::of_name(s@) is None && error@ == Self::not_found(s@),
            },
    {
        match Self::from_str(s) {
            Some(method) => Ok(method),
            None => Err(A2AError::new(ErrorKind::MethodNotFound, join("Method not found: ", s), None)),
        }
    }
}

impl std::str::FromStr for RequestMethod {
    type Err = A2AError;

    fn from_str(s: &str) -> (r: Result<Self, A2AError>) {
        Self::parse(s)
    }
}

/// The canonical names differ from each other and from the older names.
pub proof fn lemma_names_are_distinct(a: RequestMethod, b: RequestMethod)
    ensures
        a.wire_name() == b.wire_name() ==> a == b,
        RequestMethod::of_alias(a.wire_name()) is None,
{
    reveal_strlit("message/send");
    reveal_strlit("message/stream");
    reveal_strlit("tasks/get");
    reveal_strlit("tasks/cancel");
    reveal_strlit("tasks/pushNotificationConfig/set");
    reveal_strlit("tasks/pushNotificationConfig/get");
    reveal_strlit("tasks/pushNotificationConfig/list");
    reveal_strlit("tasks/pushNotificationConfig/delete");
    reveal_strlit("tasks/resubscribe");
    reveal_strlit("sendMessage");
    reveal_strlit("getTask");
    reveal_strlit("cancelTask");
    assert("tasks/pushNotificationConfig/set"@[29] != "tasks/pushNotificationConfig/get"@[29]);
    assert("message/send"@[0] != "tasks/cancel"@[0]);
    assert("sendMessage"@[0] != "tasks/cancel"@[0] && "sendMessage"@[0] != "message/send"@[0]);
    assert("getTask"@.len() == 7 && "cancelTask"@.len() == 10 && "sendMessage"@.len() == 11);
    assert(a.wire_name().len() >= 9);
    assert(a.wire_name().len() != 10 && a.wire_name().len() != 11);
}

/// Reading the name that was written for a method gives the method back.
pub proof fn lemma_read_written(method: RequestMethod)
    ensures
        RequestMethod::of_name(method.wire_name()) == Some(method),
{
    lemma_names_are_distinct(method, RequestMethod::MessageSend);
    lemma_names_are_distinct(method, RequestMethod::MessageStream);
    lemma_names_are_distinct(method, RequestMethod::TasksGet);
    lemma_names_are_distinct(method, RequestMethod::TasksCancel);
    lemma_names_are_distinct(method, RequestMethod::TasksPushNotificationConfigSet);
    lemma_names_are_distinct(method, RequestMethod::TasksPushNotificationConfigGet);
    lemma_names_are_distinct(method, RequestMethod::TasksPushNotificationConfigList);
    lemma_names_are_distinct(method, RequestMethod::TasksPushNotificationConfigDelete);
    lemma_names_are_distinct(method, RequestMethod::TasksResubscribe);
}

/// Whatever name was read for a method, older or canonical, the canonical
/// name is written for it, and reading that gives the same method.
pub proof fn lemma_writing_normalizes(name: Seq<char>)
    requires
        RequestMethod::of_name(name) is Some,
    ensures
        RequestMethod::of_canonical(RequestMethod::of_name(name)->0.wire_name())
            == RequestMethod::of_name(name),
{
    lemma_read_written(RequestMethod::of_name(name)->0);
}

} // verus!
