//! Users and the messages of their inbox.

use vstd::prelude::*;
use vstd::string::*;
use crate::clock::now_seconds;
use crate::error::{AppError, ErrorKind};
use crate::text::{joined, lowercase_of, str_eq, to_lowercase};

verus! {

/// Whether a message was read.
#[derive(Clone, Copy, Debug, PartialEq, Eq, Structural)]
pub enum MessageStatus {
    Unread,
    Read,
}

/// What a message is about.
#[derive(Clone, Copy, Debug, PartialEq, Eq, Structural)]
pub enum MessageType {
    System,
    Notification,
    Alert,
    RepoUpdate,
}

impl Default for MessageStatus {
    fn default() -> (status: MessageStatus)
        ensures
            status == MessageStatus::Unread,
    {
        MessageStatus::Unread
    }
}

impl Default for MessageType {
    fn default() -> (kind: MessageType)
        ensures
            kind == MessageType::System,
    {
        MessageType::System
    }
}

/// The name of a message type.
pub open spec fn type_name_spec(kind: MessageType) -> Seq<char> {
    match kind {
        MessageType::System => "system"@,
        MessageType::Notification => "notification"@,
        MessageType::Alert => "alert"@,
        MessageType::RepoUpdate => "repoupdate"@,
    }
}

/// The message type that a name in lower case stands for.
pub open spec fn type_of_name_spec(name: Seq<char>) -> Option<MessageType> {
    if name == "system"@ {
        Some(MessageType::System)
    } else if name == "notification"@ {
        Some(MessageType::Notification)
    } else if name == "alert"@ {
        Some(MessageType::Alert)
    } else if name == "repoupdate"@ {
        Some(MessageType::RepoUpdate)
    } else {
        None
    }
}

/// The message status that a name in lower case stands for.
pub open spec fn status_of_name_spec(name: Seq<char>) -> Option<MessageStatus> {
    if name == "unread"@ {
        Some(MessageStatus::Unread)
    } else if name == "read"@ {
        Some(MessageStatus::Read)
    } else {
        None
    }
}

impl MessageStatus {
    /// The status that a name in lower case stands for.
    pub fn from_lowercase(name: &str) -> (r: Option<MessageStatus>)
        ensures
            r == status_of_name_spec(name@),
    {
        if str_eq(name, "unread") {
            Some(MessageStatus::Unread)
        } else if str_eq(name, "read") {
            Some(MessageStatus::Read)
        } else {
            None
        }
    }

    /// The status that a name stands for, whatever its case; the failure
    /// names what was given.
    pub fn try_from(s: String) -> (r: Result<MessageStatus, String>)
        ensures
            match status_of_name_spec(lowercase_of(s@)) {
                Some(status) => r == Ok::<MessageStatus, String>(status),
                None => r matches Err(reason) && reason@ == "Invalid message status: "@ + s@,
            },
    {
        let lowered = to_lowercase(s.as_str());
        match MessageStatus::from_lowercase(lowered.as_str()) {
            Some(status) => Ok(status),
            None => Err(joined("Invalid message status: ", s.as_str())),
        }
    }
}

impl MessageType {
    /// The name of this type.
    pub fn to_string(&self) -> (name: String)
        ensures
            name@ == type_name_spec(*self),
    {
        match self {
            MessageType::System => String::from_str("system"),
            MessageType::Notification => String::from_str("notification"),
            MessageType::Alert => String::from_str("alert"),
            MessageType::RepoUpdate => String::from_str("repoupdate"),
        }
    }

    /// The type that a name in lower case stands for.
    pub fn from_lowercase(name: &str) -> (r: Option<MessageType>)
        ensures
            r == type_of_name_spec(name@),
    {
        if str_eq(name, "system") {
            Some(MessageType::System)
        } else if str_eq(name, "notification") {
            Some(MessageType::Notification)
        } else if str_eq(name, "alert") {
            Some(MessageType::Alert)
        } else if str_eq(name, "repoupdate") {
            Some(MessageType::RepoUpdate)
        } else {
            None
        }
    }

    /// The type that a name stands for, whatever its case; the failure names
    /// what was given.
    pub fn try_from(s: String) -> (r: Result<MessageType, String>)
        ensures
            match type_of_name_spec(lowercase_of(s@)) {
                Some(kind) => r == Ok::<MessageType, String>(kind),
                None => r matches Err(reason) && reason@ == "Invalid message type: "@ + s@,
            },
    {
        let lowered = to_lowercase(s.as_str());
        match MessageType::from_lowercase(lowered.as_str()) {
            Some(kind) => Ok(kind),
            None => Err(joined("Invalid message type: ", s.as_str())),
        }
    }

    /// The type of a new message: the one that is named, the system type
    /// where none is named; a name that stands for no type is an internal
    /// fault.
    pub fn named_or_default(name: Option<String>) -> (r: Result<MessageType, AppError>)
        ensures
            match name {
                None => r == Ok::<MessageType, AppError>(MessageType::System),
                Some(s) => match type_of_name_spec(lowercase_of(s@)) {
                    Some(kind) => r == Ok::<MessageType, AppError>(kind),
                    None => r matches Err(e) && e.is_failure(
                        ErrorKind::InternalServerError,
                        "Invalid message type: "@ + ("Invalid message type: "@ + s@),
                    ),
                },
            },
    {
        match name {
            None => Ok(MessageType::System),
            Some(s) => match MessageType::try_from(s) {
                Ok(kind) => Ok(kind),
                Err(reason) => Err(
                    AppError::with_detail(
                        ErrorKind::InternalServerError,
                        "Invalid message type: ",
                        reason.as_str(),
                    ),
                ),
            },
        }
    }
}

/// A message of a user's inbox. Times are seconds since the epoch.
#[derive(Debug, Clone, PartialEq, Eq)]
pub struct Message {
    pub message_id: i32,
    pub username: String,
    pub content: String,
    pub status: MessageStatus,
    pub message_type: MessageType,
    pub created_at: i64,
    pub read_at: Option<i64>,
}

/// A message to be stored.
#[derive(Debug, Clone, PartialEq, Eq)]
pub struct MessageCreate {
    pub user_id: i32,
    pub content: String,
    pub message_type: MessageType,
}

impl Message {
    /// A new message for `user_id`, of the given type or of the system type.
    pub fn new_system_message(user_id: i32, content: String, msg_type: Option<MessageType>) -> (m:
        MessageCreate)
        ensures
            m.user_id == user_id,
            m.content == content,
            m.message_type == (match msg_type {
                Some(kind) => kind,
                None => MessageType::System,
            }),
    {
        MessageCreate {
            user_id,
            content,
            message_type: match msg_type {
                Some(kind) => kind,
                None => MessageType::System,
            },
        }
    }

    /// Whether the message was read.
    pub fn is_read(&self) -> (r: bool)
        ensures
            r == (self.status == MessageStatus::Read),
    {
        match self.status {
            MessageStatus::Read => true,
            MessageStatus::Unread => false,
        }
    }

    /// Marks the message as read, at the time of the call.
    pub fn mark_as_read(&mut self)
        ensures
            final(self).status == MessageStatus::Read,
            final(self).read_at is Some,
            final(self).message_id == old(self).message_id,
            final(self).username == old(self).username,
            final(self).content == old(self).content,
            final(self).message_type == old(self).message_type,
            final(self).created_at == old(self).created_at,
    {
        let now = now_seconds();
        self.mark_as_read_at(now);
    }

    /// Marks the message as read at the time `now`.
    pub fn mark_as_read_at(&mut self, now: i64)
        ensures
            final(self).status == MessageStatus::Read,
            final(self).read_at == Some(now),
            final(self).message_id == old(self).message_id,
            final(self).username == old(self).username,
            final(self).content == old(self).content,
            final(self).message_type == old(self).message_type,
            final(self).created_at == old(self).created_at,
    {
        self.status = MessageStatus::Read;
        self.read_at = Some(now);
    }
}

/// A user of the service. Times are seconds since the epoch.
#[derive(Debug, Clone, PartialEq, Eq)]
pub struct User {
    /// The identifier that the store gave the user, once it has.
    pub id: Option<i32>,
    pub username: String,
    pub email: String,
    pub password: String,
    pub avatar: Option<String>,
    pub created_at: i64,
    pub department_id: Option<i32>,
}

impl User {
    /// A user not yet stored, created at the time of the call.
    pub fn new(username: String, email: String, password: String) -> (user: User)
        ensures
            user.id is None,
            user.username == username,
            user.email == email,
            user.password == password,
            user.avatar is None,
            user.department_id is None,
    {
        User::created_at(username, email, password, now_seconds())
    }

    /// A user not yet stored, created at the time `created_at`.
    pub fn created_at(username: String, email: String, password: String, created_at: i64) -> (user:
        User)
        ensures
            user.id is None,
            user.username == username,
            user.email == email,
            user.password == password,
            user.avatar is None,
            user.created_at == created_at,
            user.department_id is None,
    {
        User {
            id: None,
            username,
            email,
            password,
            avatar: None,
            created_at,
            department_id: None,
        }
    }
}

/// A department.
#[derive(Debug, Clone, PartialEq, Eq)]
pub struct DepartMnet {
    pub name: String,
}

/// The directory of a user's repository.
#[derive(Debug, Clone, PartialEq, Eq)]
pub struct UserRepo {
    pub id: Option<i32>,
    pub user_id: i32,
    pub path: String,
}

} // verus!
