//! Values handed out to clients.

use vstd::prelude::*;
use crate::models::{Message, MessageStatus, MessageType};

verus! {

/// A repository of an owner, as the list of repositories shows it.
#[derive(Debug, Clone, PartialEq, Eq)]
pub struct ReposVo {
    pub name: String,
    /// The name of the current branch.
    pub branch: String,
}

/// The profile of a user.
#[derive(Debug, Clone, PartialEq, Eq)]
pub struct UserData {
    pub username: String,
    pub email: String,
    pub avatar: Option<String>,
}

/// A message of a user's inbox, as the inbox shows it. Times are seconds
/// since the epoch.
#[derive(Debug, Clone, PartialEq, Eq)]
pub struct UserMsg {
    pub message_type: MessageType,
    pub content: String,
    pub read_status: MessageStatus,
    pub created_at: i64,
}

impl UserMsg {
    /// What the inbox shows of a message.
    pub fn from_message(message: Message) -> (shown: UserMsg)
        ensures
            shown.message_type == message.message_type,
            shown.content == message.content,
            shown.read_status == message.status,
            shown.created_at == message.created_at,
    {
        UserMsg {
            message_type: message.message_type,
            content: message.content,
            read_status: message.status,
            created_at: message.created_at,
        }
    }
}

/// The contact data of a user on the page of messages. Times are seconds
/// since the epoch.
#[derive(Debug, Clone, PartialEq, Eq)]
pub struct MessagePageUserData {
    pub phone: String,
    pub email: String,
    pub department_name: Option<String>,
    pub create_time: i64,
}

/// The outcome of an operation on a repository, with data as JSON text where
/// there is any.
#[derive(Debug, Clone, PartialEq, Eq)]
pub struct GitOperationResult {
    pub success: bool,
    pub message: String,
    pub data: Option<String>,
}

} // verus!
