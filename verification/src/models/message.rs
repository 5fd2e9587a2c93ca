//! Messages and the two roles that write them.

use vstd::prelude::*;
use vstd::string::*;

use crate::clock::{datetime_parse, parse_datetime, Timestamp};
use crate::ids::{parse_uuid, uuid_parse};
use crate::text::{joined, same_text};

verus! {

/// Who wrote a message. The store and the model provider each have their
/// own word for the two roles.
#[derive(Clone, Copy, Debug, PartialEq, Eq, Structural)]
pub enum MessageRole {
    User,
    Assistant,
}

impl DeepView for MessageRole {
    type V = MessageRole;

    open spec fn deep_view(&self) -> MessageRole {
        *self
    }
}

/// The role that a stored word denotes, if any.
pub open spec fn role_parse(text: Seq<char>) -> Option<MessageRole> {
    if text == "User"@ {
        Some(MessageRole::User)
    } else if text == "Assistant"@ {
        Some(MessageRole::Assistant)
    } else {
        None
    }
}

/// What `MessageRole::from_str` answers to a word that is no role.
pub open spec fn invalid_role_text(text: Seq<char>) -> Seq<char> {
    "Invalid MessageRole: "@ + text
}

impl MessageRole {
    /// The word under which the store keeps the role.
    pub open spec fn stored_name(self) -> Seq<char> {
        match self {
            MessageRole::User => "User"@,
            MessageRole::Assistant => "Assistant"@,
        }
    }

    /// The word under which the store keeps the role.
    pub fn as_stored(&self) -> (r: &'static str)
        ensures
            r@ == self.stored_name(),
    {
        match self {
            MessageRole::User => "User",
            MessageRole::Assistant => "Assistant",
        }
    }

    /// Reads a stored word back. Any word but the two stored names is
    /// refused, with a text that quotes it.
    pub fn from_str(s: &str) -> (r: Result<MessageRole, String>)
        ensures
            match role_parse(s@) {
                Some(role) => r == Ok::<MessageRole, String>(role),
                None => r is Err && r->Err_0@ == invalid_role_text(s@),
            },
    {
        if same_text(s, "User") {
            Ok(MessageRole::User)
        } else if same_text(s, "Assistant") {
            Ok(MessageRole::Assistant)
        } else {
            Err(joined("Invalid MessageRole: ", s))
        }
    }
}

impl std::str::FromStr for MessageRole {
    type Err = String;

    /// Reads a stored word back, as the inherent `from_str` does: this is
    /// what `str::parse` calls.
    fn from_str(s: &str) -> (r: Result<MessageRole, String>)
        ensures
            match role_parse(s@) {
                Some(role) => r == Ok::<MessageRole, String>(role),
                None => r is Err && r->Err_0@ == invalid_role_text(s@),
            },
    {
        MessageRole::from_str(s)
    }
}

/// A message of a session, as the store returned it. Messages are never
/// changed after they were written.
#[derive(Debug, PartialEq, Eq)]
pub struct Message {
    pub id: u128,
    pub session_id: u128,
    pub role: MessageRole,
    pub content: String,
    pub timestamp: Timestamp,
}

/// What a `Message` holds.
pub struct MessageModel {
    pub id: u128,
    pub session_id: u128,
    pub role: MessageRole,
    pub content: Seq<char>,
    pub timestamp: Timestamp,
}

impl DeepView for Message {
    type V = MessageModel;

    open spec fn deep_view(&self) -> MessageModel {
        MessageModel {
            id: self.id,
            session_id: self.session_id,
            role: self.role,
            content: self.content@,
            timestamp: self.timestamp,
        }
    }
}

/// The messages stand oldest first: none is older than one before it.
pub open spec fn chronological(messages: Seq<MessageModel>) -> bool {
    forall|i: int, j: int|
        0 <= i <= j < messages.len() ==> messages[i].timestamp.at_or_before(
            messages[j].timestamp,
        )
}

/// A message that is to be written: the store adds identifier and time.
#[derive(Debug, PartialEq, Eq)]
pub struct CreateMessage {
    pub role: MessageRole,
    pub content: String,
}

/// What a `CreateMessage` holds.
pub struct CreateMessageModel {
    pub role: MessageRole,
    pub content: Seq<char>,
}

impl DeepView for CreateMessage {
    type V = CreateMessageModel;

    open spec fn deep_view(&self) -> CreateMessageModel {
        CreateMessageModel { role: self.role, content: self.content@ }
    }
}

/// Why a stored row is no message. The first three columns are looked at
/// in the order of the variants, the time last.
#[derive(Debug)]
pub enum RowError {
    /// The message's identifier is no UUID.
    Id(uuid::Error),
    /// The session's identifier is no UUID.
    SessionId(uuid::Error),
    /// The role is neither stored name; the text quotes the word found.
    Role(String),
    /// The time is not in the form the store writes.
    Timestamp(chrono::ParseError),
}

/// What a `RowError` says, without the parsers' own reports.
pub enum RowFault {
    Id,
    SessionId,
    Role(Seq<char>),
    Timestamp,
}

impl DeepView for RowError {
    type V = RowFault;

    open spec fn deep_view(&self) -> RowFault {
        match self {
            RowError::Id(_) => RowFault::Id,
            RowError::SessionId(_) => RowFault::SessionId,
            RowError::Role(text) => RowFault::Role(text@),
            RowError::Timestamp(_) => RowFault::Timestamp,
        }
    }
}

/// The role that a stored word denotes, or the refusal that quotes it.
pub open spec fn role_read(text: Seq<char>) -> Result<MessageRole, Seq<char>> {
    match role_parse(text) {
        Some(role) => Ok(role),
        None => Err(invalid_role_text(text)),
    }
}

/// The instant that a stored time denotes, if any.
pub open spec fn instant_parse(text: Seq<char>) -> Option<Timestamp> {
    match datetime_parse(text) {
        Some(parts) => Some(Timestamp { secs: parts.0, nanos: parts.1 }),
        None => None,
    }
}

/// The message made of four columns as read and the content, or the first
/// column, in the order identifier, session, role, time, that was not read.
pub open spec fn assemble_message(
    id: Option<u128>,
    session_id: Option<u128>,
    role: Result<MessageRole, Seq<char>>,
    content: Seq<char>,
    timestamp: Option<Timestamp>,
) -> Result<MessageModel, RowFault> {
    if id is None {
        Err(RowFault::Id)
    } else if session_id is None {
        Err(RowFault::SessionId)
    } else if role is Err {
        Err(RowFault::Role(role->Err_0))
    } else if timestamp is None {
        Err(RowFault::Timestamp)
    } else {
        Ok(
            MessageModel {
                id: id->Some_0,
                session_id: session_id->Some_0,
                role: role->Ok_0,
                content,
                timestamp: timestamp->Some_0,
            },
        )
    }
}

/// The message that the five columns of a row denote, or the first column
/// that cannot be read.
pub open spec fn decode_message_row(
    id: Seq<char>,
    session_id: Seq<char>,
    role: Seq<char>,
    content: Seq<char>,
    timestamp: Seq<char>,
) -> Result<MessageModel, RowFault> {
    assemble_message(
        uuid_parse(id),
        uuid_parse(session_id),
        role_read(role),
        content,
        instant_parse(timestamp),
    )
}

/// The value of a successful reading, if it was one.
pub open spec fn read_value<T, E>(reading: Result<T, E>) -> Option<T> {
    match reading {
        Ok(value) => Some(value),
        Err(_) => None,
    }
}

/// A reading of a role with the refusal's text as its characters.
pub open spec fn role_reading(reading: Result<MessageRole, String>) -> Result<
    MessageRole,
    Seq<char>,
> {
    match reading {
        Ok(role) => Ok(role),
        Err(text) => Err(text@),
    }
}

impl Message {
    /// Puts a message together from its columns as they were read: the
    /// first failed reading, in the order identifier, session, role, time,
    /// is the error; with none the message holds the values read.
    pub fn from_readings(
        id: Result<u128, uuid::Error>,
        session_id: Result<u128, uuid::Error>,
        role: Result<MessageRole, String>,
        content: String,
        timestamp: Result<Timestamp, chrono::ParseError>,
    ) -> (r: Result<Message, RowError>)
        ensures
            match assemble_message(
                read_value(id),
                read_value(session_id),
                role_reading(role),
                content@,
                read_value(timestamp),
            ) {
                Ok(message) => r is Ok && r->Ok_0.deep_view() == message,
                Err(fault) => r is Err && r->Err_0.deep_view() == fault,
            },
    {
        let id = match id {
            Ok(id) => id,
            Err(e) => {
                return Err(RowError::Id(e));
            },
        };
        let session_id = match session_id {
            Ok(id) => id,
            Err(e) => {
                return Err(RowError::SessionId(e));
            },
        };
        let role = match role {
            Ok(role) => role,
            Err(text) => {
                return Err(RowError::Role(text));
            },
        };
        let timestamp = match timestamp {
            Ok(at) => at,
            Err(e) => {
                return Err(RowError::Timestamp(e));
            },
        };
        Ok(Message { id, session_id, role, content, timestamp })
    }

    /// Reads a message from the columns of a stored row. The identifier
    /// column is nullable in the store's schema but always filled.
    pub fn from_query_row(
        id: Option<String>,
        session_id: String,
        role: String,
        content: String,
        timestamp: String,
    ) -> (r: Result<Message, RowError>)
        requires
            id is Some,
        ensures
            match decode_message_row(id->Some_0@, session_id@, role@, content@, timestamp@) {
                Ok(message) => r is Ok && r->Ok_0.deep_view() == message,
                Err(fault) => r is Err && r->Err_0.deep_view() == fault,
            },
    {
        let id_text = id.unwrap();
        let id = parse_uuid(id_text.as_str());
        let session_id = parse_uuid(session_id.as_str());
        let role = MessageRole::from_str(role.as_str());
        let timestamp = parse_datetime(timestamp.as_str());
        Message::from_readings(id, session_id, role, content, timestamp)
    }
}

/// Every role is read back from the word it is stored under, and the two
/// words differ.
pub proof fn lemma_stored_name_round_trip(role: MessageRole)
    ensures
        role_parse(role.stored_name()) == Some(role),
        MessageRole::User.stored_name() != MessageRole::Assistant.stored_name(),
{
    reveal_strlit("User");
    reveal_strlit("Assistant");
    assert("User"@.len() == 4);
    assert("Assistant"@.len() == 9);
}

} // verus!
