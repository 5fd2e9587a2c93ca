//! Rows of the table of messages.

use vstd::prelude::*;
use vstd::string::*;

use crate::clock::{now_rfc3339, Timestamp};
use crate::ids::{format_uuid, is_random_uuid, random_uuid, uuid_parse, uuid_text};
use crate::models::message::{
    chronological, decode_message_row, instant_parse, lemma_stored_name_round_trip,
    CreateMessage, CreateMessageModel, Message, MessageModel, RowError, RowFault,
};

verus! {

/// A row of the table of messages, each column as the store holds it.
#[derive(Debug, PartialEq, Eq)]
pub struct MessageRow {
    pub id: Option<String>,
    pub session_id: String,
    pub role: String,
    pub content: String,
    pub timestamp: String,
}

/// What a `MessageRow` holds.
pub struct MessageRowModel {
    pub id: Option<Seq<char>>,
    pub session_id: Seq<char>,
    pub role: Seq<char>,
    pub content: Seq<char>,
    pub timestamp: Seq<char>,
}

impl DeepView for MessageRow {
    type V = MessageRowModel;

    open spec fn deep_view(&self) -> MessageRowModel {
        MessageRowModel {
            id: self.id.deep_view(),
            session_id: self.session_id@,
            role: self.role@,
            content: self.content@,
            timestamp: self.timestamp@,
        }
    }
}

/// The row for a new message: both identifiers in hyphenated form, the
/// role under its stored name, the content unchanged and the time as given.
pub open spec fn message_row_of(
    id: u128,
    session_id: u128,
    message: CreateMessageModel,
    timestamp: Seq<char>,
) -> MessageRowModel {
    MessageRowModel {
        id: Some(uuid_text(id)),
        session_id: uuid_text(session_id),
        role: message.role.stored_name(),
        content: message.content,
        timestamp,
    }
}

/// The message that a row denotes, or the first column that cannot be read.
pub open spec fn decode_row(row: MessageRowModel) -> Result<MessageModel, RowFault>
    recommends
        row.id is Some,
{
    decode_message_row(row.id->Some_0, row.session_id, row.role, row.content, row.timestamp)
}

/// The messages that rows denote, in the order of the rows, or the fault
/// of the first row that is no message.
pub open spec fn decode_rows(rows: Seq<MessageRowModel>) -> Result<Seq<MessageModel>, RowFault>
    decreases rows.len(),
{
    if rows.len() == 0 {
        Ok(Seq::empty())
    } else {
        match decode_rows(rows.drop_last()) {
            Err(fault) => Err(fault),
            Ok(messages) => match decode_row(rows.last()) {
                Ok(message) => Ok(messages.push(message)),
                Err(fault) => Err(fault),
            },
        }
    }
}

/// The message that was written with an identifier and at an instant.
pub open spec fn written_message(
    id: u128,
    session_id: u128,
    message: CreateMessageModel,
    at: Timestamp,
) -> MessageModel {
    MessageModel {
        id,
        session_id,
        role: message.role,
        content: message.content,
        timestamp: at,
    }
}

/// What the row of a new message is read back as: the message as it was
/// written, at the instant that the time denotes, or the time's fault
/// where the time denotes none.
pub open spec fn read_back(
    id: u128,
    session_id: u128,
    message: CreateMessageModel,
    timestamp: Seq<char>,
) -> Result<MessageModel, RowFault> {
    match instant_parse(timestamp) {
        Some(at) => Ok(written_message(id, session_id, message, at)),
        None => Err(RowFault::Timestamp),
    }
}

/// Writes the row for a new message with a given identifier and time. The
/// row is read back as the message that was written: both identifiers,
/// the role and the content as they were given.
pub fn message_row(id: u128, session_id: u128, new_message: CreateMessage, timestamp: String) -> (r:
    MessageRow)
    ensures
        r.deep_view() == message_row_of(id, session_id, new_message.deep_view(), timestamp@),
        uuid_parse(r.id->Some_0@) == Some(id),
        uuid_parse(r.session_id@) == Some(session_id),
        decode_row(r.deep_view()) == read_back(
            id,
            session_id,
            new_message.deep_view(),
            timestamp@,
        ),
{
    proof {
        lemma_stored_name_round_trip(new_message.role);
    }
    MessageRow {
        id: Some(format_uuid(id)),
        session_id: format_uuid(session_id),
        role: String::from_str(new_message.role.as_stored()),
        content: new_message.content,
        timestamp,
    }
}

/// Writes the row for a new message of a session, with an identifier
/// drawn at random and the present time. Whatever was drawn and whenever
/// it is, the row is read back as a message of that session with the role
/// and the content that were given.
pub fn new_message_row(session_id: u128, new_message: CreateMessage) -> (r: MessageRow)
    ensures
        exists|id: u128, timestamp: Seq<char>|
            is_random_uuid(id) && instant_parse(timestamp) is Some && r.deep_view()
                == message_row_of(id, session_id, new_message.deep_view(), timestamp),
        r.id is Some,
        decode_row(r.deep_view()) matches Ok(message) && {
            &&& is_random_uuid(message.id)
            &&& message.session_id == session_id
            &&& message.role == new_message.role
            &&& message.content == new_message.content@
        },
{
    let id = random_uuid();
    let timestamp = now_rfc3339();
    let row = message_row(id, session_id, new_message, timestamp);
    assert(is_random_uuid(id) && instant_parse(timestamp@) is Some && row.deep_view()
        == message_row_of(id, session_id, new_message.deep_view(), timestamp@));
    row
}

impl Message {
    /// Reads a message from a stored row.
    pub fn from_row(row: MessageRow) -> (r: Result<Message, RowError>)
        requires
            row.id is Some,
        ensures
            match decode_row(row.deep_view()) {
                Ok(message) => r is Ok && r->Ok_0.deep_view() == message,
                Err(fault) => r is Err && r->Err_0.deep_view() == fault,
            },
    {
        Message::from_query_row(row.id, row.session_id, row.role, row.content, row.timestamp)
    }
}

/// Reads the messages of a session from the rows that the store returned,
/// keeping their order. The first row that is no message fails the whole
/// reading.
pub fn messages_from_rows(rows: Vec<MessageRow>) -> (r: Result<Vec<Message>, RowError>)
    requires
        forall|i: int| 0 <= i < rows.len() ==> rows[i].id is Some,
    ensures
        match decode_rows(rows.deep_view()) {
            Ok(messages) => r is Ok && r->Ok_0.deep_view() == messages,
            Err(fault) => r is Err && r->Err_0.deep_view() == fault,
        },
{
    let ghost stored = rows@;
    let ghost all = rows.deep_view();
    let mut messages: Vec<Message> = Vec::new();
    assert(all.take(0) =~= Seq::<MessageRowModel>::empty());
    assert(messages.deep_view() =~= Seq::<MessageModel>::empty());
    for row in it: rows
        invariant
            it.seq() == stored,
            all == rows.deep_view(),
            all.len() == stored.len(),
            forall|i: int| 0 <= i < stored.len() ==> stored[i].id is Some,
            forall|i: int| 0 <= i < stored.len() ==> all[i] == stored[i].deep_view(),
            decode_rows(all.take(it.index() as int)) == Ok::<Seq<MessageModel>, RowFault>(
                messages.deep_view(),
            ),
    {
        let ghost k = it.index() as int;
        let ghost before = messages.deep_view();
        proof {
            assert(all.take(k + 1).drop_last() =~= all.take(k));
            assert(all.take(k + 1).last() == all[k]);
            assert(row.deep_view() == all[k]);
        }
        match Message::from_row(row) {
            Ok(message) => {
                messages.push(message);
                assert(messages.deep_view() =~= before.push(message.deep_view()));
            },
            Err(error) => {
                proof {
                    assert(decode_rows(all.take(k + 1)) == Err::<Seq<MessageModel>, RowFault>(
                        error.deep_view(),
                    ));
                    lemma_fault_stays(all, k + 1);
                }
                return Err(error);
            },
        }
    }
    assert(all.take(all.len() as int) =~= all);
    Ok(messages)
}

/// A fault among the first rows is the fault of the whole reading.
proof fn lemma_fault_stays(rows: Seq<MessageRowModel>, n: int)
    requires
        0 <= n <= rows.len(),
        decode_rows(rows.take(n)) is Err,
    ensures
        decode_rows(rows) == decode_rows(rows.take(n)),
    decreases rows.len() - n,
{
    if n < rows.len() {
        assert(rows.take(n + 1).drop_last() =~= rows.take(n));
        lemma_fault_stays(rows, n + 1);
    } else {
        assert(rows.take(n) =~= rows);
    }
}

/// Reading keeps the rows' order: where all rows are messages, there is
/// one message for each row, at the row's place, and it is the message
/// that the row denotes. Rows that the store returned oldest first are
/// therefore read as messages oldest first, and the same rows are always
/// read as the same messages.
pub proof fn lemma_rows_read_in_order(rows: Seq<MessageRowModel>)
    requires
        forall|i: int| 0 <= i < rows.len() ==> rows[i].id is Some,
        decode_rows(rows) is Ok,
    ensures
        decode_rows(rows)->Ok_0.len() == rows.len(),
        forall|i: int|
            0 <= i < rows.len() ==> decode_row(#[trigger] rows[i]) == Ok::<MessageModel, RowFault>(
                decode_rows(rows)->Ok_0[i],
            ),
    decreases rows.len(),
{
    if rows.len() > 0 {
        lemma_rows_read_in_order(rows.drop_last());
        let messages = decode_rows(rows)->Ok_0;
        assert forall|i: int| 0 <= i < rows.len() implies decode_row(#[trigger] rows[i]) == Ok::<
            MessageModel,
            RowFault,
        >(messages[i]) by {
            if i < rows.len() - 1 {
                assert(rows.drop_last()[i] == rows[i]);
            }
        }
    }
}

/// Rows that the store returned oldest first are read as messages oldest
/// first.
pub proof fn lemma_rows_oldest_first(rows: Seq<MessageRowModel>)
    requires
        forall|i: int| 0 <= i < rows.len() ==> rows[i].id is Some,
        decode_rows(rows) is Ok,
        forall|i: int, j: int|
            0 <= i <= j < rows.len() ==> decode_row(rows[i])->Ok_0.timestamp.at_or_before(
                decode_row(rows[j])->Ok_0.timestamp,
            ),
    ensures
        chronological(decode_rows(rows)->Ok_0),
{
    lemma_rows_read_in_order(rows);
    let messages = decode_rows(rows)->Ok_0;
    assert forall|i: int, j: int| 0 <= i <= j < messages.len() implies messages[i].timestamp.at_or_before(
        messages[j].timestamp,
    ) by {
        assert(decode_row(rows[i]) == Ok::<MessageModel, RowFault>(messages[i]));
        assert(decode_row(rows[j]) == Ok::<MessageModel, RowFault>(messages[j]));
        assert(decode_row(rows[i])->Ok_0.timestamp.at_or_before(
            decode_row(rows[j])->Ok_0.timestamp,
        ));
    }
}

} // verus!
