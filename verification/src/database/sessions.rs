//! Rows of the table of sessions.

use vstd::prelude::*;
use vstd::string::*;

use crate::clock::now_rfc3339;
use crate::ids::{format_uuid, is_random_uuid, random_uuid, uuid_parse, uuid_text};
use crate::models::message::instant_parse;
use crate::models::session::{
    decode_session_row, CreateSession, CreateSessionModel, Session, SessionModel,
    SessionRowError, SessionRowFault,
};

verus! {

/// The status that a session is created with.
pub const NEW_SESSION_STATUS: &'static str = "created";

/// The owner of every session as long as users are not told apart.
pub const PLACEHOLDER_USER: &'static str = "temp_user";

/// A row of the table of sessions, each column as the store holds it.
#[derive(Debug, PartialEq, Eq)]
pub struct SessionRow {
    pub id: String,
    pub topic: String,
    pub material_text: String,
    pub status: String,
    pub created_at: String,
    pub updated_at: String,
    pub user_id: Option<String>,
}

/// What a `SessionRow` holds.
pub struct SessionRowModel {
    pub id: Seq<char>,
    pub topic: Seq<char>,
    pub material_text: Seq<char>,
    pub status: Seq<char>,
    pub created_at: Seq<char>,
    pub updated_at: Seq<char>,
    pub user_id: Option<Seq<char>>,
}

impl DeepView for SessionRow {
    type V = SessionRowModel;

    open spec fn deep_view(&self) -> SessionRowModel {
        SessionRowModel {
            id: self.id@,
            topic: self.topic@,
            material_text: self.material_text@,
            status: self.status@,
            created_at: self.created_at@,
            updated_at: self.updated_at@,
            user_id: self.user_id.deep_view(),
        }
    }
}

/// The row for a new session: the identifier in hyphenated form, topic and
/// material unchanged, the status of a new session, the one time as the
/// time of creation and of the last update, and the placeholder owner.
pub open spec fn session_row_of(id: u128, session: CreateSessionModel, now: Seq<char>) -> SessionRowModel {
    SessionRowModel {
        id: uuid_text(id),
        topic: session.topic,
        material_text: session.material_text,
        status: NEW_SESSION_STATUS@,
        created_at: now,
        updated_at: now,
        user_id: Some(PLACEHOLDER_USER@),
    }
}

/// The session that a row denotes, or the first column that cannot be read.
pub open spec fn decode_session(row: SessionRowModel) -> Result<SessionModel, SessionRowFault>
    recommends
        row.user_id is Some,
{
    decode_session_row(
        row.id,
        row.topic,
        row.material_text,
        row.status,
        row.created_at,
        row.updated_at,
        row.user_id->Some_0,
    )
}

/// The sessions that rows denote, in the order of the rows, or the fault
/// of the first row that is no session.
pub open spec fn decode_sessions(rows: Seq<SessionRowModel>) -> Result<
    Seq<SessionModel>,
    SessionRowFault,
>
    decreases rows.len(),
{
    if rows.len() == 0 {
        Ok(Seq::empty())
    } else {
        match decode_sessions(rows.drop_last()) {
            Err(fault) => Err(fault),
            Ok(sessions) => match decode_session(rows.last()) {
                Ok(session) => Ok(sessions.push(session)),
                Err(fault) => Err(fault),
            },
        }
    }
}

/// What the row of a new session is read back as: a session with the
/// identifier, topic and material that were given, the status of a new
/// session, the placeholder owner, and the instant that the time denotes
/// as the time of creation and of the last update; or the first time's
/// fault where the time denotes none.
pub open spec fn read_back_session(id: u128, session: CreateSessionModel, now: Seq<char>) -> Result<
    SessionModel,
    SessionRowFault,
> {
    match instant_parse(now) {
        Some(at) => Ok(
            SessionModel {
                id,
                topic: session.topic,
                material_text: session.material_text,
                status: NEW_SESSION_STATUS@,
                created_at: at,
                updated_at: at,
                user_id: PLACEHOLDER_USER@,
            },
        ),
        None => Err(SessionRowFault::CreatedAt),
    }
}

/// Writes the row for a new session with a given identifier and time. The
/// row is read back as the session that was written.
pub fn session_row(id: u128, new_session: CreateSession, now: String) -> (r: SessionRow)
    ensures
        r.deep_view() == session_row_of(id, new_session.deep_view(), now@),
        uuid_parse(r.id@) == Some(id),
        decode_session(r.deep_view()) == read_back_session(id, new_session.deep_view(), now@),
{
    let updated_at = now.clone();
    SessionRow {
        id: format_uuid(id),
        topic: new_session.topic,
        material_text: new_session.material_text,
        status: String::from_str(NEW_SESSION_STATUS),
        created_at: now,
        updated_at,
        user_id: Some(String::from_str(PLACEHOLDER_USER)),
    }
}

/// Writes the row for a new session, with an identifier drawn at random
/// and the present time. Whatever was drawn and whenever it is, the row is
/// read back as a session with the topic and the material that were
/// given, created and last updated at one instant.
pub fn new_session_row(new_session: CreateSession) -> (r: SessionRow)
    ensures
        exists|id: u128, now: Seq<char>|
            is_random_uuid(id) && instant_parse(now) is Some && r.deep_view() == session_row_of(
                id,
                new_session.deep_view(),
                now,
            ),
        r.user_id is Some,
        decode_session(r.deep_view()) matches Ok(session) && {
            &&& is_random_uuid(session.id)
            &&& session.topic == new_session.topic@
            &&& session.material_text == new_session.material_text@
            &&& session.status == NEW_SESSION_STATUS@
            &&& session.user_id == PLACEHOLDER_USER@
            &&& session.created_at == session.updated_at
            &&& session.times_in_order()
        },
{
    let id = random_uuid();
    let now = now_rfc3339();
    let row = session_row(id, new_session, now);
    assert(is_random_uuid(id) && instant_parse(now@) is Some && row.deep_view()
        == session_row_of(id, new_session.deep_view(), now@));
    row
}

impl Session {
    /// Reads a session from a stored row. The owner's column is nullable
    /// in the store's schema but always filled.
    pub fn from_row(row: SessionRow) -> (r: Result<Session, SessionRowError>)
        requires
            row.user_id is Some,
        ensures
            match decode_session(row.deep_view()) {
                Ok(session) => r is Ok && r->Ok_0.deep_view() == session,
                Err(fault) => r is Err && r->Err_0.deep_view() == fault,
            },
    {
        Session::from_strings(
            row.id,
            row.topic,
            row.material_text,
            row.status,
            row.created_at,
            row.updated_at,
            row.user_id.unwrap(),
        )
    }
}

/// Reads the sessions from the rows that the store returned, keeping their
/// order. The first row that is no session fails the whole reading.
pub fn sessions_from_rows(rows: Vec<SessionRow>) -> (r: Result<Vec<Session>, SessionRowError>)
    requires
        forall|i: int| 0 <= i < rows.len() ==> rows[i].user_id is Some,
    ensures
        match decode_sessions(rows.deep_view()) {
            Ok(sessions) => r is Ok && r->Ok_0.deep_view() == sessions,
            Err(fault) => r is Err && r->Err_0.deep_view() == fault,
        },
{
    let ghost stored = rows@;
    let ghost all = rows.deep_view();
    let mut sessions: Vec<Session> = Vec::new();
    assert(all.take(0) =~= Seq::<SessionRowModel>::empty());
    assert(sessions.deep_view() =~= Seq::<SessionModel>::empty());
    for row in it: rows
        invariant
            it.seq() == stored,
            all == rows.deep_view(),
            all.len() == stored.len(),
            forall|i: int| 0 <= i < stored.len() ==> stored[i].user_id is Some,
            forall|i: int| 0 <= i < stored.len() ==> all[i] == stored[i].deep_view(),
            decode_sessions(all.take(it.index() as int)) == Ok::<
                Seq<SessionModel>,
                SessionRowFault,
            >(sessions.deep_view()),
    {
        let ghost k = it.index() as int;
        let ghost before = sessions.deep_view();
        proof {
            assert(all.take(k + 1).drop_last() =~= all.take(k));
            assert(all.take(k + 1).last() == all[k]);
            assert(row.deep_view() == all[k]);
        }
        match Session::from_row(row) {
            Ok(session) => {
                sessions.push(session);
                assert(sessions.deep_view() =~= before.push(session.deep_view()));
            },
            Err(error) => {
                proof {
                    assert(decode_sessions(all.take(k + 1)) == Err::<
                        Seq<SessionModel>,
                        SessionRowFault,
                    >(error.deep_view()));
                    lemma_session_fault_stays(all, k + 1);
                }
                return Err(error);
            },
        }
    }
    assert(all.take(all.len() as int) =~= all);
    Ok(sessions)
}

/// A fault among the first rows is the fault of the whole reading.
proof fn lemma_session_fault_stays(rows: Seq<SessionRowModel>, n: int)
    requires
        0 <= n <= rows.len(),
        decode_sessions(rows.take(n)) is Err,
    ensures
        decode_sessions(rows) == decode_sessions(rows.take(n)),
    decreases rows.len() - n,
{
    if n < rows.len() {
        assert(rows.take(n + 1).drop_last() =~= rows.take(n));
        lemma_session_fault_stays(rows, n + 1);
    } else {
        assert(rows.take(n) =~= rows);
    }
}

/// A new session's row, read back, is a session whose time of creation is
/// the time of its last update, so that it was not updated before it was
/// created; it has the topic and the material that were given.
pub proof fn lemma_new_session_times_in_order(
    id: u128,
    session: CreateSessionModel,
    now: Seq<char>,
)
    ensures
        decode_session(session_row_of(id, session, now)) matches Ok(read) ==> {
            &&& read.created_at == read.updated_at
            &&& read.times_in_order()
            &&& read.topic == session.topic
            &&& read.material_text == session.material_text
            &&& read.status == NEW_SESSION_STATUS@
            &&& read.user_id == PLACEHOLDER_USER@
        },
{
}

} // verus!
