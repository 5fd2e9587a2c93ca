//! Teaching sessions.

use vstd::prelude::*;

use crate::clock::{parse_datetime, Timestamp};
use crate::ids::{parse_uuid, uuid_parse};
use crate::models::message::{instant_parse, read_value};

verus! {

/// A teaching session: a topic and the material that the student is to
/// learn. Topic and material never change after the session was created.
#[derive(Debug, PartialEq, Eq)]
pub struct Session {
    pub id: u128,
    pub topic: String,
    pub material_text: String,
    pub status: String,
    pub created_at: Timestamp,
    pub updated_at: Timestamp,
    pub user_id: String,
}

/// What a `Session` holds.
pub struct SessionModel {
    pub id: u128,
    pub topic: Seq<char>,
    pub material_text: Seq<char>,
    pub status: Seq<char>,
    pub created_at: Timestamp,
    pub updated_at: Timestamp,
    pub user_id: Seq<char>,
}

impl DeepView for Session {
    type V = SessionModel;

    open spec fn deep_view(&self) -> SessionModel {
        SessionModel {
            id: self.id,
            topic: self.topic@,
            material_text: self.material_text@,
            status: self.status@,
            created_at: self.created_at,
            updated_at: self.updated_at,
            user_id: self.user_id@,
        }
    }
}

impl SessionModel {
    /// The session was not updated before it was created.
    pub open spec fn times_in_order(self) -> bool {
        self.created_at.at_or_before(self.updated_at)
    }
}

/// What a user gives to create a session.
#[derive(Debug, PartialEq, Eq)]
pub struct CreateSession {
    pub topic: String,
    pub material_text: String,
}

/// What a `CreateSession` holds.
pub struct CreateSessionModel {
    pub topic: Seq<char>,
    pub material_text: Seq<char>,
}

impl DeepView for CreateSession {
    type V = CreateSessionModel;

    open spec fn deep_view(&self) -> CreateSessionModel {
        CreateSessionModel { topic: self.topic@, material_text: self.material_text@ }
    }
}

/// Why a stored row is no session. The columns are looked at in the order
/// of the variants.
#[derive(Debug)]
pub enum SessionRowError {
    /// The identifier is no UUID.
    Id(uuid::Error),
    /// The time of creation is not in the form the store writes.
    CreatedAt(chrono::ParseError),
    /// The time of the last update is not in the form the store writes.
    UpdatedAt(chrono::ParseError),
}

/// What a `SessionRowError` says, without the parsers' own reports.
pub enum SessionRowFault {
    Id,
    CreatedAt,
    UpdatedAt,
}

impl DeepView for SessionRowError {
    type V = SessionRowFault;

    open spec fn deep_view(&self) -> SessionRowFault {
        match self {
            SessionRowError::Id(_) => SessionRowFault::Id,
            SessionRowError::CreatedAt(_) => SessionRowFault::CreatedAt,
            SessionRowError::UpdatedAt(_) => SessionRowFault::UpdatedAt,
        }
    }
}

/// The session made of three columns as read and four texts, or the first
/// column, in the order identifier, creation, update, that was not read.
pub open spec fn assemble_session(
    id: Option<u128>,
    topic: Seq<char>,
    material_text: Seq<char>,
    status: Seq<char>,
    created_at: Option<Timestamp>,
    updated_at: Option<Timestamp>,
    user_id: Seq<char>,
) -> Result<SessionModel, SessionRowFault> {
    if id is None {
        Err(SessionRowFault::Id)
    } else if created_at is None {
        Err(SessionRowFault::CreatedAt)
    } else if updated_at is None {
        Err(SessionRowFault::UpdatedAt)
    } else {
        Ok(
            SessionModel {
                id: id->Some_0,
                topic,
                material_text,
                status,
                created_at: created_at->Some_0,
                updated_at: updated_at->Some_0,
                user_id,
            },
        )
    }
}

/// The session that the seven columns of a row denote, or the first column
/// that cannot be read.
pub open spec fn decode_session_row(
    id: Seq<char>,
    topic: Seq<char>,
    material_text: Seq<char>,
    status: Seq<char>,
    created_at: Seq<char>,
    updated_at: Seq<char>,
    user_id: Seq<char>,
) -> Result<SessionModel, SessionRowFault> {
    assemble_session(
        uuid_parse(id),
        topic,
        material_text,
        status,
        instant_parse(created_at),
        instant_parse(updated_at),
        user_id,
    )
}

impl Session {
    /// Whether the session was not updated before it was created.
    pub fn times_in_order(&self) -> (r: bool)
        ensures
            r == self.deep_view().times_in_order(),
    {
        self.created_at.is_at_or_before(&self.updated_at)
    }

    /// Puts a session together from its columns as they were read: the
    /// first failed reading, in the order identifier, creation, update, is
    /// the error; with none the session holds the values read.
    pub fn from_readings(
        id: Result<u128, uuid::Error>,
        topic: String,
        material_text: String,
        status: String,
        created_at: Result<Timestamp, chrono::ParseError>,
        updated_at: Result<Timestamp, chrono::ParseError>,
        user_id: String,
    ) -> (r: Result<Session, SessionRowError>)
        ensures
            match assemble_session(
                read_value(id),
                topic@,
                material_text@,
                status@,
                read_value(created_at),
                read_value(updated_at),
                user_id@,
            ) {
                Ok(session) => r is Ok && r->Ok_0.deep_view() == session,
                Err(fault) => r is Err && r->Err_0.deep_view() == fault,
            },
    {
        let id = match id {
            Ok(id) => id,
            Err(e) => {
                return Err(SessionRowError::Id(e));
            },
        };
        let created_at = match created_at {
            Ok(at) => at,
            Err(e) => {
                return Err(SessionRowError::CreatedAt(e));
            },
        };
        let updated_at = match updated_at {
            Ok(at) => at,
            Err(e) => {
                return Err(SessionRowError::UpdatedAt(e));
            },
        };
        Ok(Session { id, topic, material_text, status, created_at, updated_at, user_id })
    }

    /// Reads a session from the columns of a stored row.
    pub fn from_strings(
        id: String,
        topic: String,
        material_text: String,
        status: String,
        created_at: String,
        updated_at: String,
        user_id: String,
    ) -> (r: Result<Session, SessionRowError>)
        ensures
            match decode_session_row(
                id@,
                topic@,
                material_text@,
                status@,
                created_at@,
                updated_at@,
                user_id@,
            ) {
                Ok(session) => r is Ok && r->Ok_0.deep_view() == session,
                Err(fault) => r is Err && r->Err_0.deep_view() == fault,
            },
    {
        let id = parse_uuid(id.as_str());
        let created_at = parse_datetime(created_at.as_str());
        let updated_at = parse_datetime(updated_at.as_str());
        Session::from_readings(id, topic, material_text, status, created_at, updated_at, user_id)
    }
}

} // verus!
