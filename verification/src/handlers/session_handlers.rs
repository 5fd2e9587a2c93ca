//! What the HTTP interface answers on the routes of sessions and messages,
//! and the form that creates a session from an uploaded file.

use vstd::prelude::*;

use crate::handlers::message_handlers::TurnError;
use crate::models::session::{CreateSession, CreateSessionModel};

verus! {

/// How an operation on the store ended.
#[derive(Clone, Copy, Debug, PartialEq, Eq, Structural)]
pub enum StoreOutcome {
    Done,
    /// The store holds no record of that identifier.
    NotFound,
    /// The store failed.
    Failed,
}

/// The routes of the interface.
#[derive(Clone, Copy, Debug, PartialEq, Eq, Structural)]
pub enum Route {
    CreateSession,
    GetSession,
    ListSessions,
    DeleteSession,
    UploadSession,
    CreateMessage,
    ListMessages,
}

/// The status of the answer on a route. A success is `201 Created` where
/// something was created, `204 No Content` for a deletion and `200 OK`
/// elsewhere. A record that was not found is `404 Not Found` on the two
/// routes that name one session; every other failure is
/// `500 Internal Server Error`.
pub open spec fn status_of(route: Route, outcome: StoreOutcome) -> u16 {
    match outcome {
        StoreOutcome::Done => match route {
            Route::CreateSession | Route::UploadSession | Route::CreateMessage => 201,
            Route::DeleteSession => 204,
            Route::GetSession | Route::ListSessions | Route::ListMessages => 200,
        },
        StoreOutcome::NotFound => match route {
            Route::GetSession | Route::DeleteSession => 404,
            _ => 500,
        },
        StoreOutcome::Failed => 500,
    }
}

/// The short text that goes with a failure on a route; empty where the
/// answer has no body. A success carries the record instead.
pub open spec fn failure_text_of(route: Route, outcome: StoreOutcome) -> Seq<char> {
    match (route, outcome) {
        (_, StoreOutcome::Done) => ""@,
        (Route::CreateSession, _) => "Failed to create session"@,
        (Route::GetSession, StoreOutcome::NotFound) => "Session not found"@,
        (Route::GetSession, StoreOutcome::Failed) => "Failed to retrieve session"@,
        (Route::ListSessions, _) => "Failed to retrieve sessions"@,
        _ => ""@,
    }
}

/// The status of the answer on a route.
pub fn status(route: Route, outcome: StoreOutcome) -> (r: u16)
    ensures
        r == status_of(route, outcome),
{
    match outcome {
        StoreOutcome::Done => match route {
            Route::CreateSession | Route::UploadSession | Route::CreateMessage => 201,
            Route::DeleteSession => 204,
            Route::GetSession | Route::ListSessions | Route::ListMessages => 200,
        },
        StoreOutcome::NotFound => match route {
            Route::GetSession | Route::DeleteSession => 404,
            _ => 500,
        },
        StoreOutcome::Failed => 500,
    }
}

/// The short text that goes with a failure on a route.
pub fn failure_text(route: Route, outcome: StoreOutcome) -> (r: &'static str)
    ensures
        r@ == failure_text_of(route, outcome),
{
    match outcome {
        StoreOutcome::Done => "",
        StoreOutcome::NotFound => match route {
            Route::CreateSession => "Failed to create session",
            Route::GetSession => "Session not found",
            Route::ListSessions => "Failed to retrieve sessions",
            _ => "",
        },
        StoreOutcome::Failed => match route {
            Route::CreateSession => "Failed to create session",
            Route::GetSession => "Failed to retrieve session",
            Route::ListSessions => "Failed to retrieve sessions",
            _ => "",
        },
    }
}

/// The status of the answer to a submitted turn: `201 Created` with both
/// messages where the turn is complete, `500 Internal Server Error` for
/// every failure, a missing session among them.
pub open spec fn turn_status_of(failure: Option<TurnError>) -> u16 {
    match failure {
        None => 201,
        Some(_) => 500,
    }
}

/// The status of the answer to a submitted turn.
pub fn turn_status(failure: Option<TurnError>) -> (r: u16)
    ensures
        r == turn_status_of(failure),
{
    match failure {
        None => 201,
        Some(_) => 500,
    }
}

/// What was read of the uploaded file.
#[derive(Debug, PartialEq, Eq)]
pub enum PdfRead {
    /// The field's bytes could not be read.
    Unread,
    /// The text that was extracted from the file.
    Text(String),
    /// The file is no PDF or a damaged one.
    Invalid,
}

/// One field of the uploaded form.
#[derive(Debug, PartialEq, Eq)]
pub enum UploadField {
    /// The field `topic`: its text, or `None` where it could not be read.
    Topic(Option<String>),
    /// The field `pdf_file`.
    PdfFile(PdfRead),
    /// A field of any other name, or of none.
    Other,
}

/// What an `UploadField` holds.
pub enum UploadFieldModel {
    Topic(Option<Seq<char>>),
    PdfUnread,
    PdfText(Seq<char>),
    PdfInvalid,
    Other,
}

impl DeepView for UploadField {
    type V = UploadFieldModel;

    open spec fn deep_view(&self) -> UploadFieldModel {
        match self {
            UploadField::Topic(text) => UploadFieldModel::Topic(text.deep_view()),
            UploadField::PdfFile(PdfRead::Unread) => UploadFieldModel::PdfUnread,
            UploadField::PdfFile(PdfRead::Text(text)) => UploadFieldModel::PdfText(text@),
            UploadField::PdfFile(PdfRead::Invalid) => UploadFieldModel::PdfInvalid,
            UploadField::Other => UploadFieldModel::Other,
        }
    }
}

/// Why an upload creates no session.
#[derive(Clone, Copy, Debug, PartialEq, Eq, Structural)]
pub enum UploadFault {
    /// The file is no PDF or a damaged one.
    InvalidPdf,
    /// The form lacks the topic or the file.
    MissingField,
}

/// The status and the text of the answer to an upload that creates no
/// session.
pub open spec fn upload_fault_reply(fault: UploadFault) -> (u16, Seq<char>) {
    match fault {
        UploadFault::InvalidPdf => (422, "Invalid or corrupted PDF"@),
        UploadFault::MissingField => (400, "Missing 'topic' or 'pdf_file'"@),
    }
}

/// The status and the text of the answer to an upload that creates no
/// session.
pub fn upload_fault_status(fault: UploadFault) -> (r: (u16, &'static str))
    ensures
        r.0 == upload_fault_reply(fault).0,
        r.1@ == upload_fault_reply(fault).1,
{
    match fault {
        UploadFault::InvalidPdf => (422, "Invalid or corrupted PDF"),
        UploadFault::MissingField => (400, "Missing 'topic' or 'pdf_file'"),
    }
}

/// What the fields of an upload have brought so far.
#[derive(Debug, PartialEq, Eq)]
pub struct UploadForm {
    pub topic: Option<String>,
    pub material_text: Option<String>,
}

/// What an `UploadForm` holds.
pub struct UploadFormModel {
    pub topic: Option<Seq<char>>,
    pub material_text: Option<Seq<char>>,
}

impl DeepView for UploadForm {
    type V = UploadFormModel;

    open spec fn deep_view(&self) -> UploadFormModel {
        UploadFormModel {
            topic: self.topic.deep_view(),
            material_text: self.material_text.deep_view(),
        }
    }
}

/// The form after one more field. A topic or a file's text that was read
/// takes the place of an earlier one; a field that was not read, or of
/// another name, changes nothing; a file that is no PDF ends the upload.
pub open spec fn form_after(form: UploadFormModel, field: UploadFieldModel) -> Result<
    UploadFormModel,
    UploadFault,
> {
    match field {
        UploadFieldModel::Topic(Some(text)) => Ok(UploadFormModel { topic: Some(text), ..form }),
        UploadFieldModel::PdfText(text) => Ok(
            UploadFormModel { material_text: Some(text), ..form },
        ),
        UploadFieldModel::PdfInvalid => Err(UploadFault::InvalidPdf),
        _ => Ok(form),
    }
}

/// The session that a form asks for once all fields are in: its topic and
/// the file's text as the material, where it has both.
pub open spec fn form_result(form: UploadFormModel) -> Result<CreateSessionModel, UploadFault> {
    match (form.topic, form.material_text) {
        (Some(topic), Some(material_text)) => Ok(CreateSessionModel { topic, material_text }),
        _ => Err(UploadFault::MissingField),
    }
}

impl UploadForm {
    /// The form before its first field.
    pub fn new() -> (r: UploadForm)
        ensures
            r.deep_view() == (UploadFormModel { topic: None, material_text: None }),
    {
        UploadForm { topic: None, material_text: None }
    }

    /// Takes the next field of the upload.
    pub fn accept(self, field: UploadField) -> (r: Result<UploadForm, UploadFault>)
        ensures
            match form_after(self.deep_view(), field.deep_view()) {
                Ok(form) => r is Ok && r->Ok_0.deep_view() == form,
                Err(fault) => r == Err::<UploadForm, UploadFault>(fault),
            },
    {
        match field {
            UploadField::Topic(Some(text)) => Ok(
                UploadForm { topic: Some(text), material_text: self.material_text },
            ),
            UploadField::PdfFile(PdfRead::Text(text)) => Ok(
                UploadForm { topic: self.topic, material_text: Some(text) },
            ),
            UploadField::PdfFile(PdfRead::Invalid) => Err(UploadFault::InvalidPdf),
            _ => Ok(self),
        }
    }

    /// Concludes the upload once all fields are in.
    pub fn finish(self) -> (r: Result<CreateSession, UploadFault>)
        ensures
            match form_result(self.deep_view()) {
                Ok(session) => r is Ok && r->Ok_0.deep_view() == session,
                Err(fault) => r == Err::<CreateSession, UploadFault>(fault),
            },
    {
        match self.topic {
            Some(topic) => match self.material_text {
                Some(material_text) => Ok(CreateSession { topic, material_text }),
                None => Err(UploadFault::MissingField),
            },
            None => Err(UploadFault::MissingField),
        }
    }
}

/// What an upload comes to once its fields were taken in order, starting
/// from a form: the session it asks for, or why it creates none.
pub open spec fn upload_result(form: UploadFormModel, fields: Seq<UploadFieldModel>) -> Result<
    CreateSessionModel,
    UploadFault,
>
    decreases fields.len(),
{
    if fields.len() == 0 {
        form_result(form)
    } else {
        match form_after(form, fields[0]) {
            Ok(next) => upload_result(next, fields.drop_first()),
            Err(fault) => Err(fault),
        }
    }
}

/// A file that is no PDF refuses the upload wherever it stands among the
/// fields, whatever the other fields hold.
pub proof fn lemma_invalid_pdf_refuses(
    form: UploadFormModel,
    fields: Seq<UploadFieldModel>,
    at: int,
)
    requires
        0 <= at < fields.len(),
        fields[at] is PdfInvalid,
    ensures
        upload_result(form, fields) == Err::<CreateSessionModel, UploadFault>(
            UploadFault::InvalidPdf,
        ),
    decreases fields.len(),
{
    if at > 0 {
        match form_after(form, fields[0]) {
            Ok(next) => {
                lemma_invalid_pdf_refuses(next, fields.drop_first(), at - 1);
            },
            Err(fault) => {},
        }
    }
}

/// An upload creates a session only from a topic and a file's text that
/// were read: it takes the last of each, and lacks a field where either
/// was never read.
pub proof fn lemma_upload_takes_the_last(form: UploadFormModel, fields: Seq<UploadFieldModel>)
    requires
        forall|i: int| 0 <= i < fields.len() ==> !(fields[i] is PdfInvalid),
    ensures
        upload_result(form, fields) == form_result(
            UploadFormModel {
                topic: last_topic(form.topic, fields),
                material_text: last_text(form.material_text, fields),
            },
        ),
    decreases fields.len(),
{
    if fields.len() > 0 {
        let next = form_after(form, fields[0])->Ok_0;
        lemma_upload_takes_the_last(next, fields.drop_first());
    }
}

/// The topic that stands after the fields: the last one read, or the one
/// that stood before them.
pub open spec fn last_topic(before: Option<Seq<char>>, fields: Seq<UploadFieldModel>) -> Option<
    Seq<char>,
>
    decreases fields.len(),
{
    if fields.len() == 0 {
        before
    } else {
        last_topic(
            match fields[0] {
                UploadFieldModel::Topic(Some(text)) => Some(text),
                _ => before,
            },
            fields.drop_first(),
        )
    }
}

/// The file's text that stands after the fields: the last one read, or
/// the one that stood before them.
pub open spec fn last_text(before: Option<Seq<char>>, fields: Seq<UploadFieldModel>) -> Option<
    Seq<char>,
>
    decreases fields.len(),
{
    if fields.len() == 0 {
        before
    } else {
        last_text(
            match fields[0] {
                UploadFieldModel::PdfText(text) => Some(text),
                _ => before,
            },
            fields.drop_first(),
        )
    }
}

} // verus!
