//! The stream relay: the provider's streamed reply as server-sent events
//! on one client connection, for one session.
//!
//! As with a turn, the relay decides and the caller acts: `open_stream`
//! names the first thing to do, and `relay` takes each outcome and names
//! the event to push, if any, and what to do next.
//!
//! A failure of the store is told to the client as an event named `error`
//! and ends the sequence; the provider is asked only with the history as
//! it was read. The relay pushes the reply on and does not store it: a
//! streamed reply is not part of the session's history.

use vstd::prelude::*;
use vstd::string::*;

use crate::handlers::ai::client::{build_request, request_turns, GatewayError, StreamItemModel};
use crate::handlers::ai::model::{gateway_turns, to_gateway_turns, ContentModel, GeminiRequest};
use crate::handlers::message_handlers::{SessionLookup, SessionLookupModel};
use crate::ids::{format_uuid, uuid_text};
use crate::models::message::{Message, MessageModel};
use crate::text::joined;

verus! {

/// Seconds of silence after which a keep-alive comment is pushed.
pub const KEEP_ALIVE_SECONDS: u64 = 10;

/// The text of the keep-alive comment.
pub const KEEP_ALIVE_TEXT: &'static str = "keep-alive-text";

/// The name of the events that report a failure.
pub const ERROR_EVENT: &'static str = "error";

/// What the client is told of a failure behind the stream: a history that
/// could not be read, or a failed element of the provider's stream.
pub const STREAM_ERROR_TEXT: &'static str = "An error occurred during the stream.";

/// A server-sent event: its data, and its name where it has one.
#[derive(Debug, PartialEq, Eq)]
pub struct PushEvent {
    pub event: Option<String>,
    pub data: String,
}

/// What a `PushEvent` holds.
pub struct PushEventModel {
    pub event: Option<Seq<char>>,
    pub data: Seq<char>,
}

impl DeepView for PushEvent {
    type V = PushEventModel;

    open spec fn deep_view(&self) -> PushEventModel {
        PushEventModel { event: self.event.deep_view(), data: self.data@ }
    }
}

/// A plain data event.
pub open spec fn data_event(data: Seq<char>) -> PushEventModel {
    PushEventModel { event: None, data }
}

/// An event named `error`.
pub open spec fn error_event(data: Seq<char>) -> PushEventModel {
    PushEventModel { event: Some(ERROR_EVENT@), data }
}

/// What the client is told where the session was not found: a sentence
/// that names the session by its hyphenated identifier.
pub open spec fn not_found_text(session_id: u128) -> Seq<char> {
    "Session with ID "@ + uuid_text(session_id) + " not found."@
}

/// The event for an element of the provider's stream: a fragment is pushed
/// as plain data, unchanged; a failure as an error event with a fixed text.
pub open spec fn item_event(item: StreamItemModel) -> PushEventModel {
    match item {
        Ok(text) => data_event(text),
        Err(_) => error_event(STREAM_ERROR_TEXT@),
    }
}

impl PushEvent {
    /// A plain data event.
    pub fn data(data: String) -> (r: PushEvent)
        ensures
            r.deep_view() == data_event(data@),
    {
        PushEvent { event: None, data }
    }

    /// An event named `error`.
    pub fn error(data: String) -> (r: PushEvent)
        ensures
            r.deep_view() == error_event(data@),
    {
        PushEvent { event: Some(String::from_str(ERROR_EVENT)), data }
    }

    /// The one event of a stream for a session that was not found.
    pub fn session_not_found(session_id: u128) -> (r: PushEvent)
        ensures
            r.deep_view() == error_event(not_found_text(session_id)),
    {
        let id = format_uuid(session_id);
        let mut text = joined("Session with ID ", id.as_str());
        text.append(" not found.");
        PushEvent::error(text)
    }

    /// The event for an element of the provider's stream.
    pub fn for_item(item: Result<String, GatewayError>) -> (r: PushEvent)
        ensures
            r.deep_view() == item_event(crate::handlers::ai::client::item_model(item)),
    {
        match item {
            Ok(text) => PushEvent::data(text),
            Err(_) => PushEvent::error(String::from_str(STREAM_ERROR_TEXT)),
        }
    }
}

/// What the relay asks its caller to do next.
#[derive(Debug, PartialEq, Eq)]
pub enum RelayCommand {
    /// Look the session up and report `RelayEvent::SessionFetched`.
    FetchSession { session_id: u128 },
    /// Read the session's messages, oldest first, and report
    /// `RelayEvent::HistoryLoaded`.
    LoadHistory { session_id: u128 },
    /// Open the provider's stream for the request, then report its
    /// elements one by one as `RelayEvent::Item` and its end as
    /// `RelayEvent::StreamEnded`.
    OpenStream { request: GeminiRequest },
    /// Report the next element of the provider's stream.
    AwaitItem,
    /// End the sequence of events; the connection was served.
    Close,
}

/// What a `RelayCommand` holds.
pub enum RelayCommandModel {
    FetchSession { session_id: u128 },
    LoadHistory { session_id: u128 },
    OpenStream { request: Seq<ContentModel> },
    AwaitItem,
    Close,
}

impl DeepView for RelayCommand {
    type V = RelayCommandModel;

    open spec fn deep_view(&self) -> RelayCommandModel {
        match self {
            RelayCommand::FetchSession { session_id } => RelayCommandModel::FetchSession {
                session_id: *session_id,
            },
            RelayCommand::LoadHistory { session_id } => RelayCommandModel::LoadHistory {
                session_id: *session_id,
            },
            RelayCommand::OpenStream { request } => RelayCommandModel::OpenStream {
                request: request.deep_view(),
            },
            RelayCommand::AwaitItem => RelayCommandModel::AwaitItem,
            RelayCommand::Close => RelayCommandModel::Close,
        }
    }
}

/// One step of the relay: the event to push to the client, if any, and
/// what to do after that.
#[derive(Debug, PartialEq, Eq)]
pub struct RelayStep {
    pub emit: Option<PushEvent>,
    pub command: RelayCommand,
}

/// What a `RelayStep` holds.
pub struct RelayStepModel {
    pub emit: Option<PushEventModel>,
    pub command: RelayCommandModel,
}

impl DeepView for RelayStep {
    type V = RelayStepModel;

    open spec fn deep_view(&self) -> RelayStepModel {
        RelayStepModel { emit: self.emit.deep_view(), command: self.command.deep_view() }
    }
}

/// What the caller reports to the relay.
#[derive(Debug, PartialEq, Eq)]
pub enum RelayEvent {
    /// The outcome of `RelayCommand::FetchSession`.
    SessionFetched(SessionLookup),
    /// The outcome of `RelayCommand::LoadHistory`: the messages, oldest
    /// first, or `None` where the read failed.
    HistoryLoaded(Option<Vec<Message>>),
    /// An element of the provider's stream.
    Item(Result<String, GatewayError>),
    /// The provider's stream has ended.
    StreamEnded,
}

/// What a `RelayEvent` holds.
pub enum RelayEventModel {
    SessionFetched(SessionLookupModel),
    HistoryLoaded(Option<Seq<MessageModel>>),
    Item(StreamItemModel),
    StreamEnded,
}

impl DeepView for RelayEvent {
    type V = RelayEventModel;

    open spec fn deep_view(&self) -> RelayEventModel {
        match self {
            RelayEvent::SessionFetched(lookup) => RelayEventModel::SessionFetched(
                lookup.deep_view(),
            ),
            RelayEvent::HistoryLoaded(history) => RelayEventModel::HistoryLoaded(
                history.deep_view(),
            ),
            RelayEvent::Item(item) => RelayEventModel::Item(
                crate::handlers::ai::client::item_model(*item),
            ),
            RelayEvent::StreamEnded => RelayEventModel::StreamEnded,
        }
    }
}

/// Where a relay stands.
#[derive(Debug, PartialEq, Eq)]
pub enum RelayState {
    /// Asked for the session.
    LookingUp { session_id: u128 },
    /// The session was found; asked for its history.
    LoadingHistory { session_id: u128, material_text: String },
    /// The provider's stream is open and its elements are pushed on.
    Relaying,
    /// The sequence of events has ended.
    Closed,
}

/// What a `RelayState` holds.
pub enum RelayStateModel {
    LookingUp { session_id: u128 },
    LoadingHistory { session_id: u128, material_text: Seq<char> },
    Relaying,
    Closed,
}

impl DeepView for RelayState {
    type V = RelayStateModel;

    open spec fn deep_view(&self) -> RelayStateModel {
        match self {
            RelayState::LookingUp { session_id } => RelayStateModel::LookingUp {
                session_id: *session_id,
            },
            RelayState::LoadingHistory { session_id, material_text } => RelayStateModel::LoadingHistory {
                session_id: *session_id,
                material_text: material_text@,
            },
            RelayState::Relaying => RelayStateModel::Relaying,
            RelayState::Closed => RelayStateModel::Closed,
        }
    }
}

/// The end of the sequence, with a last event or without one.
pub open spec fn closing(last: Option<PushEventModel>) -> (RelayStateModel, RelayStepModel) {
    (RelayStateModel::Closed, RelayStepModel { emit: last, command: RelayCommandModel::Close })
}

/// The state in which a relay begins and the first thing it asks for.
pub open spec fn relay_start(session_id: u128) -> (RelayStateModel, RelayStepModel) {
    (
        RelayStateModel::LookingUp { session_id },
        RelayStepModel { emit: None, command: RelayCommandModel::FetchSession { session_id } },
    )
}

/// What the relay does on an outcome: the state it goes to, the event it
/// pushes and what it asks for next.
///
/// A session that cannot be had, absent or not read, ends the sequence
/// with one error event that names it. For a session that was found the
/// history is read; a history that cannot be read ends the sequence with
/// one error event, and the provider is not asked. With the history read,
/// the provider's stream is opened with the session's material and that
/// history. Each element of the stream is pushed as one event; a failed
/// element does not end the relay, the end of the stream does. An outcome
/// that was not asked for ends the sequence silently.
pub open spec fn relay_step(state: RelayStateModel, event: RelayEventModel) -> (
    RelayStateModel,
    RelayStepModel,
) {
    match (state, event) {
        (RelayStateModel::LookingUp { session_id }, RelayEventModel::SessionFetched(lookup)) => {
            match lookup {
                SessionLookupModel::Found(session) => (
                    RelayStateModel::LoadingHistory {
                        session_id,
                        material_text: session.material_text,
                    },
                    RelayStepModel {
                        emit: None,
                        command: RelayCommandModel::LoadHistory { session_id },
                    },
                ),
                _ => closing(Some(error_event(not_found_text(session_id)))),
            }
        },
        (
            RelayStateModel::LoadingHistory { session_id, material_text },
            RelayEventModel::HistoryLoaded(history),
        ) => match history {
            Some(messages) => (
                RelayStateModel::Relaying,
                RelayStepModel {
                    emit: None,
                    command: RelayCommandModel::OpenStream {
                        request: request_turns(material_text, gateway_turns(messages)),
                    },
                },
            ),
            None => closing(Some(error_event(STREAM_ERROR_TEXT@))),
        },
        (RelayStateModel::Relaying, RelayEventModel::Item(item)) => (
            RelayStateModel::Relaying,
            RelayStepModel { emit: Some(item_event(item)), command: RelayCommandModel::AwaitItem },
        ),
        _ => closing(None),
    }
}

/// Ends the sequence, with a last event or without one.
fn close(last: Option<PushEvent>) -> (r: (RelayState, RelayStep))
    ensures
        r.deep_view() == closing(last.deep_view()),
{
    (RelayState::Closed, RelayStep { emit: last, command: RelayCommand::Close })
}

/// Begins the relay for a client that asks for a session's stream.
pub fn open_stream(session_id: u128) -> (r: (RelayState, RelayStep))
    ensures
        r.deep_view() == relay_start(session_id),
{
    (
        RelayState::LookingUp { session_id },
        RelayStep { emit: None, command: RelayCommand::FetchSession { session_id } },
    )
}

/// Takes the outcome of what was asked for last and names the event to
/// push and what to do next.
pub fn relay(state: RelayState, event: RelayEvent) -> (r: (RelayState, RelayStep))
    ensures
        r.deep_view() == relay_step(state.deep_view(), event.deep_view()),
{
    match state {
        RelayState::LookingUp { session_id } => match event {
            RelayEvent::SessionFetched(SessionLookup::Found(session)) => (
                RelayState::LoadingHistory { session_id, material_text: session.material_text },
                RelayStep { emit: None, command: RelayCommand::LoadHistory { session_id } },
            ),
            RelayEvent::SessionFetched(_) => close(
                Some(PushEvent::session_not_found(session_id)),
            ),
            _ => close(None),
        },
        RelayState::LoadingHistory { session_id, material_text } => match event {
            RelayEvent::HistoryLoaded(Some(messages)) => {
                let turns = to_gateway_turns(messages);
                let request = build_request(material_text.as_str(), turns);
                (
                    RelayState::Relaying,
                    RelayStep { emit: None, command: RelayCommand::OpenStream { request } },
                )
            },
            RelayEvent::HistoryLoaded(None) => close(
                Some(PushEvent::error(String::from_str(STREAM_ERROR_TEXT))),
            ),
            _ => close(None),
        },
        RelayState::Relaying => match event {
            RelayEvent::Item(item) => (
                RelayState::Relaying,
                RelayStep { emit: Some(PushEvent::for_item(item)), command: RelayCommand::AwaitItem },
            ),
            _ => close(None),
        },
        RelayState::Closed => close(None),
    }
}

/// The state of a relay for a session after the first `k` of the outcomes
/// reported to it.
pub open spec fn relay_state_at(session_id: u128, events: Seq<RelayEventModel>, k: nat) -> RelayStateModel
    recommends
        k <= events.len(),
    decreases k,
{
    if k == 0 {
        relay_start(session_id).0
    } else {
        relay_step(relay_state_at(session_id, events, (k - 1) as nat), events[k - 1]).0
    }
}

/// What a relay pushes and asks for on outcome `k` of those reported to it.
pub open spec fn relay_step_at(session_id: u128, events: Seq<RelayEventModel>, k: nat) -> RelayStepModel
    recommends
        k < events.len(),
{
    relay_step(relay_state_at(session_id, events, k), events[k as int]).1
}

/// A relay goes one way: the session is looked up first and the history
/// read second; the provider's stream is open only after a session that
/// was found and a history that was read, and stays open only as long as
/// nothing but its elements is reported.
pub proof fn lemma_relay_progress(session_id: u128, events: Seq<RelayEventModel>, k: nat)
    requires
        k <= events.len(),
    ensures
        match relay_state_at(session_id, events, k) {
            RelayStateModel::LookingUp { session_id: s } => k == 0 && s == session_id,
            RelayStateModel::LoadingHistory { session_id: s, material_text } => {
                &&& k == 1
                &&& s == session_id
                &&& events[0] matches RelayEventModel::SessionFetched(
                    SessionLookupModel::Found(session),
                )
                &&& session.material_text == material_text
            },
            RelayStateModel::Relaying => {
                &&& k >= 2
                &&& events[0] matches RelayEventModel::SessionFetched(
                    SessionLookupModel::Found(_),
                )
                &&& events[1] matches RelayEventModel::HistoryLoaded(Some(_))
                &&& forall|j: int| 2 <= j < k ==> events[j] is Item
            },
            RelayStateModel::Closed => k >= 1,
        },
    decreases k,
{
    if k > 0 {
        lemma_relay_progress(session_id, events, (k - 1) as nat);
    }
}

/// A relay that has closed stays closed: it pushes nothing more, whatever
/// is reported to it.
pub proof fn lemma_relay_closes_once(
    session_id: u128,
    events: Seq<RelayEventModel>,
    j: nat,
    k: nat,
)
    requires
        j <= k < events.len(),
        relay_state_at(session_id, events, j) is Closed,
    ensures
        relay_state_at(session_id, events, k) is Closed,
        relay_step_at(session_id, events, k) == closing(None).1,
    decreases k - j,
{
    if j < k {
        lemma_relay_closes_once(session_id, events, j, (k - 1) as nat);
    }
}

/// A stream for a session that cannot be had is one event named `error`,
/// which names the session, and then the end: the first step pushes that
/// event and closes, and no later step pushes anything.
pub proof fn lemma_missing_session_one_event(
    session_id: u128,
    events: Seq<RelayEventModel>,
    k: nat,
)
    requires
        k < events.len(),
        events[0] matches RelayEventModel::SessionFetched(lookup) && !(lookup is Found),
    ensures
        relay_step_at(session_id, events, 0) == (RelayStepModel {
            emit: Some(error_event(not_found_text(session_id))),
            command: RelayCommandModel::Close,
        }),
        k >= 1 ==> relay_step_at(session_id, events, k) == (RelayStepModel {
            emit: None,
            command: RelayCommandModel::Close,
        }),
{
    assert(relay_state_at(session_id, events, 0) == relay_start(session_id).0);
    if k >= 1 {
        assert(relay_state_at(session_id, events, 1) == relay_step(
            relay_state_at(session_id, events, 0),
            events[0],
        ).0);
        lemma_relay_closes_once(session_id, events, 1, k);
    }
}

/// What a relay pushes. An event is pushed in three cases only: as the
/// answer to a session that cannot be had, and then it is the error event
/// that names the session; as the answer to a history that cannot be
/// read, and then it is an error event; or for an element of the
/// provider's stream, and then it is that element's event. Each element of
/// an open stream is pushed, in the order of arrival. The provider's
/// stream is asked for once at most, with the material of the session
/// found and the history as it was read.
pub proof fn lemma_relay_pushes(session_id: u128, events: Seq<RelayEventModel>, k: nat)
    requires
        k < events.len(),
    ensures
        relay_step_at(session_id, events, k).emit matches Some(pushed) ==> {
            ||| {
                &&& k == 0
                &&& events[0] matches RelayEventModel::SessionFetched(lookup)
                &&& !(lookup is Found)
                &&& pushed == error_event(not_found_text(session_id))
            }
            ||| {
                &&& k == 1
                &&& events[1] == RelayEventModel::HistoryLoaded(None)
                &&& pushed == error_event(STREAM_ERROR_TEXT@)
            }
            ||| {
                &&& k >= 2
                &&& events[k as int] matches RelayEventModel::Item(item)
                &&& pushed == item_event(item)
            }
        },
        relay_state_at(session_id, events, k) is Relaying ==> (
        events[k as int] matches RelayEventModel::Item(item) ==> relay_step_at(
            session_id,
            events,
            k,
        ).emit == Some(item_event(item))),
        relay_step_at(session_id, events, k).command matches RelayCommandModel::OpenStream {
            request,
        } ==> {
            &&& k == 1
            &&& events[0] matches RelayEventModel::SessionFetched(
                SessionLookupModel::Found(session),
            )
            &&& events[1] matches RelayEventModel::HistoryLoaded(Some(history))
            &&& request == request_turns(session.material_text, gateway_turns(history))
        },
{
    lemma_relay_progress(session_id, events, k);
}

/// A history that cannot be read is told to the client and ends the
/// sequence: the second step pushes one error event and closes, the
/// provider's stream is never asked for, and no later step pushes anything.
pub proof fn lemma_unread_history_one_event(
    session_id: u128,
    events: Seq<RelayEventModel>,
    k: nat,
)
    requires
        2 <= events.len(),
        k < events.len(),
        events[0] matches RelayEventModel::SessionFetched(SessionLookupModel::Found(_)),
        events[1] == RelayEventModel::HistoryLoaded(None),
    ensures
        relay_step_at(session_id, events, 0).emit is None,
        relay_step_at(session_id, events, 1) == (RelayStepModel {
            emit: Some(error_event(STREAM_ERROR_TEXT@)),
            command: RelayCommandModel::Close,
        }),
        !(relay_step_at(session_id, events, k).command is OpenStream),
        k >= 2 ==> relay_step_at(session_id, events, k) == (RelayStepModel {
            emit: None,
            command: RelayCommandModel::Close,
        }),
{
    assert(relay_state_at(session_id, events, 0) == relay_start(session_id).0);
    assert(relay_state_at(session_id, events, 1) == relay_step(
        relay_state_at(session_id, events, 0),
        events[0],
    ).0);
    assert(relay_state_at(session_id, events, 2) == relay_step(
        relay_state_at(session_id, events, 1),
        events[1],
    ).0);
    if k >= 2 {
        lemma_relay_closes_once(session_id, events, 2, k);
    }
}

} // verus!
