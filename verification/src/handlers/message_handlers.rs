//! The turn orchestrator: one turn of a conversation, from the user's
//! utterance to the stored reply.
//!
//! The orchestrator decides and the caller acts. `submit_turn` names the
//! first thing to do; the caller does it and reports the outcome to
//! `advance`, which names the next, until the turn is complete or failed.

use vstd::prelude::*;

use crate::handlers::ai::client::{
    build_request, conclude, generated, request_turns, ModelAnswer, ModelAnswerModel,
};
use crate::handlers::ai::model::{
    gateway_turns, to_gateway_turns, ContentModel, GeminiRequest,
};
use crate::models::message::{
    CreateMessage, CreateMessageModel, Message, MessageModel, MessageRole,
};
use crate::models::session::{Session, SessionModel};

verus! {

/// Why a turn failed.
#[derive(Clone, Copy, Debug, PartialEq, Eq, Structural)]
pub enum TurnError {
    /// The session does not exist.
    SessionNotFound,
    /// The store failed to read the session or its history.
    StoreReadFailed,
    /// The store failed to write a message.
    StoreWriteFailed,
    /// The provider gave no reply.
    GatewayCallFailed,
    /// An outcome was reported that the orchestrator had not asked for.
    UnexpectedEvent,
}

/// The outcome of looking a session up.
#[derive(Debug, PartialEq, Eq)]
pub enum SessionLookup {
    Found(Session),
    /// The store holds no session of that identifier.
    Missing,
    /// The store failed.
    Failed,
}

/// What a `SessionLookup` holds.
pub enum SessionLookupModel {
    Found(SessionModel),
    Missing,
    Failed,
}

impl DeepView for SessionLookup {
    type V = SessionLookupModel;

    open spec fn deep_view(&self) -> SessionLookupModel {
        match self {
            SessionLookup::Found(session) => SessionLookupModel::Found(session.deep_view()),
            SessionLookup::Missing => SessionLookupModel::Missing,
            SessionLookup::Failed => SessionLookupModel::Failed,
        }
    }
}

/// What the orchestrator asks its caller to do.
#[derive(Debug, PartialEq, Eq)]
pub enum TurnAction {
    /// Look the session up and report `TurnEvent::SessionFetched`.
    FetchSession { session_id: u128 },
    /// Write the message under the session and report
    /// `TurnEvent::MessageStored`.
    StoreMessage { session_id: u128, message: CreateMessage },
    /// Read the session's messages, oldest first, and report
    /// `TurnEvent::HistoryLoaded`.
    LoadHistory { session_id: u128 },
    /// Send the request to the provider as a single call and report
    /// `TurnEvent::ModelAnswered`.
    CallModel { request: GeminiRequest },
    /// The turn is complete: hand both stored messages to the client.
    Complete { user_message: Message, assistant_message: Message },
    /// The turn failed: report the error to the client.
    Fail { error: TurnError },
}

/// What a `TurnAction` holds.
pub enum TurnActionModel {
    FetchSession { session_id: u128 },
    StoreMessage { session_id: u128, message: CreateMessageModel },
    LoadHistory { session_id: u128 },
    CallModel { request: Seq<ContentModel> },
    Complete { user_message: MessageModel, assistant_message: MessageModel },
    Fail { error: TurnError },
}

impl DeepView for TurnAction {
    type V = TurnActionModel;

    open spec fn deep_view(&self) -> TurnActionModel {
        match self {
            TurnAction::FetchSession { session_id } => TurnActionModel::FetchSession {
                session_id: *session_id,
            },
            TurnAction::StoreMessage { session_id, message } => TurnActionModel::StoreMessage {
                session_id: *session_id,
                message: message.deep_view(),
            },
            TurnAction::LoadHistory { session_id } => TurnActionModel::LoadHistory {
                session_id: *session_id,
            },
            TurnAction::CallModel { request } => TurnActionModel::CallModel {
                request: request.deep_view(),
            },
            TurnAction::Complete { user_message, assistant_message } => TurnActionModel::Complete {
                user_message: user_message.deep_view(),
                assistant_message: assistant_message.deep_view(),
            },
            TurnAction::Fail { error } => TurnActionModel::Fail { error: *error },
        }
    }
}

/// What the caller reports back.
#[derive(Debug, PartialEq, Eq)]
pub enum TurnEvent {
    /// The outcome of `TurnAction::FetchSession`.
    SessionFetched(SessionLookup),
    /// The outcome of `TurnAction::StoreMessage`: the message as stored,
    /// or `None` where the write failed.
    MessageStored(Option<Message>),
    /// The outcome of `TurnAction::LoadHistory`: the messages, oldest
    /// first, or `None` where the read failed.
    HistoryLoaded(Option<Vec<Message>>),
    /// The outcome of `TurnAction::CallModel`.
    ModelAnswered(ModelAnswer),
}

/// What a `TurnEvent` holds.
pub enum TurnEventModel {
    SessionFetched(SessionLookupModel),
    MessageStored(Option<MessageModel>),
    HistoryLoaded(Option<Seq<MessageModel>>),
    ModelAnswered(ModelAnswerModel),
}

impl DeepView for TurnEvent {
    type V = TurnEventModel;

    open spec fn deep_view(&self) -> TurnEventModel {
        match self {
            TurnEvent::SessionFetched(lookup) => TurnEventModel::SessionFetched(
                lookup.deep_view(),
            ),
            TurnEvent::MessageStored(stored) => TurnEventModel::MessageStored(stored.deep_view()),
            TurnEvent::HistoryLoaded(history) => TurnEventModel::HistoryLoaded(
                history.deep_view(),
            ),
            TurnEvent::ModelAnswered(answer) => TurnEventModel::ModelAnswered(answer.deep_view()),
        }
    }
}

/// Where a turn stands: what was asked of the caller last, and what the
/// orchestrator keeps for the steps to come.
#[derive(Debug, PartialEq, Eq)]
pub enum TurnState {
    /// Asked whether the session exists; nothing is written yet.
    CheckingSession { session_id: u128, content: String },
    /// Asked to write the user's message.
    StoringUserMessage { session_id: u128 },
    /// The user's message is stored; asked for the session's material.
    LoadingSession { session_id: u128, user_message: Message },
    /// Asked for the history, which holds the user's message by now.
    LoadingHistory { session_id: u128, user_message: Message, material_text: String },
    /// Asked the provider for a reply.
    AwaitingReply { session_id: u128, user_message: Message },
    /// Asked to write the assistant's reply.
    StoringReply { user_message: Message },
    /// The turn is complete or failed; nothing more is asked.
    Finished,
}

/// What a `TurnState` holds.
pub enum TurnStateModel {
    CheckingSession { session_id: u128, content: Seq<char> },
    StoringUserMessage { session_id: u128 },
    LoadingSession { session_id: u128, user_message: MessageModel },
    LoadingHistory { session_id: u128, user_message: MessageModel, material_text: Seq<char> },
    AwaitingReply { session_id: u128, user_message: MessageModel },
    StoringReply { user_message: MessageModel },
    Finished,
}

impl DeepView for TurnState {
    type V = TurnStateModel;

    open spec fn deep_view(&self) -> TurnStateModel {
        match self {
            TurnState::CheckingSession { session_id, content } => TurnStateModel::CheckingSession {
                session_id: *session_id,
                content: content@,
            },
            TurnState::StoringUserMessage { session_id } => TurnStateModel::StoringUserMessage {
                session_id: *session_id,
            },
            TurnState::LoadingSession { session_id, user_message } => TurnStateModel::LoadingSession {
                session_id: *session_id,
                user_message: user_message.deep_view(),
            },
            TurnState::LoadingHistory {
                session_id,
                user_message,
                material_text,
            } => TurnStateModel::LoadingHistory {
                session_id: *session_id,
                user_message: user_message.deep_view(),
                material_text: material_text@,
            },
            TurnState::AwaitingReply { session_id, user_message } => TurnStateModel::AwaitingReply {
                session_id: *session_id,
                user_message: user_message.deep_view(),
            },
            TurnState::StoringReply { user_message } => TurnStateModel::StoringReply {
                user_message: user_message.deep_view(),
            },
            TurnState::Finished => TurnStateModel::Finished,
        }
    }
}

/// The failure that ends a turn.
pub open spec fn failed(error: TurnError) -> (TurnStateModel, TurnActionModel) {
    (TurnStateModel::Finished, TurnActionModel::Fail { error })
}

/// The state in which a turn begins and the first thing it asks for:
/// whether the session exists.
pub open spec fn turn_start(session_id: u128, content: Seq<char>) -> (
    TurnStateModel,
    TurnActionModel,
) {
    (
        TurnStateModel::CheckingSession { session_id, content },
        TurnActionModel::FetchSession { session_id },
    )
}

/// What a turn does on an outcome: the state it goes to and what it asks
/// for next.
///
/// In order: the session is looked up, and a missing session fails the
/// turn before anything is written; the user's message is written; the
/// session and the history are read; the provider is called with the
/// session's material and the history in the provider's turns; the reply
/// is written as the assistant's message; both stored messages are handed
/// out. A failed step fails the turn with the error of its kind, and what
/// was written before stays. An outcome that was not asked for fails the
/// turn as well.
pub open spec fn turn_step(state: TurnStateModel, event: TurnEventModel) -> (
    TurnStateModel,
    TurnActionModel,
) {
    match (state, event) {
        (
            TurnStateModel::CheckingSession { session_id, content },
            TurnEventModel::SessionFetched(lookup),
        ) => match lookup {
            SessionLookupModel::Found(_) => (
                TurnStateModel::StoringUserMessage { session_id },
                TurnActionModel::StoreMessage {
                    session_id,
                    message: CreateMessageModel { role: MessageRole::User, content },
                },
            ),
            SessionLookupModel::Missing => failed(TurnError::SessionNotFound),
            SessionLookupModel::Failed => failed(TurnError::StoreReadFailed),
        },
        (
            TurnStateModel::StoringUserMessage { session_id },
            TurnEventModel::MessageStored(stored),
        ) => match stored {
            Some(user_message) => (
                TurnStateModel::LoadingSession { session_id, user_message },
                TurnActionModel::FetchSession { session_id },
            ),
            None => failed(TurnError::StoreWriteFailed),
        },
        (
            TurnStateModel::LoadingSession { session_id, user_message },
            TurnEventModel::SessionFetched(lookup),
        ) => match lookup {
            SessionLookupModel::Found(session) => (
                TurnStateModel::LoadingHistory {
                    session_id,
                    user_message,
                    material_text: session.material_text,
                },
                TurnActionModel::LoadHistory { session_id },
            ),
            SessionLookupModel::Missing => failed(TurnError::SessionNotFound),
            SessionLookupModel::Failed => failed(TurnError::StoreReadFailed),
        },
        (
            TurnStateModel::LoadingHistory { session_id, user_message, material_text },
            TurnEventModel::HistoryLoaded(history),
        ) => match history {
            Some(messages) => (
                TurnStateModel::AwaitingReply { session_id, user_message },
                TurnActionModel::CallModel {
                    request: request_turns(material_text, gateway_turns(messages)),
                },
            ),
            None => failed(TurnError::StoreReadFailed),
        },
        (
            TurnStateModel::AwaitingReply { session_id, user_message },
            TurnEventModel::ModelAnswered(answer),
        ) => match generated(answer) {
            Ok(reply) => (
                TurnStateModel::StoringReply { user_message },
                TurnActionModel::StoreMessage {
                    session_id,
                    message: CreateMessageModel { role: MessageRole::Assistant, content: reply },
                },
            ),
            Err(_) => failed(TurnError::GatewayCallFailed),
        },
        (TurnStateModel::StoringReply { user_message }, TurnEventModel::MessageStored(stored)) => {
            match stored {
                Some(assistant_message) => (
                    TurnStateModel::Finished,
                    TurnActionModel::Complete { user_message, assistant_message },
                ),
                None => failed(TurnError::StoreWriteFailed),
            }
        },
        _ => failed(TurnError::UnexpectedEvent),
    }
}

/// Ends a turn with an error.
fn fail(error: TurnError) -> (r: (TurnState, TurnAction))
    ensures
        r.deep_view() == failed(error),
{
    (TurnState::Finished, TurnAction::Fail { error })
}

/// Begins a turn for a user's utterance in a session. The content is taken
/// as it is, empty or not.
pub fn submit_turn(session_id: u128, content: String) -> (r: (TurnState, TurnAction))
    ensures
        r.deep_view() == turn_start(session_id, content@),
{
    (TurnState::CheckingSession { session_id, content }, TurnAction::FetchSession { session_id })
}

/// Takes the outcome of what was asked for last and names what to do next.
pub fn advance(state: TurnState, event: TurnEvent) -> (r: (TurnState, TurnAction))
    ensures
        r.deep_view() == turn_step(state.deep_view(), event.deep_view()),
{
    match state {
        TurnState::CheckingSession { session_id, content } => match event {
            TurnEvent::SessionFetched(SessionLookup::Found(_)) => (
                TurnState::StoringUserMessage { session_id },
                TurnAction::StoreMessage {
                    session_id,
                    message: CreateMessage { role: MessageRole::User, content },
                },
            ),
            TurnEvent::SessionFetched(SessionLookup::Missing) => fail(TurnError::SessionNotFound),
            TurnEvent::SessionFetched(SessionLookup::Failed) => fail(TurnError::StoreReadFailed),
            _ => fail(TurnError::UnexpectedEvent),
        },
        TurnState::StoringUserMessage { session_id } => match event {
            TurnEvent::MessageStored(Some(user_message)) => (
                TurnState::LoadingSession { session_id, user_message },
                TurnAction::FetchSession { session_id },
            ),
            TurnEvent::MessageStored(None) => fail(TurnError::StoreWriteFailed),
            _ => fail(TurnError::UnexpectedEvent),
        },
        TurnState::LoadingSession { session_id, user_message } => match event {
            TurnEvent::SessionFetched(SessionLookup::Found(session)) => (
                TurnState::LoadingHistory {
                    session_id,
                    user_message,
                    material_text: session.material_text,
                },
                TurnAction::LoadHistory { session_id },
            ),
            TurnEvent::SessionFetched(SessionLookup::Missing) => fail(TurnError::SessionNotFound),
            TurnEvent::SessionFetched(SessionLookup::Failed) => fail(TurnError::StoreReadFailed),
            _ => fail(TurnError::UnexpectedEvent),
        },
        TurnState::LoadingHistory { session_id, user_message, material_text } => match event {
            TurnEvent::HistoryLoaded(Some(messages)) => {
                let history = to_gateway_turns(messages);
                let request = build_request(material_text.as_str(), history);
                (
                    TurnState::AwaitingReply { session_id, user_message },
                    TurnAction::CallModel { request },
                )
            },
            TurnEvent::HistoryLoaded(None) => fail(TurnError::StoreReadFailed),
            _ => fail(TurnError::UnexpectedEvent),
        },
        TurnState::AwaitingReply { session_id, user_message } => match event {
            TurnEvent::ModelAnswered(answer) => match conclude(answer) {
                Ok(reply) => (
                    TurnState::StoringReply { user_message },
                    TurnAction::StoreMessage {
                        session_id,
                        message: CreateMessage { role: MessageRole::Assistant, content: reply },
                    },
                ),
                Err(_) => fail(TurnError::GatewayCallFailed),
            },
            _ => fail(TurnError::UnexpectedEvent),
        },
        TurnState::StoringReply { user_message } => match event {
            TurnEvent::MessageStored(Some(assistant_message)) => (
                TurnState::Finished,
                TurnAction::Complete { user_message, assistant_message },
            ),
            TurnEvent::MessageStored(None) => fail(TurnError::StoreWriteFailed),
            _ => fail(TurnError::UnexpectedEvent),
        },
        TurnState::Finished => fail(TurnError::UnexpectedEvent),
    }
}

/// The state of a turn for a session and an utterance after the first `k`
/// of the outcomes reported to it.
pub open spec fn turn_state_at(
    session_id: u128,
    content: Seq<char>,
    events: Seq<TurnEventModel>,
    k: nat,
) -> TurnStateModel
    recommends
        k <= events.len(),
    decreases k,
{
    if k == 0 {
        turn_start(session_id, content).0
    } else {
        turn_step(turn_state_at(session_id, content, events, (k - 1) as nat), events[k - 1]).0
    }
}

/// What a turn asks for on outcome `k` of those reported to it.
pub open spec fn turn_action_at(
    session_id: u128,
    content: Seq<char>,
    events: Seq<TurnEventModel>,
    k: nat,
) -> TurnActionModel
    recommends
        k < events.len(),
{
    turn_step(turn_state_at(session_id, content, events, k), events[k as int]).1
}

/// The session that a lookup found has this material.
pub open spec fn found_with_material(event: TurnEventModel, material_text: Seq<char>) -> bool {
    event matches TurnEventModel::SessionFetched(SessionLookupModel::Found(session))
        && session.material_text == material_text
}

/// A turn is a straight line: each state is reached after one fixed number
/// of outcomes only, each of them the success of the step before, and it
/// keeps what those outcomes brought.
pub proof fn lemma_turn_progress(
    session_id: u128,
    content: Seq<char>,
    events: Seq<TurnEventModel>,
    k: nat,
)
    requires
        k <= events.len(),
    ensures
        match turn_state_at(session_id, content, events, k) {
            TurnStateModel::CheckingSession { session_id: s, content: c } => {
                &&& k == 0
                &&& s == session_id
                &&& c == content
            },
            TurnStateModel::StoringUserMessage { session_id: s } => {
                &&& k == 1
                &&& s == session_id
                &&& events[0] matches TurnEventModel::SessionFetched(SessionLookupModel::Found(_))
            },
            TurnStateModel::LoadingSession { session_id: s, user_message } => {
                &&& k == 2
                &&& s == session_id
                &&& events[1] == TurnEventModel::MessageStored(Some(user_message))
            },
            TurnStateModel::LoadingHistory { session_id: s, user_message, material_text } => {
                &&& k == 3
                &&& s == session_id
                &&& events[1] == TurnEventModel::MessageStored(Some(user_message))
                &&& found_with_material(events[2], material_text)
            },
            TurnStateModel::AwaitingReply { session_id: s, user_message } => {
                &&& k == 4
                &&& s == session_id
                &&& events[1] == TurnEventModel::MessageStored(Some(user_message))
                &&& events[3] matches TurnEventModel::HistoryLoaded(Some(_))
            },
            TurnStateModel::StoringReply { user_message } => {
                &&& k == 5
                &&& events[1] == TurnEventModel::MessageStored(Some(user_message))
                &&& events[4] matches TurnEventModel::ModelAnswered(answer)
                &&& generated(answer) is Ok
            },
            TurnStateModel::Finished => k >= 1,
        },
    decreases k,
{
    if k > 0 {
        lemma_turn_progress(session_id, content, events, (k - 1) as nat);
    }
}

/// The writes of a turn. Whatever outcomes are reported, a turn asks for
/// at most two writes, both under its own session: the user's message with
/// the content as submitted, as the answer to a session that was found,
/// and the assistant's message with the provider's reply, after the user's
/// message was stored. There is at most one of each.
pub proof fn lemma_turn_writes(
    session_id: u128,
    content: Seq<char>,
    events: Seq<TurnEventModel>,
    k: nat,
)
    requires
        k < events.len(),
    ensures
        turn_action_at(session_id, content, events, k) matches TurnActionModel::StoreMessage {
            session_id: s,
            message,
        } ==> {
            &&& s == session_id
            &&& k == 0 || k == 4
            &&& k == 0 ==> message == (CreateMessageModel { role: MessageRole::User, content })
            &&& k == 4 ==> {
                &&& message.role == MessageRole::Assistant
                &&& events[1] matches TurnEventModel::MessageStored(Some(_))
                &&& events[4] matches TurnEventModel::ModelAnswered(answer)
                &&& generated(answer) == Ok::<Seq<char>, crate::handlers::ai::client::GatewayError>(
                    message.content,
                )
            }
        },
{
    lemma_turn_progress(session_id, content, events, k);
}

/// A turn for a session that does not exist fails with `SessionNotFound`
/// and asks for no write and no call of the provider, then or later.
pub proof fn lemma_missing_session_writes_nothing(
    session_id: u128,
    content: Seq<char>,
    events: Seq<TurnEventModel>,
    k: nat,
)
    requires
        k < events.len(),
        events[0] == TurnEventModel::SessionFetched(SessionLookupModel::Missing),
    ensures
        turn_action_at(session_id, content, events, 0) == (TurnActionModel::Fail {
            error: TurnError::SessionNotFound,
        }),
        !(turn_action_at(session_id, content, events, k) is StoreMessage),
        !(turn_action_at(session_id, content, events, k) is CallModel),
        k >= 1 ==> turn_action_at(session_id, content, events, k) == (TurnActionModel::Fail {
            error: TurnError::UnexpectedEvent,
        }),
{
    lemma_turn_progress(session_id, content, events, k);
    assert(turn_state_at(session_id, content, events, 0) == turn_start(session_id, content).0);
    if k >= 1 {
        lemma_turn_ends_once(session_id, content, events, 1, k);
        assert(turn_state_at(session_id, content, events, 1) == turn_step(
            turn_state_at(session_id, content, events, 0),
            events[0],
        ).0);
    }
}

/// A turn that has finished stays finished: every later outcome is
/// answered with `UnexpectedEvent`, and nothing more is asked for.
pub proof fn lemma_turn_ends_once(
    session_id: u128,
    content: Seq<char>,
    events: Seq<TurnEventModel>,
    j: nat,
    k: nat,
)
    requires
        j <= k < events.len(),
        turn_state_at(session_id, content, events, j) is Finished,
    ensures
        turn_state_at(session_id, content, events, k) is Finished,
        turn_action_at(session_id, content, events, k) == (TurnActionModel::Fail {
            error: TurnError::UnexpectedEvent,
        }),
    decreases k - j,
{
    if j < k {
        lemma_turn_ends_once(session_id, content, events, j, (k - 1) as nat);
    }
}

/// The order of a turn. The provider is called only once the user's
/// message is stored, with the session's material and the history as it
/// was read after that write; the turn completes only once the reply is
/// stored, and hands out the two messages as the store returned them.
pub proof fn lemma_turn_order(
    session_id: u128,
    content: Seq<char>,
    events: Seq<TurnEventModel>,
    k: nat,
)
    requires
        k < events.len(),
    ensures
        turn_action_at(session_id, content, events, k) matches TurnActionModel::CallModel {
            request,
        } ==> {
            &&& k == 3
            &&& events[1] matches TurnEventModel::MessageStored(Some(_))
            &&& events[2] matches TurnEventModel::SessionFetched(
                SessionLookupModel::Found(session),
            )
            &&& events[3] matches TurnEventModel::HistoryLoaded(Some(history))
            &&& request == request_turns(session.material_text, gateway_turns(history))
        },
        turn_action_at(session_id, content, events, k) matches TurnActionModel::Complete {
            user_message,
            assistant_message,
        } ==> {
            &&& k == 5
            &&& events[1] == TurnEventModel::MessageStored(Some(user_message))
            &&& events[5] == TurnEventModel::MessageStored(Some(assistant_message))
        },
{
    lemma_turn_progress(session_id, content, events, k);
}

/// A turn in which every step succeeds asks, in this order, for the
/// write of the user's message, the session, the history, the provider's
/// reply and the write of the assistant's message, and completes with the
/// two stored messages.
pub proof fn lemma_turn_success(
    session_id: u128,
    content: Seq<char>,
    checked: SessionModel,
    user_message: MessageModel,
    session: SessionModel,
    history: Seq<MessageModel>,
    answer: ModelAnswerModel,
    assistant_message: MessageModel,
)
    requires
        generated(answer) is Ok,
    ensures
        ({
            let events = seq![
                TurnEventModel::SessionFetched(SessionLookupModel::Found(checked)),
                TurnEventModel::MessageStored(Some(user_message)),
                TurnEventModel::SessionFetched(SessionLookupModel::Found(session)),
                TurnEventModel::HistoryLoaded(Some(history)),
                TurnEventModel::ModelAnswered(answer),
                TurnEventModel::MessageStored(Some(assistant_message)),
            ];
            &&& turn_action_at(session_id, content, events, 0) == (TurnActionModel::StoreMessage {
                session_id,
                message: CreateMessageModel { role: MessageRole::User, content },
            })
            &&& turn_action_at(session_id, content, events, 1) == (TurnActionModel::FetchSession {
                session_id,
            })
            &&& turn_action_at(session_id, content, events, 2) == (TurnActionModel::LoadHistory {
                session_id,
            })
            &&& turn_action_at(session_id, content, events, 3) == (TurnActionModel::CallModel {
                request: request_turns(session.material_text, gateway_turns(history)),
            })
            &&& turn_action_at(session_id, content, events, 4) == (TurnActionModel::StoreMessage {
                session_id,
                message: CreateMessageModel {
                    role: MessageRole::Assistant,
                    content: generated(answer)->Ok_0,
                },
            })
            &&& turn_action_at(session_id, content, events, 5) == (TurnActionModel::Complete {
                user_message,
                assistant_message,
            })
        }),
{
    let events = seq![
        TurnEventModel::SessionFetched(SessionLookupModel::Found(checked)),
        TurnEventModel::MessageStored(Some(user_message)),
        TurnEventModel::SessionFetched(SessionLookupModel::Found(session)),
        TurnEventModel::HistoryLoaded(Some(history)),
        TurnEventModel::ModelAnswered(answer),
        TurnEventModel::MessageStored(Some(assistant_message)),
    ];
    let s0 = turn_state_at(session_id, content, events, 0);
    let s1 = turn_state_at(session_id, content, events, 1);
    let s2 = turn_state_at(session_id, content, events, 2);
    let s3 = turn_state_at(session_id, content, events, 3);
    let s4 = turn_state_at(session_id, content, events, 4);
    let s5 = turn_state_at(session_id, content, events, 5);
    assert(s0 == turn_start(session_id, content).0);
    assert(s1 == turn_step(s0, events[0]).0);
    assert(s2 == turn_step(s1, events[1]).0);
    assert(s3 == turn_step(s2, events[2]).0);
    assert(s4 == turn_step(s3, events[3]).0);
    assert(s5 == turn_step(s4, events[4]).0);
}

} // verus!
