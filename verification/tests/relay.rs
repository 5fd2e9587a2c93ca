use aazan::clock::Timestamp;
use aazan::handlers::ai::client::GatewayError;
use aazan::handlers::ai::model::{Content, GeminiRequest, Part};
use aazan::handlers::ai::prompt::{fill_prompt, READY_REPLY};
use aazan::handlers::message_handlers::SessionLookup;
use aazan::handlers::stream_handlers::{
    open_stream, relay, PushEvent, RelayCommand, RelayEvent, RelayState, RelayStep,
    ERROR_EVENT, KEEP_ALIVE_SECONDS, KEEP_ALIVE_TEXT, STREAM_ERROR_TEXT,
};
use aazan::models::message::{Message, MessageRole};
use aazan::models::session::Session;

const S: u128 = 0x67e5504410b1426f9247bb680e5fe0c8;

fn session(material: &str) -> Session {
    Session {
        id: S,
        topic: "topic".to_string(),
        material_text: material.to_string(),
        status: "created".to_string(),
        created_at: Timestamp { secs: 1, nanos: 0 },
        updated_at: Timestamp { secs: 1, nanos: 0 },
        user_id: "temp_user".to_string(),
    }
}

fn message(role: MessageRole, content: &str, secs: i64) -> Message {
    Message {
        id: secs as u128,
        session_id: S,
        role,
        content: content.to_string(),
        timestamp: Timestamp { secs, nanos: 0 },
    }
}

fn turn_of(role: &str, text: &str) -> Content {
    Content { role: role.to_string(), parts: vec![Part { text: text.to_string() }] }
}

fn not_found() -> PushEvent {
    PushEvent {
        event: Some("error".to_string()),
        data: "Session with ID 67e55044-10b1-426f-9247-bb680e5fe0c8 not found.".to_string(),
    }
}

#[test]
fn stream_begins_with_the_lookup() {
    let (state, step) = open_stream(S);
    assert_eq!(state, RelayState::LookingUp { session_id: S });
    assert_eq!(
        step,
        RelayStep { emit: None, command: RelayCommand::FetchSession { session_id: S } }
    );
}

#[test]
fn missing_session_is_one_error_event_and_the_end() {
    let (state, _) = open_stream(S);
    let (state, step) = relay(state, RelayEvent::SessionFetched(SessionLookup::Missing));
    assert_eq!(state, RelayState::Closed);
    assert_eq!(step, RelayStep { emit: Some(not_found()), command: RelayCommand::Close });
    let (state, step) = relay(state, RelayEvent::Item(Ok("late".to_string())));
    assert_eq!(state, RelayState::Closed);
    assert_eq!(step, RelayStep { emit: None, command: RelayCommand::Close });
}

#[test]
fn failed_lookup_is_reported_as_not_found() {
    let (state, _) = open_stream(S);
    let (state, step) = relay(state, RelayEvent::SessionFetched(SessionLookup::Failed));
    assert_eq!(state, RelayState::Closed);
    assert_eq!(step.emit, Some(not_found()));
    assert_eq!(step.command, RelayCommand::Close);
}

#[test]
fn not_found_event_names_the_session() {
    assert_eq!(PushEvent::session_not_found(S), not_found());
    assert_eq!(
        PushEvent::session_not_found(0).data,
        "Session with ID 00000000-0000-0000-0000-000000000000 not found."
    );
    assert_eq!(
        PushEvent::session_not_found(u128::MAX).data,
        "Session with ID ffffffff-ffff-ffff-ffff-ffffffffffff not found."
    );
    assert_eq!(
        PushEvent::session_not_found(0x0123456789abcdef0123456789abcdef).data,
        "Session with ID 01234567-89ab-cdef-0123-456789abcdef not found."
    );
}

#[test]
fn found_session_opens_the_stream_with_material_and_history() {
    let (state, _) = open_stream(S);
    let (state, step) =
        relay(state, RelayEvent::SessionFetched(SessionLookup::Found(session("lesson"))));
    assert_eq!(
        state,
        RelayState::LoadingHistory { session_id: S, material_text: "lesson".to_string() }
    );
    assert_eq!(
        step,
        RelayStep { emit: None, command: RelayCommand::LoadHistory { session_id: S } }
    );
    let history =
        vec![message(MessageRole::User, "a", 1), message(MessageRole::Assistant, "b", 2)];
    let (state, step) = relay(state, RelayEvent::HistoryLoaded(Some(history)));
    assert_eq!(state, RelayState::Relaying);
    assert_eq!(step.emit, None);
    assert_eq!(
        step.command,
        RelayCommand::OpenStream {
            request: GeminiRequest {
                contents: vec![
                    turn_of("user", &fill_prompt("lesson")),
                    turn_of("model", READY_REPLY),
                    turn_of("user", "a"),
                    turn_of("model", "b"),
                ],
            },
        }
    );
}

#[test]
fn unread_history_is_one_error_event_and_the_end() {
    let (state, _) = open_stream(S);
    let (state, _) =
        relay(state, RelayEvent::SessionFetched(SessionLookup::Found(session("lesson"))));
    let (state, step) = relay(state, RelayEvent::HistoryLoaded(None));
    assert_eq!(state, RelayState::Closed);
    assert_eq!(
        step,
        RelayStep {
            emit: Some(PushEvent {
                event: Some("error".to_string()),
                data: "An error occurred during the stream.".to_string(),
            }),
            command: RelayCommand::Close,
        }
    );
    let (state, step) = relay(state, RelayEvent::Item(Ok("late".to_string())));
    assert_eq!(state, RelayState::Closed);
    assert_eq!(step, RelayStep { emit: None, command: RelayCommand::Close });
}

#[test]
fn empty_history_opens_the_stream_with_the_priming_turns() {
    let (state, _) = open_stream(S);
    let (state, _) =
        relay(state, RelayEvent::SessionFetched(SessionLookup::Found(session("lesson"))));
    let (state, step) = relay(state, RelayEvent::HistoryLoaded(Some(Vec::new())));
    assert_eq!(state, RelayState::Relaying);
    assert_eq!(step.emit, None);
    match step.command {
        RelayCommand::OpenStream { request } => assert_eq!(request.contents.len(), 2),
        other => panic!("asked for {:?}", other),
    }
}

fn relaying() -> RelayState {
    let (state, _) = open_stream(S);
    let (state, _) =
        relay(state, RelayEvent::SessionFetched(SessionLookup::Found(session("lesson"))));
    let (state, _) = relay(state, RelayEvent::HistoryLoaded(Some(Vec::new())));
    state
}

#[test]
fn fragments_are_pushed_as_plain_data() {
    let (state, step) = relay(relaying(), RelayEvent::Item(Ok("Hi".to_string())));
    assert_eq!(state, RelayState::Relaying);
    assert_eq!(
        step,
        RelayStep {
            emit: Some(PushEvent { event: None, data: "Hi".to_string() }),
            command: RelayCommand::AwaitItem,
        }
    );
    let (state, step) = relay(state, RelayEvent::Item(Ok(" there".to_string())));
    assert_eq!(state, RelayState::Relaying);
    assert_eq!(step.emit, Some(PushEvent::data(" there".to_string())));
}

#[test]
fn failed_element_is_an_error_event_and_the_relay_goes_on() {
    let (state, step) = relay(relaying(), RelayEvent::Item(Err(GatewayError::Transport)));
    assert_eq!(state, RelayState::Relaying);
    assert_eq!(
        step,
        RelayStep {
            emit: Some(PushEvent {
                event: Some("error".to_string()),
                data: "An error occurred during the stream.".to_string(),
            }),
            command: RelayCommand::AwaitItem,
        }
    );
    let (state, step) = relay(state, RelayEvent::StreamEnded);
    assert_eq!(state, RelayState::Closed);
    assert_eq!(step, RelayStep { emit: None, command: RelayCommand::Close });
}

#[test]
fn end_of_the_stream_closes_the_relay() {
    let (state, step) = relay(relaying(), RelayEvent::StreamEnded);
    assert_eq!(state, RelayState::Closed);
    assert_eq!(step, RelayStep { emit: None, command: RelayCommand::Close });
}

#[test]
fn outcome_that_was_not_asked_for_closes_silently() {
    let (state, _) = open_stream(S);
    let (state, step) = relay(state, RelayEvent::StreamEnded);
    assert_eq!(state, RelayState::Closed);
    assert_eq!(step, RelayStep { emit: None, command: RelayCommand::Close });
}

#[test]
fn keep_alive_is_a_fixed_comment_every_ten_seconds() {
    assert_eq!(KEEP_ALIVE_SECONDS, 10);
    assert_eq!(KEEP_ALIVE_TEXT, "keep-alive-text");
    assert_eq!(ERROR_EVENT, "error");
    assert_eq!(STREAM_ERROR_TEXT, "An error occurred during the stream.");
}
