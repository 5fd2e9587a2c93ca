use aazan::clock::Timestamp;
use aazan::database::messages::{message_row, messages_from_rows, new_message_row, MessageRow};
use aazan::database::sessions::{
    new_session_row, session_row, sessions_from_rows, SessionRow, NEW_SESSION_STATUS,
    PLACEHOLDER_USER,
};
use aazan::models::message::{CreateMessage, Message, MessageRole, RowError};
use aazan::models::session::{CreateSession, Session, SessionRowError};

const ID: &str = "67e55044-10b1-426f-9247-bb680e5fe0c8";
const ID_VALUE: u128 = 0x67e5504410b1426f9247bb680e5fe0c8;
const SESSION: &str = "a1a2a3a4-b1b2-c1c2-d1d2-d3d4d5d6d7d8";
const SESSION_VALUE: u128 = 0xa1a2a3a4b1b2c1c2d1d2d3d4d5d6d7d8;
const NOON: &str = "2024-01-02T03:04:05+00:00";
const NOON_SECS: i64 = 1_704_164_645;

fn row(id: &str, session_id: &str, role: &str, content: &str, timestamp: &str) -> MessageRow {
    MessageRow {
        id: Some(id.to_string()),
        session_id: session_id.to_string(),
        role: role.to_string(),
        content: content.to_string(),
        timestamp: timestamp.to_string(),
    }
}

fn read(id: &str, session_id: &str, role: &str, timestamp: &str) -> Result<Message, RowError> {
    Message::from_query_row(
        Some(id.to_string()),
        session_id.to_string(),
        role.to_string(),
        "content".to_string(),
        timestamp.to_string(),
    )
}

#[test]
fn row_is_read_as_a_message() {
    let message = Message::from_query_row(
        Some(ID.to_string()),
        SESSION.to_string(),
        "User".to_string(),
        "hello".to_string(),
        NOON.to_string(),
    )
    .expect("a message");
    assert_eq!(
        message,
        Message {
            id: ID_VALUE,
            session_id: SESSION_VALUE,
            role: MessageRole::User,
            content: "hello".to_string(),
            timestamp: Timestamp { secs: NOON_SECS, nanos: 0 },
        }
    );
}

#[test]
fn identifiers_are_read_in_every_form() {
    let simple = read("67e5504410b1426f9247bb680e5fe0c8", SESSION, "User", NOON).expect("simple");
    let urn = read("urn:uuid:67e55044-10b1-426f-9247-bb680e5fe0c8", SESSION, "User", NOON)
        .expect("urn");
    let braced =
        read("{67e55044-10b1-426f-9247-bb680e5fe0c8}", SESSION, "User", NOON).expect("braced");
    let upper = read("67E55044-10B1-426F-9247-BB680E5FE0C8", SESSION, "User", NOON).expect("upper");
    assert_eq!(simple.id, ID_VALUE);
    assert_eq!(urn.id, ID_VALUE);
    assert_eq!(braced.id, ID_VALUE);
    assert_eq!(upper.id, ID_VALUE);
}

#[test]
fn times_are_read_with_fraction_and_offset() {
    let with_fraction = read(ID, SESSION, "Assistant", "2024-01-02T03:04:05.5Z").expect("fraction");
    assert_eq!(with_fraction.timestamp, Timestamp { secs: NOON_SECS, nanos: 500_000_000 });
    let nanos = read(ID, SESSION, "Assistant", "2024-01-02T03:04:05.000000001+00:00")
        .expect("nanoseconds");
    assert_eq!(nanos.timestamp, Timestamp { secs: NOON_SECS, nanos: 1 });
    let east = read(ID, SESSION, "Assistant", "2024-01-02T05:04:05+02:00").expect("offset");
    assert_eq!(east.timestamp, Timestamp { secs: NOON_SECS, nanos: 0 });
    let spaced = read(ID, SESSION, "Assistant", "2024-01-02 03:04:05Z").expect("space");
    assert_eq!(spaced.timestamp, Timestamp { secs: NOON_SECS, nanos: 0 });
    let epoch = read(ID, SESSION, "Assistant", "1970-01-01T00:00:00Z").expect("epoch");
    assert_eq!(epoch.timestamp, Timestamp { secs: 0, nanos: 0 });
    let before = read(ID, SESSION, "Assistant", "1969-12-31T23:59:59.25Z").expect("before");
    assert_eq!(before.timestamp, Timestamp { secs: -1, nanos: 250_000_000 });
}

#[test]
fn first_unreadable_column_is_the_error() {
    assert!(matches!(read("nope", "nope", "nope", "nope"), Err(RowError::Id(_))));
    assert!(matches!(read(ID, "nope", "nope", "nope"), Err(RowError::SessionId(_))));
    match read(ID, SESSION, "nope", "nope") {
        Err(RowError::Role(text)) => assert_eq!(text, "Invalid MessageRole: nope"),
        other => panic!("read {:?}", other),
    }
    assert!(matches!(read(ID, SESSION, "user", NOON), Err(RowError::Role(_))));
    assert!(matches!(read(ID, SESSION, "User", "nope"), Err(RowError::Timestamp(_))));
    assert!(matches!(read(ID, SESSION, "User", "2024-01-02"), Err(RowError::Timestamp(_))));
    assert!(matches!(read("", SESSION, "User", NOON), Err(RowError::Id(_))));
}

#[test]
fn readings_are_put_together_in_the_order_of_the_columns() {
    let bad_id = "x".parse::<uuid::Uuid>().map(|id| id.as_u128());
    let bad_time = "x".parse::<chrono::DateTime<chrono::Utc>>().map(|_| Timestamp { secs: 0, nanos: 0 });
    assert!(matches!(
        Message::from_readings(
            Ok(1),
            bad_id.clone(),
            Err("bad role".to_string()),
            "c".to_string(),
            bad_time
        ),
        Err(RowError::SessionId(_))
    ));
    assert_eq!(
        Message::from_readings(
            Ok(1),
            Ok(2),
            Ok(MessageRole::Assistant),
            "c".to_string(),
            Ok(Timestamp { secs: 3, nanos: 4 })
        )
        .expect("a message"),
        Message {
            id: 1,
            session_id: 2,
            role: MessageRole::Assistant,
            content: "c".to_string(),
            timestamp: Timestamp { secs: 3, nanos: 4 },
        }
    );
}

#[test]
fn rows_are_read_in_their_order() {
    let rows = vec![
        row(ID, SESSION, "User", "one", "2024-01-02T03:04:05+00:00"),
        row(SESSION, SESSION, "Assistant", "two", "2024-01-02T03:04:06+00:00"),
        row(ID, SESSION, "User", "three", "2024-01-02T03:04:06.5+00:00"),
    ];
    let messages = messages_from_rows(rows).expect("messages");
    let contents: Vec<&str> = messages.iter().map(|m| m.content.as_str()).collect();
    assert_eq!(contents, vec!["one", "two", "three"]);
    assert!(messages
        .windows(2)
        .all(|pair| pair[0].timestamp.is_at_or_before(&pair[1].timestamp)));
    assert_eq!(messages[1].id, SESSION_VALUE);
}

#[test]
fn same_rows_are_read_as_the_same_messages() {
    let rows = || {
        vec![
            row(ID, SESSION, "User", "one", "2024-01-02T03:04:05+00:00"),
            row(SESSION, SESSION, "Assistant", "two", "2024-01-02T03:04:06+00:00"),
        ]
    };
    assert_eq!(messages_from_rows(rows()).expect("first"), messages_from_rows(rows()).expect("second"));
}

#[test]
fn no_rows_are_no_messages() {
    assert_eq!(messages_from_rows(Vec::new()).expect("messages"), Vec::<Message>::new());
}

#[test]
fn first_row_that_is_no_message_fails_the_reading() {
    let rows = vec![
        row(ID, SESSION, "User", "one", NOON),
        row(ID, SESSION, "Student", "two", NOON),
        row("nope", SESSION, "User", "three", NOON),
    ];
    match messages_from_rows(rows) {
        Err(RowError::Role(text)) => assert_eq!(text, "Invalid MessageRole: Student"),
        other => panic!("read {:?}", other),
    }
}

#[test]
fn new_message_is_written_as_a_row() {
    let new_message = CreateMessage { role: MessageRole::Assistant, content: "reply".to_string() };
    let written = message_row(ID_VALUE, SESSION_VALUE, new_message, NOON.to_string());
    assert_eq!(written, row(ID, SESSION, "Assistant", "reply", NOON));
    let user = CreateMessage { role: MessageRole::User, content: String::new() };
    assert_eq!(message_row(0, u128::MAX, user, String::new()).role, "User");
}

#[test]
fn written_row_is_read_back() {
    let new_message = CreateMessage { role: MessageRole::User, content: "hello".to_string() };
    let written = message_row(ID_VALUE, SESSION_VALUE, new_message, NOON.to_string());
    let message = Message::from_row(written).expect("a message");
    assert_eq!(message.id, ID_VALUE);
    assert_eq!(message.session_id, SESSION_VALUE);
    assert_eq!(message.role, MessageRole::User);
    assert_eq!(message.content, "hello");
    assert_eq!(message.timestamp, Timestamp { secs: NOON_SECS, nanos: 0 });
}

#[test]
fn fresh_rows_are_messages_of_their_session() {
    let first = new_message_row(
        SESSION_VALUE,
        CreateMessage { role: MessageRole::User, content: "hello".to_string() },
    );
    let second = new_message_row(
        SESSION_VALUE,
        CreateMessage { role: MessageRole::Assistant, content: "hi".to_string() },
    );
    assert_eq!(first.session_id, SESSION);
    assert_eq!(first.role, "User");
    assert_eq!(first.content, "hello");
    assert_ne!(first.id, second.id);
    let first = Message::from_row(first).expect("a message");
    let second = Message::from_row(second).expect("a message");
    assert_eq!(first.session_id, SESSION_VALUE);
    assert_eq!(second.role, MessageRole::Assistant);
    assert!(first.timestamp.is_at_or_before(&second.timestamp));
    assert!(first.timestamp.secs > NOON_SECS);
}

fn session_columns(id: &str, created_at: &str, updated_at: &str) -> Result<Session, SessionRowError> {
    Session::from_strings(
        id.to_string(),
        "topic".to_string(),
        "material".to_string(),
        "created".to_string(),
        created_at.to_string(),
        updated_at.to_string(),
        "temp_user".to_string(),
    )
}

#[test]
fn columns_are_read_as_a_session() {
    let session = session_columns(ID, NOON, "2024-01-02T03:04:06.5+00:00").expect("a session");
    assert_eq!(
        session,
        Session {
            id: ID_VALUE,
            topic: "topic".to_string(),
            material_text: "material".to_string(),
            status: "created".to_string(),
            created_at: Timestamp { secs: NOON_SECS, nanos: 0 },
            updated_at: Timestamp { secs: NOON_SECS + 1, nanos: 500_000_000 },
            user_id: "temp_user".to_string(),
        }
    );
    assert!(session.times_in_order());
}

#[test]
fn session_updated_before_its_creation_is_out_of_order() {
    let session = session_columns(ID, "2024-01-02T03:04:06Z", NOON).expect("a session");
    assert!(!session.times_in_order());
}

#[test]
fn first_unreadable_column_of_a_session_is_the_error() {
    assert!(matches!(session_columns("nope", "nope", "nope"), Err(SessionRowError::Id(_))));
    assert!(matches!(session_columns(ID, "nope", "nope"), Err(SessionRowError::CreatedAt(_))));
    assert!(matches!(session_columns(ID, NOON, "nope"), Err(SessionRowError::UpdatedAt(_))));
}

#[test]
fn new_session_is_written_as_a_row() {
    let new_session =
        CreateSession { topic: "Rust".to_string(), material_text: "Ownership".to_string() };
    let written = session_row(ID_VALUE, new_session, NOON.to_string());
    assert_eq!(
        written,
        SessionRow {
            id: ID.to_string(),
            topic: "Rust".to_string(),
            material_text: "Ownership".to_string(),
            status: "created".to_string(),
            created_at: NOON.to_string(),
            updated_at: NOON.to_string(),
            user_id: Some("temp_user".to_string()),
        }
    );
    assert_eq!(NEW_SESSION_STATUS, "created");
    assert_eq!(PLACEHOLDER_USER, "temp_user");
    let session = Session::from_row(written).expect("a session");
    assert_eq!(session.id, ID_VALUE);
    assert_eq!(session.created_at, session.updated_at);
    assert!(session.times_in_order());
}

#[test]
fn fresh_session_row_is_read_back() {
    let new_session =
        CreateSession { topic: "Rust".to_string(), material_text: "Ownership".to_string() };
    let written = new_session_row(new_session);
    assert_eq!(written.created_at, written.updated_at);
    assert_eq!(written.id.len(), 36);
    let session = Session::from_row(written).expect("a session");
    assert_eq!(session.topic, "Rust");
    assert_eq!(session.material_text, "Ownership");
    assert!(session.times_in_order());
}

#[test]
fn session_rows_are_read_in_their_order() {
    let rows = vec![
        SessionRow {
            id: ID.to_string(),
            topic: "first".to_string(),
            material_text: String::new(),
            status: "created".to_string(),
            created_at: NOON.to_string(),
            updated_at: NOON.to_string(),
            user_id: Some("temp_user".to_string()),
        },
        SessionRow {
            id: SESSION.to_string(),
            topic: "second".to_string(),
            material_text: String::new(),
            status: "created".to_string(),
            created_at: NOON.to_string(),
            updated_at: NOON.to_string(),
            user_id: Some("someone".to_string()),
        },
    ];
    let sessions = sessions_from_rows(rows).expect("sessions");
    assert_eq!(sessions.len(), 2);
    assert_eq!(sessions[0].topic, "first");
    assert_eq!(sessions[1].id, SESSION_VALUE);
    assert_eq!(sessions[1].user_id, "someone");
}

#[test]
fn session_row_that_is_no_session_fails_the_reading() {
    let rows = vec![SessionRow {
        id: ID.to_string(),
        topic: "first".to_string(),
        material_text: String::new(),
        status: "created".to_string(),
        created_at: "yesterday".to_string(),
        updated_at: NOON.to_string(),
        user_id: Some("temp_user".to_string()),
    }];
    assert!(matches!(sessions_from_rows(rows), Err(SessionRowError::CreatedAt(_))));
}

#[test]
fn instants_are_ordered_by_seconds_then_nanoseconds() {
    let early = Timestamp { secs: 5, nanos: 999_999_999 };
    let late = Timestamp { secs: 6, nanos: 0 };
    let leap = Timestamp { secs: 5, nanos: 1_500_000_000 };
    assert!(early.is_at_or_before(&late));
    assert!(!late.is_at_or_before(&early));
    assert!(early.is_at_or_before(&early));
    assert!(early.is_at_or_before(&leap));
    assert!(leap.is_at_or_before(&late));
    assert!(Timestamp { secs: -1, nanos: 0 }.is_at_or_before(&Timestamp { secs: 0, nanos: 0 }));
}

#[test]
fn fresh_identifiers_are_marked_as_random() {
    for _ in 0..16 {
        let row = new_message_row(
            SESSION_VALUE,
            CreateMessage { role: MessageRole::User, content: "hello".to_string() },
        );
        let id = row.id.clone().expect("an identifier");
        assert_eq!(id.len(), 36);
        assert_eq!(&id[14..15], "4");
        assert!(["8", "9", "a", "b"].contains(&&id[19..20]));
        let message = Message::from_row(row).expect("a message");
        assert_eq!(
            message.id & 0xF000_C000_0000_0000_0000,
            0x4000_8000_0000_0000_0000
        );
        assert_eq!(message.session_id, SESSION_VALUE);
        assert_eq!(message.role, MessageRole::User);
        assert_eq!(message.content, "hello");
    }
    let session = new_session_row(CreateSession {
        topic: "Rust".to_string(),
        material_text: "Ownership".to_string(),
    });
    assert_eq!(&session.id[14..15], "4");
    let session = Session::from_row(session).expect("a session");
    assert_eq!(session.id & 0xF000_C000_0000_0000_0000, 0x4000_8000_0000_0000_0000);
    assert_eq!(session.status, "created");
    assert_eq!(session.user_id, "temp_user");
    assert_eq!(session.created_at, session.updated_at);
}

#[test]
fn row_with_an_unreadable_time_is_read_back_as_its_fault() {
    let written = message_row(
        ID_VALUE,
        SESSION_VALUE,
        CreateMessage { role: MessageRole::User, content: "hello".to_string() },
        "now".to_string(),
    );
    assert!(matches!(Message::from_row(written), Err(RowError::Timestamp(_))));
    let written = session_row(
        ID_VALUE,
        CreateSession { topic: "Rust".to_string(), material_text: "Ownership".to_string() },
        "now".to_string(),
    );
    assert!(matches!(Session::from_row(written), Err(SessionRowError::CreatedAt(_))));
}
