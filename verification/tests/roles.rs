use aazan::handlers::ai::model::gateway_role;
use aazan::models::message::MessageRole;

#[test]
fn stored_names_are_read_back() {
    assert_eq!(MessageRole::from_str("User"), Ok(MessageRole::User));
    assert_eq!(MessageRole::from_str("Assistant"), Ok(MessageRole::Assistant));
    assert_eq!(MessageRole::from_str(MessageRole::User.as_stored()), Ok(MessageRole::User));
    assert_eq!(
        MessageRole::from_str(MessageRole::Assistant.as_stored()),
        Ok(MessageRole::Assistant)
    );
}

#[test]
fn unknown_role_is_refused_with_its_word() {
    assert_eq!(
        MessageRole::from_str("user"),
        Err("Invalid MessageRole: user".to_string())
    );
    assert_eq!(MessageRole::from_str(""), Err("Invalid MessageRole: ".to_string()));
}

#[test]
fn gateway_names_the_assistant_model() {
    assert_eq!(gateway_role(MessageRole::User), "user");
    assert_eq!(gateway_role(MessageRole::Assistant), "model");
}

#[test]
fn stored_names_are_parsed() {
    assert_eq!("User".parse::<MessageRole>(), Ok(MessageRole::User));
    assert_eq!("Assistant".parse::<MessageRole>(), Ok(MessageRole::Assistant));
    assert_eq!(
        "Teacher".parse::<MessageRole>(),
        Err("Invalid MessageRole: Teacher".to_string())
    );
}
