//! The enumerations inside JSON text: each is the JSON string of its token.

use kiro_enums::{ContentType, MessageStatus, ParseError, UserIntent};

fn token_of(json: &str) -> String {
    serde_json::from_str::<String>(json).unwrap()
}

#[test]
fn test_message_status_serialize() {
    assert_eq!(
        serde_json::to_string(MessageStatus::Completed.as_str()).unwrap(),
        "\"COMPLETED\""
    );
    assert_eq!(
        serde_json::to_string(MessageStatus::InProgress.as_str()).unwrap(),
        "\"IN_PROGRESS\""
    );
    assert_eq!(
        serde_json::to_string(MessageStatus::Error.as_str()).unwrap(),
        "\"ERROR\""
    );
}

#[test]
fn test_message_status_deserialize() {
    assert_eq!(
        MessageStatus::from_wire_string(&token_of("\"COMPLETED\"")).unwrap(),
        MessageStatus::Completed
    );
    assert_eq!(
        MessageStatus::from_wire_string(&token_of("\"IN_PROGRESS\"")).unwrap(),
        MessageStatus::InProgress
    );
}

#[test]
fn test_user_intent_serialize() {
    assert_eq!(
        serde_json::to_string(UserIntent::ExplainCodeSelection.as_str()).unwrap(),
        "\"EXPLAIN_CODE_SELECTION\""
    );
    assert_eq!(
        serde_json::to_string(UserIntent::ImproveCode.as_str()).unwrap(),
        "\"IMPROVE_CODE\""
    );
}

#[test]
fn test_content_type_serialize() {
    assert_eq!(
        serde_json::to_string(ContentType::Markdown.as_str()).unwrap(),
        "\"text/markdown\""
    );
    assert_eq!(
        serde_json::to_string(ContentType::Plain.as_str()).unwrap(),
        "\"text/plain\""
    );
    assert_eq!(
        serde_json::to_string(ContentType::Json.as_str()).unwrap(),
        "\"application/json\""
    );
}

#[test]
fn test_content_type_deserialize() {
    assert_eq!(
        ContentType::from_wire_string(&token_of("\"text/markdown\"")).unwrap(),
        ContentType::Markdown
    );
}

#[test]
fn escaped_json_text_decodes_to_the_token() {
    assert_eq!(
        ContentType::from_wire_string(&token_of("\"text\\/plain\"")),
        Ok(ContentType::Plain)
    );
    assert_eq!(
        MessageStatus::from_wire_string(&token_of("\"\\u0045RROR\"")),
        Ok(MessageStatus::Error)
    );
}

#[test]
fn unknown_json_token_is_an_error() {
    assert_eq!(
        MessageStatus::from_wire_string(&token_of("\"completed\"")),
        Err(ParseError {
            token: String::from("completed"),
        })
    );
    assert_eq!(
        UserIntent::from_wire_string(&token_of("\"\"")),
        Err(ParseError {
            token: String::new(),
        })
    );
}
