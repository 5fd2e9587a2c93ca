use aazan::clock::Timestamp;
use aazan::handlers::ai::client::{
    build_request, conclude, extract_text, reply_text, GatewayError, ModelAnswer,
};
use aazan::handlers::ai::model::{
    to_gateway_turns, Candidate, Content, ContentResponse, GeminiRequest, GeminiResponse, Part,
    PartResponse,
};
use aazan::handlers::ai::prompt::{
    fill_prompt, FALLBACK_REPLY, PROMPT_AFTER_MATERIAL, PROMPT_BEFORE_MATERIAL, READY_REPLY,
};
use aazan::models::message::{Message, MessageRole};

const TEMPLATE: &str = "You are Bodhi, an enthusiastic AI student learning from your teacher. Your goal is to understand the material deeply by asking questions, seeking clarification, and demonstrating your understanding.

Personality:
- Curious and eager to learn
- Admits when confused (never pretends to understand)
- Asks thoughtful follow-up questions
- Makes connections to related concepts
- Occasionally summarizes to confirm understanding
- Keep responses concise (2-4 sentences) and ask one question at a time.

Teaching Material:
---
{}
---

Start by expressing excitement about learning this topic and asking an opening question that shows you've read the material.";

fn message(role: MessageRole, content: &str, secs: i64) -> Message {
    Message {
        id: 1,
        session_id: 7,
        role,
        content: content.to_string(),
        timestamp: Timestamp { secs, nanos: 0 },
    }
}

fn turn(role: &str, text: &str) -> Content {
    Content { role: role.to_string(), parts: vec![Part { text: text.to_string() }] }
}

fn response_of(candidates: Vec<Vec<&str>>) -> GeminiResponse {
    GeminiResponse {
        candidates: candidates
            .into_iter()
            .map(|parts| Candidate {
                content: ContentResponse {
                    parts: parts
                        .into_iter()
                        .map(|text| PartResponse { text: text.to_string() })
                        .collect(),
                    _role: "model".to_string(),
                },
            })
            .collect(),
    }
}

#[test]
fn history_becomes_gateway_turns() {
    let history = vec![message(MessageRole::User, "a", 1), message(MessageRole::Assistant, "b", 2)];
    let turns = to_gateway_turns(history);
    assert_eq!(turns, vec![turn("user", "a"), turn("model", "b")]);
}

#[test]
fn empty_history_becomes_no_turns() {
    assert_eq!(to_gateway_turns(Vec::new()), Vec::<Content>::new());
}

#[test]
fn single_message_becomes_one_turn_of_one_part() {
    let turn_of = Content::from_message(message(MessageRole::Assistant, "", 3));
    assert_eq!(turn_of.role, "model");
    assert_eq!(turn_of.parts.len(), 1);
    assert_eq!(turn_of.parts[0].text, "");
}

#[test]
fn prompt_is_the_template_with_the_material() {
    assert_eq!(
        format!("{}{}{}", PROMPT_BEFORE_MATERIAL, "{}", PROMPT_AFTER_MATERIAL),
        TEMPLATE
    );
    assert_eq!(fill_prompt("Ohm's law: V = IR"), TEMPLATE.replace("{}", "Ohm's law: V = IR"));
    assert_eq!(fill_prompt(""), TEMPLATE.replace("{}", ""));
}

#[test]
fn material_with_braces_is_set_in_unchanged() {
    let filled = fill_prompt("a {} b");
    assert_eq!(filled, TEMPLATE.replacen("{}", "a {} b", 1));
    assert!(filled.contains("---\na {} b\n---"));
}

#[test]
fn request_opens_with_the_priming_turns() {
    let history = vec![turn("user", "hello"), turn("model", "hi"), turn("user", "more")];
    let request = build_request("lesson", history);
    assert_eq!(
        request,
        GeminiRequest {
            contents: vec![
                turn("user", &TEMPLATE.replace("{}", "lesson")),
                turn("model", "I'm ready to learn! Let's begin."),
                turn("user", "hello"),
                turn("model", "hi"),
                turn("user", "more"),
            ],
        }
    );
    assert_eq!(READY_REPLY, "I'm ready to learn! Let's begin.");
}

#[test]
fn request_without_history_is_the_priming_turns() {
    let request = build_request("x", Vec::new());
    assert_eq!(request.contents.len(), 2);
    assert_eq!(request.contents[0].role, "user");
    assert_eq!(request.contents[1].role, "model");
}

#[test]
fn zero_candidates_give_the_fallback_reply() {
    let response = response_of(vec![]);
    assert_eq!(extract_text(&response), None);
    assert_eq!(reply_text(&response), "I'm sorry, I'm not sure how to respond to that.");
    assert_eq!(FALLBACK_REPLY, "I'm sorry, I'm not sure how to respond to that.");
    assert_eq!(
        conclude(ModelAnswer::Response(response_of(vec![]))),
        Ok("I'm sorry, I'm not sure how to respond to that.".to_string())
    );
}

#[test]
fn candidate_without_parts_gives_the_fallback_reply() {
    let response = response_of(vec![vec![], vec!["second"]]);
    assert_eq!(extract_text(&response), None);
    assert_eq!(reply_text(&response), FALLBACK_REPLY);
}

#[test]
fn first_part_of_first_candidate_is_the_reply() {
    let response = response_of(vec![vec!["one", "two"], vec!["three"]]);
    assert_eq!(extract_text(&response), Some("one".to_string()));
    assert_eq!(reply_text(&response), "one");
    assert_eq!(conclude(ModelAnswer::Response(response)), Ok("one".to_string()));
}

#[test]
fn empty_text_is_a_reply_of_its_own() {
    let response = response_of(vec![vec![""]]);
    assert_eq!(extract_text(&response), Some(String::new()));
    assert_eq!(reply_text(&response), "");
}

#[test]
fn failed_call_is_an_error() {
    assert_eq!(conclude(ModelAnswer::TransportFailed), Err(GatewayError::Transport));
    assert_eq!(conclude(ModelAnswer::MalformedBody), Err(GatewayError::MalformedResponse));
}
